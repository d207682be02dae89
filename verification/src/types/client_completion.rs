//! Completing the argument of a prompt or a resource template.

use vstd::prelude::*;
use crate::error::SchemaError;
use crate::json::{
    avoids, collides, fields_wf, find, get, lemma_object_view, lemma_without_members, same_text,
    without, Fields, Json, JsonView,
};
use crate::record::{
    field, group_record, group_writer, lemma_member_at, lemma_written_record, member, members_ok,
    no_members, opt_field, opt_member, present, read_field, read_opt_field, repeats, rest,
    valid_opt, with, write_field, write_opt_field, write_rest, JsonObject, Layout, Members,
    Record,
};
use crate::types::prompts::Prompt;
use crate::types::resources::Resource;
use crate::wire::{Wire, WireSound};

verus! {

/// What is being completed: a resource, named by its URI or URI template,
/// or a prompt, named by its name. The member `type` says which:
/// `ref/resource` or `ref/prompt`.
#[derive(Debug, Clone)]
pub enum ReferenceType {
    Resource { uri: String },
    Prompt { name: String },
}

/// [`ReferenceType`] as specifications see it.
pub enum ReferenceTypeView {
    Resource { uri: Seq<char> },
    Prompt { name: Seq<char> },
}

impl DeepView for ReferenceType {
    type V = ReferenceTypeView;

    open spec fn deep_view(&self) -> ReferenceTypeView {
        match self {
            ReferenceType::Resource { uri } => ReferenceTypeView::Resource { uri: uri@ },
            ReferenceType::Prompt { name } => ReferenceTypeView::Prompt { name: name@ },
        }
    }
}

impl ReferenceType {
    /// The declared fields of `v`, each with what is written for it.
    pub open spec fn members(v: ReferenceTypeView) -> Members {
        match v {
            ReferenceTypeView::Resource { uri } => Seq::empty()
                .push(member::<String>("type"@, "ref/resource"@))
                .push(member::<String>("uri"@, uri)),
            ReferenceTypeView::Prompt { name } => Seq::empty()
                .push(member::<String>("type"@, "ref/prompt"@))
                .push(member::<String>("name"@, name)),
        }
    }
}

impl Wire for ReferenceType {
    open spec fn valid(v: ReferenceTypeView) -> bool {
        true
    }

    open spec fn encode(v: ReferenceTypeView) -> JsonView {
        JsonView::Object(present(Self::members(v)))
    }

    /// The variant that the member `type` names, with its one field; other
    /// members are passed over.
    open spec fn decode(j: JsonView) -> Result<ReferenceTypeView, SchemaError> {
        match j {
            JsonView::Object(o) => match get(o, "type"@) {
                Some(JsonView::String(t)) => {
                    if t == "ref/resource"@ {
                        match field::<String>(o, "uri"@) {
                            Ok(uri) => Ok(ReferenceTypeView::Resource { uri }),
                            Err(e) => Err(e),
                        }
                    } else if t == "ref/prompt"@ {
                        match field::<String>(o, "name"@) {
                            Ok(name) => Ok(ReferenceTypeView::Prompt { name }),
                            Err(e) => Err(e),
                        }
                    } else {
                        Err(SchemaError::ParamsShapeMismatch)
                    }
                },
                _ => Err(SchemaError::ParamsShapeMismatch),
            },
            _ => Err(SchemaError::ParamsShapeMismatch),
        }
    }

    fn to_json(&self) -> (j: Json) {
        let mut out = no_members();
        match self {
            ReferenceType::Resource { uri } => {
                write_field::<String>(&mut out, "type", &"ref/resource".to_owned());
                write_field::<String>(&mut out, "uri", uri);
            },
            ReferenceType::Prompt { name } => {
                write_field::<String>(&mut out, "type", &"ref/prompt".to_owned());
                write_field::<String>(&mut out, "name", name);
            },
        }
        proof {
            broadcast use group_writer;

            lemma_object_view(out);
        }
        Json::Object(out)
    }

    fn from_json(j: &Json) -> (r: Result<ReferenceType, SchemaError>) {
        match j {
            Json::Object(entries) => {
                proof {
                    lemma_object_view(*entries);
                }
                match find(entries, "type") {
                    Some(Json::String(t)) => {
                        if same_text(t.as_str(), "ref/resource") {
                            let uri = read_field::<String>(entries, "uri")?;
                            Ok(ReferenceType::Resource { uri })
                        } else if same_text(t.as_str(), "ref/prompt") {
                            let name = read_field::<String>(entries, "name")?;
                            Ok(ReferenceType::Prompt { name })
                        } else {
                            Err(SchemaError::ParamsShapeMismatch)
                        }
                    },
                    _ => Err(SchemaError::ParamsShapeMismatch),
                }
            },
            _ => Err(SchemaError::ParamsShapeMismatch),
        }
    }

    proof fn lemma_round_trip(v: ReferenceTypeView) {
        broadcast use group_record;

        reveal_strlit("type");
        reveal_strlit("uri");
        reveal_strlit("name");
        reveal_strlit("ref/resource");
        reveal_strlit("ref/prompt");
        assert("type"@.len() == 4);
        assert("uri"@.len() == 3);
        assert("name"@.len() == 4);
        assert("type"@[0] == 't');
        assert("name"@[0] == 'n');
        assert("ref/resource"@.len() == 12);
        assert("ref/prompt"@.len() == 10);
        let names = set!["type"@, "uri"@, "name"@];
        lemma_written_record(Self::members(v), Seq::empty(), names);
        let o = present(Self::members(v));
        assert(o + Seq::empty() =~= o);
    }
}

impl WireSound for ReferenceType {
    proof fn lemma_decoded_valid(j: JsonView) {
    }
}

/// The argument that is being completed: its name and what was typed so far.
#[derive(Debug, Clone)]
pub struct CompleteArgument {
    pub name: String,
    pub value: String,
    pub extra: JsonObject,
}

/// [`CompleteArgument`] as specifications see it.
pub struct CompleteArgumentView {
    pub name: Seq<char>,
    pub value: Seq<char>,
    pub extra: Fields,
}

impl DeepView for CompleteArgument {
    type V = CompleteArgumentView;

    open spec fn deep_view(&self) -> CompleteArgumentView {
        CompleteArgumentView {
            name: self.name.deep_view(),
            value: self.value.deep_view(),
            extra: self.extra.deep_view(),
        }
    }
}

impl Record for CompleteArgument {
    open spec fn names() -> Set<Seq<char>> {
        set!["name"@, "value"@]
    }

    fn declares(key: &str) -> (b: bool) {
        same_text(key, "name") || same_text(key, "value")
    }
}

impl CompleteArgument {
    /// The declared fields of `v`, each with what is written for it.
    pub open spec fn members(v: CompleteArgumentView) -> Members {
        Seq::empty()
            .push(member::<String>("name"@, v.name))
            .push(member::<String>("value"@, v.value))
    }

    /// The object that stands for `v`: its declared fields, then its other
    /// members.
    #[verifier::opaque]
    pub open spec fn written(v: CompleteArgumentView) -> JsonView {
        JsonView::Object(present(Self::members(v)) + v.extra)
    }

    /// What `j` is read as: an object in which no declared name occurs twice
    /// and every declared field reads; the first field that does not read
    /// gives the error. The other members are kept.
    #[verifier::opaque]
    pub open spec fn read(j: JsonView) -> Result<CompleteArgumentView, SchemaError> {
        match j {
            JsonView::Object(o) => {
                let name = field::<String>(o, "name"@);
                let value = field::<String>(o, "value"@);
                if collides(o, Self::names()) {
                    Err(SchemaError::FieldCollision)
                } else if name is Err {
                    Err(name->Err_0)
                } else if value is Err {
                    Err(value->Err_0)
                } else {
                    Ok(
                        CompleteArgumentView {
                            name: name->Ok_0,
                            value: value->Ok_0,
                            extra: without(o, Self::names()),
                        },
                    )
                }
            },
            _ => Err(SchemaError::ParamsShapeMismatch),
        }
    }

    /// The declared fields of a valid value have names of their own and
    /// well-formed values.
    pub proof fn lemma_members(v: CompleteArgumentView)
        requires
            Self::valid(v),
        ensures
            members_ok(Self::members(v), Self::names()),
    {
        broadcast use group_record;

        reveal_strlit("name");
        reveal_strlit("value");
        assert("name"@.len() == 4);
        assert("value"@.len() == 5);
        String::lemma_round_trip(v.name);
        String::lemma_round_trip(v.value);
    }
}

impl Wire for CompleteArgument {
    open spec fn valid(v: CompleteArgumentView) -> bool {
        &&& String::valid(v.name)
        &&& String::valid(v.value)
        &&& fields_wf(v.extra)
        &&& avoids(v.extra, Self::names())
    }

    open spec fn encode(v: CompleteArgumentView) -> JsonView {
        Self::written(v)
    }

    open spec fn decode(j: JsonView) -> Result<CompleteArgumentView, SchemaError> {
        Self::read(j)
    }

    fn to_json(&self) -> (j: Json) {
        let mut out = no_members();
        write_field::<String>(&mut out, "name", &self.name);
        write_field::<String>(&mut out, "value", &self.value);
        write_rest(&mut out, &self.extra);
        proof {
            broadcast use group_writer;

            reveal(CompleteArgument::written);
            lemma_object_view(out);
        }
        Json::Object(out)
    }

    fn from_json(j: &Json) -> (r: Result<CompleteArgument, SchemaError>) {
        proof {
            reveal(CompleteArgument::read);
        }
        match j {
            Json::Object(entries) => {
                proof {
                    lemma_object_view(*entries);
                }
                if repeats::<CompleteArgument>(entries) {
                    return Err(SchemaError::FieldCollision);
                }
                let name = read_field::<String>(entries, "name")?;
                let value = read_field::<String>(entries, "value")?;
                Ok(CompleteArgument { name, value, extra: rest::<CompleteArgument>(entries) })
            },
            _ => Err(SchemaError::ParamsShapeMismatch),
        }
    }

    proof fn lemma_round_trip(v: CompleteArgumentView) {
        reveal(CompleteArgument::written);
        reveal(CompleteArgument::read);
        let m = Self::members(v);
        Self::lemma_members(v);
        lemma_written_record(m, v.extra, Self::names());
        lemma_member_at(m, Self::names(), 0);
        lemma_member_at(m, Self::names(), 1);
        String::lemma_round_trip(v.name);
        String::lemma_round_trip(v.value);
    }
}

impl WireSound for CompleteArgument {
    proof fn lemma_decoded_valid(j: JsonView) {
        broadcast use group_record;

        reveal(CompleteArgument::written);
        reveal(CompleteArgument::read);
        let o = j->Object_0;
        String::lemma_decoded_valid(get(o, "name"@)->Some_0);
        String::lemma_decoded_valid(get(o, "value"@)->Some_0);
        lemma_without_members(o, Self::names());
    }
}

impl Layout for CompleteArgument {
    open spec fn layout(v: CompleteArgumentView) -> Members {
        Self::members(v)
    }

    open spec fn others(v: CompleteArgumentView) -> Fields {
        v.extra
    }

    proof fn lemma_layout(v: CompleteArgumentView) {
        reveal(CompleteArgument::written);
        Self::lemma_members(v);
    }
}

/// The parameters of `completion/complete`.
#[derive(Debug, Clone)]
pub struct CompleteParams {
    pub reference: ReferenceType,
    pub argument: CompleteArgument,
    pub extra: JsonObject,
}

/// [`CompleteParams`] as specifications see it.
pub struct CompleteParamsView {
    pub reference: ReferenceTypeView,
    pub argument: CompleteArgumentView,
    pub extra: Fields,
}

impl DeepView for CompleteParams {
    type V = CompleteParamsView;

    open spec fn deep_view(&self) -> CompleteParamsView {
        CompleteParamsView {
            reference: self.reference.deep_view(),
            argument: self.argument.deep_view(),
            extra: self.extra.deep_view(),
        }
    }
}

impl Record for CompleteParams {
    open spec fn names() -> Set<Seq<char>> {
        set!["ref"@, "argument"@]
    }

    fn declares(key: &str) -> (b: bool) {
        same_text(key, "ref") || same_text(key, "argument")
    }
}

impl CompleteParams {
    /// The declared fields of `v`, each with what is written for it.
    pub open spec fn members(v: CompleteParamsView) -> Members {
        Seq::empty()
            .push(member::<ReferenceType>("ref"@, v.reference))
            .push(member::<CompleteArgument>("argument"@, v.argument))
    }

    /// The object that stands for `v`: its declared fields, then its other
    /// members.
    #[verifier::opaque]
    pub open spec fn written(v: CompleteParamsView) -> JsonView {
        JsonView::Object(present(Self::members(v)) + v.extra)
    }

    /// What `j` is read as: an object in which no declared name occurs twice
    /// and every declared field reads; the first field that does not read
    /// gives the error. The other members are kept.
    #[verifier::opaque]
    pub open spec fn read(j: JsonView) -> Result<CompleteParamsView, SchemaError> {
        match j {
            JsonView::Object(o) => {
                let reference = field::<ReferenceType>(o, "ref"@);
                let argument = field::<CompleteArgument>(o, "argument"@);
                if collides(o, Self::names()) {
                    Err(SchemaError::FieldCollision)
                } else if reference is Err {
                    Err(reference->Err_0)
                } else if argument is Err {
                    Err(argument->Err_0)
                } else {
                    Ok(
                        CompleteParamsView {
                            reference: reference->Ok_0,
                            argument: argument->Ok_0,
                            extra: without(o, Self::names()),
                        },
                    )
                }
            },
            _ => Err(SchemaError::ParamsShapeMismatch),
        }
    }

    /// The declared fields of a valid value have names of their own and
    /// well-formed values.
    pub proof fn lemma_members(v: CompleteParamsView)
        requires
            Self::valid(v),
        ensures
            members_ok(Self::members(v), Self::names()),
    {
        broadcast use group_record;

        reveal_strlit("ref");
        reveal_strlit("argument");
        assert("ref"@.len() == 3);
        assert("argument"@.len() == 8);
        ReferenceType::lemma_round_trip(v.reference);
        CompleteArgument::lemma_round_trip(v.argument);
    }
}

impl Wire for CompleteParams {
    open spec fn valid(v: CompleteParamsView) -> bool {
        &&& ReferenceType::valid(v.reference)
        &&& CompleteArgument::valid(v.argument)
        &&& fields_wf(v.extra)
        &&& avoids(v.extra, Self::names())
    }

    open spec fn encode(v: CompleteParamsView) -> JsonView {
        Self::written(v)
    }

    open spec fn decode(j: JsonView) -> Result<CompleteParamsView, SchemaError> {
        Self::read(j)
    }

    fn to_json(&self) -> (j: Json) {
        let mut out = no_members();
        write_field::<ReferenceType>(&mut out, "ref", &self.reference);
        write_field::<CompleteArgument>(&mut out, "argument", &self.argument);
        write_rest(&mut out, &self.extra);
        proof {
            broadcast use group_writer;

            reveal(CompleteParams::written);
            lemma_object_view(out);
        }
        Json::Object(out)
    }

    fn from_json(j: &Json) -> (r: Result<CompleteParams, SchemaError>) {
        proof {
            reveal(CompleteParams::read);
        }
        match j {
            Json::Object(entries) => {
                proof {
                    lemma_object_view(*entries);
                }
                if repeats::<CompleteParams>(entries) {
                    return Err(SchemaError::FieldCollision);
                }
                let reference = read_field::<ReferenceType>(entries, "ref")?;
                let argument = read_field::<CompleteArgument>(entries, "argument")?;
                Ok(
                    CompleteParams {
                        reference,
                        argument,
                        extra: rest::<CompleteParams>(entries),
                    },
                )
            },
            _ => Err(SchemaError::ParamsShapeMismatch),
        }
    }

    proof fn lemma_round_trip(v: CompleteParamsView) {
        reveal(CompleteParams::written);
        reveal(CompleteParams::read);
        let m = Self::members(v);
        Self::lemma_members(v);
        lemma_written_record(m, v.extra, Self::names());
        lemma_member_at(m, Self::names(), 0);
        lemma_member_at(m, Self::names(), 1);
        ReferenceType::lemma_round_trip(v.reference);
        CompleteArgument::lemma_round_trip(v.argument);
    }
}

impl WireSound for CompleteParams {
    proof fn lemma_decoded_valid(j: JsonView) {
        broadcast use group_record;

        reveal(CompleteParams::written);
        reveal(CompleteParams::read);
        let o = j->Object_0;
        ReferenceType::lemma_decoded_valid(get(o, "ref"@)->Some_0);
        CompleteArgument::lemma_decoded_valid(get(o, "argument"@)->Some_0);
        lemma_without_members(o, Self::names());
    }
}

impl Layout for CompleteParams {
    open spec fn layout(v: CompleteParamsView) -> Members {
        Self::members(v)
    }

    open spec fn others(v: CompleteParamsView) -> Fields {
        v.extra
    }

    proof fn lemma_layout(v: CompleteParamsView) {
        reveal(CompleteParams::written);
        Self::lemma_members(v);
    }
}

/// The completions that the server offers.
#[derive(Debug, Clone)]
pub struct CompletionData {
    pub values: Vec<String>,
    pub total: Option<i64>,
    pub has_more: Option<bool>,
}

/// [`CompletionData`] as specifications see it.
pub struct CompletionDataView {
    pub values: Seq<Seq<char>>,
    pub total: Option<i64>,
    pub has_more: Option<bool>,
}

impl DeepView for CompletionData {
    type V = CompletionDataView;

    open spec fn deep_view(&self) -> CompletionDataView {
        CompletionDataView {
            values: self.values.deep_view(),
            total: self.total.deep_view(),
            has_more: self.has_more.deep_view(),
        }
    }
}

impl Record for CompletionData {
    open spec fn names() -> Set<Seq<char>> {
        set!["values"@, "total"@, "hasMore"@]
    }

    fn declares(key: &str) -> (b: bool) {
        same_text(key, "values") || same_text(key, "total") || same_text(key, "hasMore")
    }
}

impl CompletionData {
    /// The declared fields of `v`, each with what is written for it.
    pub open spec fn members(v: CompletionDataView) -> Members {
        Seq::empty()
            .push(member::<Vec<String>>("values"@, v.values))
            .push(opt_member::<i64>("total"@, v.total))
            .push(opt_member::<bool>("hasMore"@, v.has_more))
    }

    /// The object that stands for `v`: its declared fields.
    #[verifier::opaque]
    pub open spec fn written(v: CompletionDataView) -> JsonView {
        JsonView::Object(present(Self::members(v)))
    }

    /// What `j` is read as: an object in which no declared name occurs twice
    /// and every declared field reads; the first field that does not read
    /// gives the error. Other members are passed over.
    #[verifier::opaque]
    pub open spec fn read(j: JsonView) -> Result<CompletionDataView, SchemaError> {
        match j {
            JsonView::Object(o) => {
                let values = field::<Vec<String>>(o, "values"@);
                let total = opt_field::<i64>(o, "total"@);
                let has_more = opt_field::<bool>(o, "hasMore"@);
                if collides(o, Self::names()) {
                    Err(SchemaError::FieldCollision)
                } else if values is Err {
                    Err(values->Err_0)
                } else if total is Err {
                    Err(total->Err_0)
                } else if has_more is Err {
                    Err(has_more->Err_0)
                } else {
                    Ok(
                        CompletionDataView {
                            values: values->Ok_0,
                            total: total->Ok_0,
                            has_more: has_more->Ok_0,
                        },
                    )
                }
            },
            _ => Err(SchemaError::ParamsShapeMismatch),
        }
    }

    /// The declared fields of a valid value have names of their own and
    /// well-formed values.
    pub proof fn lemma_members(v: CompletionDataView)
        requires
            Self::valid(v),
        ensures
            members_ok(Self::members(v), Self::names()),
    {
        broadcast use group_record;

        reveal_strlit("values");
        reveal_strlit("total");
        reveal_strlit("hasMore");
        assert("values"@.len() == 6);
        assert("total"@.len() == 5);
        assert("hasMore"@.len() == 7);
        Vec::<String>::lemma_round_trip(v.values);
        if v.total is Some {
            i64::lemma_round_trip(v.total->Some_0);
        }
        if v.has_more is Some {
            bool::lemma_round_trip(v.has_more->Some_0);
        }
    }
}

impl Wire for CompletionData {
    open spec fn valid(v: CompletionDataView) -> bool {
        &&& Vec::<String>::valid(v.values)
        &&& valid_opt::<i64>(v.total)
        &&& valid_opt::<bool>(v.has_more)
    }

    open spec fn encode(v: CompletionDataView) -> JsonView {
        Self::written(v)
    }

    open spec fn decode(j: JsonView) -> Result<CompletionDataView, SchemaError> {
        Self::read(j)
    }

    fn to_json(&self) -> (j: Json) {
        let mut out = no_members();
        write_field::<Vec<String>>(&mut out, "values", &self.values);
        write_opt_field::<i64>(&mut out, "total", &self.total);
        write_opt_field::<bool>(&mut out, "hasMore", &self.has_more);
        proof {
            broadcast use group_writer;

            reveal(CompletionData::written);
            lemma_object_view(out);
        }
        Json::Object(out)
    }

    fn from_json(j: &Json) -> (r: Result<CompletionData, SchemaError>) {
        proof {
            reveal(CompletionData::read);
        }
        match j {
            Json::Object(entries) => {
                proof {
                    lemma_object_view(*entries);
                }
                if repeats::<CompletionData>(entries) {
                    return Err(SchemaError::FieldCollision);
                }
                let values = read_field::<Vec<String>>(entries, "values")?;
                let total = read_opt_field::<i64>(entries, "total")?;
                let has_more = read_opt_field::<bool>(entries, "hasMore")?;
                Ok(CompletionData { values, total, has_more })
            },
            _ => Err(SchemaError::ParamsShapeMismatch),
        }
    }

    proof fn lemma_round_trip(v: CompletionDataView) {
        reveal(CompletionData::written);
        reveal(CompletionData::read);
        let m = Self::members(v);
        Self::lemma_members(v);
        lemma_written_record(m, Seq::empty(), Self::names());
        lemma_member_at(m, Self::names(), 0);
        lemma_member_at(m, Self::names(), 1);
        lemma_member_at(m, Self::names(), 2);
        Vec::<String>::lemma_round_trip(v.values);
        if v.total is Some {
            i64::lemma_round_trip(v.total->Some_0);
        }
        if v.has_more is Some {
            bool::lemma_round_trip(v.has_more->Some_0);
        }
        assert(present(m) + Seq::empty() =~= present(m));
    }
}

impl WireSound for CompletionData {
    proof fn lemma_decoded_valid(j: JsonView) {
        broadcast use group_record;

        reveal(CompletionData::written);
        reveal(CompletionData::read);
        let o = j->Object_0;
        Vec::<String>::lemma_decoded_valid(get(o, "values"@)->Some_0);
        if get(o, "total"@) is Some && get(o, "total"@) != Some(JsonView::Null) {
            i64::lemma_decoded_valid(get(o, "total"@)->Some_0);
        }
        if get(o, "hasMore"@) is Some && get(o, "hasMore"@) != Some(JsonView::Null) {
            bool::lemma_decoded_valid(get(o, "hasMore"@)->Some_0);
        }
    }
}

impl Layout for CompletionData {
    open spec fn layout(v: CompletionDataView) -> Members {
        Self::members(v)
    }

    open spec fn others(v: CompletionDataView) -> Fields {
        Seq::empty()
    }

    proof fn lemma_layout(v: CompletionDataView) {
        reveal(CompletionData::written);
        Self::lemma_members(v);
        assert(Self::layout(v) == Self::members(v));
        assert(Self::others(v) == Seq::<(Seq<char>, JsonView)>::empty());
        assert(fields_wf(Seq::<(Seq<char>, JsonView)>::empty()));
        assert(present(Self::members(v)) + Seq::empty() =~= present(Self::members(v)));
    }
}

/// The answer to `completion/complete`.
#[derive(Debug, Clone)]
pub struct CompleteResult {
    pub meta: Option<JsonObject>,
    pub completion: CompletionData,
    pub extra: JsonObject,
}

/// [`CompleteResult`] as specifications see it.
pub struct CompleteResultView {
    pub meta: Option<Fields>,
    pub completion: CompletionDataView,
    pub extra: Fields,
}

impl DeepView for CompleteResult {
    type V = CompleteResultView;

    open spec fn deep_view(&self) -> CompleteResultView {
        CompleteResultView {
            meta: self.meta.deep_view(),
            completion: self.completion.deep_view(),
            extra: self.extra.deep_view(),
        }
    }
}

impl Record for CompleteResult {
    open spec fn names() -> Set<Seq<char>> {
        set!["_meta"@, "completion"@]
    }

    fn declares(key: &str) -> (b: bool) {
        same_text(key, "_meta") || same_text(key, "completion")
    }
}

impl CompleteResult {
    /// The declared fields of `v`, each with what is written for it.
    pub open spec fn members(v: CompleteResultView) -> Members {
        Seq::empty()
            .push(opt_member::<JsonObject>("_meta"@, v.meta))
            .push(member::<CompletionData>("completion"@, v.completion))
    }

    /// The object that stands for `v`: its declared fields, then its other
    /// members.
    #[verifier::opaque]
    pub open spec fn written(v: CompleteResultView) -> JsonView {
        JsonView::Object(present(Self::members(v)) + v.extra)
    }

    /// What `j` is read as: an object in which no declared name occurs twice
    /// and every declared field reads; the first field that does not read
    /// gives the error. The other members are kept.
    #[verifier::opaque]
    pub open spec fn read(j: JsonView) -> Result<CompleteResultView, SchemaError> {
        match j {
            JsonView::Object(o) => {
                let meta = opt_field::<JsonObject>(o, "_meta"@);
                let completion = field::<CompletionData>(o, "completion"@);
                if collides(o, Self::names()) {
                    Err(SchemaError::FieldCollision)
                } else if meta is Err {
                    Err(meta->Err_0)
                } else if completion is Err {
                    Err(completion->Err_0)
                } else {
                    Ok(
                        CompleteResultView {
                            meta: meta->Ok_0,
                            completion: completion->Ok_0,
                            extra: without(o, Self::names()),
                        },
                    )
                }
            },
            _ => Err(SchemaError::ParamsShapeMismatch),
        }
    }

    /// The declared fields of a valid value have names of their own and
    /// well-formed values.
    pub proof fn lemma_members(v: CompleteResultView)
        requires
            Self::valid(v),
        ensures
            members_ok(Self::members(v), Self::names()),
    {
        broadcast use group_record;

        reveal_strlit("_meta");
        reveal_strlit("completion");
        assert("_meta"@.len() == 5);
        assert("completion"@.len() == 10);
        if v.meta is Some {
            JsonObject::lemma_round_trip(v.meta->Some_0);
        }
        CompletionData::lemma_round_trip(v.completion);
    }
}

impl Wire for CompleteResult {
    open spec fn valid(v: CompleteResultView) -> bool {
        &&& valid_opt::<JsonObject>(v.meta)
        &&& CompletionData::valid(v.completion)
        &&& fields_wf(v.extra)
        &&& avoids(v.extra, Self::names())
    }

    open spec fn encode(v: CompleteResultView) -> JsonView {
        Self::written(v)
    }

    open spec fn decode(j: JsonView) -> Result<CompleteResultView, SchemaError> {
        Self::read(j)
    }

    fn to_json(&self) -> (j: Json) {
        let mut out = no_members();
        write_opt_field::<JsonObject>(&mut out, "_meta", &self.meta);
        write_field::<CompletionData>(&mut out, "completion", &self.completion);
        write_rest(&mut out, &self.extra);
        proof {
            broadcast use group_writer;

            reveal(CompleteResult::written);
            lemma_object_view(out);
        }
        Json::Object(out)
    }

    fn from_json(j: &Json) -> (r: Result<CompleteResult, SchemaError>) {
        proof {
            reveal(CompleteResult::read);
        }
        match j {
            Json::Object(entries) => {
                proof {
                    lemma_object_view(*entries);
                }
                if repeats::<CompleteResult>(entries) {
                    return Err(SchemaError::FieldCollision);
                }
                let meta = read_opt_field::<JsonObject>(entries, "_meta")?;
                let completion = read_field::<CompletionData>(entries, "completion")?;
                Ok(CompleteResult { meta, completion, extra: rest::<CompleteResult>(entries) })
            },
            _ => Err(SchemaError::ParamsShapeMismatch),
        }
    }

    proof fn lemma_round_trip(v: CompleteResultView) {
        reveal(CompleteResult::written);
        reveal(CompleteResult::read);
        let m = Self::members(v);
        Self::lemma_members(v);
        lemma_written_record(m, v.extra, Self::names());
        lemma_member_at(m, Self::names(), 0);
        lemma_member_at(m, Self::names(), 1);
        if v.meta is Some {
            JsonObject::lemma_round_trip(v.meta->Some_0);
        }
        CompletionData::lemma_round_trip(v.completion);
    }
}

impl WireSound for CompleteResult {
    proof fn lemma_decoded_valid(j: JsonView) {
        broadcast use group_record;

        reveal(CompleteResult::written);
        reveal(CompleteResult::read);
        let o = j->Object_0;
        if get(o, "_meta"@) is Some && get(o, "_meta"@) != Some(JsonView::Null) {
            JsonObject::lemma_decoded_valid(get(o, "_meta"@)->Some_0);
        }
        CompletionData::lemma_decoded_valid(get(o, "completion"@)->Some_0);
        lemma_without_members(o, Self::names());
    }
}

impl Layout for CompleteResult {
    open spec fn layout(v: CompleteResultView) -> Members {
        Self::members(v)
    }

    open spec fn others(v: CompleteResultView) -> Fields {
        v.extra
    }

    proof fn lemma_layout(v: CompleteResultView) {
        reveal(CompleteResult::written);
        Self::lemma_members(v);
    }
}

} // verus!
