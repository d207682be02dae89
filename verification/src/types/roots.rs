//! Roots: the directories and files that the client opens to the server.

use vstd::prelude::*;
use crate::error::SchemaError;
use crate::json::{
    avoids, collides, fields_wf, get, lemma_object_view, lemma_without_members, same_text,
    without, Fields, Json, JsonView,
};
use crate::record::{
    field, group_record, group_writer, lemma_member_at, lemma_written_record, member, members_ok,
    no_members, opt_field, opt_member, present, read_field, read_opt_field, repeats, rest,
    valid_opt, with, write_field, write_opt_field, write_rest, JsonObject, Layout, Members,
    Record,
};
use crate::wire::{Wire, WireSound};

verus! {

/// The parameters of `roots/list`.
#[derive(Debug, Clone)]
pub struct ListRootsParams {
    pub extra: JsonObject,
}

/// [`ListRootsParams`] as specifications see it.
pub struct ListRootsParamsView {
    pub extra: Fields,
}

impl DeepView for ListRootsParams {
    type V = ListRootsParamsView;

    open spec fn deep_view(&self) -> ListRootsParamsView {
        ListRootsParamsView {
            extra: self.extra.deep_view(),
        }
    }
}

impl ListRootsParams {
    /// The value with nothing in it.
    pub open spec fn default_view() -> ListRootsParamsView {
        ListRootsParamsView {
            extra: Seq::empty(),
        }
    }
}

impl Default for ListRootsParams {
    fn default() -> (r: ListRootsParams)
        ensures
            r.deep_view() == Self::default_view(),
    {
        ListRootsParams {
            extra: JsonObject::new(),
        }
    }
}

impl Record for ListRootsParams {
    open spec fn names() -> Set<Seq<char>> {
        Set::empty()
    }

    fn declares(key: &str) -> (b: bool) {
        false
    }
}

impl ListRootsParams {
    /// The declared fields of `v`, each with what is written for it.
    pub open spec fn members(v: ListRootsParamsView) -> Members {
        Seq::empty()
    }

    /// The object that stands for `v`: its declared fields, then its other
    /// members.
    #[verifier::opaque]
    pub open spec fn written(v: ListRootsParamsView) -> JsonView {
        JsonView::Object(present(Self::members(v)) + v.extra)
    }

    /// What `j` is read as: an object in which no declared name occurs twice
    /// and every declared field reads; the first field that does not read
    /// gives the error. The other members are kept.
    #[verifier::opaque]
    pub open spec fn read(j: JsonView) -> Result<ListRootsParamsView, SchemaError> {
        match j {
            JsonView::Object(o) => {
                if collides(o, Self::names()) {
                    Err(SchemaError::FieldCollision)
                } else {
                    Ok(
                        ListRootsParamsView {
                            extra: without(o, Self::names()),
                        },
                    )
                }
            },
            _ => Err(SchemaError::ParamsShapeMismatch),
        }
    }

    /// The declared fields of a valid value have names of their own and
    /// well-formed values.
    pub proof fn lemma_members(v: ListRootsParamsView)
        requires
            Self::valid(v),
        ensures
            members_ok(Self::members(v), Self::names()),
    {
        broadcast use group_record;

    }
}

impl Wire for ListRootsParams {
    open spec fn valid(v: ListRootsParamsView) -> bool {
        &&& fields_wf(v.extra)
        &&& avoids(v.extra, Self::names())
    }

    open spec fn encode(v: ListRootsParamsView) -> JsonView {
        Self::written(v)
    }

    open spec fn decode(j: JsonView) -> Result<ListRootsParamsView, SchemaError> {
        Self::read(j)
    }

    fn to_json(&self) -> (j: Json) {
        let mut out = no_members();
        write_rest(&mut out, &self.extra);
        proof {
            broadcast use group_writer;

            reveal(ListRootsParams::written);
            lemma_object_view(out);
        }
        Json::Object(out)
    }

    fn from_json(j: &Json) -> (r: Result<ListRootsParams, SchemaError>) {
        proof {
            reveal(ListRootsParams::read);
        }
        match j {
            Json::Object(entries) => {
                proof {
                    lemma_object_view(*entries);
                }
                if repeats::<ListRootsParams>(entries) {
                    return Err(SchemaError::FieldCollision);
                }
                Ok(ListRootsParams { extra: rest::<ListRootsParams>(entries) })
            },
            _ => Err(SchemaError::ParamsShapeMismatch),
        }
    }

    proof fn lemma_round_trip(v: ListRootsParamsView) {
        reveal(ListRootsParams::written);
        reveal(ListRootsParams::read);
        let m = Self::members(v);
        Self::lemma_members(v);
        lemma_written_record(m, v.extra, Self::names());
    }
}

impl WireSound for ListRootsParams {
    proof fn lemma_decoded_valid(j: JsonView) {
        broadcast use group_record;

        reveal(ListRootsParams::written);
        reveal(ListRootsParams::read);
        let o = j->Object_0;
        lemma_without_members(o, Self::names());
    }
}

impl Layout for ListRootsParams {
    open spec fn layout(v: ListRootsParamsView) -> Members {
        Self::members(v)
    }

    open spec fn others(v: ListRootsParamsView) -> Fields {
        v.extra
    }

    proof fn lemma_layout(v: ListRootsParamsView) {
        reveal(ListRootsParams::written);
        Self::lemma_members(v);
    }
}

/// A root directory or file.
#[derive(Debug, Clone)]
pub struct Root {
    pub uri: String,
    pub name: Option<String>,
    pub extra: JsonObject,
}

/// [`Root`] as specifications see it.
pub struct RootView {
    pub uri: Seq<char>,
    pub name: Option<Seq<char>>,
    pub extra: Fields,
}

impl DeepView for Root {
    type V = RootView;

    open spec fn deep_view(&self) -> RootView {
        RootView {
            uri: self.uri.deep_view(),
            name: self.name.deep_view(),
            extra: self.extra.deep_view(),
        }
    }
}

impl Record for Root {
    open spec fn names() -> Set<Seq<char>> {
        set!["uri"@, "name"@]
    }

    fn declares(key: &str) -> (b: bool) {
        same_text(key, "uri") || same_text(key, "name")
    }
}

impl Root {
    /// The declared fields of `v`, each with what is written for it.
    pub open spec fn members(v: RootView) -> Members {
        Seq::empty()
            .push(member::<String>("uri"@, v.uri))
            .push(opt_member::<String>("name"@, v.name))
    }

    /// The object that stands for `v`: its declared fields, then its other
    /// members.
    #[verifier::opaque]
    pub open spec fn written(v: RootView) -> JsonView {
        JsonView::Object(present(Self::members(v)) + v.extra)
    }

    /// What `j` is read as: an object in which no declared name occurs twice
    /// and every declared field reads; the first field that does not read
    /// gives the error. The other members are kept.
    #[verifier::opaque]
    pub open spec fn read(j: JsonView) -> Result<RootView, SchemaError> {
        match j {
            JsonView::Object(o) => {
                let uri = field::<String>(o, "uri"@);
                let name = opt_field::<String>(o, "name"@);
                if collides(o, Self::names()) {
                    Err(SchemaError::FieldCollision)
                } else if uri is Err {
                    Err(uri->Err_0)
                } else if name is Err {
                    Err(name->Err_0)
                } else {
                    Ok(
                        RootView {
                            uri: uri->Ok_0,
                            name: name->Ok_0,
                            extra: without(o, Self::names()),
                        },
                    )
                }
            },
            _ => Err(SchemaError::ParamsShapeMismatch),
        }
    }

    /// The declared fields of a valid value have names of their own and
    /// well-formed values.
    pub proof fn lemma_members(v: RootView)
        requires
            Self::valid(v),
        ensures
            members_ok(Self::members(v), Self::names()),
    {
        broadcast use group_record;

        reveal_strlit("uri");
        reveal_strlit("name");
        assert("uri"@.len() == 3);
        assert("name"@.len() == 4);
        String::lemma_round_trip(v.uri);
        if v.name is Some {
            String::lemma_round_trip(v.name->Some_0);
        }
    }
}

impl Wire for Root {
    open spec fn valid(v: RootView) -> bool {
        &&& String::valid(v.uri)
        &&& valid_opt::<String>(v.name)
        &&& fields_wf(v.extra)
        &&& avoids(v.extra, Self::names())
    }

    open spec fn encode(v: RootView) -> JsonView {
        Self::written(v)
    }

    open spec fn decode(j: JsonView) -> Result<RootView, SchemaError> {
        Self::read(j)
    }

    fn to_json(&self) -> (j: Json) {
        let mut out = no_members();
        write_field::<String>(&mut out, "uri", &self.uri);
        write_opt_field::<String>(&mut out, "name", &self.name);
        write_rest(&mut out, &self.extra);
        proof {
            broadcast use group_writer;

            reveal(Root::written);
            lemma_object_view(out);
        }
        Json::Object(out)
    }

    fn from_json(j: &Json) -> (r: Result<Root, SchemaError>) {
        proof {
            reveal(Root::read);
        }
        match j {
            Json::Object(entries) => {
                proof {
                    lemma_object_view(*entries);
                }
                if repeats::<Root>(entries) {
                    return Err(SchemaError::FieldCollision);
                }
                let uri = read_field::<String>(entries, "uri")?;
                let name = read_opt_field::<String>(entries, "name")?;
                Ok(Root { uri, name, extra: rest::<Root>(entries) })
            },
            _ => Err(SchemaError::ParamsShapeMismatch),
        }
    }

    proof fn lemma_round_trip(v: RootView) {
        reveal(Root::written);
        reveal(Root::read);
        let m = Self::members(v);
        Self::lemma_members(v);
        lemma_written_record(m, v.extra, Self::names());
        lemma_member_at(m, Self::names(), 0);
        lemma_member_at(m, Self::names(), 1);
        String::lemma_round_trip(v.uri);
        if v.name is Some {
            String::lemma_round_trip(v.name->Some_0);
        }
    }
}

impl WireSound for Root {
    proof fn lemma_decoded_valid(j: JsonView) {
        broadcast use group_record;

        reveal(Root::written);
        reveal(Root::read);
        let o = j->Object_0;
        String::lemma_decoded_valid(get(o, "uri"@)->Some_0);
        if get(o, "name"@) is Some && get(o, "name"@) != Some(JsonView::Null) {
            String::lemma_decoded_valid(get(o, "name"@)->Some_0);
        }
        lemma_without_members(o, Self::names());
    }
}

impl Layout for Root {
    open spec fn layout(v: RootView) -> Members {
        Self::members(v)
    }

    open spec fn others(v: RootView) -> Fields {
        v.extra
    }

    proof fn lemma_layout(v: RootView) {
        reveal(Root::written);
        Self::lemma_members(v);
    }
}

/// The answer to `roots/list`.
#[derive(Debug, Clone)]
pub struct ListRootsResult {
    pub meta: Option<JsonObject>,
    pub roots: Vec<Root>,
    pub extra: JsonObject,
}

/// [`ListRootsResult`] as specifications see it.
pub struct ListRootsResultView {
    pub meta: Option<Fields>,
    pub roots: Seq<RootView>,
    pub extra: Fields,
}

impl DeepView for ListRootsResult {
    type V = ListRootsResultView;

    open spec fn deep_view(&self) -> ListRootsResultView {
        ListRootsResultView {
            meta: self.meta.deep_view(),
            roots: self.roots.deep_view(),
            extra: self.extra.deep_view(),
        }
    }
}

impl Record for ListRootsResult {
    open spec fn names() -> Set<Seq<char>> {
        set!["_meta"@, "roots"@]
    }

    fn declares(key: &str) -> (b: bool) {
        same_text(key, "_meta") || same_text(key, "roots")
    }
}

impl ListRootsResult {
    /// The declared fields of `v`, each with what is written for it.
    pub open spec fn members(v: ListRootsResultView) -> Members {
        Seq::empty()
            .push(opt_member::<JsonObject>("_meta"@, v.meta))
            .push(member::<Vec<Root>>("roots"@, v.roots))
    }

    /// The object that stands for `v`: its declared fields, then its other
    /// members.
    #[verifier::opaque]
    pub open spec fn written(v: ListRootsResultView) -> JsonView {
        JsonView::Object(present(Self::members(v)) + v.extra)
    }

    /// What `j` is read as: an object in which no declared name occurs twice
    /// and every declared field reads; the first field that does not read
    /// gives the error. The other members are kept.
    #[verifier::opaque]
    pub open spec fn read(j: JsonView) -> Result<ListRootsResultView, SchemaError> {
        match j {
            JsonView::Object(o) => {
                let meta = opt_field::<JsonObject>(o, "_meta"@);
                let roots = field::<Vec<Root>>(o, "roots"@);
                if collides(o, Self::names()) {
                    Err(SchemaError::FieldCollision)
                } else if meta is Err {
                    Err(meta->Err_0)
                } else if roots is Err {
                    Err(roots->Err_0)
                } else {
                    Ok(
                        ListRootsResultView {
                            meta: meta->Ok_0,
                            roots: roots->Ok_0,
                            extra: without(o, Self::names()),
                        },
                    )
                }
            },
            _ => Err(SchemaError::ParamsShapeMismatch),
        }
    }

    /// The declared fields of a valid value have names of their own and
    /// well-formed values.
    pub proof fn lemma_members(v: ListRootsResultView)
        requires
            Self::valid(v),
        ensures
            members_ok(Self::members(v), Self::names()),
    {
        broadcast use group_record;

        reveal_strlit("_meta");
        reveal_strlit("roots");
        assert("_meta"@.len() == 5);
        assert("roots"@.len() == 5);
        assert("_meta"@[0] == '_');
        assert("roots"@[0] == 'r');
        if v.meta is Some {
            JsonObject::lemma_round_trip(v.meta->Some_0);
        }
        Vec::<Root>::lemma_round_trip(v.roots);
    }
}

impl Wire for ListRootsResult {
    open spec fn valid(v: ListRootsResultView) -> bool {
        &&& valid_opt::<JsonObject>(v.meta)
        &&& Vec::<Root>::valid(v.roots)
        &&& fields_wf(v.extra)
        &&& avoids(v.extra, Self::names())
    }

    open spec fn encode(v: ListRootsResultView) -> JsonView {
        Self::written(v)
    }

    open spec fn decode(j: JsonView) -> Result<ListRootsResultView, SchemaError> {
        Self::read(j)
    }

    fn to_json(&self) -> (j: Json) {
        let mut out = no_members();
        write_opt_field::<JsonObject>(&mut out, "_meta", &self.meta);
        write_field::<Vec<Root>>(&mut out, "roots", &self.roots);
        write_rest(&mut out, &self.extra);
        proof {
            broadcast use group_writer;

            reveal(ListRootsResult::written);
            lemma_object_view(out);
        }
        Json::Object(out)
    }

    fn from_json(j: &Json) -> (r: Result<ListRootsResult, SchemaError>) {
        proof {
            reveal(ListRootsResult::read);
        }
        match j {
            Json::Object(entries) => {
                proof {
                    lemma_object_view(*entries);
                }
                if repeats::<ListRootsResult>(entries) {
                    return Err(SchemaError::FieldCollision);
                }
                let meta = read_opt_field::<JsonObject>(entries, "_meta")?;
                let roots = read_field::<Vec<Root>>(entries, "roots")?;
                Ok(ListRootsResult { meta, roots, extra: rest::<ListRootsResult>(entries) })
            },
            _ => Err(SchemaError::ParamsShapeMismatch),
        }
    }

    proof fn lemma_round_trip(v: ListRootsResultView) {
        reveal(ListRootsResult::written);
        reveal(ListRootsResult::read);
        let m = Self::members(v);
        Self::lemma_members(v);
        lemma_written_record(m, v.extra, Self::names());
        lemma_member_at(m, Self::names(), 0);
        lemma_member_at(m, Self::names(), 1);
        if v.meta is Some {
            JsonObject::lemma_round_trip(v.meta->Some_0);
        }
        Vec::<Root>::lemma_round_trip(v.roots);
    }
}

impl WireSound for ListRootsResult {
    proof fn lemma_decoded_valid(j: JsonView) {
        broadcast use group_record;

        reveal(ListRootsResult::written);
        reveal(ListRootsResult::read);
        let o = j->Object_0;
        if get(o, "_meta"@) is Some && get(o, "_meta"@) != Some(JsonView::Null) {
            JsonObject::lemma_decoded_valid(get(o, "_meta"@)->Some_0);
        }
        Vec::<Root>::lemma_decoded_valid(get(o, "roots"@)->Some_0);
        lemma_without_members(o, Self::names());
    }
}

impl Layout for ListRootsResult {
    open spec fn layout(v: ListRootsResultView) -> Members {
        Self::members(v)
    }

    open spec fn others(v: ListRootsResultView) -> Fields {
        v.extra
    }

    proof fn lemma_layout(v: ListRootsResultView) {
        reveal(ListRootsResult::written);
        Self::lemma_members(v);
    }
}

} // verus!
