//! Elicitation: asking the user for input.

use vstd::prelude::*;
use crate::error::SchemaError;
use crate::json::{
    avoids, collides, fields_wf, get, lemma_object_view, lemma_without_members, same_text,
    without, Fields, Json, JsonView,
};
use crate::record::{
    field, group_record, group_writer, lemma_member_at, lemma_written_record, member, members_ok,
    no_members, opt_field, opt_member, present, read_field, read_opt_field, repeats, rest,
    valid_opt, with, write_field, write_opt_field, write_rest, JsonObject, Layout, Members,
    Record,
};
use crate::wire::{Wire, WireSound};

verus! {

/// What the user did with a request for input.
#[derive(Debug, Clone, Copy, PartialEq, Eq, Structural)]
pub enum ElicitationAction {
    Accept,
    Reject,
    Cancel,
}

impl DeepView for ElicitationAction {
    type V = ElicitationAction;

    open spec fn deep_view(&self) -> ElicitationAction {
        *self
    }
}

impl ElicitationAction {
    /// The word that stands for `v`.
    pub open spec fn word(v: ElicitationAction) -> Seq<char> {
        match v {
            ElicitationAction::Accept => "accept"@,
            ElicitationAction::Reject => "reject"@,
            ElicitationAction::Cancel => "cancel"@,
        }
    }

    /// The word that stands for the value.
    pub fn as_str(&self) -> (text: &'static str)
        ensures
            text@ == Self::word(*self),
    {
        match self {
            ElicitationAction::Accept => "accept",
            ElicitationAction::Reject => "reject",
            ElicitationAction::Cancel => "cancel",
        }
    }
}

impl Wire for ElicitationAction {
    open spec fn valid(v: ElicitationAction) -> bool {
        true
    }

    open spec fn encode(v: ElicitationAction) -> JsonView {
        JsonView::String(Self::word(v))
    }

    open spec fn decode(j: JsonView) -> Result<ElicitationAction, SchemaError> {
        match j {
            JsonView::String(s) => {
                if s == "accept"@ {
                    Ok(ElicitationAction::Accept)
                } else if s == "reject"@ {
                    Ok(ElicitationAction::Reject)
                } else if s == "cancel"@ {
                    Ok(ElicitationAction::Cancel)
                } else {
                    Err(SchemaError::ParamsShapeMismatch)
                }
            },
            _ => Err(SchemaError::ParamsShapeMismatch),
        }
    }

    fn to_json(&self) -> (j: Json) {
        Json::String(self.as_str().to_owned())
    }

    fn from_json(j: &Json) -> (r: Result<ElicitationAction, SchemaError>) {
        match j {
            Json::String(s) => {
                if same_text(s.as_str(), "accept") {
                    Ok(ElicitationAction::Accept)
                } else if same_text(s.as_str(), "reject") {
                    Ok(ElicitationAction::Reject)
                } else if same_text(s.as_str(), "cancel") {
                    Ok(ElicitationAction::Cancel)
                } else {
                    Err(SchemaError::ParamsShapeMismatch)
                }
            },
            _ => Err(SchemaError::ParamsShapeMismatch),
        }
    }

    proof fn lemma_round_trip(v: ElicitationAction) {
        reveal_strlit("accept");
        reveal_strlit("reject");
        reveal_strlit("cancel");
        assert("accept"@.len() == 6);
        assert("reject"@.len() == 6);
        assert("cancel"@.len() == 6);
        assert("accept"@[0] == 'a');
        assert("reject"@[0] == 'r');
        assert("cancel"@[0] == 'c');
    }
}

impl WireSound for ElicitationAction {
    proof fn lemma_decoded_valid(j: JsonView) {
    }
}

/// The parameters of `elicitation/create`.
#[derive(Debug, Clone)]
pub struct ElicitationCreateParams {
    pub message: String,
    pub requested_schema: Json,
    pub extra: JsonObject,
}

/// [`ElicitationCreateParams`] as specifications see it.
pub struct ElicitationCreateParamsView {
    pub message: Seq<char>,
    pub requested_schema: JsonView,
    pub extra: Fields,
}

impl DeepView for ElicitationCreateParams {
    type V = ElicitationCreateParamsView;

    open spec fn deep_view(&self) -> ElicitationCreateParamsView {
        ElicitationCreateParamsView {
            message: self.message.deep_view(),
            requested_schema: self.requested_schema.deep_view(),
            extra: self.extra.deep_view(),
        }
    }
}

impl Record for ElicitationCreateParams {
    open spec fn names() -> Set<Seq<char>> {
        set!["message"@, "requestedSchema"@]
    }

    fn declares(key: &str) -> (b: bool) {
        same_text(key, "message") || same_text(key, "requestedSchema")
    }
}

impl ElicitationCreateParams {
    /// The declared fields of `v`, each with what is written for it.
    pub open spec fn members(v: ElicitationCreateParamsView) -> Members {
        Seq::empty()
            .push(member::<String>("message"@, v.message))
            .push(member::<Json>("requestedSchema"@, v.requested_schema))
    }

    /// The object that stands for `v`: its declared fields, then its other
    /// members.
    #[verifier::opaque]
    pub open spec fn written(v: ElicitationCreateParamsView) -> JsonView {
        JsonView::Object(present(Self::members(v)) + v.extra)
    }

    /// What `j` is read as: an object in which no declared name occurs twice
    /// and every declared field reads; the first field that does not read
    /// gives the error. The other members are kept.
    #[verifier::opaque]
    pub open spec fn read(j: JsonView) -> Result<ElicitationCreateParamsView, SchemaError> {
        match j {
            JsonView::Object(o) => {
                let message = field::<String>(o, "message"@);
                let requested_schema = field::<Json>(o, "requestedSchema"@);
                if collides(o, Self::names()) {
                    Err(SchemaError::FieldCollision)
                } else if message is Err {
                    Err(message->Err_0)
                } else if requested_schema is Err {
                    Err(requested_schema->Err_0)
                } else {
                    Ok(
                        ElicitationCreateParamsView {
                            message: message->Ok_0,
                            requested_schema: requested_schema->Ok_0,
                            extra: without(o, Self::names()),
                        },
                    )
                }
            },
            _ => Err(SchemaError::ParamsShapeMismatch),
        }
    }

    /// The declared fields of a valid value have names of their own and
    /// well-formed values.
    pub proof fn lemma_members(v: ElicitationCreateParamsView)
        requires
            Self::valid(v),
        ensures
            members_ok(Self::members(v), Self::names()),
    {
        broadcast use group_record;

        reveal_strlit("message");
        reveal_strlit("requestedSchema");
        assert("message"@.len() == 7);
        assert("requestedSchema"@.len() == 15);
        String::lemma_round_trip(v.message);
        Json::lemma_round_trip(v.requested_schema);
    }
}

impl Wire for ElicitationCreateParams {
    open spec fn valid(v: ElicitationCreateParamsView) -> bool {
        &&& String::valid(v.message)
        &&& Json::valid(v.requested_schema)
        &&& fields_wf(v.extra)
        &&& avoids(v.extra, Self::names())
    }

    open spec fn encode(v: ElicitationCreateParamsView) -> JsonView {
        Self::written(v)
    }

    open spec fn decode(j: JsonView) -> Result<ElicitationCreateParamsView, SchemaError> {
        Self::read(j)
    }

    fn to_json(&self) -> (j: Json) {
        let mut out = no_members();
        write_field::<String>(&mut out, "message", &self.message);
        write_field::<Json>(&mut out, "requestedSchema", &self.requested_schema);
        write_rest(&mut out, &self.extra);
        proof {
            broadcast use group_writer;

            reveal(ElicitationCreateParams::written);
            lemma_object_view(out);
        }
        Json::Object(out)
    }

    fn from_json(j: &Json) -> (r: Result<ElicitationCreateParams, SchemaError>) {
        proof {
            reveal(ElicitationCreateParams::read);
        }
        match j {
            Json::Object(entries) => {
                proof {
                    lemma_object_view(*entries);
                }
                if repeats::<ElicitationCreateParams>(entries) {
                    return Err(SchemaError::FieldCollision);
                }
                let message = read_field::<String>(entries, "message")?;
                let requested_schema = read_field::<Json>(entries, "requestedSchema")?;
                Ok(
                    ElicitationCreateParams {
                        message,
                        requested_schema,
                        extra: rest::<ElicitationCreateParams>(entries),
                    },
                )
            },
            _ => Err(SchemaError::ParamsShapeMismatch),
        }
    }

    proof fn lemma_round_trip(v: ElicitationCreateParamsView) {
        reveal(ElicitationCreateParams::written);
        reveal(ElicitationCreateParams::read);
        let m = Self::members(v);
        Self::lemma_members(v);
        lemma_written_record(m, v.extra, Self::names());
        lemma_member_at(m, Self::names(), 0);
        lemma_member_at(m, Self::names(), 1);
        String::lemma_round_trip(v.message);
        Json::lemma_round_trip(v.requested_schema);
    }
}

impl WireSound for ElicitationCreateParams {
    proof fn lemma_decoded_valid(j: JsonView) {
        broadcast use group_record;

        reveal(ElicitationCreateParams::written);
        reveal(ElicitationCreateParams::read);
        let o = j->Object_0;
        String::lemma_decoded_valid(get(o, "message"@)->Some_0);
        Json::lemma_decoded_valid(get(o, "requestedSchema"@)->Some_0);
        lemma_without_members(o, Self::names());
    }
}

impl Layout for ElicitationCreateParams {
    open spec fn layout(v: ElicitationCreateParamsView) -> Members {
        Self::members(v)
    }

    open spec fn others(v: ElicitationCreateParamsView) -> Fields {
        v.extra
    }

    proof fn lemma_layout(v: ElicitationCreateParamsView) {
        reveal(ElicitationCreateParams::written);
        Self::lemma_members(v);
    }
}

/// The answer to `elicitation/create`.
#[derive(Debug, Clone)]
pub struct ElicitationCreateResult {
    pub action: ElicitationAction,
    pub content: Option<Json>,
    pub extra: JsonObject,
}

/// [`ElicitationCreateResult`] as specifications see it.
pub struct ElicitationCreateResultView {
    pub action: ElicitationAction,
    pub content: Option<JsonView>,
    pub extra: Fields,
}

impl DeepView for ElicitationCreateResult {
    type V = ElicitationCreateResultView;

    open spec fn deep_view(&self) -> ElicitationCreateResultView {
        ElicitationCreateResultView {
            action: self.action.deep_view(),
            content: self.content.deep_view(),
            extra: self.extra.deep_view(),
        }
    }
}

impl Record for ElicitationCreateResult {
    open spec fn names() -> Set<Seq<char>> {
        set!["action"@, "content"@]
    }

    fn declares(key: &str) -> (b: bool) {
        same_text(key, "action") || same_text(key, "content")
    }
}

impl ElicitationCreateResult {
    /// The declared fields of `v`, each with what is written for it.
    pub open spec fn members(v: ElicitationCreateResultView) -> Members {
        Seq::empty()
            .push(member::<ElicitationAction>("action"@, v.action))
            .push(opt_member::<Json>("content"@, v.content))
    }

    /// The object that stands for `v`: its declared fields, then its other
    /// members.
    #[verifier::opaque]
    pub open spec fn written(v: ElicitationCreateResultView) -> JsonView {
        JsonView::Object(present(Self::members(v)) + v.extra)
    }

    /// What `j` is read as: an object in which no declared name occurs twice
    /// and every declared field reads; the first field that does not read
    /// gives the error. The other members are kept.
    #[verifier::opaque]
    pub open spec fn read(j: JsonView) -> Result<ElicitationCreateResultView, SchemaError> {
        match j {
            JsonView::Object(o) => {
                let action = field::<ElicitationAction>(o, "action"@);
                let content = opt_field::<Json>(o, "content"@);
                if collides(o, Self::names()) {
                    Err(SchemaError::FieldCollision)
                } else if action is Err {
                    Err(action->Err_0)
                } else if content is Err {
                    Err(content->Err_0)
                } else {
                    Ok(
                        ElicitationCreateResultView {
                            action: action->Ok_0,
                            content: content->Ok_0,
                            extra: without(o, Self::names()),
                        },
                    )
                }
            },
            _ => Err(SchemaError::ParamsShapeMismatch),
        }
    }

    /// The declared fields of a valid value have names of their own and
    /// well-formed values.
    pub proof fn lemma_members(v: ElicitationCreateResultView)
        requires
            Self::valid(v),
        ensures
            members_ok(Self::members(v), Self::names()),
    {
        broadcast use group_record;

        reveal_strlit("action");
        reveal_strlit("content");
        assert("action"@.len() == 6);
        assert("content"@.len() == 7);
        ElicitationAction::lemma_round_trip(v.action);
        if v.content is Some {
            Json::lemma_round_trip(v.content->Some_0);
        }
    }
}

impl Wire for ElicitationCreateResult {
    open spec fn valid(v: ElicitationCreateResultView) -> bool {
        &&& ElicitationAction::valid(v.action)
        &&& valid_opt::<Json>(v.content)
        &&& fields_wf(v.extra)
        &&& avoids(v.extra, Self::names())
    }

    open spec fn encode(v: ElicitationCreateResultView) -> JsonView {
        Self::written(v)
    }

    open spec fn decode(j: JsonView) -> Result<ElicitationCreateResultView, SchemaError> {
        Self::read(j)
    }

    fn to_json(&self) -> (j: Json) {
        let mut out = no_members();
        write_field::<ElicitationAction>(&mut out, "action", &self.action);
        write_opt_field::<Json>(&mut out, "content", &self.content);
        write_rest(&mut out, &self.extra);
        proof {
            broadcast use group_writer;

            reveal(ElicitationCreateResult::written);
            lemma_object_view(out);
        }
        Json::Object(out)
    }

    fn from_json(j: &Json) -> (r: Result<ElicitationCreateResult, SchemaError>) {
        proof {
            reveal(ElicitationCreateResult::read);
        }
        match j {
            Json::Object(entries) => {
                proof {
                    lemma_object_view(*entries);
                }
                if repeats::<ElicitationCreateResult>(entries) {
                    return Err(SchemaError::FieldCollision);
                }
                let action = read_field::<ElicitationAction>(entries, "action")?;
                let content = read_opt_field::<Json>(entries, "content")?;
                Ok(
                    ElicitationCreateResult {
                        action,
                        content,
                        extra: rest::<ElicitationCreateResult>(entries),
                    },
                )
            },
            _ => Err(SchemaError::ParamsShapeMismatch),
        }
    }

    proof fn lemma_round_trip(v: ElicitationCreateResultView) {
        reveal(ElicitationCreateResult::written);
        reveal(ElicitationCreateResult::read);
        let m = Self::members(v);
        Self::lemma_members(v);
        lemma_written_record(m, v.extra, Self::names());
        lemma_member_at(m, Self::names(), 0);
        lemma_member_at(m, Self::names(), 1);
        ElicitationAction::lemma_round_trip(v.action);
        if v.content is Some {
            Json::lemma_round_trip(v.content->Some_0);
        }
    }
}

impl WireSound for ElicitationCreateResult {
    proof fn lemma_decoded_valid(j: JsonView) {
        broadcast use group_record;

        reveal(ElicitationCreateResult::written);
        reveal(ElicitationCreateResult::read);
        let o = j->Object_0;
        ElicitationAction::lemma_decoded_valid(get(o, "action"@)->Some_0);
        if get(o, "content"@) is Some && get(o, "content"@) != Some(JsonView::Null) {
            Json::lemma_decoded_valid(get(o, "content"@)->Some_0);
        }
        lemma_without_members(o, Self::names());
    }
}

impl Layout for ElicitationCreateResult {
    open spec fn layout(v: ElicitationCreateResultView) -> Members {
        Self::members(v)
    }

    open spec fn others(v: ElicitationCreateResultView) -> Fields {
        v.extra
    }

    proof fn lemma_layout(v: ElicitationCreateResultView) {
        reveal(ElicitationCreateResult::written);
        Self::lemma_members(v);
    }
}

} // verus!
