//! Cancelling a request.

use vstd::prelude::*;
use crate::error::SchemaError;
use crate::json::{collides, fields_wf, get, lemma_object_view, same_text, Fields, Json, JsonView};
use crate::record::{
    field, group_record, group_writer, lemma_member_at, lemma_written_record, member, members_ok,
    no_members, opt_field, opt_member, present, read_field, read_opt_field, repeats, valid_opt,
    with, write_field, write_opt_field, Layout, Members, Record,
};
use crate::types::base::{RequestId, RequestIdView};
use crate::wire::{Wire, WireSound};

verus! {

/// Which request was cancelled, and perhaps why.
#[derive(Debug, Clone)]
pub struct CancelledNotificationParams {
    pub request_id: RequestId,
    pub reason: Option<String>,
}

/// [`CancelledNotificationParams`] as specifications see it.
pub struct CancelledNotificationParamsView {
    pub request_id: RequestIdView,
    pub reason: Option<Seq<char>>,
}

impl DeepView for CancelledNotificationParams {
    type V = CancelledNotificationParamsView;

    open spec fn deep_view(&self) -> CancelledNotificationParamsView {
        CancelledNotificationParamsView {
            request_id: self.request_id.deep_view(),
            reason: self.reason.deep_view(),
        }
    }
}

impl Record for CancelledNotificationParams {
    open spec fn names() -> Set<Seq<char>> {
        set!["requestId"@, "reason"@]
    }

    fn declares(key: &str) -> (b: bool) {
        same_text(key, "requestId") || same_text(key, "reason")
    }
}

impl CancelledNotificationParams {
    /// The declared fields of `v`, each with what is written for it.
    pub open spec fn members(v: CancelledNotificationParamsView) -> Members {
        Seq::empty()
            .push(member::<RequestId>("requestId"@, v.request_id))
            .push(opt_member::<String>("reason"@, v.reason))
    }

    /// The object that stands for `v`: its declared fields.
    #[verifier::opaque]
    pub open spec fn written(v: CancelledNotificationParamsView) -> JsonView {
        JsonView::Object(present(Self::members(v)))
    }

    /// What `j` is read as: an object in which no declared name occurs twice
    /// and every declared field reads; the first field that does not read
    /// gives the error. Other members are passed over.
    #[verifier::opaque]
    pub open spec fn read(j: JsonView) -> Result<CancelledNotificationParamsView, SchemaError> {
        match j {
            JsonView::Object(o) => {
                let request_id = field::<RequestId>(o, "requestId"@);
                let reason = opt_field::<String>(o, "reason"@);
                if collides(o, Self::names()) {
                    Err(SchemaError::FieldCollision)
                } else if request_id is Err {
                    Err(request_id->Err_0)
                } else if reason is Err {
                    Err(reason->Err_0)
                } else {
                    Ok(
                        CancelledNotificationParamsView {
                            request_id: request_id->Ok_0,
                            reason: reason->Ok_0,
                        },
                    )
                }
            },
            _ => Err(SchemaError::ParamsShapeMismatch),
        }
    }

    /// The declared fields of a valid value have names of their own and
    /// well-formed values.
    pub proof fn lemma_members(v: CancelledNotificationParamsView)
        requires
            Self::valid(v),
        ensures
            members_ok(Self::members(v), Self::names()),
    {
        broadcast use group_record;

        reveal_strlit("requestId");
        reveal_strlit("reason");
        assert("requestId"@.len() == 9);
        assert("reason"@.len() == 6);
        RequestId::lemma_round_trip(v.request_id);
        if v.reason is Some {
            String::lemma_round_trip(v.reason->Some_0);
        }
    }
}

impl Wire for CancelledNotificationParams {
    open spec fn valid(v: CancelledNotificationParamsView) -> bool {
        &&& RequestId::valid(v.request_id)
        &&& valid_opt::<String>(v.reason)
    }

    open spec fn encode(v: CancelledNotificationParamsView) -> JsonView {
        Self::written(v)
    }

    open spec fn decode(j: JsonView) -> Result<CancelledNotificationParamsView, SchemaError> {
        Self::read(j)
    }

    fn to_json(&self) -> (j: Json) {
        let mut out = no_members();
        write_field::<RequestId>(&mut out, "requestId", &self.request_id);
        write_opt_field::<String>(&mut out, "reason", &self.reason);
        proof {
            broadcast use group_writer;

            reveal(CancelledNotificationParams::written);
            lemma_object_view(out);
        }
        Json::Object(out)
    }

    fn from_json(j: &Json) -> (r: Result<CancelledNotificationParams, SchemaError>) {
        proof {
            reveal(CancelledNotificationParams::read);
        }
        match j {
            Json::Object(entries) => {
                proof {
                    lemma_object_view(*entries);
                }
                if repeats::<CancelledNotificationParams>(entries) {
                    return Err(SchemaError::FieldCollision);
                }
                let request_id = read_field::<RequestId>(entries, "requestId")?;
                let reason = read_opt_field::<String>(entries, "reason")?;
                Ok(CancelledNotificationParams { request_id, reason })
            },
            _ => Err(SchemaError::ParamsShapeMismatch),
        }
    }

    proof fn lemma_round_trip(v: CancelledNotificationParamsView) {
        reveal(CancelledNotificationParams::written);
        reveal(CancelledNotificationParams::read);
        let m = Self::members(v);
        Self::lemma_members(v);
        lemma_written_record(m, Seq::empty(), Self::names());
        lemma_member_at(m, Self::names(), 0);
        lemma_member_at(m, Self::names(), 1);
        RequestId::lemma_round_trip(v.request_id);
        if v.reason is Some {
            String::lemma_round_trip(v.reason->Some_0);
        }
        assert(present(m) + Seq::empty() =~= present(m));
    }
}

impl WireSound for CancelledNotificationParams {
    proof fn lemma_decoded_valid(j: JsonView) {
        broadcast use group_record;

        reveal(CancelledNotificationParams::written);
        reveal(CancelledNotificationParams::read);
        let o = j->Object_0;
        RequestId::lemma_decoded_valid(get(o, "requestId"@)->Some_0);
        if get(o, "reason"@) is Some && get(o, "reason"@) != Some(JsonView::Null) {
            String::lemma_decoded_valid(get(o, "reason"@)->Some_0);
        }
    }
}

impl Layout for CancelledNotificationParams {
    open spec fn layout(v: CancelledNotificationParamsView) -> Members {
        Self::members(v)
    }

    open spec fn others(v: CancelledNotificationParamsView) -> Fields {
        Seq::empty()
    }

    proof fn lemma_layout(v: CancelledNotificationParamsView) {
        reveal(CancelledNotificationParams::written);
        Self::lemma_members(v);
        assert(Self::layout(v) == Self::members(v));
        assert(Self::others(v) == Seq::<(Seq<char>, JsonView)>::empty());
        assert(fields_wf(Seq::<(Seq<char>, JsonView)>::empty()));
        assert(present(Self::members(v)) + Seq::empty() =~= present(Self::members(v)));
    }
}

} // verus!
