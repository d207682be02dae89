//! Reporting progress.

use vstd::prelude::*;
use crate::error::SchemaError;
use crate::json::{
    avoids, collides, fields_wf, get, lemma_object_view, lemma_without_members, same_text,
    without, Fields, Json, JsonNumber, JsonView,
};
use crate::record::{
    field, group_record, group_writer, lemma_member_at, lemma_written_record, member, members_ok,
    no_members, opt_field, opt_member, present, read_field, read_opt_field, repeats, rest,
    valid_opt, with, write_field, write_opt_field, write_rest, JsonObject, Layout, Members,
    Record,
};
use crate::types::base::{ProgressToken, ProgressTokenView};
use crate::wire::{Wire, WireSound};

verus! {

/// How far a long-running request has come.
#[derive(Debug, Clone)]
pub struct ProgressNotificationParams {
    pub progress_token: ProgressToken,
    pub progress: JsonNumber,
    pub total: Option<JsonNumber>,
    pub extra: JsonObject,
}

/// [`ProgressNotificationParams`] as specifications see it.
pub struct ProgressNotificationParamsView {
    pub progress_token: ProgressTokenView,
    pub progress: JsonNumber,
    pub total: Option<JsonNumber>,
    pub extra: Fields,
}

impl DeepView for ProgressNotificationParams {
    type V = ProgressNotificationParamsView;

    open spec fn deep_view(&self) -> ProgressNotificationParamsView {
        ProgressNotificationParamsView {
            progress_token: self.progress_token.deep_view(),
            progress: self.progress.deep_view(),
            total: self.total.deep_view(),
            extra: self.extra.deep_view(),
        }
    }
}

impl Record for ProgressNotificationParams {
    open spec fn names() -> Set<Seq<char>> {
        set!["progressToken"@, "progress"@, "total"@]
    }

    fn declares(key: &str) -> (b: bool) {
        same_text(key, "progressToken") || same_text(key, "progress") || same_text(key, "total")
    }
}

impl ProgressNotificationParams {
    /// The declared fields of `v`, each with what is written for it.
    pub open spec fn members(v: ProgressNotificationParamsView) -> Members {
        Seq::empty()
            .push(member::<ProgressToken>("progressToken"@, v.progress_token))
            .push(member::<JsonNumber>("progress"@, v.progress))
            .push(opt_member::<JsonNumber>("total"@, v.total))
    }

    /// The object that stands for `v`: its declared fields, then its other
    /// members.
    #[verifier::opaque]
    pub open spec fn written(v: ProgressNotificationParamsView) -> JsonView {
        JsonView::Object(present(Self::members(v)) + v.extra)
    }

    /// What `j` is read as: an object in which no declared name occurs twice
    /// and every declared field reads; the first field that does not read
    /// gives the error. The other members are kept.
    #[verifier::opaque]
    pub open spec fn read(j: JsonView) -> Result<ProgressNotificationParamsView, SchemaError> {
        match j {
            JsonView::Object(o) => {
                let progress_token = field::<ProgressToken>(o, "progressToken"@);
                let progress = field::<JsonNumber>(o, "progress"@);
                let total = opt_field::<JsonNumber>(o, "total"@);
                if collides(o, Self::names()) {
                    Err(SchemaError::FieldCollision)
                } else if progress_token is Err {
                    Err(progress_token->Err_0)
                } else if progress is Err {
                    Err(progress->Err_0)
                } else if total is Err {
                    Err(total->Err_0)
                } else {
                    Ok(
                        ProgressNotificationParamsView {
                            progress_token: progress_token->Ok_0,
                            progress: progress->Ok_0,
                            total: total->Ok_0,
                            extra: without(o, Self::names()),
                        },
                    )
                }
            },
            _ => Err(SchemaError::ParamsShapeMismatch),
        }
    }

    /// The declared fields of a valid value have names of their own and
    /// well-formed values.
    pub proof fn lemma_members(v: ProgressNotificationParamsView)
        requires
            Self::valid(v),
        ensures
            members_ok(Self::members(v), Self::names()),
    {
        broadcast use group_record;

        reveal_strlit("progressToken");
        reveal_strlit("progress");
        reveal_strlit("total");
        assert("progressToken"@.len() == 13);
        assert("progress"@.len() == 8);
        assert("total"@.len() == 5);
        ProgressToken::lemma_round_trip(v.progress_token);
        JsonNumber::lemma_round_trip(v.progress);
        if v.total is Some {
            JsonNumber::lemma_round_trip(v.total->Some_0);
        }
    }
}

impl Wire for ProgressNotificationParams {
    open spec fn valid(v: ProgressNotificationParamsView) -> bool {
        &&& ProgressToken::valid(v.progress_token)
        &&& JsonNumber::valid(v.progress)
        &&& valid_opt::<JsonNumber>(v.total)
        &&& fields_wf(v.extra)
        &&& avoids(v.extra, Self::names())
    }

    open spec fn encode(v: ProgressNotificationParamsView) -> JsonView {
        Self::written(v)
    }

    open spec fn decode(j: JsonView) -> Result<ProgressNotificationParamsView, SchemaError> {
        Self::read(j)
    }

    fn to_json(&self) -> (j: Json) {
        let mut out = no_members();
        write_field::<ProgressToken>(&mut out, "progressToken", &self.progress_token);
        write_field::<JsonNumber>(&mut out, "progress", &self.progress);
        write_opt_field::<JsonNumber>(&mut out, "total", &self.total);
        write_rest(&mut out, &self.extra);
        proof {
            broadcast use group_writer;

            reveal(ProgressNotificationParams::written);
            lemma_object_view(out);
        }
        Json::Object(out)
    }

    fn from_json(j: &Json) -> (r: Result<ProgressNotificationParams, SchemaError>) {
        proof {
            reveal(ProgressNotificationParams::read);
        }
        match j {
            Json::Object(entries) => {
                proof {
                    lemma_object_view(*entries);
                }
                if repeats::<ProgressNotificationParams>(entries) {
                    return Err(SchemaError::FieldCollision);
                }
                let progress_token = read_field::<ProgressToken>(entries, "progressToken")?;
                let progress = read_field::<JsonNumber>(entries, "progress")?;
                let total = read_opt_field::<JsonNumber>(entries, "total")?;
                Ok(
                    ProgressNotificationParams {
                        progress_token,
                        progress,
                        total,
                        extra: rest::<ProgressNotificationParams>(entries),
                    },
                )
            },
            _ => Err(SchemaError::ParamsShapeMismatch),
        }
    }

    proof fn lemma_round_trip(v: ProgressNotificationParamsView) {
        reveal(ProgressNotificationParams::written);
        reveal(ProgressNotificationParams::read);
        let m = Self::members(v);
        Self::lemma_members(v);
        lemma_written_record(m, v.extra, Self::names());
        lemma_member_at(m, Self::names(), 0);
        lemma_member_at(m, Self::names(), 1);
        lemma_member_at(m, Self::names(), 2);
        ProgressToken::lemma_round_trip(v.progress_token);
        JsonNumber::lemma_round_trip(v.progress);
        if v.total is Some {
            JsonNumber::lemma_round_trip(v.total->Some_0);
        }
    }
}

impl WireSound for ProgressNotificationParams {
    proof fn lemma_decoded_valid(j: JsonView) {
        broadcast use group_record;

        reveal(ProgressNotificationParams::written);
        reveal(ProgressNotificationParams::read);
        let o = j->Object_0;
        ProgressToken::lemma_decoded_valid(get(o, "progressToken"@)->Some_0);
        JsonNumber::lemma_decoded_valid(get(o, "progress"@)->Some_0);
        if get(o, "total"@) is Some && get(o, "total"@) != Some(JsonView::Null) {
            JsonNumber::lemma_decoded_valid(get(o, "total"@)->Some_0);
        }
        lemma_without_members(o, Self::names());
    }
}

impl Layout for ProgressNotificationParams {
    open spec fn layout(v: ProgressNotificationParamsView) -> Members {
        Self::members(v)
    }

    open spec fn others(v: ProgressNotificationParamsView) -> Fields {
        v.extra
    }

    proof fn lemma_layout(v: ProgressNotificationParamsView) {
        reveal(ProgressNotificationParams::written);
        Self::lemma_members(v);
    }
}

} // verus!
