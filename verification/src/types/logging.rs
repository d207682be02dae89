//! Log messages and their levels.

use vstd::prelude::*;
use crate::error::SchemaError;
use crate::json::{
    avoids, collides, fields_wf, get, lemma_object_view, lemma_without_members, same_text,
    without, Fields, Json, JsonView,
};
use crate::record::{
    field, group_record, group_writer, lemma_member_at, lemma_written_record, member, members_ok,
    no_members, opt_field, opt_member, present, read_field, read_opt_field, repeats, rest,
    valid_opt, with, write_field, write_opt_field, write_rest, JsonObject, Layout, Members,
    Record,
};
use crate::wire::{Wire, WireSound};

verus! {

/// How severe a log message is, as in syslog.
#[derive(Debug, Clone, Copy, PartialEq, Eq, Structural)]
pub enum LoggingLevel {
    Debug,
    Info,
    Notice,
    Warning,
    Error,
    Critical,
    Alert,
    Emergency,
}

impl DeepView for LoggingLevel {
    type V = LoggingLevel;

    open spec fn deep_view(&self) -> LoggingLevel {
        *self
    }
}

impl LoggingLevel {
    /// The word that stands for `v`.
    pub open spec fn word(v: LoggingLevel) -> Seq<char> {
        match v {
            LoggingLevel::Debug => "debug"@,
            LoggingLevel::Info => "info"@,
            LoggingLevel::Notice => "notice"@,
            LoggingLevel::Warning => "warning"@,
            LoggingLevel::Error => "error"@,
            LoggingLevel::Critical => "critical"@,
            LoggingLevel::Alert => "alert"@,
            LoggingLevel::Emergency => "emergency"@,
        }
    }

    /// The word that stands for the value.
    pub fn as_str(&self) -> (text: &'static str)
        ensures
            text@ == Self::word(*self),
    {
        match self {
            LoggingLevel::Debug => "debug",
            LoggingLevel::Info => "info",
            LoggingLevel::Notice => "notice",
            LoggingLevel::Warning => "warning",
            LoggingLevel::Error => "error",
            LoggingLevel::Critical => "critical",
            LoggingLevel::Alert => "alert",
            LoggingLevel::Emergency => "emergency",
        }
    }
}

impl Wire for LoggingLevel {
    open spec fn valid(v: LoggingLevel) -> bool {
        true
    }

    open spec fn encode(v: LoggingLevel) -> JsonView {
        JsonView::String(Self::word(v))
    }

    open spec fn decode(j: JsonView) -> Result<LoggingLevel, SchemaError> {
        match j {
            JsonView::String(s) => {
                if s == "debug"@ {
                    Ok(LoggingLevel::Debug)
                } else if s == "info"@ {
                    Ok(LoggingLevel::Info)
                } else if s == "notice"@ {
                    Ok(LoggingLevel::Notice)
                } else if s == "warning"@ {
                    Ok(LoggingLevel::Warning)
                } else if s == "error"@ {
                    Ok(LoggingLevel::Error)
                } else if s == "critical"@ {
                    Ok(LoggingLevel::Critical)
                } else if s == "alert"@ {
                    Ok(LoggingLevel::Alert)
                } else if s == "emergency"@ {
                    Ok(LoggingLevel::Emergency)
                } else {
                    Err(SchemaError::ParamsShapeMismatch)
                }
            },
            _ => Err(SchemaError::ParamsShapeMismatch),
        }
    }

    fn to_json(&self) -> (j: Json) {
        Json::String(self.as_str().to_owned())
    }

    fn from_json(j: &Json) -> (r: Result<LoggingLevel, SchemaError>) {
        match j {
            Json::String(s) => {
                if same_text(s.as_str(), "debug") {
                    Ok(LoggingLevel::Debug)
                } else if same_text(s.as_str(), "info") {
                    Ok(LoggingLevel::Info)
                } else if same_text(s.as_str(), "notice") {
                    Ok(LoggingLevel::Notice)
                } else if same_text(s.as_str(), "warning") {
                    Ok(LoggingLevel::Warning)
                } else if same_text(s.as_str(), "error") {
                    Ok(LoggingLevel::Error)
                } else if same_text(s.as_str(), "critical") {
                    Ok(LoggingLevel::Critical)
                } else if same_text(s.as_str(), "alert") {
                    Ok(LoggingLevel::Alert)
                } else if same_text(s.as_str(), "emergency") {
                    Ok(LoggingLevel::Emergency)
                } else {
                    Err(SchemaError::ParamsShapeMismatch)
                }
            },
            _ => Err(SchemaError::ParamsShapeMismatch),
        }
    }

    proof fn lemma_round_trip(v: LoggingLevel) {
        reveal_strlit("debug");
        reveal_strlit("info");
        reveal_strlit("notice");
        reveal_strlit("warning");
        reveal_strlit("error");
        reveal_strlit("critical");
        reveal_strlit("alert");
        reveal_strlit("emergency");
        assert("debug"@.len() == 5);
        assert("info"@.len() == 4);
        assert("notice"@.len() == 6);
        assert("warning"@.len() == 7);
        assert("error"@.len() == 5);
        assert("critical"@.len() == 8);
        assert("alert"@.len() == 5);
        assert("emergency"@.len() == 9);
        assert("debug"@[0] == 'd');
        assert("error"@[0] == 'e');
        assert("alert"@[0] == 'a');
    }
}

impl WireSound for LoggingLevel {
    proof fn lemma_decoded_valid(j: JsonView) {
    }
}

/// The parameters of `logging/setLevel`.
#[derive(Debug, Clone)]
pub struct SetLevelParams {
    pub level: LoggingLevel,
    pub extra: JsonObject,
}

/// [`SetLevelParams`] as specifications see it.
pub struct SetLevelParamsView {
    pub level: LoggingLevel,
    pub extra: Fields,
}

impl DeepView for SetLevelParams {
    type V = SetLevelParamsView;

    open spec fn deep_view(&self) -> SetLevelParamsView {
        SetLevelParamsView {
            level: self.level.deep_view(),
            extra: self.extra.deep_view(),
        }
    }
}

impl Record for SetLevelParams {
    open spec fn names() -> Set<Seq<char>> {
        set!["level"@]
    }

    fn declares(key: &str) -> (b: bool) {
        same_text(key, "level")
    }
}

impl SetLevelParams {
    /// The declared fields of `v`, each with what is written for it.
    pub open spec fn members(v: SetLevelParamsView) -> Members {
        Seq::empty()
            .push(member::<LoggingLevel>("level"@, v.level))
    }

    /// The object that stands for `v`: its declared fields, then its other
    /// members.
    #[verifier::opaque]
    pub open spec fn written(v: SetLevelParamsView) -> JsonView {
        JsonView::Object(present(Self::members(v)) + v.extra)
    }

    /// What `j` is read as: an object in which no declared name occurs twice
    /// and every declared field reads; the first field that does not read
    /// gives the error. The other members are kept.
    #[verifier::opaque]
    pub open spec fn read(j: JsonView) -> Result<SetLevelParamsView, SchemaError> {
        match j {
            JsonView::Object(o) => {
                let level = field::<LoggingLevel>(o, "level"@);
                if collides(o, Self::names()) {
                    Err(SchemaError::FieldCollision)
                } else if level is Err {
                    Err(level->Err_0)
                } else {
                    Ok(
                        SetLevelParamsView {
                            level: level->Ok_0,
                            extra: without(o, Self::names()),
                        },
                    )
                }
            },
            _ => Err(SchemaError::ParamsShapeMismatch),
        }
    }

    /// The declared fields of a valid value have names of their own and
    /// well-formed values.
    pub proof fn lemma_members(v: SetLevelParamsView)
        requires
            Self::valid(v),
        ensures
            members_ok(Self::members(v), Self::names()),
    {
        broadcast use group_record;

        reveal_strlit("level");
        assert("level"@.len() == 5);
        LoggingLevel::lemma_round_trip(v.level);
    }
}

impl Wire for SetLevelParams {
    open spec fn valid(v: SetLevelParamsView) -> bool {
        &&& LoggingLevel::valid(v.level)
        &&& fields_wf(v.extra)
        &&& avoids(v.extra, Self::names())
    }

    open spec fn encode(v: SetLevelParamsView) -> JsonView {
        Self::written(v)
    }

    open spec fn decode(j: JsonView) -> Result<SetLevelParamsView, SchemaError> {
        Self::read(j)
    }

    fn to_json(&self) -> (j: Json) {
        let mut out = no_members();
        write_field::<LoggingLevel>(&mut out, "level", &self.level);
        write_rest(&mut out, &self.extra);
        proof {
            broadcast use group_writer;

            reveal(SetLevelParams::written);
            lemma_object_view(out);
        }
        Json::Object(out)
    }

    fn from_json(j: &Json) -> (r: Result<SetLevelParams, SchemaError>) {
        proof {
            reveal(SetLevelParams::read);
        }
        match j {
            Json::Object(entries) => {
                proof {
                    lemma_object_view(*entries);
                }
                if repeats::<SetLevelParams>(entries) {
                    return Err(SchemaError::FieldCollision);
                }
                let level = read_field::<LoggingLevel>(entries, "level")?;
                Ok(SetLevelParams { level, extra: rest::<SetLevelParams>(entries) })
            },
            _ => Err(SchemaError::ParamsShapeMismatch),
        }
    }

    proof fn lemma_round_trip(v: SetLevelParamsView) {
        reveal(SetLevelParams::written);
        reveal(SetLevelParams::read);
        let m = Self::members(v);
        Self::lemma_members(v);
        lemma_written_record(m, v.extra, Self::names());
        lemma_member_at(m, Self::names(), 0);
        LoggingLevel::lemma_round_trip(v.level);
    }
}

impl WireSound for SetLevelParams {
    proof fn lemma_decoded_valid(j: JsonView) {
        broadcast use group_record;

        reveal(SetLevelParams::written);
        reveal(SetLevelParams::read);
        let o = j->Object_0;
        LoggingLevel::lemma_decoded_valid(get(o, "level"@)->Some_0);
        lemma_without_members(o, Self::names());
    }
}

impl Layout for SetLevelParams {
    open spec fn layout(v: SetLevelParamsView) -> Members {
        Self::members(v)
    }

    open spec fn others(v: SetLevelParamsView) -> Fields {
        v.extra
    }

    proof fn lemma_layout(v: SetLevelParamsView) {
        reveal(SetLevelParams::written);
        Self::lemma_members(v);
    }
}

/// The parameters of `notifications/message`.
#[derive(Debug, Clone)]
pub struct LoggingMessageParams {
    pub level: LoggingLevel,
    pub logger: Option<String>,
    pub data: Json,
    pub extra: JsonObject,
}

/// [`LoggingMessageParams`] as specifications see it.
pub struct LoggingMessageParamsView {
    pub level: LoggingLevel,
    pub logger: Option<Seq<char>>,
    pub data: JsonView,
    pub extra: Fields,
}

impl DeepView for LoggingMessageParams {
    type V = LoggingMessageParamsView;

    open spec fn deep_view(&self) -> LoggingMessageParamsView {
        LoggingMessageParamsView {
            level: self.level.deep_view(),
            logger: self.logger.deep_view(),
            data: self.data.deep_view(),
            extra: self.extra.deep_view(),
        }
    }
}

impl Record for LoggingMessageParams {
    open spec fn names() -> Set<Seq<char>> {
        set!["level"@, "logger"@, "data"@]
    }

    fn declares(key: &str) -> (b: bool) {
        same_text(key, "level") || same_text(key, "logger") || same_text(key, "data")
    }
}

impl LoggingMessageParams {
    /// The declared fields of `v`, each with what is written for it.
    pub open spec fn members(v: LoggingMessageParamsView) -> Members {
        Seq::empty()
            .push(member::<LoggingLevel>("level"@, v.level))
            .push(opt_member::<String>("logger"@, v.logger))
            .push(member::<Json>("data"@, v.data))
    }

    /// The object that stands for `v`: its declared fields, then its other
    /// members.
    #[verifier::opaque]
    pub open spec fn written(v: LoggingMessageParamsView) -> JsonView {
        JsonView::Object(present(Self::members(v)) + v.extra)
    }

    /// What `j` is read as: an object in which no declared name occurs twice
    /// and every declared field reads; the first field that does not read
    /// gives the error. The other members are kept.
    #[verifier::opaque]
    pub open spec fn read(j: JsonView) -> Result<LoggingMessageParamsView, SchemaError> {
        match j {
            JsonView::Object(o) => {
                let level = field::<LoggingLevel>(o, "level"@);
                let logger = opt_field::<String>(o, "logger"@);
                let data = field::<Json>(o, "data"@);
                if collides(o, Self::names()) {
                    Err(SchemaError::FieldCollision)
                } else if level is Err {
                    Err(level->Err_0)
                } else if logger is Err {
                    Err(logger->Err_0)
                } else if data is Err {
                    Err(data->Err_0)
                } else {
                    Ok(
                        LoggingMessageParamsView {
                            level: level->Ok_0,
                            logger: logger->Ok_0,
                            data: data->Ok_0,
                            extra: without(o, Self::names()),
                        },
                    )
                }
            },
            _ => Err(SchemaError::ParamsShapeMismatch),
        }
    }

    /// The declared fields of a valid value have names of their own and
    /// well-formed values.
    pub proof fn lemma_members(v: LoggingMessageParamsView)
        requires
            Self::valid(v),
        ensures
            members_ok(Self::members(v), Self::names()),
    {
        broadcast use group_record;

        reveal_strlit("level");
        reveal_strlit("logger");
        reveal_strlit("data");
        assert("level"@.len() == 5);
        assert("logger"@.len() == 6);
        assert("data"@.len() == 4);
        LoggingLevel::lemma_round_trip(v.level);
        if v.logger is Some {
            String::lemma_round_trip(v.logger->Some_0);
        }
        Json::lemma_round_trip(v.data);
    }
}

impl Wire for LoggingMessageParams {
    open spec fn valid(v: LoggingMessageParamsView) -> bool {
        &&& LoggingLevel::valid(v.level)
        &&& valid_opt::<String>(v.logger)
        &&& Json::valid(v.data)
        &&& fields_wf(v.extra)
        &&& avoids(v.extra, Self::names())
    }

    open spec fn encode(v: LoggingMessageParamsView) -> JsonView {
        Self::written(v)
    }

    open spec fn decode(j: JsonView) -> Result<LoggingMessageParamsView, SchemaError> {
        Self::read(j)
    }

    fn to_json(&self) -> (j: Json) {
        let mut out = no_members();
        write_field::<LoggingLevel>(&mut out, "level", &self.level);
        write_opt_field::<String>(&mut out, "logger", &self.logger);
        write_field::<Json>(&mut out, "data", &self.data);
        write_rest(&mut out, &self.extra);
        proof {
            broadcast use group_writer;

            reveal(LoggingMessageParams::written);
            lemma_object_view(out);
        }
        Json::Object(out)
    }

    fn from_json(j: &Json) -> (r: Result<LoggingMessageParams, SchemaError>) {
        proof {
            reveal(LoggingMessageParams::read);
        }
        match j {
            Json::Object(entries) => {
                proof {
                    lemma_object_view(*entries);
                }
                if repeats::<LoggingMessageParams>(entries) {
                    return Err(SchemaError::FieldCollision);
                }
                let level = read_field::<LoggingLevel>(entries, "level")?;
                let logger = read_opt_field::<String>(entries, "logger")?;
                let data = read_field::<Json>(entries, "data")?;
                Ok(
                    LoggingMessageParams {
                        level,
                        logger,
                        data,
                        extra: rest::<LoggingMessageParams>(entries),
                    },
                )
            },
            _ => Err(SchemaError::ParamsShapeMismatch),
        }
    }

    proof fn lemma_round_trip(v: LoggingMessageParamsView) {
        reveal(LoggingMessageParams::written);
        reveal(LoggingMessageParams::read);
        let m = Self::members(v);
        Self::lemma_members(v);
        lemma_written_record(m, v.extra, Self::names());
        lemma_member_at(m, Self::names(), 0);
        lemma_member_at(m, Self::names(), 1);
        lemma_member_at(m, Self::names(), 2);
        LoggingLevel::lemma_round_trip(v.level);
        if v.logger is Some {
            String::lemma_round_trip(v.logger->Some_0);
        }
        Json::lemma_round_trip(v.data);
    }
}

impl WireSound for LoggingMessageParams {
    proof fn lemma_decoded_valid(j: JsonView) {
        broadcast use group_record;

        reveal(LoggingMessageParams::written);
        reveal(LoggingMessageParams::read);
        let o = j->Object_0;
        LoggingLevel::lemma_decoded_valid(get(o, "level"@)->Some_0);
        if get(o, "logger"@) is Some && get(o, "logger"@) != Some(JsonView::Null) {
            String::lemma_decoded_valid(get(o, "logger"@)->Some_0);
        }
        Json::lemma_decoded_valid(get(o, "data"@)->Some_0);
        lemma_without_members(o, Self::names());
    }
}

impl Layout for LoggingMessageParams {
    open spec fn layout(v: LoggingMessageParamsView) -> Members {
        Self::members(v)
    }

    open spec fn others(v: LoggingMessageParamsView) -> Fields {
        v.extra
    }

    proof fn lemma_layout(v: LoggingMessageParamsView) {
        reveal(LoggingMessageParams::written);
        Self::lemma_members(v);
    }
}

} // verus!
