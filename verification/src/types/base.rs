//! Identifiers, the JSON-RPC frames, and what every payload may carry.

use vstd::prelude::*;
use crate::error::SchemaError;
use crate::json::{
    avoids, collides, fields_wf, find, get, lemma_object_view, lemma_without_members, same_text,
    without, Fields, Json, JsonNumber, JsonView,
};
use crate::record::{
    field, group_record, group_writer, lemma_member_at, lemma_written_record, member, members_ok,
    no_members, opt_field, opt_member, present, read_field, read_opt_field, repeats, rest,
    valid_opt, with, write_field, write_opt_field, write_rest, JsonObject, Layout, Members,
    Record,
};
use crate::envelope::{
    has_member, id_of, lemma_notification_frame, lemma_request_frame, lemma_response_frame,
    method_of, notification_frame, params_of, read_id, read_method, read_params, read_version,
    request_frame, response_frame, version_ok, write_notification, write_request, write_response,
};
use vstd::std_specs::cmp::PartialEqSpecImpl;
use vstd::std_specs::convert::FromSpecImpl;
use crate::wire::{Wire, WireSound};

verus! {

/// The version of JSON-RPC that every message names.
pub const JSONRPC_VERSION: &'static str = "2.0";

/// The revision of the protocol that these types follow.
pub const LATEST_PROTOCOL_VERSION: &'static str = "2024-11-05";

/// The text is not JSON.
pub const PARSE_ERROR: i32 = -32700;

/// The JSON is not a request.
pub const INVALID_REQUEST: i32 = -32600;

/// The method does not exist or cannot be had.
pub const METHOD_NOT_FOUND: i32 = -32601;

/// The parameters do not fit the method.
pub const INVALID_PARAMS: i32 = -32602;

/// The receiver failed by itself.
pub const INTERNAL_ERROR: i32 = -32603;

/// Where a list goes on.
pub type Cursor = String;

/// The identifier that ties a response to its request: a string or an
/// integer. A string and an integer are never the same identifier, whatever
/// they look like.
#[derive(Debug, Clone)]
pub enum RequestId {
    String(String),
    Number(i64),
}

/// [`RequestId`] as specifications see it.
pub enum RequestIdView {
    String(Seq<char>),
    Number(i64),
}

impl DeepView for RequestId {
    type V = RequestIdView;

    open spec fn deep_view(&self) -> RequestIdView {
        match self {
            RequestId::String(s) => RequestIdView::String(s@),
            RequestId::Number(n) => RequestIdView::Number(*n),
        }
    }
}

impl PartialEq for RequestId {
    fn eq(&self, other: &RequestId) -> (b: bool) {
        match (self, other) {
            (RequestId::String(a), RequestId::String(b)) => {
                same_text(a.as_str(), b.as_str())
            },
            (RequestId::Number(a), RequestId::Number(b)) => *a == *b,
            _ => false,
        }
    }
}

impl PartialEqSpecImpl for RequestId {
    open spec fn obeys_eq_spec() -> bool {
        true
    }

    open spec fn eq_spec(&self, other: &RequestId) -> bool {
        self.deep_view() == other.deep_view()
    }
}

impl From<i64> for RequestId {
    fn from(n: i64) -> (r: RequestId) {
        RequestId::Number(n)
    }
}

impl FromSpecImpl<i64> for RequestId {
    open spec fn obeys_from_spec() -> bool {
        true
    }

    open spec fn from_spec(n: i64) -> RequestId {
        RequestId::Number(n)
    }
}

impl<'a> From<&'a str> for RequestId {
    fn from(s: &'a str) -> (r: RequestId)
        ensures
            r.deep_view() == RequestIdView::String(s@),
    {
        RequestId::String(s.to_owned())
    }
}

/// No value of the type can be named for a string slice before it is
/// copied, so this conversion is stated on `from` itself.
impl<'a> FromSpecImpl<&'a str> for RequestId {
    open spec fn obeys_from_spec() -> bool {
        false
    }

    open spec fn from_spec(s: &'a str) -> RequestId {
        arbitrary()
    }
}

impl From<String> for RequestId {
    fn from(s: String) -> (r: RequestId) {
        RequestId::String(s)
    }
}

impl FromSpecImpl<String> for RequestId {
    open spec fn obeys_from_spec() -> bool {
        true
    }

    open spec fn from_spec(s: String) -> RequestId {
        RequestId::String(s)
    }
}

impl Wire for RequestId {
    open spec fn valid(v: RequestIdView) -> bool {
        true
    }

    open spec fn encode(v: RequestIdView) -> JsonView {
        match v {
            RequestIdView::String(s) => JsonView::String(s),
            RequestIdView::Number(n) => JsonView::Number(JsonNumber::of_int(n)),
        }
    }

    /// A string or an integer that fits 64 bits with a sign; anything else
    /// has not the shape of an identifier.
    open spec fn decode(j: JsonView) -> Result<RequestIdView, SchemaError> {
        match j {
            JsonView::String(s) => Ok(RequestIdView::String(s)),
            JsonView::Number(n) => match n.int_value() {
                Some(i) if i64::MIN <= i <= i64::MAX => Ok(RequestIdView::Number(i as i64)),
                _ => Err(SchemaError::InvalidIdentifierShape),
            },
            _ => Err(SchemaError::InvalidIdentifierShape),
        }
    }

    fn to_json(&self) -> (j: Json) {
        match self {
            RequestId::String(s) => Json::String(s.clone()),
            RequestId::Number(n) => Json::Number(JsonNumber::from_i64(*n)),
        }
    }

    fn from_json(j: &Json) -> (r: Result<RequestId, SchemaError>) {
        match j {
            Json::String(s) => Ok(RequestId::String(s.clone())),
            Json::Number(n) => match n.as_i64() {
                Some(i) => Ok(RequestId::Number(i)),
                None => Err(SchemaError::InvalidIdentifierShape),
            },
            _ => Err(SchemaError::InvalidIdentifierShape),
        }
    }

    proof fn lemma_round_trip(v: RequestIdView) {
    }
}

impl WireSound for RequestId {
    proof fn lemma_decoded_valid(j: JsonView) {
    }
}

/// The token that ties progress notifications to a request: a string or an
/// integer.
#[derive(Debug, Clone)]
pub enum ProgressToken {
    String(String),
    Number(i64),
}

/// [`ProgressToken`] as specifications see it.
pub enum ProgressTokenView {
    String(Seq<char>),
    Number(i64),
}

impl DeepView for ProgressToken {
    type V = ProgressTokenView;

    open spec fn deep_view(&self) -> ProgressTokenView {
        match self {
            ProgressToken::String(s) => ProgressTokenView::String(s@),
            ProgressToken::Number(n) => ProgressTokenView::Number(*n),
        }
    }
}

impl PartialEq for ProgressToken {
    fn eq(&self, other: &ProgressToken) -> (b: bool) {
        match (self, other) {
            (ProgressToken::String(a), ProgressToken::String(b)) => {
                same_text(a.as_str(), b.as_str())
            },
            (ProgressToken::Number(a), ProgressToken::Number(b)) => *a == *b,
            _ => false,
        }
    }
}

impl PartialEqSpecImpl for ProgressToken {
    open spec fn obeys_eq_spec() -> bool {
        true
    }

    open spec fn eq_spec(&self, other: &ProgressToken) -> bool {
        self.deep_view() == other.deep_view()
    }
}

impl From<i64> for ProgressToken {
    fn from(n: i64) -> (r: ProgressToken) {
        ProgressToken::Number(n)
    }
}

impl FromSpecImpl<i64> for ProgressToken {
    open spec fn obeys_from_spec() -> bool {
        true
    }

    open spec fn from_spec(n: i64) -> ProgressToken {
        ProgressToken::Number(n)
    }
}

impl<'a> From<&'a str> for ProgressToken {
    fn from(s: &'a str) -> (r: ProgressToken)
        ensures
            r.deep_view() == ProgressTokenView::String(s@),
    {
        ProgressToken::String(s.to_owned())
    }
}

/// No value of the type can be named for a string slice before it is
/// copied, so this conversion is stated on `from` itself.
impl<'a> FromSpecImpl<&'a str> for ProgressToken {
    open spec fn obeys_from_spec() -> bool {
        false
    }

    open spec fn from_spec(s: &'a str) -> ProgressToken {
        arbitrary()
    }
}

impl From<String> for ProgressToken {
    fn from(s: String) -> (r: ProgressToken) {
        ProgressToken::String(s)
    }
}

impl FromSpecImpl<String> for ProgressToken {
    open spec fn obeys_from_spec() -> bool {
        true
    }

    open spec fn from_spec(s: String) -> ProgressToken {
        ProgressToken::String(s)
    }
}

impl Wire for ProgressToken {
    open spec fn valid(v: ProgressTokenView) -> bool {
        true
    }

    open spec fn encode(v: ProgressTokenView) -> JsonView {
        match v {
            ProgressTokenView::String(s) => JsonView::String(s),
            ProgressTokenView::Number(n) => JsonView::Number(JsonNumber::of_int(n)),
        }
    }

    /// A string or an integer that fits 64 bits with a sign; anything else
    /// has not the shape of an identifier.
    open spec fn decode(j: JsonView) -> Result<ProgressTokenView, SchemaError> {
        match j {
            JsonView::String(s) => Ok(ProgressTokenView::String(s)),
            JsonView::Number(n) => match n.int_value() {
                Some(i) if i64::MIN <= i <= i64::MAX => Ok(ProgressTokenView::Number(i as i64)),
                _ => Err(SchemaError::InvalidIdentifierShape),
            },
            _ => Err(SchemaError::InvalidIdentifierShape),
        }
    }

    fn to_json(&self) -> (j: Json) {
        match self {
            ProgressToken::String(s) => Json::String(s.clone()),
            ProgressToken::Number(n) => Json::Number(JsonNumber::from_i64(*n)),
        }
    }

    fn from_json(j: &Json) -> (r: Result<ProgressToken, SchemaError>) {
        match j {
            Json::String(s) => Ok(ProgressToken::String(s.clone())),
            Json::Number(n) => match n.as_i64() {
                Some(i) => Ok(ProgressToken::Number(i)),
                None => Err(SchemaError::InvalidIdentifierShape),
            },
            _ => Err(SchemaError::InvalidIdentifierShape),
        }
    }

    proof fn lemma_round_trip(v: ProgressTokenView) {
    }
}

impl WireSound for ProgressToken {
    proof fn lemma_decoded_valid(j: JsonView) {
    }
}

/// What went wrong with a request: a code, a message, and whatever data the
/// sender adds.
#[derive(Debug, Clone)]
pub struct RPCErrorDetail {
    pub code: i32,
    pub message: String,
    pub data: Option<Json>,
}

/// [`RPCErrorDetail`] as specifications see it.
pub struct RPCErrorDetailView {
    pub code: i32,
    pub message: Seq<char>,
    pub data: Option<JsonView>,
}

impl DeepView for RPCErrorDetail {
    type V = RPCErrorDetailView;

    open spec fn deep_view(&self) -> RPCErrorDetailView {
        RPCErrorDetailView {
            code: self.code.deep_view(),
            message: self.message.deep_view(),
            data: self.data.deep_view(),
        }
    }
}

impl Record for RPCErrorDetail {
    open spec fn names() -> Set<Seq<char>> {
        set!["code"@, "message"@, "data"@]
    }

    fn declares(key: &str) -> (b: bool) {
        same_text(key, "code") || same_text(key, "message") || same_text(key, "data")
    }
}

impl RPCErrorDetail {
    /// The declared fields of `v`, each with what is written for it.
    pub open spec fn members(v: RPCErrorDetailView) -> Members {
        Seq::empty()
            .push(member::<i32>("code"@, v.code))
            .push(member::<String>("message"@, v.message))
            .push(opt_member::<Json>("data"@, v.data))
    }

    /// The object that stands for `v`: its declared fields.
    #[verifier::opaque]
    pub open spec fn written(v: RPCErrorDetailView) -> JsonView {
        JsonView::Object(present(Self::members(v)))
    }

    /// What `j` is read as: an object in which no declared name occurs twice
    /// and every declared field reads; the first field that does not read
    /// gives the error. Other members are passed over.
    #[verifier::opaque]
    pub open spec fn read(j: JsonView) -> Result<RPCErrorDetailView, SchemaError> {
        match j {
            JsonView::Object(o) => {
                let code = field::<i32>(o, "code"@);
                let message = field::<String>(o, "message"@);
                let data = opt_field::<Json>(o, "data"@);
                if collides(o, Self::names()) {
                    Err(SchemaError::FieldCollision)
                } else if code is Err {
                    Err(code->Err_0)
                } else if message is Err {
                    Err(message->Err_0)
                } else if data is Err {
                    Err(data->Err_0)
                } else {
                    Ok(
                        RPCErrorDetailView {
                            code: code->Ok_0,
                            message: message->Ok_0,
                            data: data->Ok_0,
                        },
                    )
                }
            },
            _ => Err(SchemaError::ParamsShapeMismatch),
        }
    }

    /// The declared fields of a valid value have names of their own and
    /// well-formed values.
    pub proof fn lemma_members(v: RPCErrorDetailView)
        requires
            Self::valid(v),
        ensures
            members_ok(Self::members(v), Self::names()),
    {
        broadcast use group_record;

        reveal_strlit("code");
        reveal_strlit("message");
        reveal_strlit("data");
        assert("code"@.len() == 4);
        assert("message"@.len() == 7);
        assert("data"@.len() == 4);
        assert("code"@[0] == 'c');
        assert("data"@[0] == 'd');
        i32::lemma_round_trip(v.code);
        String::lemma_round_trip(v.message);
        if v.data is Some {
            Json::lemma_round_trip(v.data->Some_0);
        }
    }
}

impl Wire for RPCErrorDetail {
    open spec fn valid(v: RPCErrorDetailView) -> bool {
        &&& i32::valid(v.code)
        &&& String::valid(v.message)
        &&& valid_opt::<Json>(v.data)
    }

    open spec fn encode(v: RPCErrorDetailView) -> JsonView {
        Self::written(v)
    }

    open spec fn decode(j: JsonView) -> Result<RPCErrorDetailView, SchemaError> {
        Self::read(j)
    }

    fn to_json(&self) -> (j: Json) {
        let mut out = no_members();
        write_field::<i32>(&mut out, "code", &self.code);
        write_field::<String>(&mut out, "message", &self.message);
        write_opt_field::<Json>(&mut out, "data", &self.data);
        proof {
            broadcast use group_writer;

            reveal(RPCErrorDetail::written);
            lemma_object_view(out);
        }
        Json::Object(out)
    }

    fn from_json(j: &Json) -> (r: Result<RPCErrorDetail, SchemaError>) {
        proof {
            reveal(RPCErrorDetail::read);
        }
        match j {
            Json::Object(entries) => {
                proof {
                    lemma_object_view(*entries);
                }
                if repeats::<RPCErrorDetail>(entries) {
                    return Err(SchemaError::FieldCollision);
                }
                let code = read_field::<i32>(entries, "code")?;
                let message = read_field::<String>(entries, "message")?;
                let data = read_opt_field::<Json>(entries, "data")?;
                Ok(RPCErrorDetail { code, message, data })
            },
            _ => Err(SchemaError::ParamsShapeMismatch),
        }
    }

    proof fn lemma_round_trip(v: RPCErrorDetailView) {
        reveal(RPCErrorDetail::written);
        reveal(RPCErrorDetail::read);
        let m = Self::members(v);
        Self::lemma_members(v);
        lemma_written_record(m, Seq::empty(), Self::names());
        lemma_member_at(m, Self::names(), 0);
        lemma_member_at(m, Self::names(), 1);
        lemma_member_at(m, Self::names(), 2);
        i32::lemma_round_trip(v.code);
        String::lemma_round_trip(v.message);
        if v.data is Some {
            Json::lemma_round_trip(v.data->Some_0);
        }
        assert(present(m) + Seq::empty() =~= present(m));
    }
}

impl WireSound for RPCErrorDetail {
    proof fn lemma_decoded_valid(j: JsonView) {
        broadcast use group_record;

        reveal(RPCErrorDetail::written);
        reveal(RPCErrorDetail::read);
        let o = j->Object_0;
        i32::lemma_decoded_valid(get(o, "code"@)->Some_0);
        String::lemma_decoded_valid(get(o, "message"@)->Some_0);
        if get(o, "data"@) is Some && get(o, "data"@) != Some(JsonView::Null) {
            Json::lemma_decoded_valid(get(o, "data"@)->Some_0);
        }
    }
}

impl Layout for RPCErrorDetail {
    open spec fn layout(v: RPCErrorDetailView) -> Members {
        Self::members(v)
    }

    open spec fn others(v: RPCErrorDetailView) -> Fields {
        Seq::empty()
    }

    proof fn lemma_layout(v: RPCErrorDetailView) {
        reveal(RPCErrorDetail::written);
        Self::lemma_members(v);
        assert(Self::layout(v) == Self::members(v));
        assert(Self::others(v) == Seq::<(Seq<char>, JsonView)>::empty());
        assert(fields_wf(Seq::<(Seq<char>, JsonView)>::empty()));
        assert(present(Self::members(v)) + Seq::empty() =~= present(Self::members(v)));
    }
}

/// The `_meta` member of a request: the token under which its progress is
/// reported.
#[derive(Debug, Clone)]
pub struct RequestMeta {
    pub progress_token: Option<ProgressToken>,
}

/// [`RequestMeta`] as specifications see it.
pub struct RequestMetaView {
    pub progress_token: Option<ProgressTokenView>,
}

impl DeepView for RequestMeta {
    type V = RequestMetaView;

    open spec fn deep_view(&self) -> RequestMetaView {
        RequestMetaView {
            progress_token: self.progress_token.deep_view(),
        }
    }
}

impl Record for RequestMeta {
    open spec fn names() -> Set<Seq<char>> {
        set!["progressToken"@]
    }

    fn declares(key: &str) -> (b: bool) {
        same_text(key, "progressToken")
    }
}

impl RequestMeta {
    /// The declared fields of `v`, each with what is written for it.
    pub open spec fn members(v: RequestMetaView) -> Members {
        Seq::empty()
            .push(opt_member::<ProgressToken>("progressToken"@, v.progress_token))
    }

    /// The object that stands for `v`: its declared fields.
    #[verifier::opaque]
    pub open spec fn written(v: RequestMetaView) -> JsonView {
        JsonView::Object(present(Self::members(v)))
    }

    /// What `j` is read as: an object in which no declared name occurs twice
    /// and every declared field reads; the first field that does not read
    /// gives the error. Other members are passed over.
    #[verifier::opaque]
    pub open spec fn read(j: JsonView) -> Result<RequestMetaView, SchemaError> {
        match j {
            JsonView::Object(o) => {
                let progress_token = opt_field::<ProgressToken>(o, "progressToken"@);
                if collides(o, Self::names()) {
                    Err(SchemaError::FieldCollision)
                } else if progress_token is Err {
                    Err(progress_token->Err_0)
                } else {
                    Ok(
                        RequestMetaView {
                            progress_token: progress_token->Ok_0,
                        },
                    )
                }
            },
            _ => Err(SchemaError::ParamsShapeMismatch),
        }
    }

    /// The declared fields of a valid value have names of their own and
    /// well-formed values.
    pub proof fn lemma_members(v: RequestMetaView)
        requires
            Self::valid(v),
        ensures
            members_ok(Self::members(v), Self::names()),
    {
        broadcast use group_record;

        reveal_strlit("progressToken");
        assert("progressToken"@.len() == 13);
        if v.progress_token is Some {
            ProgressToken::lemma_round_trip(v.progress_token->Some_0);
        }
    }
}

impl Wire for RequestMeta {
    open spec fn valid(v: RequestMetaView) -> bool {
        &&& valid_opt::<ProgressToken>(v.progress_token)
    }

    open spec fn encode(v: RequestMetaView) -> JsonView {
        Self::written(v)
    }

    open spec fn decode(j: JsonView) -> Result<RequestMetaView, SchemaError> {
        Self::read(j)
    }

    fn to_json(&self) -> (j: Json) {
        let mut out = no_members();
        write_opt_field::<ProgressToken>(&mut out, "progressToken", &self.progress_token);
        proof {
            broadcast use group_writer;

            reveal(RequestMeta::written);
            lemma_object_view(out);
        }
        Json::Object(out)
    }

    fn from_json(j: &Json) -> (r: Result<RequestMeta, SchemaError>) {
        proof {
            reveal(RequestMeta::read);
        }
        match j {
            Json::Object(entries) => {
                proof {
                    lemma_object_view(*entries);
                }
                if repeats::<RequestMeta>(entries) {
                    return Err(SchemaError::FieldCollision);
                }
                let progress_token = read_opt_field::<ProgressToken>(entries, "progressToken")?;
                Ok(RequestMeta { progress_token })
            },
            _ => Err(SchemaError::ParamsShapeMismatch),
        }
    }

    proof fn lemma_round_trip(v: RequestMetaView) {
        reveal(RequestMeta::written);
        reveal(RequestMeta::read);
        let m = Self::members(v);
        Self::lemma_members(v);
        lemma_written_record(m, Seq::empty(), Self::names());
        lemma_member_at(m, Self::names(), 0);
        if v.progress_token is Some {
            ProgressToken::lemma_round_trip(v.progress_token->Some_0);
        }
        assert(present(m) + Seq::empty() =~= present(m));
    }
}

impl WireSound for RequestMeta {
    proof fn lemma_decoded_valid(j: JsonView) {
        broadcast use group_record;

        reveal(RequestMeta::written);
        reveal(RequestMeta::read);
        let o = j->Object_0;
        if get(o, "progressToken"@) is Some && get(o, "progressToken"@) != Some(JsonView::Null) {
            ProgressToken::lemma_decoded_valid(get(o, "progressToken"@)->Some_0);
        }
    }
}

impl Layout for RequestMeta {
    open spec fn layout(v: RequestMetaView) -> Members {
        Self::members(v)
    }

    open spec fn others(v: RequestMetaView) -> Fields {
        Seq::empty()
    }

    proof fn lemma_layout(v: RequestMetaView) {
        reveal(RequestMeta::written);
        Self::lemma_members(v);
        assert(Self::layout(v) == Self::members(v));
        assert(Self::others(v) == Seq::<(Seq<char>, JsonView)>::empty());
        assert(fields_wf(Seq::<(Seq<char>, JsonView)>::empty()));
        assert(present(Self::members(v)) + Seq::empty() =~= present(Self::members(v)));
    }
}

/// The parameters that every request may carry.
#[derive(Debug, Clone)]
pub struct MCPRequestParams {
    pub meta: Option<RequestMeta>,
    pub extra: JsonObject,
}

/// [`MCPRequestParams`] as specifications see it.
pub struct MCPRequestParamsView {
    pub meta: Option<RequestMetaView>,
    pub extra: Fields,
}

impl DeepView for MCPRequestParams {
    type V = MCPRequestParamsView;

    open spec fn deep_view(&self) -> MCPRequestParamsView {
        MCPRequestParamsView {
            meta: self.meta.deep_view(),
            extra: self.extra.deep_view(),
        }
    }
}

impl Record for MCPRequestParams {
    open spec fn names() -> Set<Seq<char>> {
        set!["_meta"@]
    }

    fn declares(key: &str) -> (b: bool) {
        same_text(key, "_meta")
    }
}

impl MCPRequestParams {
    /// The declared fields of `v`, each with what is written for it.
    pub open spec fn members(v: MCPRequestParamsView) -> Members {
        Seq::empty()
            .push(opt_member::<RequestMeta>("_meta"@, v.meta))
    }

    /// The object that stands for `v`: its declared fields, then its other
    /// members.
    #[verifier::opaque]
    pub open spec fn written(v: MCPRequestParamsView) -> JsonView {
        JsonView::Object(present(Self::members(v)) + v.extra)
    }

    /// What `j` is read as: an object in which no declared name occurs twice
    /// and every declared field reads; the first field that does not read
    /// gives the error. The other members are kept.
    #[verifier::opaque]
    pub open spec fn read(j: JsonView) -> Result<MCPRequestParamsView, SchemaError> {
        match j {
            JsonView::Object(o) => {
                let meta = opt_field::<RequestMeta>(o, "_meta"@);
                if collides(o, Self::names()) {
                    Err(SchemaError::FieldCollision)
                } else if meta is Err {
                    Err(meta->Err_0)
                } else {
                    Ok(
                        MCPRequestParamsView {
                            meta: meta->Ok_0,
                            extra: without(o, Self::names()),
                        },
                    )
                }
            },
            _ => Err(SchemaError::ParamsShapeMismatch),
        }
    }

    /// The declared fields of a valid value have names of their own and
    /// well-formed values.
    pub proof fn lemma_members(v: MCPRequestParamsView)
        requires
            Self::valid(v),
        ensures
            members_ok(Self::members(v), Self::names()),
    {
        broadcast use group_record;

        reveal_strlit("_meta");
        assert("_meta"@.len() == 5);
        if v.meta is Some {
            RequestMeta::lemma_round_trip(v.meta->Some_0);
        }
    }
}

impl Wire for MCPRequestParams {
    open spec fn valid(v: MCPRequestParamsView) -> bool {
        &&& valid_opt::<RequestMeta>(v.meta)
        &&& fields_wf(v.extra)
        &&& avoids(v.extra, Self::names())
    }

    open spec fn encode(v: MCPRequestParamsView) -> JsonView {
        Self::written(v)
    }

    open spec fn decode(j: JsonView) -> Result<MCPRequestParamsView, SchemaError> {
        Self::read(j)
    }

    fn to_json(&self) -> (j: Json) {
        let mut out = no_members();
        write_opt_field::<RequestMeta>(&mut out, "_meta", &self.meta);
        write_rest(&mut out, &self.extra);
        proof {
            broadcast use group_writer;

            reveal(MCPRequestParams::written);
            lemma_object_view(out);
        }
        Json::Object(out)
    }

    fn from_json(j: &Json) -> (r: Result<MCPRequestParams, SchemaError>) {
        proof {
            reveal(MCPRequestParams::read);
        }
        match j {
            Json::Object(entries) => {
                proof {
                    lemma_object_view(*entries);
                }
                if repeats::<MCPRequestParams>(entries) {
                    return Err(SchemaError::FieldCollision);
                }
                let meta = read_opt_field::<RequestMeta>(entries, "_meta")?;
                Ok(MCPRequestParams { meta, extra: rest::<MCPRequestParams>(entries) })
            },
            _ => Err(SchemaError::ParamsShapeMismatch),
        }
    }

    proof fn lemma_round_trip(v: MCPRequestParamsView) {
        reveal(MCPRequestParams::written);
        reveal(MCPRequestParams::read);
        let m = Self::members(v);
        Self::lemma_members(v);
        lemma_written_record(m, v.extra, Self::names());
        lemma_member_at(m, Self::names(), 0);
        if v.meta is Some {
            RequestMeta::lemma_round_trip(v.meta->Some_0);
        }
    }
}

impl WireSound for MCPRequestParams {
    proof fn lemma_decoded_valid(j: JsonView) {
        broadcast use group_record;

        reveal(MCPRequestParams::written);
        reveal(MCPRequestParams::read);
        let o = j->Object_0;
        if get(o, "_meta"@) is Some && get(o, "_meta"@) != Some(JsonView::Null) {
            RequestMeta::lemma_decoded_valid(get(o, "_meta"@)->Some_0);
        }
        lemma_without_members(o, Self::names());
    }
}

impl Layout for MCPRequestParams {
    open spec fn layout(v: MCPRequestParamsView) -> Members {
        Self::members(v)
    }

    open spec fn others(v: MCPRequestParamsView) -> Fields {
        v.extra
    }

    proof fn lemma_layout(v: MCPRequestParamsView) {
        reveal(MCPRequestParams::written);
        Self::lemma_members(v);
    }
}

/// The parameters that every notification may carry.
#[derive(Debug, Clone)]
pub struct MCPNotificationParams {
    pub meta: Option<JsonObject>,
    pub extra: JsonObject,
}

/// [`MCPNotificationParams`] as specifications see it.
pub struct MCPNotificationParamsView {
    pub meta: Option<Fields>,
    pub extra: Fields,
}

impl DeepView for MCPNotificationParams {
    type V = MCPNotificationParamsView;

    open spec fn deep_view(&self) -> MCPNotificationParamsView {
        MCPNotificationParamsView {
            meta: self.meta.deep_view(),
            extra: self.extra.deep_view(),
        }
    }
}

impl MCPNotificationParams {
    /// The value with nothing in it.
    pub open spec fn default_view() -> MCPNotificationParamsView {
        MCPNotificationParamsView {
            meta: None,
            extra: Seq::empty(),
        }
    }
}

impl Default for MCPNotificationParams {
    fn default() -> (r: MCPNotificationParams)
        ensures
            r.deep_view() == Self::default_view(),
    {
        MCPNotificationParams {
            meta: None,
            extra: JsonObject::new(),
        }
    }
}

impl Record for MCPNotificationParams {
    open spec fn names() -> Set<Seq<char>> {
        set!["_meta"@]
    }

    fn declares(key: &str) -> (b: bool) {
        same_text(key, "_meta")
    }
}

impl MCPNotificationParams {
    /// The declared fields of `v`, each with what is written for it.
    pub open spec fn members(v: MCPNotificationParamsView) -> Members {
        Seq::empty()
            .push(opt_member::<JsonObject>("_meta"@, v.meta))
    }

    /// The object that stands for `v`: its declared fields, then its other
    /// members.
    #[verifier::opaque]
    pub open spec fn written(v: MCPNotificationParamsView) -> JsonView {
        JsonView::Object(present(Self::members(v)) + v.extra)
    }

    /// What `j` is read as: an object in which no declared name occurs twice
    /// and every declared field reads; the first field that does not read
    /// gives the error. The other members are kept.
    #[verifier::opaque]
    pub open spec fn read(j: JsonView) -> Result<MCPNotificationParamsView, SchemaError> {
        match j {
            JsonView::Object(o) => {
                let meta = opt_field::<JsonObject>(o, "_meta"@);
                if collides(o, Self::names()) {
                    Err(SchemaError::FieldCollision)
                } else if meta is Err {
                    Err(meta->Err_0)
                } else {
                    Ok(
                        MCPNotificationParamsView {
                            meta: meta->Ok_0,
                            extra: without(o, Self::names()),
                        },
                    )
                }
            },
            _ => Err(SchemaError::ParamsShapeMismatch),
        }
    }

    /// The declared fields of a valid value have names of their own and
    /// well-formed values.
    pub proof fn lemma_members(v: MCPNotificationParamsView)
        requires
            Self::valid(v),
        ensures
            members_ok(Self::members(v), Self::names()),
    {
        broadcast use group_record;

        reveal_strlit("_meta");
        assert("_meta"@.len() == 5);
        if v.meta is Some {
            JsonObject::lemma_round_trip(v.meta->Some_0);
        }
    }
}

impl Wire for MCPNotificationParams {
    open spec fn valid(v: MCPNotificationParamsView) -> bool {
        &&& valid_opt::<JsonObject>(v.meta)
        &&& fields_wf(v.extra)
        &&& avoids(v.extra, Self::names())
    }

    open spec fn encode(v: MCPNotificationParamsView) -> JsonView {
        Self::written(v)
    }

    open spec fn decode(j: JsonView) -> Result<MCPNotificationParamsView, SchemaError> {
        Self::read(j)
    }

    fn to_json(&self) -> (j: Json) {
        let mut out = no_members();
        write_opt_field::<JsonObject>(&mut out, "_meta", &self.meta);
        write_rest(&mut out, &self.extra);
        proof {
            broadcast use group_writer;

            reveal(MCPNotificationParams::written);
            lemma_object_view(out);
        }
        Json::Object(out)
    }

    fn from_json(j: &Json) -> (r: Result<MCPNotificationParams, SchemaError>) {
        proof {
            reveal(MCPNotificationParams::read);
        }
        match j {
            Json::Object(entries) => {
                proof {
                    lemma_object_view(*entries);
                }
                if repeats::<MCPNotificationParams>(entries) {
                    return Err(SchemaError::FieldCollision);
                }
                let meta = read_opt_field::<JsonObject>(entries, "_meta")?;
                Ok(
                    MCPNotificationParams {
                        meta,
                        extra: rest::<MCPNotificationParams>(entries),
                    },
                )
            },
            _ => Err(SchemaError::ParamsShapeMismatch),
        }
    }

    proof fn lemma_round_trip(v: MCPNotificationParamsView) {
        reveal(MCPNotificationParams::written);
        reveal(MCPNotificationParams::read);
        let m = Self::members(v);
        Self::lemma_members(v);
        lemma_written_record(m, v.extra, Self::names());
        lemma_member_at(m, Self::names(), 0);
        if v.meta is Some {
            JsonObject::lemma_round_trip(v.meta->Some_0);
        }
    }
}

impl WireSound for MCPNotificationParams {
    proof fn lemma_decoded_valid(j: JsonView) {
        broadcast use group_record;

        reveal(MCPNotificationParams::written);
        reveal(MCPNotificationParams::read);
        let o = j->Object_0;
        if get(o, "_meta"@) is Some && get(o, "_meta"@) != Some(JsonView::Null) {
            JsonObject::lemma_decoded_valid(get(o, "_meta"@)->Some_0);
        }
        lemma_without_members(o, Self::names());
    }
}

impl Layout for MCPNotificationParams {
    open spec fn layout(v: MCPNotificationParamsView) -> Members {
        Self::members(v)
    }

    open spec fn others(v: MCPNotificationParamsView) -> Fields {
        v.extra
    }

    proof fn lemma_layout(v: MCPNotificationParamsView) {
        reveal(MCPNotificationParams::written);
        Self::lemma_members(v);
    }
}

/// What every result may carry. Alone it is the result that reports success and
/// nothing else.
#[derive(Debug, Clone)]
pub struct MCPResultBase {
    pub meta: Option<JsonObject>,
    pub extra: JsonObject,
}

/// [`MCPResultBase`] as specifications see it.
pub struct MCPResultBaseView {
    pub meta: Option<Fields>,
    pub extra: Fields,
}

impl DeepView for MCPResultBase {
    type V = MCPResultBaseView;

    open spec fn deep_view(&self) -> MCPResultBaseView {
        MCPResultBaseView {
            meta: self.meta.deep_view(),
            extra: self.extra.deep_view(),
        }
    }
}

impl Record for MCPResultBase {
    open spec fn names() -> Set<Seq<char>> {
        set!["_meta"@]
    }

    fn declares(key: &str) -> (b: bool) {
        same_text(key, "_meta")
    }
}

impl MCPResultBase {
    /// The declared fields of `v`, each with what is written for it.
    pub open spec fn members(v: MCPResultBaseView) -> Members {
        Seq::empty()
            .push(opt_member::<JsonObject>("_meta"@, v.meta))
    }

    /// The object that stands for `v`: its declared fields, then its other
    /// members.
    #[verifier::opaque]
    pub open spec fn written(v: MCPResultBaseView) -> JsonView {
        JsonView::Object(present(Self::members(v)) + v.extra)
    }

    /// What `j` is read as: an object in which no declared name occurs twice
    /// and every declared field reads; the first field that does not read
    /// gives the error. The other members are kept.
    #[verifier::opaque]
    pub open spec fn read(j: JsonView) -> Result<MCPResultBaseView, SchemaError> {
        match j {
            JsonView::Object(o) => {
                let meta = opt_field::<JsonObject>(o, "_meta"@);
                if collides(o, Self::names()) {
                    Err(SchemaError::FieldCollision)
                } else if meta is Err {
                    Err(meta->Err_0)
                } else {
                    Ok(
                        MCPResultBaseView {
                            meta: meta->Ok_0,
                            extra: without(o, Self::names()),
                        },
                    )
                }
            },
            _ => Err(SchemaError::ParamsShapeMismatch),
        }
    }

    /// The declared fields of a valid value have names of their own and
    /// well-formed values.
    pub proof fn lemma_members(v: MCPResultBaseView)
        requires
            Self::valid(v),
        ensures
            members_ok(Self::members(v), Self::names()),
    {
        broadcast use group_record;

        reveal_strlit("_meta");
        assert("_meta"@.len() == 5);
        if v.meta is Some {
            JsonObject::lemma_round_trip(v.meta->Some_0);
        }
    }
}

impl Wire for MCPResultBase {
    open spec fn valid(v: MCPResultBaseView) -> bool {
        &&& valid_opt::<JsonObject>(v.meta)
        &&& fields_wf(v.extra)
        &&& avoids(v.extra, Self::names())
    }

    open spec fn encode(v: MCPResultBaseView) -> JsonView {
        Self::written(v)
    }

    open spec fn decode(j: JsonView) -> Result<MCPResultBaseView, SchemaError> {
        Self::read(j)
    }

    fn to_json(&self) -> (j: Json) {
        let mut out = no_members();
        write_opt_field::<JsonObject>(&mut out, "_meta", &self.meta);
        write_rest(&mut out, &self.extra);
        proof {
            broadcast use group_writer;

            reveal(MCPResultBase::written);
            lemma_object_view(out);
        }
        Json::Object(out)
    }

    fn from_json(j: &Json) -> (r: Result<MCPResultBase, SchemaError>) {
        proof {
            reveal(MCPResultBase::read);
        }
        match j {
            Json::Object(entries) => {
                proof {
                    lemma_object_view(*entries);
                }
                if repeats::<MCPResultBase>(entries) {
                    return Err(SchemaError::FieldCollision);
                }
                let meta = read_opt_field::<JsonObject>(entries, "_meta")?;
                Ok(MCPResultBase { meta, extra: rest::<MCPResultBase>(entries) })
            },
            _ => Err(SchemaError::ParamsShapeMismatch),
        }
    }

    proof fn lemma_round_trip(v: MCPResultBaseView) {
        reveal(MCPResultBase::written);
        reveal(MCPResultBase::read);
        let m = Self::members(v);
        Self::lemma_members(v);
        lemma_written_record(m, v.extra, Self::names());
        lemma_member_at(m, Self::names(), 0);
        if v.meta is Some {
            JsonObject::lemma_round_trip(v.meta->Some_0);
        }
    }
}

impl WireSound for MCPResultBase {
    proof fn lemma_decoded_valid(j: JsonView) {
        broadcast use group_record;

        reveal(MCPResultBase::written);
        reveal(MCPResultBase::read);
        let o = j->Object_0;
        if get(o, "_meta"@) is Some && get(o, "_meta"@) != Some(JsonView::Null) {
            JsonObject::lemma_decoded_valid(get(o, "_meta"@)->Some_0);
        }
        lemma_without_members(o, Self::names());
    }
}

impl Layout for MCPResultBase {
    open spec fn layout(v: MCPResultBaseView) -> Members {
        Self::members(v)
    }

    open spec fn others(v: MCPResultBaseView) -> Fields {
        v.extra
    }

    proof fn lemma_layout(v: MCPResultBaseView) {
        reveal(MCPResultBase::written);
        Self::lemma_members(v);
    }
}

/// The parameters of `ping`: none.
#[derive(Debug, Clone)]
pub struct PingParams {}

/// [`PingParams`] as specifications see it.
pub struct PingParamsView {}

impl DeepView for PingParams {
    type V = PingParamsView;

    open spec fn deep_view(&self) -> PingParamsView {
        PingParamsView {  }
    }
}

impl PingParams {
    /// The value with nothing in it.
    pub open spec fn default_view() -> PingParamsView {
        PingParamsView {  }
    }
}

impl Default for PingParams {
    fn default() -> (r: PingParams)
        ensures
            r.deep_view() == Self::default_view(),
    {
        PingParams {  }
    }
}

impl Record for PingParams {
    open spec fn names() -> Set<Seq<char>> {
        Set::empty()
    }

    fn declares(key: &str) -> (b: bool) {
        false
    }
}

impl PingParams {
    /// The declared fields of `v`, each with what is written for it.
    pub open spec fn members(v: PingParamsView) -> Members {
        Seq::empty()
    }

    /// The object that stands for `v`: its declared fields.
    #[verifier::opaque]
    pub open spec fn written(v: PingParamsView) -> JsonView {
        JsonView::Object(present(Self::members(v)))
    }

    /// What `j` is read as: an object in which no declared name occurs twice
    /// and every declared field reads; the first field that does not read
    /// gives the error. Other members are passed over.
    #[verifier::opaque]
    pub open spec fn read(j: JsonView) -> Result<PingParamsView, SchemaError> {
        match j {
            JsonView::Object(o) => {
                if collides(o, Self::names()) {
                    Err(SchemaError::FieldCollision)
                } else {
                    Ok(PingParamsView {  })
                }
            },
            _ => Err(SchemaError::ParamsShapeMismatch),
        }
    }

    /// The declared fields of a valid value have names of their own and
    /// well-formed values.
    pub proof fn lemma_members(v: PingParamsView)
        requires
            Self::valid(v),
        ensures
            members_ok(Self::members(v), Self::names()),
    {
        broadcast use group_record;

    }
}

impl Wire for PingParams {
    open spec fn valid(v: PingParamsView) -> bool {
        true
    }

    open spec fn encode(v: PingParamsView) -> JsonView {
        Self::written(v)
    }

    open spec fn decode(j: JsonView) -> Result<PingParamsView, SchemaError> {
        Self::read(j)
    }

    fn to_json(&self) -> (j: Json) {
        let mut out = no_members();
        proof {
            broadcast use group_writer;

            reveal(PingParams::written);
            lemma_object_view(out);
        }
        Json::Object(out)
    }

    fn from_json(j: &Json) -> (r: Result<PingParams, SchemaError>) {
        proof {
            reveal(PingParams::read);
        }
        match j {
            Json::Object(entries) => {
                proof {
                    lemma_object_view(*entries);
                }
                if repeats::<PingParams>(entries) {
                    return Err(SchemaError::FieldCollision);
                }
                Ok(PingParams {  })
            },
            _ => Err(SchemaError::ParamsShapeMismatch),
        }
    }

    proof fn lemma_round_trip(v: PingParamsView) {
        reveal(PingParams::written);
        reveal(PingParams::read);
        let m = Self::members(v);
        Self::lemma_members(v);
        lemma_written_record(m, Seq::empty(), Self::names());
        assert(present(m) + Seq::empty() =~= present(m));
    }
}

impl WireSound for PingParams {
    proof fn lemma_decoded_valid(j: JsonView) {
        broadcast use group_record;

        reveal(PingParams::written);
        reveal(PingParams::read);
    }
}

impl Layout for PingParams {
    open spec fn layout(v: PingParamsView) -> Members {
        Self::members(v)
    }

    open spec fn others(v: PingParamsView) -> Fields {
        Seq::empty()
    }

    proof fn lemma_layout(v: PingParamsView) {
        reveal(PingParams::written);
        Self::lemma_members(v);
        assert(Self::layout(v) == Self::members(v));
        assert(Self::others(v) == Seq::<(Seq<char>, JsonView)>::empty());
        assert(fields_wf(Seq::<(Seq<char>, JsonView)>::empty()));
        assert(present(Self::members(v)) + Seq::empty() =~= present(Self::members(v)));
    }
}

/// The result that reports success and nothing else.
pub type EmptyResult = MCPResultBase;

/// A request: a method, its parameters, and the identifier under which the
/// answer comes.
#[derive(Debug, Clone)]
pub struct JSONRPCRequest<T> {
    pub json_rpc: String,
    pub method: String,
    pub id: RequestId,
    pub params: T,
}

/// [`JSONRPCRequest`] as specifications see it.
pub struct JSONRPCRequestView<P> {
    pub json_rpc: Seq<char>,
    pub method: Seq<char>,
    pub id: RequestIdView,
    pub params: P,
}

impl<T: DeepView> DeepView for JSONRPCRequest<T> {
    type V = JSONRPCRequestView<T::V>;

    open spec fn deep_view(&self) -> JSONRPCRequestView<T::V> {
        JSONRPCRequestView {
            json_rpc: self.json_rpc@,
            method: self.method@,
            id: self.id.deep_view(),
            params: self.params.deep_view(),
        }
    }
}

impl<T: Wire> Wire for JSONRPCRequest<T> {
    /// The version is 2.0 and the parameters are valid.
    open spec fn valid(v: JSONRPCRequestView<T::V>) -> bool {
        v.json_rpc == "2.0"@ && T::valid(v.params)
    }

    open spec fn encode(v: JSONRPCRequestView<T::V>) -> JsonView {
        request_frame::<T>(v.json_rpc, v.id, v.method, v.params)
    }

    /// An object that names version 2.0 and, by a string, a method, and has
    /// an identifier and parameters that read as a `T`. The checks are made
    /// in this order, and the first that fails gives the error.
    open spec fn decode(j: JsonView) -> Result<JSONRPCRequestView<T::V>, SchemaError> {
        match j {
            JsonView::Object(o) => {
                if !version_ok(o) {
                    Err(SchemaError::MalformedEnvelope)
                } else if method_of(o) is None {
                    Err(SchemaError::MalformedEnvelope)
                } else if id_of(o) is Err {
                    Err(id_of(o)->Err_0)
                } else if params_of::<T>(get(o, "params"@)) is Err {
                    Err(params_of::<T>(get(o, "params"@))->Err_0)
                } else {
                    Ok(
                        JSONRPCRequestView {
                            json_rpc: "2.0"@,
                            method: method_of(o)->Some_0,
                            id: id_of(o)->Ok_0,
                            params: params_of::<T>(get(o, "params"@))->Ok_0,
                        },
                    )
                }
            },
            _ => Err(SchemaError::MalformedEnvelope),
        }
    }

    fn to_json(&self) -> (j: Json) {
        write_request::<T>(&self.json_rpc, &self.id, self.method.as_str(), &self.params)
    }

    fn from_json(j: &Json) -> (r: Result<JSONRPCRequest<T>, SchemaError>) {
        match j {
            Json::Object(entries) => {
                proof {
                    lemma_object_view(*entries);
                }
                if !read_version(entries) {
                    return Err(SchemaError::MalformedEnvelope);
                }
                let method = match read_method(entries) {
                    Some(m) => m.clone(),
                    None => {
                        return Err(SchemaError::MalformedEnvelope);
                    },
                };
                let id = read_id(entries)?;
                let params = read_params::<T>(find(entries, "params"))?;
                Ok(JSONRPCRequest { json_rpc: "2.0".to_owned(), method, id, params })
            },
            _ => Err(SchemaError::MalformedEnvelope),
        }
    }

    proof fn lemma_round_trip(v: JSONRPCRequestView<T::V>) {
        lemma_request_frame::<T>(v.json_rpc, v.id, v.method, v.params);
        T::lemma_round_trip(v.params);
    }
}

impl<T: WireSound> WireSound for JSONRPCRequest<T> {
    proof fn lemma_decoded_valid(j: JsonView) {
        broadcast use group_record;

        let o = j->Object_0;
        T::lemma_decoded_valid(get(o, "params"@)->Some_0);
    }
}

/// A notification: a method and its parameters. No answer comes, so it has
/// no identifier.
#[derive(Debug, Clone)]
pub struct JSONRPCNotification<T> {
    pub json_rpc: String,
    pub method: String,
    pub params: T,
}

/// [`JSONRPCNotification`] as specifications see it.
pub struct JSONRPCNotificationView<P> {
    pub json_rpc: Seq<char>,
    pub method: Seq<char>,
    pub params: P,
}

impl<T: DeepView> DeepView for JSONRPCNotification<T> {
    type V = JSONRPCNotificationView<T::V>;

    open spec fn deep_view(&self) -> JSONRPCNotificationView<T::V> {
        JSONRPCNotificationView {
            json_rpc: self.json_rpc@,
            method: self.method@,
            params: self.params.deep_view(),
        }
    }
}

impl<T: Wire> Wire for JSONRPCNotification<T> {
    /// The version is 2.0 and the parameters are valid.
    open spec fn valid(v: JSONRPCNotificationView<T::V>) -> bool {
        v.json_rpc == "2.0"@ && T::valid(v.params)
    }

    open spec fn encode(v: JSONRPCNotificationView<T::V>) -> JsonView {
        notification_frame::<T>(v.json_rpc, v.method, v.params)
    }

    /// An object that names version 2.0 and, by a string, a method, and has
    /// no identifier, and parameters that read as a `T`. The checks are made
    /// in this order, and the first that fails gives the error.
    open spec fn decode(j: JsonView) -> Result<JSONRPCNotificationView<T::V>, SchemaError> {
        match j {
            JsonView::Object(o) => {
                if !version_ok(o) {
                    Err(SchemaError::MalformedEnvelope)
                } else if method_of(o) is None {
                    Err(SchemaError::MalformedEnvelope)
                } else if get(o, "id"@) is Some {
                    Err(SchemaError::MalformedEnvelope)
                } else if params_of::<T>(get(o, "params"@)) is Err {
                    Err(params_of::<T>(get(o, "params"@))->Err_0)
                } else {
                    Ok(
                        JSONRPCNotificationView {
                            json_rpc: "2.0"@,
                            method: method_of(o)->Some_0,
                            params: params_of::<T>(get(o, "params"@))->Ok_0,
                        },
                    )
                }
            },
            _ => Err(SchemaError::MalformedEnvelope),
        }
    }

    fn to_json(&self) -> (j: Json) {
        write_notification::<T>(&self.json_rpc, self.method.as_str(), &self.params)
    }

    fn from_json(j: &Json) -> (r: Result<JSONRPCNotification<T>, SchemaError>) {
        match j {
            Json::Object(entries) => {
                proof {
                    lemma_object_view(*entries);
                }
                if !read_version(entries) {
                    return Err(SchemaError::MalformedEnvelope);
                }
                let method = match read_method(entries) {
                    Some(m) => m.clone(),
                    None => {
                        return Err(SchemaError::MalformedEnvelope);
                    },
                };
                if has_member(entries, "id") {
                    return Err(SchemaError::MalformedEnvelope);
                }
                let params = read_params::<T>(find(entries, "params"))?;
                Ok(JSONRPCNotification { json_rpc: "2.0".to_owned(), method, params })
            },
            _ => Err(SchemaError::MalformedEnvelope),
        }
    }

    proof fn lemma_round_trip(v: JSONRPCNotificationView<T::V>) {
        lemma_notification_frame::<T>(v.json_rpc, v.method, v.params);
        T::lemma_round_trip(v.params);
    }
}

impl<T: WireSound> WireSound for JSONRPCNotification<T> {
    proof fn lemma_decoded_valid(j: JsonView) {
        broadcast use group_record;

        let o = j->Object_0;
        T::lemma_decoded_valid(get(o, "params"@)->Some_0);
    }
}

/// The answer to a request that succeeded.
#[derive(Debug, Clone)]
pub struct JSONRPCResponse<U> {
    pub json_rpc: String,
    pub id: RequestId,
    pub result: U,
}

/// [`JSONRPCResponse`] as specifications see it.
pub struct JSONRPCResponseView<R> {
    pub json_rpc: Seq<char>,
    pub id: RequestIdView,
    pub result: R,
}

impl<U: DeepView> DeepView for JSONRPCResponse<U> {
    type V = JSONRPCResponseView<U::V>;

    open spec fn deep_view(&self) -> JSONRPCResponseView<U::V> {
        JSONRPCResponseView {
            json_rpc: self.json_rpc@,
            id: self.id.deep_view(),
            result: self.result.deep_view(),
        }
    }
}

impl<U: Wire> Wire for JSONRPCResponse<U> {
    /// The version is 2.0 and the result is valid.
    open spec fn valid(v: JSONRPCResponseView<U::V>) -> bool {
        v.json_rpc == "2.0"@ && U::valid(v.result)
    }

    open spec fn encode(v: JSONRPCResponseView<U::V>) -> JsonView {
        response_frame::<U>(v.json_rpc, v.id, "result"@, v.result)
    }

    /// An object that names version 2.0, has a result and no error, and has
    /// an identifier; the result reads as a `U`. The checks are made in this
    /// order, and the first that fails gives the error.
    open spec fn decode(j: JsonView) -> Result<JSONRPCResponseView<U::V>, SchemaError> {
        match j {
            JsonView::Object(o) => {
                if !version_ok(o) {
                    Err(SchemaError::MalformedEnvelope)
                } else if get(o, "result"@) is None || get(o, "error"@) is Some {
                    Err(SchemaError::MalformedEnvelope)
                } else if id_of(o) is Err {
                    Err(id_of(o)->Err_0)
                } else {
                    match U::decode(get(o, "result"@)->Some_0) {
                        Ok(result) => Ok(
                            JSONRPCResponseView { json_rpc: "2.0"@, id: id_of(o)->Ok_0, result },
                        ),
                        Err(e) => Err(e),
                    }
                }
            },
            _ => Err(SchemaError::MalformedEnvelope),
        }
    }

    fn to_json(&self) -> (j: Json) {
        write_response::<U>(&self.json_rpc, &self.id, "result", &self.result)
    }

    fn from_json(j: &Json) -> (r: Result<JSONRPCResponse<U>, SchemaError>) {
        match j {
            Json::Object(entries) => {
                proof {
                    lemma_object_view(*entries);
                }
                if !read_version(entries) {
                    return Err(SchemaError::MalformedEnvelope);
                }
                if has_member(entries, "error") {
                    return Err(SchemaError::MalformedEnvelope);
                }
                match find(entries, "result") {
                    Some(x) => {
                        let id = read_id(entries)?;
                        let result = U::from_json(x)?;
                        Ok(JSONRPCResponse { json_rpc: "2.0".to_owned(), id, result })
                    },
                    None => Err(SchemaError::MalformedEnvelope),
                }
            },
            _ => Err(SchemaError::MalformedEnvelope),
        }
    }

    proof fn lemma_round_trip(v: JSONRPCResponseView<U::V>) {
        lemma_response_frame::<U>(v.json_rpc, v.id, "result"@, v.result);
        U::lemma_round_trip(v.result);
    }
}

impl<U: WireSound> WireSound for JSONRPCResponse<U> {
    proof fn lemma_decoded_valid(j: JsonView) {
        broadcast use group_record;

        let o = j->Object_0;
        U::lemma_decoded_valid(get(o, "result"@)->Some_0);
    }
}

/// The answer to a request that failed.
#[derive(Debug, Clone)]
pub struct JSONRPCError {
    pub json_rpc: String,
    pub id: RequestId,
    pub error: RPCErrorDetail,
}

/// [`JSONRPCError`] as specifications see it.
pub struct JSONRPCErrorView {
    pub json_rpc: Seq<char>,
    pub id: RequestIdView,
    pub error: RPCErrorDetailView,
}

impl DeepView for JSONRPCError {
    type V = JSONRPCErrorView;

    open spec fn deep_view(&self) -> JSONRPCErrorView {
        JSONRPCErrorView {
            json_rpc: self.json_rpc@,
            id: self.id.deep_view(),
            error: self.error.deep_view(),
        }
    }
}

impl Wire for JSONRPCError {
    /// The version is 2.0 and the error is valid.
    open spec fn valid(v: JSONRPCErrorView) -> bool {
        v.json_rpc == "2.0"@ && RPCErrorDetail::valid(v.error)
    }

    open spec fn encode(v: JSONRPCErrorView) -> JsonView {
        response_frame::<RPCErrorDetail>(v.json_rpc, v.id, "error"@, v.error)
    }

    /// An object that names version 2.0, has an error and no result, and has
    /// an identifier; the error reads as an [`RPCErrorDetail`]. The checks
    /// are made in this order, and the first that fails gives the error.
    open spec fn decode(j: JsonView) -> Result<JSONRPCErrorView, SchemaError> {
        match j {
            JsonView::Object(o) => {
                if !version_ok(o) {
                    Err(SchemaError::MalformedEnvelope)
                } else if get(o, "error"@) is None || get(o, "result"@) is Some {
                    Err(SchemaError::MalformedEnvelope)
                } else if id_of(o) is Err {
                    Err(id_of(o)->Err_0)
                } else {
                    match RPCErrorDetail::decode(get(o, "error"@)->Some_0) {
                        Ok(error) => Ok(
                            JSONRPCErrorView { json_rpc: "2.0"@, id: id_of(o)->Ok_0, error },
                        ),
                        Err(e) => Err(e),
                    }
                }
            },
            _ => Err(SchemaError::MalformedEnvelope),
        }
    }

    fn to_json(&self) -> (j: Json) {
        write_response::<RPCErrorDetail>(&self.json_rpc, &self.id, "error", &self.error)
    }

    fn from_json(j: &Json) -> (r: Result<JSONRPCError, SchemaError>) {
        match j {
            Json::Object(entries) => {
                proof {
                    lemma_object_view(*entries);
                }
                if !read_version(entries) {
                    return Err(SchemaError::MalformedEnvelope);
                }
                if has_member(entries, "result") {
                    return Err(SchemaError::MalformedEnvelope);
                }
                match find(entries, "error") {
                    Some(x) => {
                        let id = read_id(entries)?;
                        let error = RPCErrorDetail::from_json(x)?;
                        Ok(JSONRPCError { json_rpc: "2.0".to_owned(), id, error })
                    },
                    None => Err(SchemaError::MalformedEnvelope),
                }
            },
            _ => Err(SchemaError::MalformedEnvelope),
        }
    }

    proof fn lemma_round_trip(v: JSONRPCErrorView) {
        lemma_response_frame::<RPCErrorDetail>(v.json_rpc, v.id, "error"@, v.error);
        RPCErrorDetail::lemma_round_trip(v.error);
    }
}

impl WireSound for JSONRPCError {
    proof fn lemma_decoded_valid(j: JsonView) {
        broadcast use group_record;

        let o = j->Object_0;
        RPCErrorDetail::lemma_decoded_valid(get(o, "error"@)->Some_0);
    }
}

} // verus!
