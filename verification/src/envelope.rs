//! The JSON-RPC frame: the outer object that carries a payload.

use vstd::prelude::*;
use crate::error::SchemaError;
use crate::json::{find, get, lemma_object_view, same_text, Fields, Json, JsonView};
use crate::record::{
    group_record, group_writer, lemma_written_record, member, no_members, present, write_field,
    Members,
};
use crate::types::base::{RequestId, RequestIdView};
use crate::wire::Wire;

verus! {

/// The names of the members of a frame.
pub open spec fn frame_names() -> Set<Seq<char>> {
    set!["jsonrpc"@, "id"@, "method"@, "params"@, "result"@, "error"@]
}

/// The frame names the version of JSON-RPC that this library speaks.
pub open spec fn version_ok(o: Fields) -> bool {
    get(o, "jsonrpc"@) == Some(JsonView::String("2.0"@))
}

/// The method that the frame names, if it names one by a string.
pub open spec fn method_of(o: Fields) -> Option<Seq<char>> {
    match get(o, "method"@) {
        Some(JsonView::String(m)) => Some(m),
        _ => None,
    }
}

/// The identifier of a request or a response. A frame without one is
/// malformed; one that is no identifier has the wrong shape.
pub open spec fn id_of(o: Fields) -> Result<RequestIdView, SchemaError> {
    match get(o, "id"@) {
        Some(x) => RequestId::decode(x),
        None => Err(SchemaError::MalformedEnvelope),
    }
}

/// The parameters `raw`, if there are any, read as a `P`. Whatever keeps
/// them from reading, the error is that of a shape mismatch.
pub open spec fn opt_params<P: Wire>(raw: Option<JsonView>) -> Result<Option<P::V>, SchemaError> {
    match raw {
        Some(x) => match P::decode(x) {
            Ok(p) => Ok(Some(p)),
            Err(_) => Err(SchemaError::ParamsShapeMismatch),
        },
        None => Ok(None),
    }
}

/// The parameters of a method that must have them.
pub open spec fn params_of<P: Wire>(raw: Option<JsonView>) -> Result<P::V, SchemaError> {
    match opt_params::<P>(raw) {
        Ok(Some(p)) => Ok(p),
        Ok(None) => Err(SchemaError::ParamsShapeMismatch),
        Err(e) => Err(e),
    }
}

/// The parameters of a method that may leave them out: `default` then.
pub open spec fn params_or<P: Wire>(raw: Option<JsonView>, default: P::V) -> Result<
    P::V,
    SchemaError,
> {
    match opt_params::<P>(raw) {
        Ok(Some(p)) => Ok(p),
        Ok(None) => Ok(default),
        Err(e) => Err(e),
    }
}

/// The members of a request.
pub open spec fn request_members<P: Wire>(
    json_rpc: Seq<char>,
    id: RequestIdView,
    method: Seq<char>,
    params: P::V,
) -> Members {
    Seq::empty()
        .push(member::<String>("jsonrpc"@, json_rpc))
        .push(member::<RequestId>("id"@, id))
        .push(member::<String>("method"@, method))
        .push(member::<P>("params"@, params))
}

/// The members of a notification.
pub open spec fn notification_members<P: Wire>(
    json_rpc: Seq<char>,
    method: Seq<char>,
    params: P::V,
) -> Members {
    Seq::empty()
        .push(member::<String>("jsonrpc"@, json_rpc))
        .push(member::<String>("method"@, method))
        .push(member::<P>("params"@, params))
}

/// The members of a response that carries `payload` under `key`.
pub open spec fn response_members<U: Wire>(
    json_rpc: Seq<char>,
    id: RequestIdView,
    key: Seq<char>,
    payload: U::V,
) -> Members {
    Seq::empty()
        .push(member::<String>("jsonrpc"@, json_rpc))
        .push(member::<RequestId>("id"@, id))
        .push(member::<U>(key, payload))
}

/// The frame of a request.
pub open spec fn request_frame<P: Wire>(
    json_rpc: Seq<char>,
    id: RequestIdView,
    method: Seq<char>,
    params: P::V,
) -> JsonView {
    JsonView::Object(present(request_members::<P>(json_rpc, id, method, params)))
}

/// The frame of a notification.
pub open spec fn notification_frame<P: Wire>(
    json_rpc: Seq<char>,
    method: Seq<char>,
    params: P::V,
) -> JsonView {
    JsonView::Object(present(notification_members::<P>(json_rpc, method, params)))
}

/// The frame of a response that carries `payload` under `key`.
pub open spec fn response_frame<U: Wire>(
    json_rpc: Seq<char>,
    id: RequestIdView,
    key: Seq<char>,
    payload: U::V,
) -> JsonView {
    JsonView::Object(present(response_members::<U>(json_rpc, id, key, payload)))
}

/// Tells the names of a frame's members apart.
pub proof fn lemma_frame_names()
    ensures
        "jsonrpc"@ != "id"@,
        "jsonrpc"@ != "method"@,
        "jsonrpc"@ != "params"@,
        "jsonrpc"@ != "result"@,
        "jsonrpc"@ != "error"@,
        "id"@ != "method"@,
        "id"@ != "params"@,
        "id"@ != "result"@,
        "id"@ != "error"@,
        "method"@ != "params"@,
        "method"@ != "result"@,
        "method"@ != "error"@,
        "params"@ != "result"@,
        "params"@ != "error"@,
        "result"@ != "error"@,
{
    reveal_strlit("jsonrpc");
    reveal_strlit("id");
    reveal_strlit("method");
    reveal_strlit("params");
    reveal_strlit("result");
    reveal_strlit("error");
    assert("jsonrpc"@.len() == 7);
    assert("id"@.len() == 2);
    assert("method"@.len() == 6);
    assert("params"@.len() == 6);
    assert("result"@.len() == 6);
    assert("error"@.len() == 5);
    assert("method"@[0] == 'm');
    assert("params"@[0] == 'p');
    assert("result"@[0] == 'r');
}

/// The frame of a request reads back member by member.
pub proof fn lemma_request_frame<P: Wire>(
    json_rpc: Seq<char>,
    id: RequestIdView,
    method: Seq<char>,
    params: P::V,
)
    requires
        P::valid(params),
    ensures
        request_frame::<P>(json_rpc, id, method, params).wf(),
        ({
            let o = present(request_members::<P>(json_rpc, id, method, params));
            &&& get(o, "jsonrpc"@) == Some(JsonView::String(json_rpc))
            &&& method_of(o) == Some(method)
            &&& id_of(o) == Ok::<RequestIdView, SchemaError>(id)
            &&& get(o, "params"@) == Some(P::encode(params))
        }),
{
    broadcast use group_record;

    lemma_frame_names();
    P::lemma_round_trip(params);
    RequestId::lemma_round_trip(id);
    let m = request_members::<P>(json_rpc, id, method, params);
    lemma_written_record(m, Seq::empty(), frame_names());
    assert(present(m) + Seq::empty() =~= present(m));
}

/// The frame of a notification reads back member by member, and has no
/// identifier.
pub proof fn lemma_notification_frame<P: Wire>(
    json_rpc: Seq<char>,
    method: Seq<char>,
    params: P::V,
)
    requires
        P::valid(params),
    ensures
        notification_frame::<P>(json_rpc, method, params).wf(),
        ({
            let o = present(notification_members::<P>(json_rpc, method, params));
            &&& get(o, "jsonrpc"@) == Some(JsonView::String(json_rpc))
            &&& method_of(o) == Some(method)
            &&& get(o, "id"@) is None
            &&& get(o, "params"@) == Some(P::encode(params))
        }),
{
    broadcast use group_record;

    lemma_frame_names();
    P::lemma_round_trip(params);
    let m = notification_members::<P>(json_rpc, method, params);
    lemma_written_record(m, Seq::empty(), frame_names());
    assert(present(m) + Seq::empty() =~= present(m));
}

/// The frame of a response reads back member by member, and has nothing
/// under the other of `result` and `error`.
pub proof fn lemma_response_frame<U: Wire>(
    json_rpc: Seq<char>,
    id: RequestIdView,
    key: Seq<char>,
    payload: U::V,
)
    requires
        U::valid(payload),
        key == "result"@ || key == "error"@,
    ensures
        response_frame::<U>(json_rpc, id, key, payload).wf(),
        ({
            let o = present(response_members::<U>(json_rpc, id, key, payload));
            &&& get(o, "jsonrpc"@) == Some(JsonView::String(json_rpc))
            &&& id_of(o) == Ok::<RequestIdView, SchemaError>(id)
            &&& get(o, key) == Some(U::encode(payload))
            &&& key == "result"@ ==> get(o, "error"@) is None
            &&& key == "error"@ ==> get(o, "result"@) is None
        }),
{
    broadcast use group_record;

    lemma_frame_names();
    U::lemma_round_trip(payload);
    RequestId::lemma_round_trip(id);
    let m = response_members::<U>(json_rpc, id, key, payload);
    lemma_written_record(m, Seq::empty(), frame_names());
    assert(present(m) + Seq::empty() =~= present(m));
}

/// Whether the frame names version 2.0.
pub fn read_version(entries: &Vec<(String, Json)>) -> (b: bool)
    ensures
        b == version_ok(entries.deep_view()),
{
    match find(entries, "jsonrpc") {
        Some(Json::String(s)) => same_text(s.as_str(), "2.0"),
        _ => false,
    }
}

/// The method that the frame names.
pub fn read_method(entries: &Vec<(String, Json)>) -> (r: Option<&String>)
    ensures
        match r {
            Some(m) => method_of(entries.deep_view()) == Some(m@),
            None => method_of(entries.deep_view()) is None,
        },
{
    match find(entries, "method") {
        Some(Json::String(m)) => Some(m),
        _ => None,
    }
}

/// The identifier of the frame.
pub fn read_id(entries: &Vec<(String, Json)>) -> (r: Result<RequestId, SchemaError>)
    ensures
        match r {
            Ok(id) => id_of(entries.deep_view()) == Ok::<RequestIdView, SchemaError>(
                id.deep_view(),
            ),
            Err(e) => id_of(entries.deep_view()) == Err::<RequestIdView, SchemaError>(e),
        },
{
    match find(entries, "id") {
        Some(x) => RequestId::from_json(x),
        None => Err(SchemaError::MalformedEnvelope),
    }
}

/// The identifier of the message `j`: what its member `id` holds.
pub fn message_id(j: &Json) -> (r: Result<RequestId, SchemaError>)
    ensures
        match j@ {
            JsonView::Object(o) => match r {
                Ok(id) => id_of(o) == Ok::<RequestIdView, SchemaError>(id.deep_view()),
                Err(e) => id_of(o) == Err::<RequestIdView, SchemaError>(e),
            },
            _ => r is Err && r->Err_0 == SchemaError::MalformedEnvelope,
        },
{
    match j {
        Json::Object(entries) => {
            proof {
                lemma_object_view(*entries);
            }
            read_id(entries)
        },
        _ => Err(SchemaError::MalformedEnvelope),
    }
}

/// Whether the frame has a member `key`.
pub fn has_member(entries: &Vec<(String, Json)>, key: &str) -> (b: bool)
    ensures
        b == get(entries.deep_view(), key@) is Some,
{
    find(entries, key).is_some()
}

/// The parameters `raw`, if there are any, read as a `P`.
pub fn read_opt_params<P: Wire>(raw: Option<&Json>) -> (r: Result<Option<P>, SchemaError>)
    ensures
        match r {
            Ok(p) => opt_params::<P>(raw.deep_view()) == Ok::<Option<P::V>, SchemaError>(
                p.deep_view(),
            ),
            Err(e) => opt_params::<P>(raw.deep_view()) == Err::<Option<P::V>, SchemaError>(e),
        },
{
    match raw {
        Some(x) => match P::from_json(x) {
            Ok(p) => Ok(Some(p)),
            Err(_) => Err(SchemaError::ParamsShapeMismatch),
        },
        None => Ok(None),
    }
}

/// The parameters of a method that must have them.
pub fn read_params<P: Wire>(raw: Option<&Json>) -> (r: Result<P, SchemaError>)
    ensures
        match r {
            Ok(p) => params_of::<P>(raw.deep_view()) == Ok::<P::V, SchemaError>(p.deep_view()),
            Err(e) => params_of::<P>(raw.deep_view()) == Err::<P::V, SchemaError>(e),
        },
{
    match read_opt_params::<P>(raw) {
        Ok(Some(p)) => Ok(p),
        Ok(None) => Err(SchemaError::ParamsShapeMismatch),
        Err(e) => Err(e),
    }
}

/// Writes the frame of a request.
pub fn write_request<P: Wire>(json_rpc: &String, id: &RequestId, method: &str, params: &P) -> (j:
    Json)
    ensures
        j@ == request_frame::<P>(json_rpc@, id.deep_view(), method@, params.deep_view()),
{
    let mut out = no_members();
    write_field::<String>(&mut out, "jsonrpc", json_rpc);
    write_field::<RequestId>(&mut out, "id", id);
    write_field::<String>(&mut out, "method", &method.to_owned());
    write_field::<P>(&mut out, "params", params);
    proof {
        broadcast use group_writer;

        lemma_object_view(out);
    }
    Json::Object(out)
}

/// Writes the frame of a notification.
pub fn write_notification<P: Wire>(json_rpc: &String, method: &str, params: &P) -> (j: Json)
    ensures
        j@ == notification_frame::<P>(json_rpc@, method@, params.deep_view()),
{
    let mut out = no_members();
    write_field::<String>(&mut out, "jsonrpc", json_rpc);
    write_field::<String>(&mut out, "method", &method.to_owned());
    write_field::<P>(&mut out, "params", params);
    proof {
        broadcast use group_writer;

        lemma_object_view(out);
    }
    Json::Object(out)
}

/// Writes the frame of a response that carries `payload` under `key`.
pub fn write_response<U: Wire>(json_rpc: &String, id: &RequestId, key: &str, payload: &U) -> (j:
    Json)
    ensures
        j@ == response_frame::<U>(json_rpc@, id.deep_view(), key@, payload.deep_view()),
{
    let mut out = no_members();
    write_field::<String>(&mut out, "jsonrpc", json_rpc);
    write_field::<RequestId>(&mut out, "id", id);
    write_field::<U>(&mut out, key, payload);
    proof {
        broadcast use group_writer;

        lemma_object_view(out);
    }
    Json::Object(out)
}

} // verus!
