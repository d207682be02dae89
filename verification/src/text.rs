//! JSON text, read and written by `serde_json`.
//!
//! `serde_json` turns text into its own `Value` and back. What goes on
//! between a `Value` and a [`Json`] is verified here, one level at a time.

use vstd::prelude::*;
use crate::error::SchemaError;
use crate::json::{
    distinct_keys, lemma_array_view, lemma_object_view, number_content, Fields, Json, JsonNumber,
    JsonView,
};
use crate::wire::Wire;
use serde_json::{Number, Value};
use vstd::string::StrSliceExecFns;
use vstd::utf8::encode_utf8;

verus! {

/// `serde_json::Value`, which Verus does not look into.
#[verifier::external_type_specification]
#[verifier::external_body]
pub struct ExValue(serde_json::Value);

/// What a `serde_json::Value` holds: its variant, and for an array its items,
/// for an object its members in the order in which the map gives them.
pub uninterp spec fn value_content(v: Value) -> JsonView;

/// The value that `serde_json` reads from a text, if it reads one: it reads
/// none from a text that is not JSON, or that is nested too deeply for it.
pub uninterp spec fn parsed_text(text: Seq<char>) -> Option<JsonView>;

/// The value that `serde_json` reads from bytes, if it reads one: it reads
/// none from bytes that are not JSON in UTF-8, or that are nested too deeply
/// for it.
pub uninterp spec fn parsed_bytes(bytes: Seq<u8>) -> Option<JsonView>;

/// The text that `serde_json` writes for a value, on one line.
pub uninterp spec fn compact_text(j: JsonView) -> Seq<char>;

/// The text that `serde_json` writes for a value, indented.
pub uninterp spec fn pretty_text(j: JsonView) -> Seq<char>;

/// The top level of a `serde_json::Value`, with what is below it still in
/// the hands of `serde_json`.
enum Opened<'a> {
    Null,
    Bool(bool),
    Number(&'a Number),
    String(&'a String),
    Array(&'a Vec<Value>),
    Object(Vec<(&'a String, &'a Value)>),
}

/// The top level of a `serde_json::Value` that is being made.
enum Parts {
    Null,
    Bool(bool),
    Number(Number),
    String(String),
    Array(Vec<Value>),
    Object(Vec<(String, Value)>),
}

/// What the items `items` hold.
spec fn items_content(items: Seq<Value>) -> Seq<JsonView> {
    Seq::new(items.len(), |i: int| value_content(items[i]))
}

impl<'a> Opened<'a> {
    /// The members of an opened object.
    spec fn members_content(members: Seq<(&'a String, &'a Value)>) -> Fields {
        Seq::new(members.len(), |i: int| (members[i].0@, value_content(*members[i].1)))
    }

    /// What the opened value holds.
    spec fn content(self) -> JsonView {
        match self {
            Opened::Null => JsonView::Null,
            Opened::Bool(b) => JsonView::Bool(b),
            Opened::Number(n) => JsonView::Number(number_content(*n)),
            Opened::String(s) => JsonView::String(s@),
            Opened::Array(items) => JsonView::Array(items_content(items@)),
            Opened::Object(members) => JsonView::Object(Self::members_content(members@)),
        }
    }
}

impl Parts {
    /// The members of an object that is being made.
    spec fn members_content(members: Seq<(String, Value)>) -> Fields {
        Seq::new(members.len(), |i: int| (members[i].0@, value_content(members[i].1)))
    }

    /// What the value that is being made holds.
    spec fn content(self) -> JsonView {
        match self {
            Parts::Null => JsonView::Null,
            Parts::Bool(b) => JsonView::Bool(b),
            Parts::Number(n) => JsonView::Number(number_content(n)),
            Parts::String(s) => JsonView::String(s@),
            Parts::Array(items) => JsonView::Array(items_content(items@)),
            Parts::Object(members) => JsonView::Object(Self::members_content(members@)),
        }
    }

    /// No key occurs twice at the top level.
    spec fn keys_apart(self) -> bool {
        self matches Parts::Object(members) ==> distinct_keys(Self::members_content(members@))
    }
}

/// `serde_json::from_str` into a `Value`: the value that it reads from the
/// text, or nothing where it reports an error.
#[verifier::external_body]
fn value_from_text(text: &str) -> (r: Option<Value>)
    ensures
        match r {
            Some(v) => parsed_text(text@) == Some(value_content(v)),
            None => parsed_text(text@) is None,
        },
{
    serde_json::from_str::<Value>(text).ok()
}

/// `serde_json::from_slice` into a `Value`: the value that it reads from the
/// bytes, or nothing where it reports an error.
#[verifier::external_body]
fn value_from_bytes(bytes: &[u8]) -> (r: Option<Value>)
    ensures
        match r {
            Some(v) => parsed_bytes(bytes@) == Some(value_content(v)),
            None => parsed_bytes(bytes@) is None,
        },
{
    serde_json::from_slice::<Value>(bytes).ok()
}

/// Tells the variants of a `serde_json::Value` apart and hands out what each
/// holds. A map of `serde_json` holds each key once.
#[verifier::external_body]
fn open_value<'a>(v: &'a Value) -> (n: Opened<'a>)
    ensures
        n.content() == value_content(*v),
        n matches Opened::Object(members) ==> distinct_keys(Opened::members_content(members@)),
{
    match v {
        Value::Null => Opened::Null,
        Value::Bool(b) => Opened::Bool(*b),
        Value::Number(n) => Opened::Number(n),
        Value::String(s) => Opened::String(s),
        Value::Array(a) => Opened::Array(a),
        Value::Object(m) => Opened::Object(m.iter().collect()),
    }
}

/// Makes a `serde_json::Value` of the variant and contents given. Where no
/// key occurs twice, the map of an object, which keeps the order in which
/// it is filled, holds the members as they are given.
#[verifier::external_body]
fn close_parts(p: Parts) -> (v: Value)
    ensures
        p.keys_apart() ==> value_content(v) == p.content(),
{
    match p {
        Parts::Null => Value::Null,
        Parts::Bool(b) => Value::Bool(b),
        Parts::Number(n) => Value::Number(n),
        Parts::String(s) => Value::String(s),
        Parts::Array(a) => Value::Array(a),
        Parts::Object(m) => Value::Object(m.into_iter().collect()),
    }
}

/// The `Display` of a `serde_json::Value`: its text on one line.
#[verifier::external_body]
fn compact_from_value(v: &Value) -> (text: String)
    ensures
        text@ == compact_text(value_content(*v)),
{
    format!("{}", v)
}

/// The alternate `Display` of a `serde_json::Value`: its text, indented.
#[verifier::external_body]
fn pretty_from_value(v: &Value) -> (text: String)
    ensures
        text@ == pretty_text(value_content(*v)),
{
    format!("{:#}", v)
}

/// The value that a `serde_json::Value` holds. It is well formed.
#[verifier::loop_isolation(false)]
fn json_of_value(v: &Value) -> (j: Json)
    ensures
        j@ == value_content(*v),
        j@.wf(),
    decreases value_content(*v),
{
    match open_value(v) {
        Opened::Null => Json::Null,
        Opened::Bool(b) => Json::Bool(b),
        Opened::Number(n) => Json::Number(JsonNumber::from_number(n)),
        Opened::String(s) => Json::String(s.clone()),
        Opened::Array(items) => {
            let ghost all = items_content(items@);
            let mut out: Vec<Json> = Vec::new();
            let mut i: usize = 0;
            while i < items.len()
                invariant
                    i <= items.len(),
                    out.len() == i,
                    forall|k: int| 0 <= k < i ==> out[k]@ == all[k] && all[k].wf(),
                decreases items.len() - i,
            {
                assert(all[i as int] == value_content(items[i as int]));
                assert(value_content(*v) == JsonView::Array(all));
                assert(decreases_to!(value_content(*v) => value_content(*v)->Array_0[i as int]));
                let item = json_of_value(&items[i]);
                out.push(item);
                i += 1;
            }
            proof {
                lemma_array_view(out);
                assert(out.deep_view() =~= all);
            }
            Json::Array(out)
        },
        Opened::Object(members) => {
            let ghost all = Opened::members_content(members@);
            let mut out: Vec<(String, Json)> = Vec::new();
            let mut i: usize = 0;
            while i < members.len()
                invariant
                    i <= members.len(),
                    out.len() == i,
                    forall|k: int| 0 <= k < i ==> out[k].deep_view() == all[k] && all[k].1.wf(),
                decreases members.len() - i,
            {
                assert(all[i as int].1 == value_content(*members[i as int].1));
                assert(value_content(*v) == JsonView::Object(all));
                assert(decreases_to!(value_content(*v) => value_content(*v)->Object_0[i as int].1));
                let value = json_of_value(members[i].1);
                out.push((members[i].0.clone(), value));
                i += 1;
            }
            proof {
                lemma_object_view(out);
                assert(out.deep_view() =~= all);
            }
            Json::Object(out)
        },
    }
}

/// A `serde_json::Value` that holds `j`, where `j` is well formed.
#[verifier::loop_isolation(false)]
fn value_of_json(j: &Json) -> (v: Value)
    ensures
        j@.wf() ==> value_content(v) == j@,
    decreases j,
{
    match j {
        Json::Null => close_parts(Parts::Null),
        Json::Bool(b) => close_parts(Parts::Bool(*b)),
        Json::Number(n) => close_parts(Parts::Number(n.to_number())),
        Json::String(s) => close_parts(Parts::String(s.clone())),
        Json::Array(items) => {
            proof {
                lemma_array_view(*items);
            }
            let mut out: Vec<Value> = Vec::new();
            let mut i: usize = 0;
            while i < items.len()
                invariant
                    i <= items.len(),
                    out.len() == i,
                    j@.wf() ==> forall|k: int| 0 <= k < i ==> value_content(out[k]) == items[k]@,
                decreases items.len() - i,
            {
                assert(j@.wf() ==> items.deep_view()[i as int].wf());
                let item = value_of_json(&items[i]);
                out.push(item);
                i += 1;
            }
            assert(j@.wf() ==> items_content(out@) =~= items.deep_view());
            close_parts(Parts::Array(out))
        },
        Json::Object(entries) => {
            proof {
                lemma_object_view(*entries);
            }
            let mut out: Vec<(String, Value)> = Vec::new();
            let mut i: usize = 0;
            while i < entries.len()
                invariant
                    i <= entries.len(),
                    out.len() == i,
                    forall|k: int| 0 <= k < i ==> out[k].0@ == entries[k].0@,
                    j@.wf() ==> forall|k: int|
                        0 <= k < i ==> value_content(out[k].1) == entries[k].1@,
                decreases entries.len() - i,
            {
                assert(j@.wf() ==> entries.deep_view()[i as int].1.wf());
                let value = value_of_json(&entries[i].1);
                out.push((entries[i].0.clone(), value));
                i += 1;
            }
            assert(j@.wf() ==> Parts::members_content(out@) =~= entries.deep_view());
            close_parts(Parts::Object(out))
        },
    }
}

/// What a text is read as: malformed where `serde_json` reads no value from
/// it, and else the value, read as a `T`.
pub open spec fn read_text<T: Wire>(text: Seq<char>) -> Result<T::V, SchemaError> {
    match parsed_text(text) {
        Some(j) => T::decode(j),
        None => Err(SchemaError::MalformedJson),
    }
}

/// What bytes are read as: malformed where `serde_json` reads no value from
/// them, and else the value, read as a `T`.
pub open spec fn read_bytes<T: Wire>(bytes: Seq<u8>) -> Result<T::V, SchemaError> {
    match parsed_bytes(bytes) {
        Some(j) => T::decode(j),
        None => Err(SchemaError::MalformedJson),
    }
}

impl Json {
    /// Reads JSON from bytes.
    pub fn parse_bytes(bytes: &[u8]) -> (r: Result<Json, SchemaError>)
        ensures
            match r {
                Ok(j) => parsed_bytes(bytes@) == Some(j@) && j@.wf(),
                Err(e) => parsed_bytes(bytes@) is None && e == SchemaError::MalformedJson,
            },
    {
        match value_from_bytes(bytes) {
            Some(v) => Ok(json_of_value(&v)),
            None => Err(SchemaError::MalformedJson),
        }
    }

    /// Reads a JSON text.
    pub fn parse(text: &str) -> (r: Result<Json, SchemaError>)
        ensures
            match r {
                Ok(j) => parsed_text(text@) == Some(j@) && j@.wf(),
                Err(e) => parsed_text(text@) is None && e == SchemaError::MalformedJson,
            },
    {
        match value_from_text(text) {
            Some(v) => Ok(json_of_value(&v)),
            None => Err(SchemaError::MalformedJson),
        }
    }

    /// Writes the value on one line.
    pub fn render(&self) -> (text: String)
        ensures
            self@.wf() ==> text@ == compact_text(self@),
    {
        let v = value_of_json(self);
        compact_from_value(&v)
    }

    /// Writes the value over several lines, indented.
    pub fn render_pretty(&self) -> (text: String)
        ensures
            self@.wf() ==> text@ == pretty_text(self@),
    {
        let v = value_of_json(self);
        pretty_from_value(&v)
    }
}

/// Reads a message from its text.
pub fn deserialize<T: Wire>(text: &str) -> (r: Result<T, SchemaError>)
    ensures
        match r {
            Ok(v) => read_text::<T>(text@) == Ok::<T::V, SchemaError>(v.deep_view()),
            Err(e) => read_text::<T>(text@) == Err::<T::V, SchemaError>(e),
        },
{
    match Json::parse(text) {
        Ok(j) => T::from_json(&j),
        Err(e) => Err(e),
    }
}

/// Reads a message from bytes.
pub fn deserialize_bytes<T: Wire>(bytes: &[u8]) -> (r: Result<T, SchemaError>)
    ensures
        match r {
            Ok(v) => read_bytes::<T>(bytes@) == Ok::<T::V, SchemaError>(v.deep_view()),
            Err(e) => read_bytes::<T>(bytes@) == Err::<T::V, SchemaError>(e),
        },
{
    match Json::parse_bytes(bytes) {
        Ok(j) => T::from_json(&j),
        Err(e) => Err(e),
    }
}

/// Writes a message as bytes: its text on one line, in UTF-8.
pub fn serialize_bytes<T: Wire>(message: &T) -> (bytes: Vec<u8>)
    ensures
        T::valid(message.deep_view()) ==> bytes@ == encode_utf8(
            compact_text(T::encode(message.deep_view())),
        ),
{
    serialize(message).as_str().as_bytes_vec()
}

/// Writes a message as text on one line.
pub fn serialize<T: Wire>(message: &T) -> (text: String)
    ensures
        T::valid(message.deep_view()) ==> text@ == compact_text(T::encode(message.deep_view())),
{
    proof {
        if T::valid(message.deep_view()) {
            T::lemma_round_trip(message.deep_view());
        }
    }
    message.to_json().render()
}

/// Writes a message as text over several lines, indented.
pub fn serialize_pretty<T: Wire>(message: &T) -> (text: String)
    ensures
        T::valid(message.deep_view()) ==> text@ == pretty_text(T::encode(message.deep_view())),
{
    proof {
        if T::valid(message.deep_view()) {
            T::lemma_round_trip(message.deep_view());
        }
    }
    message.to_json().render_pretty()
}

} // verus!
