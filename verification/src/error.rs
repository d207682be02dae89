//! The ways in which a JSON text can fail to be a message.

use vstd::prelude::*;

verus! {

/// Why a text or a JSON value was not accepted. Each failed attempt reports
/// exactly one of these.
#[derive(Clone, Copy, Debug, PartialEq, Eq, Structural)]
pub enum SchemaError {
    /// The text is not JSON.
    MalformedJson,
    /// The outer object breaks the JSON-RPC frame: a wrong `jsonrpc`, a
    /// missing `method`, an `id` where none belongs or none where one does,
    /// or a response without exactly one of `result` and `error`.
    MalformedEnvelope,
    /// An identifier is neither a string nor an integer.
    InvalidIdentifierShape,
    /// The `method` is not one of the protocol's methods.
    UnsupportedMethod,
    /// A payload lacks a required field or holds a value of the wrong kind.
    ParamsShapeMismatch,
    /// A content object carries none of the known discriminators.
    UnknownContentVariant,
    /// A result matches none of the known result shapes.
    NoMatchingResultShape,
    /// A declared field occurs more than once in one object.
    FieldCollision,
}

impl SchemaError {
    /// A short English description.
    pub fn describe(&self) -> (text: &'static str)
        ensures
            text@ == match *self {
                SchemaError::MalformedJson => "text is not valid JSON"@,
                SchemaError::MalformedEnvelope => "malformed JSON-RPC envelope"@,
                SchemaError::InvalidIdentifierShape => {
                    "identifier is neither a string nor an integer"@
                },
                SchemaError::UnsupportedMethod => "unsupported method"@,
                SchemaError::ParamsShapeMismatch => "payload does not have the expected shape"@,
                SchemaError::UnknownContentVariant => "unknown content variant"@,
                SchemaError::NoMatchingResultShape => "result matches no known shape"@,
                SchemaError::FieldCollision => "a declared field occurs more than once"@,
            },
    {
        match self {
            SchemaError::MalformedJson => "text is not valid JSON",
            SchemaError::MalformedEnvelope => "malformed JSON-RPC envelope",
            SchemaError::InvalidIdentifierShape => "identifier is neither a string nor an integer",
            SchemaError::UnsupportedMethod => "unsupported method",
            SchemaError::ParamsShapeMismatch => "payload does not have the expected shape",
            SchemaError::UnknownContentVariant => "unknown content variant",
            SchemaError::NoMatchingResultShape => "result matches no known shape",
            SchemaError::FieldCollision => "a declared field occurs more than once",
        }
    }
}

} // verus!
