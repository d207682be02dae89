use mcp_schema::{
    deserialize, serialize, ClientNotification, ClientRequest, CompleteParams, JSONRPCError,
    JSONRPCNotification, JSONRPCRequest, JSONRPCResponse, Json, JsonNumber, JsonObject,
    LoggingLevel, MCPResultBase, PromptContent, RPCErrorDetail, ReferenceType, ResourceContents,
    Role, Root, SamplingContent, SchemaError, ServerResult, StringMap, Tool, Wire,
};
use mcp_schema::types::prompts::GetPromptParams;

#[test]
fn text_that_is_not_json_is_malformed() {
    assert!(matches!(deserialize::<Tool>("{"), Err(SchemaError::MalformedJson)));
    assert!(matches!(deserialize::<Tool>(""), Err(SchemaError::MalformedJson)));
    assert!(matches!(deserialize::<Json>("{\"a\": }"), Err(SchemaError::MalformedJson)));
    assert!(matches!(Json::parse("nul"), Err(SchemaError::MalformedJson)));
}

#[test]
fn a_frame_with_another_version_is_malformed() {
    let text = r#"{"jsonrpc":"1.0","id":1,"method":"ping"}"#;
    assert!(matches!(deserialize::<ClientRequest>(text), Err(SchemaError::MalformedEnvelope)));
    let text = r#"{"id":1,"method":"ping"}"#;
    assert!(matches!(deserialize::<ClientRequest>(text), Err(SchemaError::MalformedEnvelope)));
    let text = r#"{"jsonrpc":2.0,"id":1,"method":"ping","params":{}}"#;
    assert!(matches!(
        deserialize::<JSONRPCRequest<Json>>(text),
        Err(SchemaError::MalformedEnvelope)
    ));
    assert!(matches!(deserialize::<ClientRequest>("[]"), Err(SchemaError::MalformedEnvelope)));
}

#[test]
fn a_frame_without_a_method_is_malformed() {
    let text = r#"{"jsonrpc":"2.0","id":1}"#;
    assert!(matches!(deserialize::<ClientRequest>(text), Err(SchemaError::MalformedEnvelope)));
    let text = r#"{"jsonrpc":"2.0","id":1,"method":7}"#;
    assert!(matches!(deserialize::<ClientRequest>(text), Err(SchemaError::MalformedEnvelope)));
}

#[test]
fn a_request_has_an_identifier_and_a_notification_has_none() {
    let text = r#"{"jsonrpc":"2.0","method":"ping"}"#;
    assert!(matches!(deserialize::<ClientRequest>(text), Err(SchemaError::MalformedEnvelope)));
    let text = r#"{"jsonrpc":"2.0","id":1.5,"method":"ping"}"#;
    assert!(matches!(
        deserialize::<ClientRequest>(text),
        Err(SchemaError::InvalidIdentifierShape)
    ));
    let text = r#"{"jsonrpc":"2.0","id":null,"method":"ping"}"#;
    assert!(matches!(
        deserialize::<ClientRequest>(text),
        Err(SchemaError::InvalidIdentifierShape)
    ));
    let text = r#"{"jsonrpc":"2.0","id":1,"method":"notifications/initialized"}"#;
    assert!(matches!(
        deserialize::<ClientNotification>(text),
        Err(SchemaError::MalformedEnvelope)
    ));
    let text = r#"{"jsonrpc":"2.0","id":1,"method":"m","params":{}}"#;
    assert!(matches!(
        deserialize::<JSONRPCNotification<Json>>(text),
        Err(SchemaError::MalformedEnvelope)
    ));
}

#[test]
fn a_response_has_a_result_or_an_error_and_not_both() {
    let both = r#"{"jsonrpc":"2.0","id":1,"result":{},"error":{"code":1,"message":"m"}}"#;
    let neither = r#"{"jsonrpc":"2.0","id":1}"#;
    let result = r#"{"jsonrpc":"2.0","id":1,"result":{}}"#;
    let error = r#"{"jsonrpc":"2.0","id":1,"error":{"code":-32601,"message":"m"}}"#;
    assert!(matches!(
        deserialize::<JSONRPCResponse<MCPResultBase>>(both),
        Err(SchemaError::MalformedEnvelope)
    ));
    assert!(matches!(
        deserialize::<JSONRPCResponse<MCPResultBase>>(neither),
        Err(SchemaError::MalformedEnvelope)
    ));
    assert!(matches!(
        deserialize::<JSONRPCResponse<MCPResultBase>>(error),
        Err(SchemaError::MalformedEnvelope)
    ));
    assert!(deserialize::<JSONRPCResponse<MCPResultBase>>(result).is_ok());
    assert!(matches!(deserialize::<JSONRPCError>(both), Err(SchemaError::MalformedEnvelope)));
    assert!(matches!(deserialize::<JSONRPCError>(neither), Err(SchemaError::MalformedEnvelope)));
    assert!(matches!(deserialize::<JSONRPCError>(result), Err(SchemaError::MalformedEnvelope)));
    let read: JSONRPCError = deserialize(error).unwrap();
    assert_eq!(read.error.code, -32601);
    assert_eq!(read.error.message, "m");
    assert!(read.error.data.is_none());
}

#[test]
fn parameters_of_the_wrong_shape_are_a_mismatch() {
    let text = r#"{"jsonrpc":"2.0","id":1,"method":"tools/call","params":{}}"#;
    assert!(matches!(deserialize::<ClientRequest>(text), Err(SchemaError::ParamsShapeMismatch)));
    let text = r#"{"jsonrpc":"2.0","id":1,"method":"tools/call","params":{"name":5}}"#;
    assert!(matches!(deserialize::<ClientRequest>(text), Err(SchemaError::ParamsShapeMismatch)));
    let text = r#"{"jsonrpc":"2.0","id":1,"method":"tools/call","params":[]}"#;
    assert!(matches!(deserialize::<ClientRequest>(text), Err(SchemaError::ParamsShapeMismatch)));
    let text = r#"{"jsonrpc":"2.0","method":"notifications/cancelled","params":{"requestId":1.5}}"#;
    assert!(matches!(
        deserialize::<ClientNotification>(text),
        Err(SchemaError::ParamsShapeMismatch)
    ));
    let text = r#"{"jsonrpc":"2.0","id":1,"method":"tools/call","params":{"name":"t"}}"#;
    match deserialize::<ClientRequest>(text) {
        Ok(ClientRequest::CallTool { params, .. }) => {
            assert_eq!(params.name, "t");
            assert!(params.arguments.is_none());
        },
        other => panic!("expected a tool call, found {:?}", other),
    }
}

#[test]
fn a_record_needs_its_required_fields() {
    assert!(matches!(deserialize::<Root>(r#"{}"#), Err(SchemaError::ParamsShapeMismatch)));
    assert!(matches!(deserialize::<Root>(r#"[]"#), Err(SchemaError::ParamsShapeMismatch)));
    assert!(matches!(
        deserialize::<Root>(r#"{"uri": null}"#),
        Err(SchemaError::ParamsShapeMismatch)
    ));
    assert!(matches!(
        deserialize::<Root>(r#"{"uri": "u", "name": 3}"#),
        Err(SchemaError::ParamsShapeMismatch)
    ));
    assert!(matches!(
        deserialize::<Tool>(r#"{"name": "t", "inputSchema": {}}"#),
        Err(SchemaError::ParamsShapeMismatch)
    ));
    assert!(matches!(
        deserialize::<RPCErrorDetail>(r#"{"code": 2147483648, "message": "m"}"#),
        Err(SchemaError::ParamsShapeMismatch)
    ));
    let detail: RPCErrorDetail = deserialize(r#"{"code": -2147483648, "message": "m"}"#).unwrap();
    assert_eq!(detail.code, i32::MIN);
}

#[test]
fn the_first_field_that_does_not_read_gives_the_error() {
    let text = r#"{"ref": {"type": "ref/prompt"}, "argument": 5}"#;
    assert!(matches!(deserialize::<CompleteParams>(text), Err(SchemaError::ParamsShapeMismatch)));
    let text = r#"{"role": "user", "content": {"type": "video"}}"#;
    assert!(matches!(
        deserialize::<mcp_schema::PromptMessage>(text),
        Err(SchemaError::UnknownContentVariant)
    ));
    let text = r#"{"role": "nobody", "content": {"type": "video"}}"#;
    assert!(matches!(
        deserialize::<mcp_schema::PromptMessage>(text),
        Err(SchemaError::ParamsShapeMismatch)
    ));
}

#[test]
fn content_without_a_known_discriminator_is_unknown() {
    assert!(matches!(
        deserialize::<PromptContent>(r#"{"type":"video","text":"hi"}"#),
        Err(SchemaError::UnknownContentVariant)
    ));
    assert!(matches!(
        deserialize::<PromptContent>(r#"{"text":"hi"}"#),
        Err(SchemaError::UnknownContentVariant)
    ));
    assert!(matches!(
        deserialize::<PromptContent>(r#"{"type":5}"#),
        Err(SchemaError::UnknownContentVariant)
    ));
    assert!(matches!(
        deserialize::<PromptContent>(r#""text""#),
        Err(SchemaError::UnknownContentVariant)
    ));
    assert!(matches!(
        deserialize::<SamplingContent>(r#"{"type":"resource","resource":{"uri":"u","text":"t"}}"#),
        Err(SchemaError::UnknownContentVariant)
    ));
    assert!(matches!(
        deserialize::<ResourceContents>(r#"{"uri":"f://x"}"#),
        Err(SchemaError::UnknownContentVariant)
    ));
    assert!(matches!(
        deserialize::<PromptContent>(r#"{"type":"text"}"#),
        Err(SchemaError::ParamsShapeMismatch)
    ));
    assert!(matches!(
        deserialize::<ResourceContents>(r#"{"text":"t"}"#),
        Err(SchemaError::ParamsShapeMismatch)
    ));
}

#[test]
fn a_result_that_is_no_object_matches_no_shape() {
    assert!(matches!(deserialize::<ServerResult>("5"), Err(SchemaError::NoMatchingResultShape)));
    assert!(matches!(
        deserialize::<ServerResult>("[]"),
        Err(SchemaError::NoMatchingResultShape)
    ));
    assert!(matches!(
        deserialize::<ServerResult>(r#"{"_meta": 3}"#),
        Err(SchemaError::NoMatchingResultShape)
    ));
    assert!(matches!(
        deserialize::<JSONRPCResponse<ServerResult>>(r#"{"jsonrpc":"2.0","id":1,"result":null}"#),
        Err(SchemaError::NoMatchingResultShape)
    ));
}

#[test]
fn a_declared_name_that_occurs_twice_collides() {
    let twice = Json::Object(vec![
        ("uri".to_string(), Json::String("a".to_string())),
        ("uri".to_string(), Json::String("b".to_string())),
    ]);
    assert!(matches!(Root::from_json(&twice), Err(SchemaError::FieldCollision)));
    let apart = Json::Object(vec![
        ("name".to_string(), Json::Null),
        ("uri".to_string(), Json::String("a".to_string())),
        ("name".to_string(), Json::String("b".to_string())),
    ]);
    assert!(matches!(Root::from_json(&apart), Err(SchemaError::FieldCollision)));
    let other = Json::Object(vec![
        ("uri".to_string(), Json::String("a".to_string())),
        ("x".to_string(), Json::Null),
        ("x".to_string(), Json::Bool(true)),
    ]);
    let root = Root::from_json(&other).unwrap();
    assert_eq!(root.extra.len(), 2);
    let not_an_object = Json::Array(vec![]);
    assert!(matches!(Root::from_json(&not_an_object), Err(SchemaError::ParamsShapeMismatch)));
}

#[test]
fn every_error_has_its_description() {
    assert_eq!(SchemaError::MalformedJson.describe(), "text is not valid JSON");
    assert_eq!(SchemaError::MalformedEnvelope.describe(), "malformed JSON-RPC envelope");
    assert_eq!(
        SchemaError::InvalidIdentifierShape.describe(),
        "identifier is neither a string nor an integer"
    );
    assert_eq!(SchemaError::UnsupportedMethod.describe(), "unsupported method");
    assert_eq!(
        SchemaError::ParamsShapeMismatch.describe(),
        "payload does not have the expected shape"
    );
    assert_eq!(SchemaError::UnknownContentVariant.describe(), "unknown content variant");
    assert_eq!(SchemaError::NoMatchingResultShape.describe(), "result matches no known shape");
    assert_eq!(SchemaError::FieldCollision.describe(), "a declared field occurs more than once");
}

#[test]
fn words_are_written_in_lower_case() {
    assert_eq!(serialize(&Role::User), r#""user""#);
    assert_eq!(serialize(&Role::Assistant), r#""assistant""#);
    assert_eq!(serialize(&LoggingLevel::Emergency), r#""emergency""#);
    assert!(matches!(deserialize::<LoggingLevel>(r#""notice""#), Ok(LoggingLevel::Notice)));
    assert!(matches!(deserialize::<Role>(r#""User""#), Err(SchemaError::ParamsShapeMismatch)));
    assert!(matches!(deserialize::<Role>("1"), Err(SchemaError::ParamsShapeMismatch)));
}

#[test]
fn a_reference_names_a_resource_or_a_prompt() {
    let reference: ReferenceType = deserialize(r#"{"type":"ref/resource","uri":"u"}"#).unwrap();
    assert!(matches!(&reference, ReferenceType::Resource { uri } if uri == "u"));
    assert_eq!(serialize(&reference), r#"{"type":"ref/resource","uri":"u"}"#);
    let reference: ReferenceType = deserialize(r#"{"name":"p","type":"ref/prompt"}"#).unwrap();
    assert!(matches!(&reference, ReferenceType::Prompt { name } if name == "p"));
    assert_eq!(serialize(&reference), r#"{"type":"ref/prompt","name":"p"}"#);
    assert!(matches!(
        deserialize::<ReferenceType>(r#"{"type":"ref/tool","name":"p"}"#),
        Err(SchemaError::ParamsShapeMismatch)
    ));
    assert!(matches!(
        deserialize::<ReferenceType>(r#"{"type":"ref/prompt","uri":"u"}"#),
        Err(SchemaError::ParamsShapeMismatch)
    ));
}

#[test]
fn named_strings_are_written_as_an_object_of_strings() {
    let mut arguments = StringMap::new();
    arguments.insert("city".to_string(), "Paris".to_string());
    arguments.insert("unit".to_string(), "C".to_string());
    arguments.insert("city".to_string(), "Rome".to_string());
    assert_eq!(arguments.len(), 2);
    assert_eq!(arguments.get("city").map(|s| s.as_str()), Some("Rome"));
    assert!(arguments.get("none").is_none());
    let params = GetPromptParams {
        name: "p".to_string(),
        arguments: Some(arguments),
        extra: JsonObject::new(),
    };
    let text = serialize(&params);
    assert_eq!(text, r#"{"name":"p","arguments":{"city":"Rome","unit":"C"}}"#);
    let back: GetPromptParams = deserialize(&text).unwrap();
    assert_eq!(back.arguments.unwrap().get("unit").map(|s| s.as_str()), Some("C"));
    assert!(matches!(
        deserialize::<GetPromptParams>(r#"{"name":"p","arguments":{"city":1}}"#),
        Err(SchemaError::ParamsShapeMismatch)
    ));
}

#[test]
fn numbers_are_kept_as_they_are() {
    assert!(matches!(JsonNumber::from_i64(5), JsonNumber::PosInt(5)));
    assert!(matches!(JsonNumber::from_i64(0), JsonNumber::PosInt(0)));
    assert!(matches!(JsonNumber::from_i64(-5), JsonNumber::NegInt(-5)));
    assert_eq!(JsonNumber::PosInt(u64::MAX).as_i64(), None);
    assert_eq!(JsonNumber::PosInt(9223372036854775807).as_i64(), Some(i64::MAX));
    assert_eq!(JsonNumber::PosInt(9223372036854775808).as_i64(), None);
    assert_eq!(JsonNumber::NegInt(-1).as_i64(), Some(-1));
    assert!(JsonNumber::NegInt(-1).is_wf());
    assert!(!JsonNumber::NegInt(1).is_wf());
    let fraction = serde_json::Number::from_f64(0.5).unwrap();
    assert!(JsonNumber::Float(fraction.clone()).is_wf());
    assert_eq!(JsonNumber::Float(fraction).as_i64(), None);
    assert!(!JsonNumber::Float(serde_json::Number::from(3)).is_wf());
}

#[test]
fn numbers_go_to_the_text_layer_and_back() {
    let held = serde_json::Number::from(5u64);
    assert!(matches!(JsonNumber::from_number(&held), JsonNumber::PosInt(5)));
    let held = serde_json::Number::from(-3i64);
    assert!(matches!(JsonNumber::from_number(&held), JsonNumber::NegInt(-3)));
    let held = serde_json::Number::from(3i64);
    assert!(matches!(JsonNumber::from_number(&held), JsonNumber::PosInt(3)));
    let held = serde_json::Number::from(u64::MAX);
    assert!(matches!(JsonNumber::from_number(&held), JsonNumber::PosInt(u64::MAX)));
    let held = serde_json::Number::from_f64(-2.5).unwrap();
    match JsonNumber::from_number(&held) {
        JsonNumber::Float(n) => assert_eq!(n.as_f64(), Some(-2.5)),
        other => panic!("expected a fraction, found {:?}", other),
    }
    assert_eq!(JsonNumber::PosInt(7).to_number(), serde_json::Number::from(7u64));
    assert_eq!(JsonNumber::NegInt(-7).to_number(), serde_json::Number::from(-7i64));
    assert_eq!(JsonNumber::Float(held.clone()).to_number(), held);
    assert_eq!(JsonNumber::Float(held.clone()).clone().to_number(), held);
}

#[test]
fn text_is_read_into_values_and_written_from_them() {
    let value = Json::parse(r#" {"a": 1, "b": [true, null, -2, 1.5, "s"], "c": {}} "#).unwrap();
    let members = value.as_object().unwrap();
    assert_eq!(members.len(), 3);
    assert_eq!(members[0].0, "a");
    assert_eq!(value.get("a").unwrap().as_i64(), Some(1));
    let items = value.get("b").unwrap().as_array().unwrap();
    assert_eq!(items.len(), 5);
    assert_eq!(items[0].as_bool(), Some(true));
    assert!(items[1].is_null());
    assert!(matches!(items[2].as_number(), Some(JsonNumber::NegInt(-2))));
    match &items[3] {
        Json::Number(JsonNumber::Float(n)) => assert_eq!(n.as_f64(), Some(1.5)),
        other => panic!("expected a fraction, found {:?}", other),
    }
    assert_eq!(items[4].as_str(), Some("s"));
    assert!(value.get("c").unwrap().is_object());
    assert!(value.get("d").is_none());
    assert_eq!(value.render(), r#"{"a":1,"b":[true,null,-2,1.5,"s"],"c":{}}"#);
    assert_eq!(value.clone().render(), value.render());
    let short = Json::parse(r#"{"a":[1]}"#).unwrap();
    assert_eq!(short.render_pretty(), "{\n  \"a\": [\n    1\n  ]\n}");
    assert_eq!(Json::parse(r#"{"k": 1, "k": 2}"#).unwrap().render(), r#"{"k":2}"#);
    assert_eq!(Json::parse("18446744073709551615").unwrap().render(), "18446744073709551615");
}

#[test]
fn a_message_is_written_over_several_lines() {
    let root = Root { uri: "u".to_string(), name: None, extra: JsonObject::new() };
    assert_eq!(mcp_schema::serialize_pretty(&root), "{\n  \"uri\": \"u\"\n}");
}

#[test]
fn an_object_holds_each_key_once() {
    let mut object = JsonObject::new();
    assert!(object.is_empty());
    object.insert("a".to_string(), Json::Bool(true));
    object.insert("b".to_string(), Json::Null);
    object.insert("a".to_string(), Json::Bool(false));
    assert_eq!(object.len(), 2);
    assert_eq!(object.get("a").and_then(|j| j.as_bool()), Some(false));
    assert!(object.get("b").unwrap().is_null());
    assert!(object.get("c").is_none());
    assert_eq!(serialize(&object), r#"{"a":false,"b":null}"#);
    assert_eq!(serialize(&object.clone()), r#"{"a":false,"b":null}"#);
}

#[test]
fn messages_go_over_the_wire_as_bytes() {
    let root = Root { uri: "caf\u{e9}".to_string(), name: None, extra: JsonObject::new() };
    let bytes = mcp_schema::serialize_bytes(&root);
    assert_eq!(bytes, "{\"uri\":\"caf\u{e9}\"}".as_bytes());
    let back: Root = mcp_schema::deserialize_bytes(&bytes).unwrap();
    assert_eq!(back.uri, "caf\u{e9}");
    assert!(matches!(
        mcp_schema::deserialize_bytes::<Root>(&[0x7b, 0xff, 0x7d]),
        Err(SchemaError::MalformedJson)
    ));
    assert!(matches!(
        mcp_schema::deserialize_bytes::<Root>(b"{\"uri\": 1}"),
        Err(SchemaError::ParamsShapeMismatch)
    ));
    assert!(matches!(Json::parse_bytes(b"[1, 2"), Err(SchemaError::MalformedJson)));
    assert_eq!(Json::parse_bytes(b" [1, 2] ").unwrap().render(), "[1,2]");
}
