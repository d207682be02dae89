use mcp_schema::envelope::message_id;
use mcp_schema::types::common::Annotated;
use mcp_schema::{
    deserialize, serialize, BlobResourceContents, CallToolResult, ClientNotification,
    ClientRequest, Implementation, InitializeParams, Json, JsonObject, MCPResultBase,
    PromptContent, RequestId, ResourceContents, Root, SchemaError, ServerNotification,
    ServerRequest, ServerResult, TextContent, TextResourceContents, Tool, ToolInputSchema, Wire,
};

fn json(text: &str) -> Json {
    Json::parse(text).unwrap()
}

fn shown<T: std::fmt::Debug>(value: &T) -> String {
    format!("{:?}", value)
}

#[test]
fn reading_what_was_written_gives_the_value_back() {
    let mut extra = JsonObject::new();
    extra.insert("x-vendor".to_string(), json(r#"{"a": [1, 2, {"b": null}]}"#));
    extra.insert("snake_key".to_string(), Json::Bool(false));
    let tool = Tool {
        name: "search".to_string(),
        title: None,
        description: Some("Looks things up".to_string()),
        input_schema: ToolInputSchema {
            type_: "object".to_string(),
            properties: None,
            required: Some(vec!["query".to_string()]),
        },
        output_schema: Some(json(r#"{"type": "object"}"#)),
        annotations: None,
        extra,
    };
    let back = Tool::from_json(&tool.to_json()).unwrap();
    assert_eq!(shown(&back), shown(&tool));
    assert_eq!(back.extra.len(), 2);
    assert!(back.extra.get("x-vendor").is_some());
    assert!(back.extra.get("snake_key").is_some());
}

#[test]
fn reading_what_was_written_as_text_gives_the_value_back() {
    let request = ClientRequest::Initialize {
        json_rpc: "2.0".to_string(),
        id: RequestId::String("a-1".to_string()),
        params: InitializeParams {
            protocol_version: "2024-11-05".to_string(),
            capabilities: Default::default(),
            client_info: Implementation {
                name: "client".to_string(),
                version: "1".to_string(),
                extra: Default::default(),
            },
        },
    };
    let text = serialize(&request);
    let back: ClientRequest = deserialize(&text).unwrap();
    assert_eq!(shown(&back), shown(&request));
}

#[test]
fn a_round_trip_keeps_every_union() {
    let content = PromptContent::Text(TextContent {
        kind: "text".to_string(),
        text: "hi".to_string(),
        annotated: Annotated { annotations: None, extra: JsonObject::new() },
    });
    let result = ServerResult::CallTool(CallToolResult {
        meta: None,
        content: vec![content],
        structured_content: None,
        is_error: Some(true),
        extra: JsonObject::new(),
    });
    let back = ServerResult::from_json(&result.to_json()).unwrap();
    assert_eq!(shown(&back), shown(&result));

    let contents = ResourceContents::Blob(BlobResourceContents {
        uri: "f://x".to_string(),
        mime_type: Some("image/png".to_string()),
        blob: "AAA=".to_string(),
    });
    let back = ResourceContents::from_json(&contents.to_json()).unwrap();
    assert_eq!(shown(&back), shown(&contents));
}

#[test]
fn an_empty_optional_field_is_not_written() {
    let root = Root { uri: "file:///tmp".to_string(), name: None, extra: JsonObject::new() };
    let written = root.to_json();
    assert!(written.get("name").is_none());
    assert_eq!(written.as_object().unwrap().len(), 1);
    assert_eq!(serialize(&root), r#"{"uri":"file:///tmp"}"#);

    let named = Root {
        uri: "file:///tmp".to_string(),
        name: Some("tmp".to_string()),
        extra: JsonObject::new(),
    };
    assert_eq!(serialize(&named), r#"{"uri":"file:///tmp","name":"tmp"}"#);
}

#[test]
fn a_null_optional_field_reads_as_empty() {
    let root: Root = deserialize(r#"{"uri": "file:///tmp", "name": null}"#).unwrap();
    assert!(root.name.is_none());
    assert!(root.extra.is_empty());
}

#[test]
fn declared_fields_are_written_in_camel_case_and_other_members_as_they_are() {
    let mut extra = JsonObject::new();
    extra.insert("snake_key".to_string(), Json::Bool(true));
    let implementation =
        Implementation { name: "n".to_string(), version: "v".to_string(), extra };
    let params = InitializeParams {
        protocol_version: "2024-11-05".to_string(),
        capabilities: Default::default(),
        client_info: implementation,
    };
    assert_eq!(
        serialize(&params),
        r#"{"protocolVersion":"2024-11-05","capabilities":{},"clientInfo":{"name":"n","version":"v","snake_key":true}}"#
    );
}

#[test]
fn declared_fields_come_first_and_other_members_keep_their_order() {
    let root: Root = deserialize(r#"{"z": 1, "name": "r", "a": 2, "uri": "u"}"#).unwrap();
    assert_eq!(serialize(&root), r#"{"uri":"u","name":"r","z":1,"a":2}"#);
}

#[test]
fn an_identifier_is_a_string_or_an_integer() {
    assert!(matches!(message_id(&json(r#"{"id": 1}"#)), Ok(RequestId::Number(1))));
    match message_id(&json(r#"{"id": "x"}"#)) {
        Ok(RequestId::String(s)) => assert_eq!(s, "x"),
        other => panic!("expected a string, found {:?}", other),
    }
    assert!(matches!(
        message_id(&json(r#"{"id": 1.5}"#)),
        Err(SchemaError::InvalidIdentifierShape)
    ));
    assert!(matches!(
        message_id(&json(r#"{"id": null}"#)),
        Err(SchemaError::InvalidIdentifierShape)
    ));
    assert!(matches!(
        message_id(&json(r#"{"id": true}"#)),
        Err(SchemaError::InvalidIdentifierShape)
    ));
    assert!(matches!(
        message_id(&json(r#"{"id": [1]}"#)),
        Err(SchemaError::InvalidIdentifierShape)
    ));
    assert!(matches!(
        message_id(&json(r#"{"id": 18446744073709551615}"#)),
        Err(SchemaError::InvalidIdentifierShape)
    ));
    assert!(matches!(
        message_id(&json(r#"{"id": -9223372036854775808}"#)),
        Ok(RequestId::Number(i64::MIN))
    ));
    assert!(matches!(message_id(&json(r#"{}"#)), Err(SchemaError::MalformedEnvelope)));
    assert!(matches!(message_id(&json(r#"[]"#)), Err(SchemaError::MalformedEnvelope)));
}

#[test]
fn a_number_and_a_string_are_never_the_same_identifier() {
    assert!(RequestId::Number(1) != RequestId::String("1".to_string()));
    assert!(RequestId::Number(1) == RequestId::Number(1));
    assert!(RequestId::String("1".to_string()) == RequestId::String("1".to_string()));
    assert!(RequestId::String("1".to_string()) != RequestId::String("2".to_string()));
}

#[test]
fn a_method_outside_the_protocol_is_unsupported() {
    let text = r#"{"jsonrpc":"2.0","id":1,"method":"bogus/method","params":{}}"#;
    assert!(matches!(deserialize::<ClientRequest>(text), Err(SchemaError::UnsupportedMethod)));
    assert!(matches!(deserialize::<ServerRequest>(text), Err(SchemaError::UnsupportedMethod)));
    let text = r#"{"jsonrpc":"2.0","method":"bogus/method","params":{}}"#;
    assert!(matches!(
        deserialize::<ClientNotification>(text),
        Err(SchemaError::UnsupportedMethod)
    ));
    assert!(matches!(
        deserialize::<ServerNotification>(text),
        Err(SchemaError::UnsupportedMethod)
    ));
    let text = r#"{"jsonrpc":"2.0","id":1,"method":"Ping","params":{}}"#;
    assert!(matches!(deserialize::<ClientRequest>(text), Err(SchemaError::UnsupportedMethod)));
    let text = r#"{"jsonrpc":"2.0","id":1,"method":"tools/call","params":{"name":"t"}}"#;
    assert!(matches!(deserialize::<ServerRequest>(text), Err(SchemaError::UnsupportedMethod)));
}

#[test]
fn a_tool_result_is_not_taken_for_the_empty_result() {
    let result: ServerResult = deserialize(r#"{"content":[],"isError":false}"#).unwrap();
    match result {
        ServerResult::CallTool(r) => {
            assert!(r.content.is_empty());
            assert_eq!(r.is_error, Some(false));
        },
        other => panic!("expected the result of a tool call, found {:?}", other),
    }
}

#[test]
fn result_shapes_are_tried_in_their_order() {
    assert!(matches!(
        deserialize::<ServerResult>(r#"{"tools":[]}"#),
        Ok(ServerResult::ListTools(_))
    ));
    assert!(matches!(
        deserialize::<ServerResult>(r#"{"prompts":[],"tools":[]}"#),
        Ok(ServerResult::ListPrompts(_))
    ));
    assert!(matches!(
        deserialize::<ServerResult>(r#"{"content":[],"tools":[]}"#),
        Ok(ServerResult::CallTool(_))
    ));
    assert!(matches!(
        deserialize::<ServerResult>(r#"{"contents":[],"content":[]}"#),
        Ok(ServerResult::ReadResource(_))
    ));
    assert!(matches!(
        deserialize::<ServerResult>(r#"{"action":"cancel"}"#),
        Ok(ServerResult::ElicitationCreate(_))
    ));
    assert!(matches!(deserialize::<ServerResult>(r#"{}"#), Ok(ServerResult::Empty(_))));
    assert!(matches!(
        deserialize::<ServerResult>(r#"{"anything": 1}"#),
        Ok(ServerResult::Empty(_))
    ));
    assert!(matches!(
        deserialize::<ServerResult>(r#"{"tools": 5}"#),
        Ok(ServerResult::Empty(_))
    ));
}

#[test]
fn the_empty_result_keeps_what_it_was_given() {
    let result: ServerResult = deserialize(r#"{"_meta": {"k": 1}, "other": [1]}"#).unwrap();
    match result {
        ServerResult::Empty(MCPResultBase { meta, extra }) => {
            assert_eq!(meta.unwrap().len(), 1);
            assert_eq!(extra.len(), 1);
            assert!(extra.get("other").is_some());
            assert!(extra.get("_meta").is_none());
        },
        other => panic!("expected the empty result, found {:?}", other),
    }
}

#[test]
fn content_is_told_apart_by_its_shape() {
    match deserialize::<PromptContent>(r#"{"type":"text","text":"hi"}"#) {
        Ok(PromptContent::Text(t)) => {
            assert_eq!(t.text, "hi");
            assert_eq!(t.kind, "text");
        },
        other => panic!("expected text, found {:?}", other),
    }
    match deserialize::<ResourceContents>(r#"{"uri":"f://x","text":"hi"}"#) {
        Ok(ResourceContents::Text(TextResourceContents { uri, mime_type, text })) => {
            assert_eq!(uri, "f://x");
            assert_eq!(text, "hi");
            assert!(mime_type.is_none());
        },
        other => panic!("expected text contents, found {:?}", other),
    }
    match deserialize::<ResourceContents>(r#"{"uri":"f://x","blob":"AAA="}"#) {
        Ok(ResourceContents::Blob(b)) => {
            assert_eq!(b.uri, "f://x");
            assert_eq!(b.blob, "AAA=");
        },
        other => panic!("expected binary contents, found {:?}", other),
    }
    assert!(matches!(
        deserialize::<ResourceContents>(r#"{"uri":"f://x","text":"hi","blob":"AAA="}"#),
        Ok(ResourceContents::Text(_))
    ));
    assert!(matches!(
        deserialize::<PromptContent>(r#"{"type":"image","data":"AAA=","mimeType":"image/png"}"#),
        Ok(PromptContent::Image(_))
    ));
    assert!(matches!(
        deserialize::<PromptContent>(
            r#"{"type":"resource","resource":{"uri":"f://x","text":"hi"}}"#
        ),
        Ok(PromptContent::Resource(_))
    ));
}

#[test]
fn the_discriminator_is_written_as_it_was_read() {
    let text = r#"{"type":"text","text":"hi"}"#;
    let content: PromptContent = deserialize(text).unwrap();
    assert_eq!(serialize(&content), text);
    let text = r#"{"type":"resource","resource":{"uri":"f://x","blob":"AAA="}}"#;
    let content: PromptContent = deserialize(text).unwrap();
    assert_eq!(serialize(&content), text);
}

#[test]
fn ping_may_leave_its_parameters_out() {
    let text = r#"{"jsonrpc":"2.0","id":1,"method":"ping"}"#;
    let request: ClientRequest = deserialize(text).unwrap();
    match request {
        ClientRequest::Ping { json_rpc, id, params } => {
            assert_eq!(json_rpc, "2.0");
            assert!(matches!(id, RequestId::Number(1)));
            assert_eq!(serialize(&params), "{}");
        },
        other => panic!("expected a ping, found {:?}", other),
    }
    assert!(matches!(
        deserialize::<ServerRequest>(r#"{"jsonrpc":"2.0","id":1,"method":"ping"}"#),
        Ok(ServerRequest::Ping { .. })
    ));
}

#[test]
fn only_the_named_methods_may_leave_their_parameters_out() {
    assert!(matches!(
        deserialize::<ClientNotification>(
            r#"{"jsonrpc":"2.0","method":"notifications/initialized"}"#
        ),
        Ok(ClientNotification::Initialized { .. })
    ));
    assert!(matches!(
        deserialize::<ClientNotification>(
            r#"{"jsonrpc":"2.0","method":"notifications/roots/list_changed"}"#
        ),
        Ok(ClientNotification::RootsListChanged { .. })
    ));
    assert!(matches!(
        deserialize::<ServerRequest>(r#"{"jsonrpc":"2.0","id":"r","method":"roots/list"}"#),
        Ok(ServerRequest::ListRoots { .. })
    ));
    assert!(matches!(
        deserialize::<ServerNotification>(
            r#"{"jsonrpc":"2.0","method":"notifications/tools/list_changed"}"#
        ),
        Ok(ServerNotification::ToolListChanged { .. })
    ));
    assert!(matches!(
        deserialize::<ClientRequest>(r#"{"jsonrpc":"2.0","id":1,"method":"initialize"}"#),
        Err(SchemaError::ParamsShapeMismatch)
    ));
    assert!(matches!(
        deserialize::<ClientRequest>(r#"{"jsonrpc":"2.0","id":1,"method":"tools/list"}"#),
        Err(SchemaError::ParamsShapeMismatch)
    ));
    assert!(matches!(
        deserialize::<ClientRequest>(r#"{"jsonrpc":"2.0","id":1,"method":"ping","params":null}"#),
        Err(SchemaError::ParamsShapeMismatch)
    ));
}

#[test]
fn a_method_and_its_parameters_make_a_message() {
    let raw = json(r#"{"name": "t", "arguments": {"a": 1}}"#);
    match ClientRequest::dispatch("tools/call", RequestId::Number(7), Some(&raw)) {
        Ok(ClientRequest::CallTool { json_rpc, id, params }) => {
            assert_eq!(json_rpc, "2.0");
            assert!(matches!(id, RequestId::Number(7)));
            assert_eq!(params.name, "t");
            assert_eq!(params.arguments.unwrap().len(), 1);
        },
        other => panic!("expected a tool call, found {:?}", other),
    }
    assert!(matches!(
        ClientRequest::dispatch("tools/call", RequestId::Number(7), None),
        Err(SchemaError::ParamsShapeMismatch)
    ));
    assert!(matches!(
        ClientRequest::dispatch("ping", RequestId::Number(7), None),
        Ok(ClientRequest::Ping { .. })
    ));
    assert!(matches!(
        ClientRequest::dispatch("tools/Call", RequestId::Number(7), Some(&raw)),
        Err(SchemaError::UnsupportedMethod)
    ));
    assert!(matches!(
        ServerNotification::dispatch("notifications/prompts/list_changed", None),
        Ok(ServerNotification::PromptListChanged { .. })
    ));
    assert!(matches!(
        ServerNotification::dispatch("notifications/message", None),
        Err(SchemaError::ParamsShapeMismatch)
    ));
    assert!(matches!(
        ClientNotification::dispatch("notifications/message", None),
        Err(SchemaError::UnsupportedMethod)
    ));
}

#[test]
fn every_variant_has_its_method() {
    assert!(ClientRequest::knows("resources/templates/list"));
    assert!(ClientRequest::knows("elicitation/create"));
    assert!(!ClientRequest::knows("roots/list"));
    assert!(ServerRequest::knows("roots/list"));
    assert!(ServerRequest::knows("sampling/createMessage"));
    assert!(!ServerRequest::knows("sampling/createmessage"));
    assert!(ClientNotification::knows("notifications/roots/list_changed"));
    assert!(!ClientNotification::knows("notifications/tools/list_changed"));
    assert!(ServerNotification::knows("notifications/resources/updated"));
    let methods = [
        "ping",
        "initialize",
        "completion/complete",
        "logging/setLevel",
        "prompts/get",
        "prompts/list",
        "resources/list",
        "resources/templates/list",
        "resources/read",
        "resources/subscribe",
        "resources/unsubscribe",
        "tools/call",
        "tools/list",
        "elicitation/create",
    ];
    for method in methods {
        assert!(ClientRequest::knows(method));
    }
    let request: ClientRequest =
        deserialize(r#"{"jsonrpc":"2.0","id":1,"method":"resources/read","params":{"uri":"u"}}"#)
            .unwrap();
    assert_eq!(request.method_name(), "resources/read");
    assert_eq!(
        serialize(&request),
        r#"{"jsonrpc":"2.0","id":1,"method":"resources/read","params":{"uri":"u"}}"#
    );
    let note: ServerNotification = deserialize(
        r#"{"jsonrpc":"2.0","method":"notifications/progress","params":{"progressToken":"t","progress":0.5}}"#,
    )
    .unwrap();
    assert_eq!(note.method_name(), "notifications/progress");
    assert_eq!(
        serialize(&note),
        r#"{"jsonrpc":"2.0","method":"notifications/progress","params":{"progressToken":"t","progress":0.5}}"#
    );
}
