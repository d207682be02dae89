use mcp_schema::{
    deserialize, CallToolResult, ClientRequest, ElicitationAction, ElicitationCreateResult, Json,
    JsonNumber, Tool,
};

#[test]
fn test_tool_with_annotations() {
    let tool_json = r#"{
        "name": "test_tool",
        "title": "Test Tool",
        "description": "A test tool",
        "inputSchema": {
            "type": "object",
            "properties": {
                "input": {"type": "string"}
            }
        },
        "outputSchema": {
            "type": "object",
            "properties": {
                "result": {"type": "string"}
            }
        },
        "annotations": {
            "readOnlyHint": true,
            "destructiveHint": false,
            "idempotentHint": true,
            "openWorldHint": false
        }
    }"#;

    let tool: Tool = deserialize(tool_json).unwrap();
    assert_eq!(tool.name, "test_tool");
    assert_eq!(tool.title, Some("Test Tool".to_string()));
    assert!(tool.output_schema.is_some());
    assert!(tool.annotations.is_some());

    let annotations = tool.annotations.unwrap();
    assert_eq!(annotations.read_only_hint, Some(true));
    assert_eq!(annotations.destructive_hint, Some(false));
}

#[test]
fn test_call_tool_result_with_structured_content() {
    let result_json = r#"{
        "content": [
            {
                "type": "text",
                "text": "Result text"
            }
        ],
        "structuredContent": {
            "temperature": 22.5,
            "humidity": 65
        },
        "isError": false
    }"#;

    let result: CallToolResult = deserialize(result_json).unwrap();
    assert_eq!(result.content.len(), 1);
    assert!(result.structured_content.is_some());
    assert_eq!(result.is_error, Some(false));

    let structured = result.structured_content.unwrap();
    match structured.get("temperature") {
        Some(Json::Number(JsonNumber::Float(n))) => assert_eq!(n.as_f64(), Some(22.5)),
        other => panic!("expected a fraction, found {:?}", other),
    }
    assert_eq!(structured.get("humidity").and_then(|h| h.as_i64()), Some(65));
}

#[test]
fn test_elicitation_create_request() {
    let request_json = r#"{
        "jsonrpc": "2.0",
        "method": "elicitation/create",
        "id": 1,
        "params": {
            "message": "Please provide your email",
            "requestedSchema": {
                "type": "object",
                "properties": {
                    "email": {
                        "type": "string",
                        "format": "email"
                    }
                },
                "required": ["email"]
            }
        }
    }"#;

    let request: ClientRequest = deserialize(request_json).unwrap();

    if let ClientRequest::ElicitationCreate { params, .. } = request {
        assert_eq!(params.message, "Please provide your email");
        assert!(params.requested_schema.is_object());
    } else {
        panic!("Expected ElicitationCreate variant");
    }
}

#[test]
fn test_elicitation_create_result() {
    let accept_result = r#"{
        "action": "accept",
        "content": {
            "email": "user@example.com"
        }
    }"#;

    let result: ElicitationCreateResult = deserialize(accept_result).unwrap();
    assert!(matches!(result.action, ElicitationAction::Accept));
    assert!(result.content.is_some());

    let reject_result = r#"{
        "action": "reject"
    }"#;

    let result: ElicitationCreateResult = deserialize(reject_result).unwrap();
    assert!(matches!(result.action, ElicitationAction::Reject));
    assert!(result.content.is_none());
}

#[test]
fn test_backward_compatibility() {
    let tool_json = r#"{
        "name": "old_tool",
        "description": "An old tool",
        "inputSchema": {
            "type": "object"
        }
    }"#;

    let tool: Tool = deserialize(tool_json).unwrap();
    assert_eq!(tool.name, "old_tool");
    assert!(tool.title.is_none());
    assert!(tool.output_schema.is_none());
    assert!(tool.annotations.is_none());

    let result_json = r#"{
        "content": [
            {
                "type": "text",
                "text": "Result"
            }
        ]
    }"#;

    let result: CallToolResult = deserialize(result_json).unwrap();
    assert!(result.structured_content.is_none());
}
