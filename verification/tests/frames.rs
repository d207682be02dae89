use mcp_schema::types::base::{RequestMeta, INVALID_REQUEST};
use mcp_schema::{
    deserialize, serialize, ClientCapabilities, Implementation, InitializeParams,
    InitializeResult, JSONRPCError, JSONRPCNotification, JSONRPCRequest, JSONRPCResponse, Json,
    JsonObject, MCPNotificationParams, MCPRequestParams, ProgressToken, RPCErrorDetail, RequestId,
    Wire, JSONRPC_VERSION, LATEST_PROTOCOL_VERSION,
};
use serde_json::Value;

fn value_of<T: Wire>(message: &T) -> Value {
    serde_json::from_str(&serialize(message)).unwrap()
}

#[test]
fn test_initialize_request_serialization() {
    let request = JSONRPCRequest {
        json_rpc: JSONRPC_VERSION.to_string(),
        id: RequestId::Number(1),
        method: "initialize".to_string(),
        params: InitializeParams {
            protocol_version: LATEST_PROTOCOL_VERSION.to_string(),
            capabilities: ClientCapabilities::default(),
            client_info: Implementation {
                name: "test-client".to_string(),
                version: "0.1.0".to_string(),
                extra: Default::default(),
            },
        },
    };

    let json = value_of(&request);

    assert_eq!(json["jsonrpc"], JSONRPC_VERSION);
    assert_eq!(json["method"], "initialize");
    assert_eq!(json["id"], 1);
    assert_eq!(json["params"]["protocolVersion"], LATEST_PROTOCOL_VERSION);
    assert_eq!(json["params"]["clientInfo"]["name"], "test-client");
    assert_eq!(json["params"]["clientInfo"]["version"], "0.1.0");
}

#[test]
fn test_initialize_response_deserialization() {
    let text = r#"{
        "jsonrpc": "2.0",
        "id": 1,
        "result": {
            "protocolVersion": "2024-11-05",
            "capabilities": {
                "logging": {},
                "prompts": {
                    "listChanged": true
                }
            },
            "serverInfo": {
                "name": "test-server",
                "version": "0.1.0"
            }
        }
    }"#;

    let response: JSONRPCResponse<InitializeResult> = deserialize(text).unwrap();
    assert_eq!(response.json_rpc, JSONRPC_VERSION);
    assert!(matches!(response.id, RequestId::Number(1)));
    assert_eq!(response.result.protocol_version, LATEST_PROTOCOL_VERSION);
    assert_eq!(response.result.server_info.name, "test-server");
    assert_eq!(response.result.server_info.version, "0.1.0");
}

#[test]
fn test_request_id_serialization() {
    let number_id: RequestId = 1.into();
    let string_id: RequestId = "test-1".into();

    let json_number = value_of(&number_id);
    let json_string = value_of(&string_id);

    assert_eq!(json_number, Value::from(1));
    assert_eq!(json_string, Value::from("test-1"));
}

#[test]
fn test_jsonrpc_request_serialization() {
    let request: JSONRPCRequest<Json> = JSONRPCRequest {
        json_rpc: JSONRPC_VERSION.to_string(),
        method: "test".to_string(),
        id: 1.into(),
        params: Json::Object(vec![("test".to_string(), Json::Bool(true))]),
    };

    let json = value_of(&request);

    assert_eq!(json["jsonrpc"], JSONRPC_VERSION);
    assert_eq!(json["method"], "test");
    assert_eq!(json["id"], 1);
    assert_eq!(json["params"]["test"], true);
}

#[test]
fn test_jsonrpc_error_serialization() {
    let error = JSONRPCError {
        json_rpc: JSONRPC_VERSION.to_string(),
        id: 1.into(),
        error: RPCErrorDetail {
            code: INVALID_REQUEST,
            message: "Invalid request".to_string(),
            data: Some(Json::Object(vec![(
                "details".to_string(),
                Json::String("Missing required field".to_string()),
            )])),
        },
    };

    let json = value_of(&error);

    assert_eq!(json["jsonrpc"], JSONRPC_VERSION);
    assert_eq!(json["id"], 1);
    assert_eq!(json["error"]["code"], INVALID_REQUEST);
    assert_eq!(json["error"]["message"], "Invalid request");
    assert_eq!(json["error"]["data"]["details"], "Missing required field");
}

#[test]
fn test_mcp_request_params() {
    let params = MCPRequestParams {
        meta: Some(RequestMeta {
            progress_token: Some(ProgressToken::String("token-1".to_string())),
        }),
        extra: {
            let mut map = JsonObject::new();
            map.insert("custom".to_string(), Json::String("value".to_string()));
            map
        },
    };

    let json = value_of(&params);

    assert_eq!(json["_meta"]["progressToken"], "token-1");
    assert_eq!(json["custom"], "value");
}

#[test]
fn test_notification_serialization() {
    let notification = JSONRPCNotification {
        json_rpc: JSONRPC_VERSION.to_string(),
        method: "test/notification".to_string(),
        params: MCPNotificationParams::default(),
    };

    let json = value_of(&notification);

    assert_eq!(json["jsonrpc"], JSONRPC_VERSION);
    assert_eq!(json["method"], "test/notification");
    assert!(json["params"].as_object().unwrap().is_empty());
}

#[test]
fn an_initialize_request_is_written_over_several_lines() {
    let request = JSONRPCRequest {
        json_rpc: JSONRPC_VERSION.to_string(),
        method: "initialize".to_string(),
        id: RequestId::Number(1),
        params: InitializeParams {
            protocol_version: LATEST_PROTOCOL_VERSION.to_string(),
            capabilities: ClientCapabilities::default(),
            client_info: Implementation {
                name: "MyClient".into(),
                version: "1.0".into(),
                extra: JsonObject::new(),
            },
        },
    };
    let expected = [
        "{",
        "  \"jsonrpc\": \"2.0\",",
        "  \"id\": 1,",
        "  \"method\": \"initialize\",",
        "  \"params\": {",
        "    \"protocolVersion\": \"2024-11-05\",",
        "    \"capabilities\": {},",
        "    \"clientInfo\": {",
        "      \"name\": \"MyClient\",",
        "      \"version\": \"1.0\"",
        "    }",
        "  }",
        "}",
    ]
    .join("\n");
    assert_eq!(mcp_schema::serialize_pretty(&request), expected);
    let back: JSONRPCRequest<InitializeParams> = deserialize(&expected).unwrap();
    assert_eq!(format!("{:?}", back), format!("{:?}", request));
}

#[test]
fn frames_read_what_they_write() {
    let response = JSONRPCResponse {
        json_rpc: JSONRPC_VERSION.to_string(),
        id: RequestId::String("r".to_string()),
        result: Json::Array(vec![Json::Null]),
    };
    let text = serialize(&response);
    assert_eq!(text, r#"{"jsonrpc":"2.0","id":"r","result":[null]}"#);
    let back: JSONRPCResponse<Json> = deserialize(&text).unwrap();
    assert_eq!(format!("{:?}", back), format!("{:?}", response));

    let note = JSONRPCNotification {
        json_rpc: JSONRPC_VERSION.to_string(),
        method: "m".to_string(),
        params: Json::Object(vec![]),
    };
    let text = serialize(&note);
    assert_eq!(text, r#"{"jsonrpc":"2.0","method":"m","params":{}}"#);
    let back: JSONRPCNotification<Json> = deserialize(&text).unwrap();
    assert_eq!(format!("{:?}", back), format!("{:?}", note));

    let error = JSONRPCError {
        json_rpc: JSONRPC_VERSION.to_string(),
        id: RequestId::Number(-1),
        error: RPCErrorDetail { code: -32700, message: "m".to_string(), data: None },
    };
    let text = serialize(&error);
    assert_eq!(text, r#"{"jsonrpc":"2.0","id":-1,"error":{"code":-32700,"message":"m"}}"#);
    let back: JSONRPCError = deserialize(&text).unwrap();
    assert_eq!(format!("{:?}", back), format!("{:?}", error));
}
