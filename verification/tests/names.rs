use mcp_schema::naming::{internal_name, wire_name};
use mcp_schema::types::common::Annotated;
use mcp_schema::types::sampling::{CreateMessageParams, ModelPreferences};
use mcp_schema::{
    serialize, CallToolResult, ImageContent, Json, JsonObject, ListResourceTemplatesResult,
    ResourcesCapability, Tool, ToolAnnotations, ToolInputSchema, Wire,
};

fn keys<T: Wire>(message: &T) -> Vec<String> {
    let written = message.to_json();
    written.as_object().unwrap().iter().map(|(key, _)| key.clone()).collect()
}

#[test]
fn an_internal_name_is_written_in_camel_case() {
    assert_eq!(wire_name("protocol_version"), "protocolVersion");
    assert_eq!(wire_name("client_info"), "clientInfo");
    assert_eq!(wire_name("uri"), "uri");
    assert_eq!(wire_name("read_only_hint"), "readOnlyHint");
    assert_eq!(wire_name("resource_templates"), "resourceTemplates");
    assert_eq!(wire_name(""), "");
    assert_eq!(wire_name("a_1"), "a_1");
    assert_eq!(wire_name("trailing_"), "trailing_");
    assert_eq!(wire_name("a__b"), "a_B");
}

#[test]
fn the_internal_name_is_found_again() {
    assert_eq!(internal_name("protocolVersion"), "protocol_version");
    assert_eq!(internal_name("uri"), "uri");
    assert_eq!(internal_name("readOnlyHint"), "read_only_hint");
    assert_eq!(internal_name(""), "");
    let names = [
        "protocol_version", "client_info", "server_info", "list_changed", "next_cursor",
        "mime_type", "uri_template", "resource_templates", "input_schema", "output_schema",
        "read_only_hint", "destructive_hint", "idempotent_hint", "open_world_hint",
        "structured_content", "is_error", "progress_token", "request_id", "model_preferences",
        "system_prompt", "include_context", "max_tokens", "stop_sequences", "stop_reason",
        "cost_priority", "speed_priority", "intelligence_priority", "has_more",
        "requested_schema", "name", "version", "capabilities", "instructions",
    ];
    for name in names {
        assert_eq!(internal_name(&wire_name(name)), name);
    }
}

#[test]
fn two_internal_names_are_written_as_two_names() {
    let names = [
        "list_changed", "listchanged", "list", "changed", "next_cursor", "cursor", "mime_type",
        "is_error", "has_more", "max_tokens", "stop_reason", "stop_sequences",
    ];
    for a in names {
        for b in names {
            if a != b {
                assert_ne!(wire_name(a), wire_name(b));
            }
        }
    }
}

#[test]
fn declared_fields_are_written_under_their_camel_case_names() {
    let tool = Tool {
        name: "t".to_string(),
        title: Some("T".to_string()),
        description: Some("d".to_string()),
        input_schema: ToolInputSchema {
            type_: "object".to_string(),
            properties: Some(JsonObject::new()),
            required: Some(vec![]),
        },
        output_schema: Some(Json::Bool(true)),
        annotations: Some(ToolAnnotations {
            title: Some("T".to_string()),
            read_only_hint: Some(true),
            destructive_hint: Some(false),
            idempotent_hint: Some(true),
            open_world_hint: Some(false),
        }),
        extra: JsonObject::new(),
    };
    let expected: Vec<String> =
        ["name", "title", "description", "input_schema", "output_schema", "annotations"]
            .iter()
            .map(|n| wire_name(n))
            .collect();
    assert_eq!(keys(&tool), expected);
    let expected: Vec<String> = [
        "title",
        "read_only_hint",
        "destructive_hint",
        "idempotent_hint",
        "open_world_hint",
    ]
    .iter()
    .map(|n| wire_name(n))
    .collect();
    assert_eq!(keys(tool.annotations.as_ref().unwrap()), expected);
    assert_eq!(keys(&tool.input_schema), ["type", "properties", "required"]);

    let capability = ResourcesCapability { subscribe: Some(true), list_changed: Some(false) };
    assert_eq!(keys(&capability), [wire_name("subscribe"), wire_name("list_changed")]);

    let listed = ListResourceTemplatesResult {
        meta: Some(JsonObject::new()),
        next_cursor: Some("c".to_string()),
        resource_templates: vec![],
        extra: JsonObject::new(),
    };
    assert_eq!(
        keys(&listed),
        ["_meta".to_string(), wire_name("next_cursor"), wire_name("resource_templates")]
    );

    let image = ImageContent {
        kind: "image".to_string(),
        data: "AAA=".to_string(),
        mime_type: "image/png".to_string(),
        annotated: Annotated { annotations: None, extra: JsonObject::new() },
    };
    assert_eq!(keys(&image), ["type".to_string(), "data".to_string(), wire_name("mime_type")]);

    let result = CallToolResult {
        meta: None,
        content: vec![],
        structured_content: Some(Json::Null),
        is_error: Some(false),
        extra: JsonObject::new(),
    };
    assert_eq!(
        keys(&result),
        ["content".to_string(), wire_name("structured_content"), wire_name("is_error")]
    );
}

#[test]
fn every_field_of_a_sampling_request_has_its_name() {
    let fraction = |text: &str| match Json::parse(text).unwrap() {
        Json::Number(n) => n,
        other => panic!("expected a number, found {:?}", other),
    };
    let params = CreateMessageParams {
        messages: vec![],
        model_preferences: Some(ModelPreferences {
            hints: Some(vec![]),
            cost_priority: Some(fraction("0.25")),
            speed_priority: Some(fraction("1")),
            intelligence_priority: Some(fraction("0.5")),
            extra: JsonObject::new(),
        }),
        system_prompt: Some("s".to_string()),
        include_context: Some("none".to_string()),
        temperature: Some(fraction("0.7")),
        max_tokens: 100,
        stop_sequences: Some(vec!["stop".to_string()]),
        metadata: Some(JsonObject::new()),
        extra: JsonObject::new(),
    };
    assert_eq!(
        serialize(&params),
        concat_all(&[
            r#"{"messages":[],"modelPreferences":{"hints":[],"costPriority":0.25,"#,
            r#""speedPriority":1,"intelligencePriority":0.5},"systemPrompt":"s","#,
            r#""includeContext":"none","temperature":0.7,"maxTokens":100,"#,
            r#""stopSequences":["stop"],"metadata":{}}"#,
        ])
    );
    let back: CreateMessageParams = mcp_schema::deserialize(&serialize(&params)).unwrap();
    assert_eq!(format!("{:?}", back), format!("{:?}", params));
}

fn concat_all(parts: &[&str]) -> String {
    parts.iter().map(|p| p.to_string()).collect()
}
