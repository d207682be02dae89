use mcp_schema::types::base::RequestMeta;
use mcp_schema::types::common::{Annotated, Annotations, PaginatedParams, PaginatedResult};
use mcp_schema::types::initialization::{
    PromptsCapability, ResourcesCapability, RootsCapability, ToolsCapability,
};
use mcp_schema::types::prompts::{GetPromptParams, GetPromptResult, ListPromptsResult};
use mcp_schema::types::resources::{
    ListResourcesResult, ReadResourceParams, ReadResourceResult, ResourceUpdatedParams,
    SubscribeParams, UnsubscribeParams,
};
use mcp_schema::types::roots::{ListRootsParams, ListRootsResult};
use mcp_schema::types::sampling::{
    CreateMessageParams, CreateMessageResult, ModelHint, ModelPreferences, SamplingMessage,
};
use mcp_schema::types::tools::{CallToolParams, ListToolsResult};
use mcp_schema::{
    deserialize, serialize, BlobResourceContents, CallToolResult, CancelledNotificationParams,
    ClientCapabilities, CompleteArgument, CompleteParams, CompleteResult, CompletionData,
    ElicitationCreateParams, ElicitationCreateResult, EmbeddedResource, ImageContent,
    Implementation, InitializeParams, InitializeResult, ListResourceTemplatesResult,
    LoggingMessageParams, MCPNotificationParams, MCPRequestParams, MCPResultBase, PingParams,
    ProgressNotificationParams, Prompt, PromptArgument, PromptMessage, RPCErrorDetail, Resource,
    ResourceTemplate, Root, ServerCapabilities, SetLevelParams, TextContent,
    TextResourceContents, Tool, ToolAnnotations, ToolInputSchema, Wire,
};

/// Reads `text` as a `T` and writes it again: the text comes back, so every
/// member of it was read by the field that writes it.
fn reads_and_writes<T: Wire + std::fmt::Debug>(text: &str) -> T {
    let value: T = match deserialize(text) {
        Ok(value) => value,
        Err(e) => panic!("{} does not read: {:?}", text, e),
    };
    assert_eq!(serialize(&value), text);
    value
}

#[test]
fn base_shapes_read_and_write() {
    let detail: RPCErrorDetail =
        reads_and_writes(r#"{"code":-32602,"message":"bad","data":{"why":[1]}}"#);
    assert_eq!(detail.code, -32602);
    let meta: RequestMeta = reads_and_writes(r#"{"progressToken":7}"#);
    assert!(meta.progress_token.is_some());
    let params: MCPRequestParams = reads_and_writes(r#"{"_meta":{"progressToken":"t"}}"#);
    assert!(params.meta.is_some() && params.extra.is_empty());
    let params: MCPNotificationParams = reads_and_writes(r#"{"_meta":{"a":1}}"#);
    assert!(params.meta.is_some() && params.extra.is_empty());
    let result: MCPResultBase = reads_and_writes(r#"{"_meta":{"a":1}}"#);
    assert!(result.meta.is_some() && result.extra.is_empty());
    let _: PingParams = reads_and_writes(r#"{}"#);
    let cancelled: CancelledNotificationParams =
        reads_and_writes(r#"{"requestId":"r-1","reason":"late"}"#);
    assert_eq!(cancelled.reason.as_deref(), Some("late"));
    let progress: ProgressNotificationParams =
        reads_and_writes(r#"{"progressToken":"t","progress":0.5,"total":2}"#);
    assert!(progress.total.is_some() && progress.extra.is_empty());
}

#[test]
fn common_shapes_read_and_write() {
    let annotations: Annotations =
        reads_and_writes(r#"{"audience":["user","assistant"],"priority":0.5}"#);
    assert_eq!(annotations.audience.as_ref().unwrap().len(), 2);
    assert!(annotations.priority.is_some() && annotations.extra.is_empty());
    let annotated: Annotated = reads_and_writes(r#"{"annotations":{"priority":1}}"#);
    assert!(annotated.annotations.is_some() && annotated.extra.is_empty());
    let text: TextContent =
        reads_and_writes(r#"{"type":"text","text":"hi","annotations":{"audience":["user"]}}"#);
    assert!(text.annotated.annotations.is_some() && text.annotated.extra.is_empty());
    let image: ImageContent = reads_and_writes(
        r#"{"type":"image","data":"AAA=","mimeType":"image/png","annotations":{}}"#,
    );
    assert_eq!(image.mime_type, "image/png");
    assert!(image.annotated.annotations.is_some() && image.annotated.extra.is_empty());
    let page: PaginatedParams =
        reads_and_writes(r#"{"_meta":{"progressToken":1},"cursor":"c"}"#);
    assert!(page._meta.is_some() && page.cursor.is_some() && page.extra.is_empty());
    let page: PaginatedResult = reads_and_writes(r#"{"_meta":{},"nextCursor":"c"}"#);
    assert!(page.meta.is_some() && page.next_cursor.is_some() && page.extra.is_empty());
}

#[test]
fn initialization_shapes_read_and_write() {
    let implementation: Implementation = reads_and_writes(r#"{"name":"n","version":"1"}"#);
    assert!(implementation.extra.is_empty());
    let roots: RootsCapability = reads_and_writes(r#"{"listChanged":true}"#);
    assert_eq!(roots.list_changed, Some(true));
    let prompts: PromptsCapability = reads_and_writes(r#"{"listChanged":false}"#);
    assert_eq!(prompts.list_changed, Some(false));
    let resources: ResourcesCapability =
        reads_and_writes(r#"{"subscribe":true,"listChanged":false}"#);
    assert_eq!(resources.subscribe, Some(true));
    assert_eq!(resources.list_changed, Some(false));
    let tools: ToolsCapability = reads_and_writes(r#"{"listChanged":true}"#);
    assert_eq!(tools.list_changed, Some(true));
    let client: ClientCapabilities = reads_and_writes(
        r#"{"experimental":{"x":{}},"roots":{"listChanged":true},"sampling":{}}"#,
    );
    assert!(client.experimental.is_some() && client.roots.is_some());
    assert!(client.sampling.is_some() && client.extra.is_empty());
    let server: ServerCapabilities = reads_and_writes(
        r#"{"experimental":{},"logging":{},"prompts":{},"resources":{"subscribe":true},"tools":{}}"#,
    );
    assert!(server.experimental.is_some() && server.logging.is_some());
    assert!(server.prompts.is_some() && server.resources.is_some() && server.tools.is_some());
    assert!(server.extra.is_empty());
    let params: InitializeParams = reads_and_writes(
        r#"{"protocolVersion":"2024-11-05","capabilities":{},"clientInfo":{"name":"n","version":"1"}}"#,
    );
    assert_eq!(params.protocol_version, "2024-11-05");
    assert_eq!(params.client_info.name, "n");
    let result: InitializeResult = reads_and_writes(
        r#"{"_meta":{},"protocolVersion":"2024-11-05","capabilities":{},"serverInfo":{"name":"n","version":"1"},"instructions":"i"}"#,
    );
    assert!(result.meta.is_some() && result.extra.is_empty());
    assert_eq!(result.server_info.version, "1");
    assert_eq!(result.instructions.as_deref(), Some("i"));
}

#[test]
fn resource_shapes_read_and_write() {
    let resource: Resource = reads_and_writes(
        r#"{"uri":"u","name":"n","description":"d","mimeType":"m","annotations":{}}"#,
    );
    assert!(resource.description.is_some() && resource.mime_type.is_some());
    assert!(resource.annotated.annotations.is_some() && resource.annotated.extra.is_empty());
    let template: ResourceTemplate = reads_and_writes(
        r#"{"uriTemplate":"u/{x}","name":"n","description":"d","mimeType":"m","annotations":{}}"#,
    );
    assert_eq!(template.uri_template, "u/{x}");
    assert!(template.annotated.extra.is_empty());
    let text: TextResourceContents = reads_and_writes(r#"{"uri":"u","mimeType":"m","text":"t"}"#);
    assert_eq!(text.mime_type.as_deref(), Some("m"));
    let blob: BlobResourceContents = reads_and_writes(r#"{"uri":"u","mimeType":"m","blob":"b"}"#);
    assert_eq!(blob.mime_type.as_deref(), Some("m"));
    let listed: ListResourcesResult = reads_and_writes(
        r#"{"_meta":{},"nextCursor":"c","resources":[{"uri":"u","name":"n"}]}"#,
    );
    assert_eq!(listed.resources.len(), 1);
    assert!(listed.meta.is_some() && listed.next_cursor.is_some() && listed.extra.is_empty());
    let listed: ListResourceTemplatesResult = reads_and_writes(
        r#"{"_meta":{},"nextCursor":"c","resourceTemplates":[{"uriTemplate":"u","name":"n"}]}"#,
    );
    assert_eq!(listed.resource_templates.len(), 1);
    assert!(listed.meta.is_some() && listed.next_cursor.is_some() && listed.extra.is_empty());
    let read: ReadResourceParams = reads_and_writes(r#"{"uri":"u"}"#);
    assert!(read.extra.is_empty());
    let read: ReadResourceResult = reads_and_writes(
        r#"{"_meta":{},"contents":[{"uri":"u","text":"t"},{"uri":"u","blob":"b"}]}"#,
    );
    assert_eq!(read.contents.len(), 2);
    assert!(read.meta.is_some() && read.extra.is_empty());
    let subscribe: SubscribeParams = reads_and_writes(r#"{"uri":"u"}"#);
    assert!(subscribe.extra.is_empty());
    let unsubscribe: UnsubscribeParams = reads_and_writes(r#"{"uri":"u"}"#);
    assert!(unsubscribe.extra.is_empty());
    let updated: ResourceUpdatedParams = reads_and_writes(r#"{"uri":"u"}"#);
    assert!(updated.extra.is_empty());
}

#[test]
fn prompt_shapes_read_and_write() {
    let argument: PromptArgument =
        reads_and_writes(r#"{"name":"n","description":"d","required":true}"#);
    assert_eq!(argument.required, Some(true));
    assert!(argument.description.is_some() && argument.extra.is_empty());
    let prompt: Prompt =
        reads_and_writes(r#"{"name":"n","description":"d","arguments":[{"name":"a"}]}"#);
    assert_eq!(prompt.arguments.as_ref().unwrap().len(), 1);
    assert!(prompt.description.is_some() && prompt.extra.is_empty());
    let embedded: EmbeddedResource = reads_and_writes(
        r#"{"type":"resource","resource":{"uri":"u","text":"t"},"annotations":{}}"#,
    );
    assert!(embedded.annotated.annotations.is_some() && embedded.annotated.extra.is_empty());
    let message: PromptMessage =
        reads_and_writes(r#"{"role":"assistant","content":{"type":"text","text":"t"}}"#);
    assert!(matches!(message.role, mcp_schema::Role::Assistant));
    let get: GetPromptParams = reads_and_writes(r#"{"name":"n","arguments":{"a":"b"}}"#);
    assert!(get.arguments.is_some() && get.extra.is_empty());
    let got: GetPromptResult = reads_and_writes(
        r#"{"_meta":{},"description":"d","messages":[{"role":"user","content":{"type":"text","text":"t"}}]}"#,
    );
    assert_eq!(got.messages.len(), 1);
    assert!(got.meta.is_some() && got.description.is_some() && got.extra.is_empty());
    let listed: ListPromptsResult =
        reads_and_writes(r#"{"_meta":{},"nextCursor":"c","prompts":[{"name":"n"}]}"#);
    assert_eq!(listed.prompts.len(), 1);
    assert!(listed.meta.is_some() && listed.next_cursor.is_some() && listed.extra.is_empty());
}

#[test]
fn tool_shapes_read_and_write() {
    let annotations: ToolAnnotations = reads_and_writes(
        r#"{"title":"t","readOnlyHint":true,"destructiveHint":false,"idempotentHint":true,"openWorldHint":false}"#,
    );
    assert_eq!(annotations.idempotent_hint, Some(true));
    assert_eq!(annotations.open_world_hint, Some(false));
    let schema: ToolInputSchema =
        reads_and_writes(r#"{"type":"object","properties":{"a":{}},"required":["a"]}"#);
    assert_eq!(schema.type_, "object");
    assert!(schema.properties.is_some() && schema.required.is_some());
    let tool: Tool = reads_and_writes(
        r#"{"name":"n","title":"t","description":"d","inputSchema":{"type":"object"},"outputSchema":{},"annotations":{}}"#,
    );
    assert!(tool.title.is_some() && tool.description.is_some());
    assert!(tool.output_schema.is_some() && tool.annotations.is_some() && tool.extra.is_empty());
    let call: CallToolParams = reads_and_writes(r#"{"name":"n","arguments":{"a":1}}"#);
    assert!(call.arguments.is_some() && call.extra.is_empty());
    let called: CallToolResult = reads_and_writes(
        r#"{"_meta":{},"content":[{"type":"text","text":"t"}],"structuredContent":{"a":1},"isError":true}"#,
    );
    assert!(called.meta.is_some() && called.structured_content.is_some());
    assert_eq!(called.is_error, Some(true));
    assert!(called.extra.is_empty());
    let listed: ListToolsResult = reads_and_writes(
        r#"{"_meta":{},"nextCursor":"c","tools":[{"name":"n","inputSchema":{"type":"object"}}]}"#,
    );
    assert_eq!(listed.tools.len(), 1);
    assert!(listed.meta.is_some() && listed.next_cursor.is_some() && listed.extra.is_empty());
}

#[test]
fn other_shapes_read_and_write() {
    let level: SetLevelParams = reads_and_writes(r#"{"level":"warning"}"#);
    assert!(matches!(level.level, mcp_schema::LoggingLevel::Warning) && level.extra.is_empty());
    let logged: LoggingMessageParams =
        reads_and_writes(r#"{"level":"error","logger":"l","data":null}"#);
    assert!(logged.logger.is_some() && logged.data.is_null() && logged.extra.is_empty());
    let message: SamplingMessage = reads_and_writes(
        r#"{"role":"user","content":{"type":"image","data":"d","mimeType":"m"}}"#,
    );
    assert!(matches!(message.content, mcp_schema::SamplingContent::Image(_)));
    let hint: ModelHint = reads_and_writes(r#"{"name":"n"}"#);
    assert!(hint.name.is_some() && hint.extra.is_empty());
    let preferences: ModelPreferences = reads_and_writes(
        r#"{"hints":[{"name":"n"}],"costPriority":0.1,"speedPriority":0.2,"intelligencePriority":0.3}"#,
    );
    assert!(preferences.hints.is_some() && preferences.cost_priority.is_some());
    assert!(preferences.speed_priority.is_some() && preferences.intelligence_priority.is_some());
    assert!(preferences.extra.is_empty());
    let create: CreateMessageParams = reads_and_writes(
        r#"{"messages":[],"modelPreferences":{},"systemPrompt":"s","includeContext":"none","temperature":0.5,"maxTokens":10,"stopSequences":["x"],"metadata":{}}"#,
    );
    assert_eq!(create.max_tokens, 10);
    assert!(create.model_preferences.is_some() && create.system_prompt.is_some());
    assert!(create.include_context.is_some() && create.temperature.is_some());
    assert!(create.stop_sequences.is_some() && create.metadata.is_some());
    assert!(create.extra.is_empty());
    let created: CreateMessageResult = reads_and_writes(
        r#"{"_meta":{},"role":"assistant","content":{"type":"text","text":"t"},"model":"m","stopReason":"endTurn"}"#,
    );
    assert!(created.meta.is_some() && created.stop_reason.is_some() && created.extra.is_empty());
    let argument: CompleteArgument = reads_and_writes(r#"{"name":"n","value":"v"}"#);
    assert!(argument.extra.is_empty());
    let complete: CompleteParams = reads_and_writes(
        r#"{"ref":{"type":"ref/prompt","name":"p"},"argument":{"name":"n","value":"v"}}"#,
    );
    assert!(matches!(complete.reference, mcp_schema::ReferenceType::Prompt { .. }));
    assert!(complete.extra.is_empty());
    let data: CompletionData = reads_and_writes(r#"{"values":["a"],"total":3,"hasMore":true}"#);
    assert_eq!(data.total, Some(3));
    assert_eq!(data.has_more, Some(true));
    let completed: CompleteResult =
        reads_and_writes(r#"{"_meta":{},"completion":{"values":[]}}"#);
    assert!(completed.meta.is_some() && completed.extra.is_empty());
    let _: ListRootsParams = reads_and_writes(r#"{}"#);
    let root: Root = reads_and_writes(r#"{"uri":"u","name":"n"}"#);
    assert!(root.name.is_some() && root.extra.is_empty());
    let roots: ListRootsResult = reads_and_writes(r#"{"_meta":{},"roots":[{"uri":"u"}]}"#);
    assert_eq!(roots.roots.len(), 1);
    assert!(roots.meta.is_some() && roots.extra.is_empty());
    let ask: ElicitationCreateParams =
        reads_and_writes(r#"{"message":"m","requestedSchema":{"type":"object"}}"#);
    assert!(ask.requested_schema.is_object() && ask.extra.is_empty());
    let answer: ElicitationCreateResult =
        reads_and_writes(r#"{"action":"cancel","content":{"a":1}}"#);
    assert!(matches!(answer.action, mcp_schema::ElicitationAction::Cancel));
    assert!(answer.content.is_some() && answer.extra.is_empty());
}
