//! The messages of the protocol and what they are made of.

pub mod base;
pub mod cancellation;
pub mod client;
pub mod client_completion;
pub mod common;
pub mod elicitation;
pub mod initialization;
pub mod logging;
pub mod progress;
pub mod prompts;
pub mod resources;
pub mod roots;
pub mod sampling;
pub mod server;
pub mod tools;

pub use base::{
    Cursor, EmptyResult, INTERNAL_ERROR, INVALID_PARAMS, INVALID_REQUEST, JSONRPCError,
    JSONRPCNotification, JSONRPCRequest, JSONRPCResponse, JSONRPC_VERSION,
    LATEST_PROTOCOL_VERSION, MCPNotificationParams, MCPRequestParams, MCPResultBase,
    METHOD_NOT_FOUND, PARSE_ERROR, PingParams, ProgressToken, RPCErrorDetail, RequestId,
    RequestMeta,
};
pub use cancellation::CancelledNotificationParams;
pub use progress::ProgressNotificationParams;
pub use common::{
    Annotated, Annotations, ImageContent, PaginatedParams, PaginatedResult, Role, TextContent,
};
pub use initialization::{
    ClientCapabilities, Implementation, InitializeParams, InitializeResult, PromptsCapability,
    ResourcesCapability, RootsCapability, ServerCapabilities, ToolsCapability,
};
pub use resources::{
    BlobResourceContents, ListResourceTemplatesResult, ListResourcesResult, ReadResourceParams,
    ReadResourceResult, Resource, ResourceContents, ResourceTemplate, ResourceUpdatedParams,
    SubscribeParams, TextResourceContents, UnsubscribeParams,
};
pub use prompts::{
    EmbeddedResource, GetPromptParams, GetPromptResult, ListPromptsResult, Prompt, PromptArgument,
    PromptContent, PromptMessage,
};
pub use tools::{
    CallToolParams, CallToolResult, ListToolsResult, Tool, ToolAnnotations, ToolInputSchema,
};
pub use logging::{LoggingLevel, LoggingMessageParams, SetLevelParams};
pub use sampling::{
    CreateMessageParams, CreateMessageResult, ModelHint, ModelPreferences, SamplingContent,
    SamplingMessage,
};
pub use client_completion::{
    CompleteArgument, CompleteParams, CompleteResult, CompletionData, ReferenceType,
};
pub use roots::{ListRootsParams, ListRootsResult, Root};
pub use elicitation::{ElicitationAction, ElicitationCreateParams, ElicitationCreateResult};
pub use client::{ClientNotification, ClientRequest};
pub use server::{ServerNotification, ServerRequest, ServerResult};
