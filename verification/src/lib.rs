//! Typed messages of the Model Context Protocol and their JSON form.
//!
//! Every message type has a JSON form, stated by [`wire::Wire`]: which JSON
//! value stands for a value of the type, and what a JSON value is read as.
//! Reading what was written gives the value back.
//!
//! - [`json`] holds JSON values as plain data, [`text`] reads them from text
//!   and writes them as text.
//! - [`record`] is the layer that the payload types share: declared fields,
//!   written under fixed names, and an open set of further members that are
//!   kept as they are. [`naming`] relates the written names to the internal
//!   ones.
//! - [`envelope`] is the JSON-RPC frame around a payload.
//! - [`types`] holds the messages themselves: the payloads, the content that
//!   is told apart by its shape, the requests and notifications that are
//!   told apart by their method, and the results of a server, which are told
//!   apart by trying their shapes in a fixed order.
//! - [`error`] names the ways in which reading fails.

pub mod envelope;
pub mod error;
pub mod json;
pub mod naming;
pub mod record;
pub mod string_map;
pub mod text;
pub mod types;
pub mod wire;

pub use error::SchemaError;
pub use json::{Json, JsonNumber};
pub use record::JsonObject;
pub use string_map::StringMap;
pub use text::{
    deserialize, deserialize_bytes, serialize, serialize_bytes, serialize_pretty,
};
pub use wire::{Wire, WireSound};
pub use types::{
    Annotated, Annotations, BlobResourceContents, CallToolParams, CallToolResult,
    CancelledNotificationParams, ClientCapabilities, ClientNotification, ClientRequest,
    CompleteArgument, CompleteParams, CompleteResult, CompletionData, CreateMessageParams,
    CreateMessageResult, Cursor, ElicitationAction, ElicitationCreateParams,
    ElicitationCreateResult, EmbeddedResource, EmptyResult, GetPromptParams, GetPromptResult,
    INTERNAL_ERROR, INVALID_PARAMS, INVALID_REQUEST, ImageContent, Implementation,
    InitializeParams, InitializeResult, JSONRPCError, JSONRPCNotification, JSONRPCRequest,
    JSONRPCResponse, JSONRPC_VERSION, LATEST_PROTOCOL_VERSION, ListPromptsResult,
    ListResourceTemplatesResult, ListResourcesResult, ListRootsParams, ListRootsResult,
    ListToolsResult, LoggingLevel, LoggingMessageParams, MCPNotificationParams, MCPRequestParams,
    MCPResultBase, METHOD_NOT_FOUND, ModelHint, ModelPreferences, PARSE_ERROR, PaginatedParams,
    PaginatedResult, PingParams, ProgressNotificationParams, ProgressToken, Prompt,
    PromptArgument, PromptContent, PromptMessage, PromptsCapability, RPCErrorDetail,
    ReadResourceParams, ReadResourceResult, ReferenceType, RequestId, RequestMeta, Resource,
    ResourceContents, ResourceTemplate, ResourceUpdatedParams, ResourcesCapability, Role, Root,
    RootsCapability, SamplingContent, SamplingMessage, ServerCapabilities, ServerNotification,
    ServerRequest, ServerResult, SetLevelParams, SubscribeParams, TextContent,
    TextResourceContents, Tool, ToolAnnotations, ToolInputSchema, ToolsCapability,
    UnsubscribeParams,
};
