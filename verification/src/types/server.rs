//! What a server sends.

use vstd::prelude::*;
use crate::error::SchemaError;
use crate::json::{find, get, lemma_object_view, same_text, Json, JsonView};
use crate::record::{group_record, with};
use crate::envelope::{
    has_member, id_of, lemma_notification_frame, lemma_request_frame, method_of,
    notification_frame, params_of, params_or, read_id, read_method, read_opt_params, read_params,
    read_version, request_frame, version_ok, write_notification, write_request,
};
use crate::types::base::{
    EmptyResult, MCPNotificationParams, MCPNotificationParamsView, MCPResultBase,
    MCPResultBaseView, PingParams, PingParamsView, RequestId, RequestIdView,
};
use crate::types::cancellation::{CancelledNotificationParams, CancelledNotificationParamsView};
use crate::types::client_completion::{CompleteResult, CompleteResultView};
use crate::types::elicitation::{ElicitationCreateResult, ElicitationCreateResultView};
use crate::types::initialization::{InitializeResult, InitializeResultView};
use crate::types::logging::{LoggingMessageParams, LoggingMessageParamsView};
use crate::types::progress::{ProgressNotificationParams, ProgressNotificationParamsView};
use crate::types::prompts::{
    GetPromptResult, GetPromptResultView, ListPromptsResult, ListPromptsResultView,
};
use crate::types::resources::{
    ListResourceTemplatesResult, ListResourceTemplatesResultView, ListResourcesResult,
    ListResourcesResultView, ReadResourceResult, ReadResourceResultView, ResourceUpdatedParams,
    ResourceUpdatedParamsView,
};
use crate::types::roots::{ListRootsParams, ListRootsParamsView};
use crate::types::sampling::{CreateMessageParams, CreateMessageParamsView};
use crate::types::tools::{
    CallToolResult, CallToolResultView, ListToolsResult, ListToolsResultView,
};
use crate::wire::{Wire, WireSound};

verus! {

/// The requests that a server sends. The `method` of the frame says which.
#[derive(Debug, Clone)]
pub enum ServerRequest {
    Ping { json_rpc: String, id: RequestId, params: PingParams },
    CreateMessage { json_rpc: String, id: RequestId, params: CreateMessageParams },
    ListRoots { json_rpc: String, id: RequestId, params: ListRootsParams },
}

/// [`ServerRequest`] as specifications see it.
pub enum ServerRequestView {
    Ping { json_rpc: Seq<char>, id: RequestIdView, params: PingParamsView },
    CreateMessage { json_rpc: Seq<char>, id: RequestIdView, params: CreateMessageParamsView },
    ListRoots { json_rpc: Seq<char>, id: RequestIdView, params: ListRootsParamsView },
}

impl DeepView for ServerRequest {
    type V = ServerRequestView;

    open spec fn deep_view(&self) -> ServerRequestView {
        match self {
            ServerRequest::Ping { json_rpc, id, params } => {
                ServerRequestView::Ping {
                    json_rpc: json_rpc@,
                    id: id.deep_view(),
                    params: params.deep_view(),
                }
            },
            ServerRequest::CreateMessage { json_rpc, id, params } => {
                ServerRequestView::CreateMessage {
                    json_rpc: json_rpc@,
                    id: id.deep_view(),
                    params: params.deep_view(),
                }
            },
            ServerRequest::ListRoots { json_rpc, id, params } => {
                ServerRequestView::ListRoots {
                    json_rpc: json_rpc@,
                    id: id.deep_view(),
                    params: params.deep_view(),
                }
            },
        }
    }
}

impl ServerRequest {
    /// The method that names the variant of `v`.
    pub open spec fn method(v: ServerRequestView) -> Seq<char> {
        match v {
            ServerRequestView::Ping { .. } => "ping"@,
            ServerRequestView::CreateMessage { .. } => "sampling/createMessage"@,
            ServerRequestView::ListRoots { .. } => "roots/list"@,
        }
    }

    /// The method that names the variant.
    pub fn method_name(&self) -> (text: &'static str)
        ensures
            text@ == Self::method(self.deep_view()),
    {
        match self {
            ServerRequest::Ping { .. } => "ping",
            ServerRequest::CreateMessage { .. } => "sampling/createMessage",
            ServerRequest::ListRoots { .. } => "roots/list",
        }
    }

    /// `m` is one of the methods of this union.
    pub open spec fn known(m: Seq<char>) -> bool {
        m == "ping"@
        || m == "sampling/createMessage"@
        || m == "roots/list"@
    }

    /// Whether `m` is one of the methods of this union.
    pub fn knows(m: &str) -> (b: bool)
        ensures
            b == Self::known(m@),
    {
        same_text(m, "ping")
        || same_text(m, "sampling/createMessage")
        || same_text(m, "roots/list")
    }

    /// The request that the method `m` stands for, with the parameters `raw`.
    /// A method that may leave its parameters out gets empty ones where
    /// there are none.
    pub open spec fn dispatched(
        m: Seq<char>,
        id: RequestIdView,
        raw: Option<JsonView>,
    ) -> Result<ServerRequestView, SchemaError> {
        if m == "ping"@ {
            match params_or::<PingParams>(raw, PingParams::default_view()) {
                Ok(params) => Ok(ServerRequestView::Ping { json_rpc: "2.0"@, id, params }),
                Err(e) => Err(e),
            }
        } else if m == "sampling/createMessage"@ {
            match params_of::<CreateMessageParams>(raw) {
                Ok(params) => Ok(ServerRequestView::CreateMessage { json_rpc: "2.0"@, id, params }),
                Err(e) => Err(e),
            }
        } else if m == "roots/list"@ {
            match params_or::<ListRootsParams>(raw, ListRootsParams::default_view()) {
                Ok(params) => Ok(ServerRequestView::ListRoots { json_rpc: "2.0"@, id, params }),
                Err(e) => Err(e),
            }
        } else {
            Err(SchemaError::UnsupportedMethod)
        }
    }

    /// Makes the request that the method `method` stands for, with the
    /// parameters `raw`.
    pub fn dispatch(method: &str, id: RequestId, raw: Option<&Json>) -> (r: Result<
        ServerRequest,
        SchemaError,
    >)
        ensures
            match r {
                Ok(v) => Self::dispatched(method@, id.deep_view(), raw.deep_view()) == Ok::<
                    ServerRequestView,
                    SchemaError,
                >(v.deep_view()),
                Err(e) => Self::dispatched(method@, id.deep_view(), raw.deep_view()) == Err::<
                    ServerRequestView,
                    SchemaError,
                >(e),
            },
    {
        let json_rpc = "2.0".to_owned();
        if same_text(method, "ping") {
            let params = match read_opt_params::<PingParams>(raw)? {
                Some(p) => p,
                None => PingParams::default(),
            };
            Ok(ServerRequest::Ping { json_rpc, id, params })
        } else if same_text(method, "sampling/createMessage") {
            let params = read_params::<CreateMessageParams>(raw)?;
            Ok(ServerRequest::CreateMessage { json_rpc, id, params })
        } else if same_text(method, "roots/list") {
            let params = match read_opt_params::<ListRootsParams>(raw)? {
                Some(p) => p,
                None => ListRootsParams::default(),
            };
            Ok(ServerRequest::ListRoots { json_rpc, id, params })
        } else {
            Err(SchemaError::UnsupportedMethod)
        }
    }
}

impl Wire for ServerRequest {
    /// The version is 2.0 and the parameters are valid.
    open spec fn valid(v: ServerRequestView) -> bool {
        match v {
            ServerRequestView::Ping { json_rpc, params, .. } => {
                json_rpc == "2.0"@ && PingParams::valid(params)
            },
            ServerRequestView::CreateMessage { json_rpc, params, .. } => {
                json_rpc == "2.0"@ && CreateMessageParams::valid(params)
            },
            ServerRequestView::ListRoots { json_rpc, params, .. } => {
                json_rpc == "2.0"@ && ListRootsParams::valid(params)
            },
        }
    }

    open spec fn encode(v: ServerRequestView) -> JsonView {
        match v {
            ServerRequestView::Ping { json_rpc, id, params } => {
                request_frame::<PingParams>(json_rpc, id, "ping"@, params)
            },
            ServerRequestView::CreateMessage { json_rpc, id, params } => {
                request_frame::<CreateMessageParams>(
                    json_rpc,
                    id,
                    "sampling/createMessage"@,
                    params,
                )
            },
            ServerRequestView::ListRoots { json_rpc, id, params } => {
                request_frame::<ListRootsParams>(json_rpc, id, "roots/list"@, params)
            },
        }
    }

    /// An object that names version 2.0 and, by a string, one of the methods,
    /// and has an identifier; then what the method stands for. The checks are
    /// made in this order, and the first that fails gives the error.
    open spec fn decode(j: JsonView) -> Result<ServerRequestView, SchemaError> {
        match j {
            JsonView::Object(o) => {
                if !version_ok(o) {
                    Err(SchemaError::MalformedEnvelope)
                } else if method_of(o) is None {
                    Err(SchemaError::MalformedEnvelope)
                } else if !Self::known(method_of(o)->Some_0) {
                    Err(SchemaError::UnsupportedMethod)
                } else if id_of(o) is Err {
                    Err(id_of(o)->Err_0)
                } else {
                    Self::dispatched(method_of(o)->Some_0, id_of(o)->Ok_0, get(o, "params"@))
                }
            },
            _ => Err(SchemaError::MalformedEnvelope),
        }
    }

    fn to_json(&self) -> (j: Json) {
        match self {
            ServerRequest::Ping { json_rpc, id, params } => {
                write_request::<PingParams>(json_rpc, id, "ping", params)
            },
            ServerRequest::CreateMessage { json_rpc, id, params } => {
                write_request::<CreateMessageParams>(json_rpc, id, "sampling/createMessage", params)
            },
            ServerRequest::ListRoots { json_rpc, id, params } => {
                write_request::<ListRootsParams>(json_rpc, id, "roots/list", params)
            },
        }
    }

    fn from_json(j: &Json) -> (r: Result<ServerRequest, SchemaError>) {
        match j {
            Json::Object(entries) => {
                proof {
                    lemma_object_view(*entries);
                }
                if !read_version(entries) {
                    return Err(SchemaError::MalformedEnvelope);
                }
                let m = match read_method(entries) {
                    Some(m) => m.as_str(),
                    None => {
                        return Err(SchemaError::MalformedEnvelope);
                    },
                };
                if !Self::knows(m) {
                    return Err(SchemaError::UnsupportedMethod);
                }
                let id = read_id(entries)?;
                Self::dispatch(m, id, find(entries, "params"))
            },
            _ => Err(SchemaError::MalformedEnvelope),
        }
    }

    proof fn lemma_round_trip(v: ServerRequestView) {
        reveal_strlit("ping");
        reveal_strlit("sampling/createMessage");
        reveal_strlit("roots/list");
        assert("ping"@.len() == 4);
        assert("sampling/createMessage"@.len() == 22);
        assert("roots/list"@.len() == 10);
        match v {
            ServerRequestView::Ping { json_rpc, id, params } => {
                lemma_request_frame::<PingParams>(json_rpc, id, "ping"@, params);
                PingParams::lemma_round_trip(params);
            },
            ServerRequestView::CreateMessage { json_rpc, id, params } => {
                lemma_request_frame::<CreateMessageParams>(
                    json_rpc,
                    id,
                    "sampling/createMessage"@,
                    params,
                );
                CreateMessageParams::lemma_round_trip(params);
            },
            ServerRequestView::ListRoots { json_rpc, id, params } => {
                lemma_request_frame::<ListRootsParams>(json_rpc, id, "roots/list"@, params);
                ListRootsParams::lemma_round_trip(params);
            },
        }
    }
}

impl WireSound for ServerRequest {
    proof fn lemma_decoded_valid(j: JsonView) {
        broadcast use group_record;

        let o = j->Object_0;
        match Self::decode(j)->Ok_0 {
            ServerRequestView::Ping { .. } => {
                if get(o, "params"@) is Some {
                    PingParams::lemma_decoded_valid(get(o, "params"@)->Some_0);
                }
            },
            ServerRequestView::CreateMessage { .. } => {
                if get(o, "params"@) is Some {
                    CreateMessageParams::lemma_decoded_valid(get(o, "params"@)->Some_0);
                }
            },
            ServerRequestView::ListRoots { .. } => {
                if get(o, "params"@) is Some {
                    ListRootsParams::lemma_decoded_valid(get(o, "params"@)->Some_0);
                }
            },
        }
    }
}

/// The notifications that a server sends. The `method` of the frame says which.
#[derive(Debug, Clone)]
pub enum ServerNotification {
    Cancelled { json_rpc: String, params: CancelledNotificationParams },
    Progress { json_rpc: String, params: ProgressNotificationParams },
    LoggingMessage { json_rpc: String, params: LoggingMessageParams },
    ResourceUpdated { json_rpc: String, params: ResourceUpdatedParams },
    ResourceListChanged { json_rpc: String, params: MCPNotificationParams },
    ToolListChanged { json_rpc: String, params: MCPNotificationParams },
    PromptListChanged { json_rpc: String, params: MCPNotificationParams },
}

/// [`ServerNotification`] as specifications see it.
pub enum ServerNotificationView {
    Cancelled { json_rpc: Seq<char>, params: CancelledNotificationParamsView },
    Progress { json_rpc: Seq<char>, params: ProgressNotificationParamsView },
    LoggingMessage { json_rpc: Seq<char>, params: LoggingMessageParamsView },
    ResourceUpdated { json_rpc: Seq<char>, params: ResourceUpdatedParamsView },
    ResourceListChanged { json_rpc: Seq<char>, params: MCPNotificationParamsView },
    ToolListChanged { json_rpc: Seq<char>, params: MCPNotificationParamsView },
    PromptListChanged { json_rpc: Seq<char>, params: MCPNotificationParamsView },
}

impl DeepView for ServerNotification {
    type V = ServerNotificationView;

    open spec fn deep_view(&self) -> ServerNotificationView {
        match self {
            ServerNotification::Cancelled { json_rpc, params } => {
                ServerNotificationView::Cancelled {
                    json_rpc: json_rpc@,
                    params: params.deep_view(),
                }
            },
            ServerNotification::Progress { json_rpc, params } => {
                ServerNotificationView::Progress {
                    json_rpc: json_rpc@,
                    params: params.deep_view(),
                }
            },
            ServerNotification::LoggingMessage { json_rpc, params } => {
                ServerNotificationView::LoggingMessage {
                    json_rpc: json_rpc@,
                    params: params.deep_view(),
                }
            },
            ServerNotification::ResourceUpdated { json_rpc, params } => {
                ServerNotificationView::ResourceUpdated {
                    json_rpc: json_rpc@,
                    params: params.deep_view(),
                }
            },
            ServerNotification::ResourceListChanged { json_rpc, params } => {
                ServerNotificationView::ResourceListChanged {
                    json_rpc: json_rpc@,
                    params: params.deep_view(),
                }
            },
            ServerNotification::ToolListChanged { json_rpc, params } => {
                ServerNotificationView::ToolListChanged {
                    json_rpc: json_rpc@,
                    params: params.deep_view(),
                }
            },
            ServerNotification::PromptListChanged { json_rpc, params } => {
                ServerNotificationView::PromptListChanged {
                    json_rpc: json_rpc@,
                    params: params.deep_view(),
                }
            },
        }
    }
}

impl ServerNotification {
    /// The method that names the variant of `v`.
    pub open spec fn method(v: ServerNotificationView) -> Seq<char> {
        match v {
            ServerNotificationView::Cancelled { .. } => "notifications/cancelled"@,
            ServerNotificationView::Progress { .. } => "notifications/progress"@,
            ServerNotificationView::LoggingMessage { .. } => "notifications/message"@,
            ServerNotificationView::ResourceUpdated { .. } => "notifications/resources/updated"@,
            ServerNotificationView::ResourceListChanged { .. } => {
                "notifications/resources/list_changed"@
            },
            ServerNotificationView::ToolListChanged { .. } => "notifications/tools/list_changed"@,
            ServerNotificationView::PromptListChanged { .. } => {
                "notifications/prompts/list_changed"@
            },
        }
    }

    /// The method that names the variant.
    pub fn method_name(&self) -> (text: &'static str)
        ensures
            text@ == Self::method(self.deep_view()),
    {
        match self {
            ServerNotification::Cancelled { .. } => "notifications/cancelled",
            ServerNotification::Progress { .. } => "notifications/progress",
            ServerNotification::LoggingMessage { .. } => "notifications/message",
            ServerNotification::ResourceUpdated { .. } => "notifications/resources/updated",
            ServerNotification::ResourceListChanged { .. } => {
                "notifications/resources/list_changed"
            },
            ServerNotification::ToolListChanged { .. } => "notifications/tools/list_changed",
            ServerNotification::PromptListChanged { .. } => "notifications/prompts/list_changed",
        }
    }

    /// `m` is one of the methods of this union.
    pub open spec fn known(m: Seq<char>) -> bool {
        m == "notifications/cancelled"@
        || m == "notifications/progress"@
        || m == "notifications/message"@
        || m == "notifications/resources/updated"@
        || m == "notifications/resources/list_changed"@
        || m == "notifications/tools/list_changed"@
        || m == "notifications/prompts/list_changed"@
    }

    /// Whether `m` is one of the methods of this union.
    pub fn knows(m: &str) -> (b: bool)
        ensures
            b == Self::known(m@),
    {
        same_text(m, "notifications/cancelled")
        || same_text(m, "notifications/progress")
        || same_text(m, "notifications/message")
        || same_text(m, "notifications/resources/updated")
        || same_text(m, "notifications/resources/list_changed")
        || same_text(m, "notifications/tools/list_changed")
        || same_text(m, "notifications/prompts/list_changed")
    }

    /// The notification that the method `m` stands for, with the parameters `raw`.
    /// A method that may leave its parameters out gets empty ones where
    /// there are none.
    pub open spec fn dispatched(
        m: Seq<char>,
        raw: Option<JsonView>,
    ) -> Result<ServerNotificationView, SchemaError> {
        if m == "notifications/cancelled"@ {
            match params_of::<CancelledNotificationParams>(raw) {
                Ok(params) => Ok(ServerNotificationView::Cancelled { json_rpc: "2.0"@, params }),
                Err(e) => Err(e),
            }
        } else if m == "notifications/progress"@ {
            match params_of::<ProgressNotificationParams>(raw) {
                Ok(params) => Ok(ServerNotificationView::Progress { json_rpc: "2.0"@, params }),
                Err(e) => Err(e),
            }
        } else if m == "notifications/message"@ {
            match params_of::<LoggingMessageParams>(raw) {
                Ok(params) => Ok(
                    ServerNotificationView::LoggingMessage { json_rpc: "2.0"@, params },
                ),
                Err(e) => Err(e),
            }
        } else if m == "notifications/resources/updated"@ {
            match params_of::<ResourceUpdatedParams>(raw) {
                Ok(params) => Ok(
                    ServerNotificationView::ResourceUpdated { json_rpc: "2.0"@, params },
                ),
                Err(e) => Err(e),
            }
        } else if m == "notifications/resources/list_changed"@ {
            match params_or::<MCPNotificationParams>(raw, MCPNotificationParams::default_view()) {
                Ok(params) => Ok(
                    ServerNotificationView::ResourceListChanged { json_rpc: "2.0"@, params },
                ),
                Err(e) => Err(e),
            }
        } else if m == "notifications/tools/list_changed"@ {
            match params_or::<MCPNotificationParams>(raw, MCPNotificationParams::default_view()) {
                Ok(params) => Ok(
                    ServerNotificationView::ToolListChanged { json_rpc: "2.0"@, params },
                ),
                Err(e) => Err(e),
            }
        } else if m == "notifications/prompts/list_changed"@ {
            match params_or::<MCPNotificationParams>(raw, MCPNotificationParams::default_view()) {
                Ok(params) => Ok(
                    ServerNotificationView::PromptListChanged { json_rpc: "2.0"@, params },
                ),
                Err(e) => Err(e),
            }
        } else {
            Err(SchemaError::UnsupportedMethod)
        }
    }

    /// Makes the notification that the method `method` stands for, with the
    /// parameters `raw`.
    pub fn dispatch(method: &str, raw: Option<&Json>) -> (r: Result<
        ServerNotification,
        SchemaError,
    >)
        ensures
            match r {
                Ok(v) => Self::dispatched(method@, raw.deep_view()) == Ok::<
                    ServerNotificationView,
                    SchemaError,
                >(v.deep_view()),
                Err(e) => Self::dispatched(method@, raw.deep_view()) == Err::<
                    ServerNotificationView,
                    SchemaError,
                >(e),
            },
    {
        let json_rpc = "2.0".to_owned();
        if same_text(method, "notifications/cancelled") {
            let params = read_params::<CancelledNotificationParams>(raw)?;
            Ok(ServerNotification::Cancelled { json_rpc, params })
        } else if same_text(method, "notifications/progress") {
            let params = read_params::<ProgressNotificationParams>(raw)?;
            Ok(ServerNotification::Progress { json_rpc, params })
        } else if same_text(method, "notifications/message") {
            let params = read_params::<LoggingMessageParams>(raw)?;
            Ok(ServerNotification::LoggingMessage { json_rpc, params })
        } else if same_text(method, "notifications/resources/updated") {
            let params = read_params::<ResourceUpdatedParams>(raw)?;
            Ok(ServerNotification::ResourceUpdated { json_rpc, params })
        } else if same_text(method, "notifications/resources/list_changed") {
            let params = match read_opt_params::<MCPNotificationParams>(raw)? {
                Some(p) => p,
                None => MCPNotificationParams::default(),
            };
            Ok(ServerNotification::ResourceListChanged { json_rpc, params })
        } else if same_text(method, "notifications/tools/list_changed") {
            let params = match read_opt_params::<MCPNotificationParams>(raw)? {
                Some(p) => p,
                None => MCPNotificationParams::default(),
            };
            Ok(ServerNotification::ToolListChanged { json_rpc, params })
        } else if same_text(method, "notifications/prompts/list_changed") {
            let params = match read_opt_params::<MCPNotificationParams>(raw)? {
                Some(p) => p,
                None => MCPNotificationParams::default(),
            };
            Ok(ServerNotification::PromptListChanged { json_rpc, params })
        } else {
            Err(SchemaError::UnsupportedMethod)
        }
    }
}

impl Wire for ServerNotification {
    /// The version is 2.0 and the parameters are valid.
    open spec fn valid(v: ServerNotificationView) -> bool {
        match v {
            ServerNotificationView::Cancelled { json_rpc, params, .. } => {
                json_rpc == "2.0"@ && CancelledNotificationParams::valid(params)
            },
            ServerNotificationView::Progress { json_rpc, params, .. } => {
                json_rpc == "2.0"@ && ProgressNotificationParams::valid(params)
            },
            ServerNotificationView::LoggingMessage { json_rpc, params, .. } => {
                json_rpc == "2.0"@ && LoggingMessageParams::valid(params)
            },
            ServerNotificationView::ResourceUpdated { json_rpc, params, .. } => {
                json_rpc == "2.0"@ && ResourceUpdatedParams::valid(params)
            },
            ServerNotificationView::ResourceListChanged { json_rpc, params, .. } => {
                json_rpc == "2.0"@ && MCPNotificationParams::valid(params)
            },
            ServerNotificationView::ToolListChanged { json_rpc, params, .. } => {
                json_rpc == "2.0"@ && MCPNotificationParams::valid(params)
            },
            ServerNotificationView::PromptListChanged { json_rpc, params, .. } => {
                json_rpc == "2.0"@ && MCPNotificationParams::valid(params)
            },
        }
    }

    open spec fn encode(v: ServerNotificationView) -> JsonView {
        match v {
            ServerNotificationView::Cancelled { json_rpc, params } => {
                notification_frame::<CancelledNotificationParams>(
                    json_rpc,
                    "notifications/cancelled"@,
                    params,
                )
            },
            ServerNotificationView::Progress { json_rpc, params } => {
                notification_frame::<ProgressNotificationParams>(
                    json_rpc,
                    "notifications/progress"@,
                    params,
                )
            },
            ServerNotificationView::LoggingMessage { json_rpc, params } => {
                notification_frame::<LoggingMessageParams>(
                    json_rpc,
                    "notifications/message"@,
                    params,
                )
            },
            ServerNotificationView::ResourceUpdated { json_rpc, params } => {
                notification_frame::<ResourceUpdatedParams>(
                    json_rpc,
                    "notifications/resources/updated"@,
                    params,
                )
            },
            ServerNotificationView::ResourceListChanged { json_rpc, params } => {
                notification_frame::<MCPNotificationParams>(
                    json_rpc,
                    "notifications/resources/list_changed"@,
                    params,
                )
            },
            ServerNotificationView::ToolListChanged { json_rpc, params } => {
                notification_frame::<MCPNotificationParams>(
                    json_rpc,
                    "notifications/tools/list_changed"@,
                    params,
                )
            },
            ServerNotificationView::PromptListChanged { json_rpc, params } => {
                notification_frame::<MCPNotificationParams>(
                    json_rpc,
                    "notifications/prompts/list_changed"@,
                    params,
                )
            },
        }
    }

    /// An object that names version 2.0 and, by a string, one of the methods,
    /// and has no identifier; then what the method stands for. The checks are
    /// made in this order, and the first that fails gives the error.
    open spec fn decode(j: JsonView) -> Result<ServerNotificationView, SchemaError> {
        match j {
            JsonView::Object(o) => {
                if !version_ok(o) {
                    Err(SchemaError::MalformedEnvelope)
                } else if method_of(o) is None {
                    Err(SchemaError::MalformedEnvelope)
                } else if !Self::known(method_of(o)->Some_0) {
                    Err(SchemaError::UnsupportedMethod)
                } else if get(o, "id"@) is Some {
                    Err(SchemaError::MalformedEnvelope)
                } else {
                    Self::dispatched(method_of(o)->Some_0, get(o, "params"@))
                }
            },
            _ => Err(SchemaError::MalformedEnvelope),
        }
    }

    fn to_json(&self) -> (j: Json) {
        match self {
            ServerNotification::Cancelled { json_rpc, params } => {
                write_notification::<CancelledNotificationParams>(
                    json_rpc,
                    "notifications/cancelled",
                    params,
                )
            },
            ServerNotification::Progress { json_rpc, params } => {
                write_notification::<ProgressNotificationParams>(
                    json_rpc,
                    "notifications/progress",
                    params,
                )
            },
            ServerNotification::LoggingMessage { json_rpc, params } => {
                write_notification::<LoggingMessageParams>(
                    json_rpc,
                    "notifications/message",
                    params,
                )
            },
            ServerNotification::ResourceUpdated { json_rpc, params } => {
                write_notification::<ResourceUpdatedParams>(
                    json_rpc,
                    "notifications/resources/updated",
                    params,
                )
            },
            ServerNotification::ResourceListChanged { json_rpc, params } => {
                write_notification::<MCPNotificationParams>(
                    json_rpc,
                    "notifications/resources/list_changed",
                    params,
                )
            },
            ServerNotification::ToolListChanged { json_rpc, params } => {
                write_notification::<MCPNotificationParams>(
                    json_rpc,
                    "notifications/tools/list_changed",
                    params,
                )
            },
            ServerNotification::PromptListChanged { json_rpc, params } => {
                write_notification::<MCPNotificationParams>(
                    json_rpc,
                    "notifications/prompts/list_changed",
                    params,
                )
            },
        }
    }

    fn from_json(j: &Json) -> (r: Result<ServerNotification, SchemaError>) {
        match j {
            Json::Object(entries) => {
                proof {
                    lemma_object_view(*entries);
                }
                if !read_version(entries) {
                    return Err(SchemaError::MalformedEnvelope);
                }
                let m = match read_method(entries) {
                    Some(m) => m.as_str(),
                    None => {
                        return Err(SchemaError::MalformedEnvelope);
                    },
                };
                if !Self::knows(m) {
                    return Err(SchemaError::UnsupportedMethod);
                }
                if has_member(entries, "id") {
                    return Err(SchemaError::MalformedEnvelope);
                }
                Self::dispatch(m, find(entries, "params"))
            },
            _ => Err(SchemaError::MalformedEnvelope),
        }
    }

    proof fn lemma_round_trip(v: ServerNotificationView) {
        reveal_strlit("notifications/cancelled");
        reveal_strlit("notifications/progress");
        reveal_strlit("notifications/message");
        reveal_strlit("notifications/resources/updated");
        reveal_strlit("notifications/resources/list_changed");
        reveal_strlit("notifications/tools/list_changed");
        reveal_strlit("notifications/prompts/list_changed");
        assert("notifications/cancelled"@.len() == 23);
        assert("notifications/progress"@.len() == 22);
        assert("notifications/message"@.len() == 21);
        assert("notifications/resources/updated"@.len() == 31);
        assert("notifications/resources/list_changed"@.len() == 36);
        assert("notifications/tools/list_changed"@.len() == 32);
        assert("notifications/prompts/list_changed"@.len() == 34);
        match v {
            ServerNotificationView::Cancelled { json_rpc, params } => {
                lemma_notification_frame::<CancelledNotificationParams>(
                    json_rpc,
                    "notifications/cancelled"@,
                    params,
                );
                CancelledNotificationParams::lemma_round_trip(params);
            },
            ServerNotificationView::Progress { json_rpc, params } => {
                lemma_notification_frame::<ProgressNotificationParams>(
                    json_rpc,
                    "notifications/progress"@,
                    params,
                );
                ProgressNotificationParams::lemma_round_trip(params);
            },
            ServerNotificationView::LoggingMessage { json_rpc, params } => {
                lemma_notification_frame::<LoggingMessageParams>(
                    json_rpc,
                    "notifications/message"@,
                    params,
                );
                LoggingMessageParams::lemma_round_trip(params);
            },
            ServerNotificationView::ResourceUpdated { json_rpc, params } => {
                lemma_notification_frame::<ResourceUpdatedParams>(
                    json_rpc,
                    "notifications/resources/updated"@,
                    params,
                );
                ResourceUpdatedParams::lemma_round_trip(params);
            },
            ServerNotificationView::ResourceListChanged { json_rpc, params } => {
                lemma_notification_frame::<MCPNotificationParams>(
                    json_rpc,
                    "notifications/resources/list_changed"@,
                    params,
                );
                MCPNotificationParams::lemma_round_trip(params);
            },
            ServerNotificationView::ToolListChanged { json_rpc, params } => {
                lemma_notification_frame::<MCPNotificationParams>(
                    json_rpc,
                    "notifications/tools/list_changed"@,
                    params,
                );
                MCPNotificationParams::lemma_round_trip(params);
            },
            ServerNotificationView::PromptListChanged { json_rpc, params } => {
                lemma_notification_frame::<MCPNotificationParams>(
                    json_rpc,
                    "notifications/prompts/list_changed"@,
                    params,
                );
                MCPNotificationParams::lemma_round_trip(params);
            },
        }
    }
}

impl WireSound for ServerNotification {
    proof fn lemma_decoded_valid(j: JsonView) {
        broadcast use group_record;

        let o = j->Object_0;
        match Self::decode(j)->Ok_0 {
            ServerNotificationView::Cancelled { .. } => {
                if get(o, "params"@) is Some {
                    CancelledNotificationParams::lemma_decoded_valid(get(o, "params"@)->Some_0);
                }
            },
            ServerNotificationView::Progress { .. } => {
                if get(o, "params"@) is Some {
                    ProgressNotificationParams::lemma_decoded_valid(get(o, "params"@)->Some_0);
                }
            },
            ServerNotificationView::LoggingMessage { .. } => {
                if get(o, "params"@) is Some {
                    LoggingMessageParams::lemma_decoded_valid(get(o, "params"@)->Some_0);
                }
            },
            ServerNotificationView::ResourceUpdated { .. } => {
                if get(o, "params"@) is Some {
                    ResourceUpdatedParams::lemma_decoded_valid(get(o, "params"@)->Some_0);
                }
            },
            ServerNotificationView::ResourceListChanged { .. } => {
                if get(o, "params"@) is Some {
                    MCPNotificationParams::lemma_decoded_valid(get(o, "params"@)->Some_0);
                }
            },
            ServerNotificationView::ToolListChanged { .. } => {
                if get(o, "params"@) is Some {
                    MCPNotificationParams::lemma_decoded_valid(get(o, "params"@)->Some_0);
                }
            },
            ServerNotificationView::PromptListChanged { .. } => {
                if get(o, "params"@) is Some {
                    MCPNotificationParams::lemma_decoded_valid(get(o, "params"@)->Some_0);
                }
            },
        }
    }
}

/// A result of any of the kinds that a server gives. The frame does not say
/// which kind it is: the shapes are tried in the order of the variants, and the
/// first that accepts the object is taken. The empty result asks for nothing,
/// so it comes last.
#[derive(Debug, Clone)]
pub enum ServerResult {
    Initialize(InitializeResult),
    Complete(CompleteResult),
    GetPrompt(GetPromptResult),
    ListPrompts(ListPromptsResult),
    ListResources(ListResourcesResult),
    ListResourceTemplates(ListResourceTemplatesResult),
    ReadResource(ReadResourceResult),
    CallTool(CallToolResult),
    ListTools(ListToolsResult),
    ElicitationCreate(ElicitationCreateResult),
    Empty(EmptyResult),
}

/// [`ServerResult`] as specifications see it.
pub enum ServerResultView {
    Initialize(InitializeResultView),
    Complete(CompleteResultView),
    GetPrompt(GetPromptResultView),
    ListPrompts(ListPromptsResultView),
    ListResources(ListResourcesResultView),
    ListResourceTemplates(ListResourceTemplatesResultView),
    ReadResource(ReadResourceResultView),
    CallTool(CallToolResultView),
    ListTools(ListToolsResultView),
    ElicitationCreate(ElicitationCreateResultView),
    Empty(MCPResultBaseView),
}

impl DeepView for ServerResult {
    type V = ServerResultView;

    open spec fn deep_view(&self) -> ServerResultView {
        match self {
            ServerResult::Initialize(x) => ServerResultView::Initialize(x.deep_view()),
            ServerResult::Complete(x) => ServerResultView::Complete(x.deep_view()),
            ServerResult::GetPrompt(x) => ServerResultView::GetPrompt(x.deep_view()),
            ServerResult::ListPrompts(x) => ServerResultView::ListPrompts(x.deep_view()),
            ServerResult::ListResources(x) => ServerResultView::ListResources(x.deep_view()),
            ServerResult::ListResourceTemplates(x) => {
                ServerResultView::ListResourceTemplates(x.deep_view())
            },
            ServerResult::ReadResource(x) => ServerResultView::ReadResource(x.deep_view()),
            ServerResult::CallTool(x) => ServerResultView::CallTool(x.deep_view()),
            ServerResult::ListTools(x) => ServerResultView::ListTools(x.deep_view()),
            ServerResult::ElicitationCreate(x) => {
                ServerResultView::ElicitationCreate(x.deep_view())
            },
            ServerResult::Empty(x) => ServerResultView::Empty(x.deep_view()),
        }
    }
}

impl ServerResult {
    /// The place of the shape of `v` in the order in which the shapes are
    /// tried.
    pub open spec fn rank(v: ServerResultView) -> nat {
        match v {
            ServerResultView::Initialize(_) => 0,
            ServerResultView::Complete(_) => 1,
            ServerResultView::GetPrompt(_) => 2,
            ServerResultView::ListPrompts(_) => 3,
            ServerResultView::ListResources(_) => 4,
            ServerResultView::ListResourceTemplates(_) => 5,
            ServerResultView::ReadResource(_) => 6,
            ServerResultView::CallTool(_) => 7,
            ServerResultView::ListTools(_) => 8,
            ServerResultView::ElicitationCreate(_) => 9,
            ServerResultView::Empty(_) => 10,
        }
    }

    /// One of the first `n` shapes accepts `j`.
    pub open spec fn taken_before(j: JsonView, n: nat) -> bool {
        ||| n > 0 && InitializeResult::decode(j) is Ok
        ||| n > 1 && CompleteResult::decode(j) is Ok
        ||| n > 2 && GetPromptResult::decode(j) is Ok
        ||| n > 3 && ListPromptsResult::decode(j) is Ok
        ||| n > 4 && ListResourcesResult::decode(j) is Ok
        ||| n > 5 && ListResourceTemplatesResult::decode(j) is Ok
        ||| n > 6 && ReadResourceResult::decode(j) is Ok
        ||| n > 7 && CallToolResult::decode(j) is Ok
        ||| n > 8 && ListToolsResult::decode(j) is Ok
        ||| n > 9 && ElicitationCreateResult::decode(j) is Ok
    }

    /// The result inside `v` is valid.
    pub open spec fn inner_valid(v: ServerResultView) -> bool {
        match v {
            ServerResultView::Initialize(x) => InitializeResult::valid(x),
            ServerResultView::Complete(x) => CompleteResult::valid(x),
            ServerResultView::GetPrompt(x) => GetPromptResult::valid(x),
            ServerResultView::ListPrompts(x) => ListPromptsResult::valid(x),
            ServerResultView::ListResources(x) => ListResourcesResult::valid(x),
            ServerResultView::ListResourceTemplates(x) => ListResourceTemplatesResult::valid(x),
            ServerResultView::ReadResource(x) => ReadResourceResult::valid(x),
            ServerResultView::CallTool(x) => CallToolResult::valid(x),
            ServerResultView::ListTools(x) => ListToolsResult::valid(x),
            ServerResultView::ElicitationCreate(x) => ElicitationCreateResult::valid(x),
            ServerResultView::Empty(x) => MCPResultBase::valid(x),
        }
    }

    /// The results that are read from well-formed JSON hold valid results.
    pub proof fn lemma_decoded_inner_valid(j: JsonView)
        requires
            j.wf(),
            Self::decode(j) is Ok,
        ensures
            Self::inner_valid(Self::decode(j)->Ok_0),
    {
        match Self::decode(j)->Ok_0 {
            ServerResultView::Initialize(_) => {
                InitializeResult::lemma_decoded_valid(j);
            },
            ServerResultView::Complete(_) => {
                CompleteResult::lemma_decoded_valid(j);
            },
            ServerResultView::GetPrompt(_) => {
                GetPromptResult::lemma_decoded_valid(j);
            },
            ServerResultView::ListPrompts(_) => {
                ListPromptsResult::lemma_decoded_valid(j);
            },
            ServerResultView::ListResources(_) => {
                ListResourcesResult::lemma_decoded_valid(j);
            },
            ServerResultView::ListResourceTemplates(_) => {
                ListResourceTemplatesResult::lemma_decoded_valid(j);
            },
            ServerResultView::ReadResource(_) => {
                ReadResourceResult::lemma_decoded_valid(j);
            },
            ServerResultView::CallTool(_) => {
                CallToolResult::lemma_decoded_valid(j);
            },
            ServerResultView::ListTools(_) => {
                ListToolsResult::lemma_decoded_valid(j);
            },
            ServerResultView::ElicitationCreate(_) => {
                ElicitationCreateResult::lemma_decoded_valid(j);
            },
            ServerResultView::Empty(_) => {
                MCPResultBase::lemma_decoded_valid(j);
            },
        }
    }

    /// The empty result is what is left: an object is read as it only if no
    /// other shape accepts the object.
    pub proof fn lemma_empty_comes_last(j: JsonView)
        requires
            Self::decode(j) matches Ok(ServerResultView::Empty(_)),
        ensures
            !Self::taken_before(j, 10),
    {
    }

    /// A result is read as the first shape that accepts it: no shape before
    /// the one that it is read as accepts it.
    pub proof fn lemma_first_shape(j: JsonView)
        requires
            Self::decode(j) is Ok,
        ensures
            !Self::taken_before(j, Self::rank(Self::decode(j)->Ok_0)),
    {
    }
}

impl Wire for ServerResult {
    /// The result inside is valid, and no shape that is tried before its own
    /// accepts what is written for it.
    open spec fn valid(v: ServerResultView) -> bool {
        Self::inner_valid(v) && !Self::taken_before(Self::encode(v), Self::rank(v))
    }

    open spec fn encode(v: ServerResultView) -> JsonView {
        match v {
            ServerResultView::Initialize(x) => InitializeResult::encode(x),
            ServerResultView::Complete(x) => CompleteResult::encode(x),
            ServerResultView::GetPrompt(x) => GetPromptResult::encode(x),
            ServerResultView::ListPrompts(x) => ListPromptsResult::encode(x),
            ServerResultView::ListResources(x) => ListResourcesResult::encode(x),
            ServerResultView::ListResourceTemplates(x) => ListResourceTemplatesResult::encode(x),
            ServerResultView::ReadResource(x) => ReadResourceResult::encode(x),
            ServerResultView::CallTool(x) => CallToolResult::encode(x),
            ServerResultView::ListTools(x) => ListToolsResult::encode(x),
            ServerResultView::ElicitationCreate(x) => ElicitationCreateResult::encode(x),
            ServerResultView::Empty(x) => MCPResultBase::encode(x),
        }
    }

    /// The first shape that accepts `j`, in the order of the variants; if
    /// none does, no shape matches.
    open spec fn decode(j: JsonView) -> Result<ServerResultView, SchemaError> {
        if InitializeResult::decode(j) is Ok {
            Ok(ServerResultView::Initialize(InitializeResult::decode(j)->Ok_0))
        } else if CompleteResult::decode(j) is Ok {
            Ok(ServerResultView::Complete(CompleteResult::decode(j)->Ok_0))
        } else if GetPromptResult::decode(j) is Ok {
            Ok(ServerResultView::GetPrompt(GetPromptResult::decode(j)->Ok_0))
        } else if ListPromptsResult::decode(j) is Ok {
            Ok(ServerResultView::ListPrompts(ListPromptsResult::decode(j)->Ok_0))
        } else if ListResourcesResult::decode(j) is Ok {
            Ok(ServerResultView::ListResources(ListResourcesResult::decode(j)->Ok_0))
        } else if ListResourceTemplatesResult::decode(j) is Ok {
            Ok(
                ServerResultView::ListResourceTemplates(
                    ListResourceTemplatesResult::decode(j)->Ok_0,
                ),
            )
        } else if ReadResourceResult::decode(j) is Ok {
            Ok(ServerResultView::ReadResource(ReadResourceResult::decode(j)->Ok_0))
        } else if CallToolResult::decode(j) is Ok {
            Ok(ServerResultView::CallTool(CallToolResult::decode(j)->Ok_0))
        } else if ListToolsResult::decode(j) is Ok {
            Ok(ServerResultView::ListTools(ListToolsResult::decode(j)->Ok_0))
        } else if ElicitationCreateResult::decode(j) is Ok {
            Ok(ServerResultView::ElicitationCreate(ElicitationCreateResult::decode(j)->Ok_0))
        } else if MCPResultBase::decode(j) is Ok {
            Ok(ServerResultView::Empty(MCPResultBase::decode(j)->Ok_0))
        } else {
            Err(SchemaError::NoMatchingResultShape)
        }
    }

    fn to_json(&self) -> (j: Json) {
        match self {
            ServerResult::Initialize(x) => x.to_json(),
            ServerResult::Complete(x) => x.to_json(),
            ServerResult::GetPrompt(x) => x.to_json(),
            ServerResult::ListPrompts(x) => x.to_json(),
            ServerResult::ListResources(x) => x.to_json(),
            ServerResult::ListResourceTemplates(x) => x.to_json(),
            ServerResult::ReadResource(x) => x.to_json(),
            ServerResult::CallTool(x) => x.to_json(),
            ServerResult::ListTools(x) => x.to_json(),
            ServerResult::ElicitationCreate(x) => x.to_json(),
            ServerResult::Empty(x) => x.to_json(),
        }
    }

    fn from_json(j: &Json) -> (r: Result<ServerResult, SchemaError>) {
        if let Ok(x) = InitializeResult::from_json(j) {
            return Ok(ServerResult::Initialize(x));
        }
        if let Ok(x) = CompleteResult::from_json(j) {
            return Ok(ServerResult::Complete(x));
        }
        if let Ok(x) = GetPromptResult::from_json(j) {
            return Ok(ServerResult::GetPrompt(x));
        }
        if let Ok(x) = ListPromptsResult::from_json(j) {
            return Ok(ServerResult::ListPrompts(x));
        }
        if let Ok(x) = ListResourcesResult::from_json(j) {
            return Ok(ServerResult::ListResources(x));
        }
        if let Ok(x) = ListResourceTemplatesResult::from_json(j) {
            return Ok(ServerResult::ListResourceTemplates(x));
        }
        if let Ok(x) = ReadResourceResult::from_json(j) {
            return Ok(ServerResult::ReadResource(x));
        }
        if let Ok(x) = CallToolResult::from_json(j) {
            return Ok(ServerResult::CallTool(x));
        }
        if let Ok(x) = ListToolsResult::from_json(j) {
            return Ok(ServerResult::ListTools(x));
        }
        if let Ok(x) = ElicitationCreateResult::from_json(j) {
            return Ok(ServerResult::ElicitationCreate(x));
        }
        if let Ok(x) = EmptyResult::from_json(j) {
            return Ok(ServerResult::Empty(x));
        }
        Err(SchemaError::NoMatchingResultShape)
    }

    proof fn lemma_round_trip(v: ServerResultView) {
        match v {
            ServerResultView::Initialize(x) => {
                InitializeResult::lemma_round_trip(x);
            },
            ServerResultView::Complete(x) => {
                CompleteResult::lemma_round_trip(x);
            },
            ServerResultView::GetPrompt(x) => {
                GetPromptResult::lemma_round_trip(x);
            },
            ServerResultView::ListPrompts(x) => {
                ListPromptsResult::lemma_round_trip(x);
            },
            ServerResultView::ListResources(x) => {
                ListResourcesResult::lemma_round_trip(x);
            },
            ServerResultView::ListResourceTemplates(x) => {
                ListResourceTemplatesResult::lemma_round_trip(x);
            },
            ServerResultView::ReadResource(x) => {
                ReadResourceResult::lemma_round_trip(x);
            },
            ServerResultView::CallTool(x) => {
                CallToolResult::lemma_round_trip(x);
            },
            ServerResultView::ListTools(x) => {
                ListToolsResult::lemma_round_trip(x);
            },
            ServerResultView::ElicitationCreate(x) => {
                ElicitationCreateResult::lemma_round_trip(x);
            },
            ServerResultView::Empty(x) => {
                MCPResultBase::lemma_round_trip(x);
            },
        }
    }
}

} // verus!
