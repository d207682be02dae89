//! What a client sends.

use vstd::prelude::*;
use crate::error::SchemaError;
use crate::json::{find, get, lemma_object_view, same_text, Json, JsonView};
use crate::record::{group_record, with};
use crate::envelope::{
    has_member, id_of, lemma_notification_frame, lemma_request_frame, method_of,
    notification_frame, params_of, params_or, read_id, read_method, read_opt_params, read_params,
    read_version, request_frame, version_ok, write_notification, write_request,
};
use crate::types::base::{
    MCPNotificationParams, MCPNotificationParamsView, PingParams, PingParamsView, RequestId,
    RequestIdView,
};
use crate::types::cancellation::{CancelledNotificationParams, CancelledNotificationParamsView};
use crate::types::client_completion::{CompleteParams, CompleteParamsView};
use crate::types::common::{PaginatedParams, PaginatedParamsView};
use crate::types::elicitation::{ElicitationCreateParams, ElicitationCreateParamsView};
use crate::types::initialization::{InitializeParams, InitializeParamsView};
use crate::types::logging::{SetLevelParams, SetLevelParamsView};
use crate::types::progress::{ProgressNotificationParams, ProgressNotificationParamsView};
use crate::types::prompts::{GetPromptParams, GetPromptParamsView};
use crate::types::resources::{
    ReadResourceParams, ReadResourceParamsView, SubscribeParams, SubscribeParamsView,
    UnsubscribeParams, UnsubscribeParamsView,
};
use crate::types::tools::{CallToolParams, CallToolParamsView};
use crate::wire::{Wire, WireSound};

verus! {

/// The requests that a client sends. The `method` of the frame says which.
#[derive(Debug, Clone)]
pub enum ClientRequest {
    Ping { json_rpc: String, id: RequestId, params: PingParams },
    Initialize { json_rpc: String, id: RequestId, params: InitializeParams },
    Complete { json_rpc: String, id: RequestId, params: CompleteParams },
    SetLevel { json_rpc: String, id: RequestId, params: SetLevelParams },
    GetPrompt { json_rpc: String, id: RequestId, params: GetPromptParams },
    ListPrompts { json_rpc: String, id: RequestId, params: PaginatedParams },
    ListResources { json_rpc: String, id: RequestId, params: PaginatedParams },
    ListResourceTemplates { json_rpc: String, id: RequestId, params: PaginatedParams },
    ReadResource { json_rpc: String, id: RequestId, params: ReadResourceParams },
    Subscribe { json_rpc: String, id: RequestId, params: SubscribeParams },
    Unsubscribe { json_rpc: String, id: RequestId, params: UnsubscribeParams },
    CallTool { json_rpc: String, id: RequestId, params: CallToolParams },
    ListTools { json_rpc: String, id: RequestId, params: PaginatedParams },
    ElicitationCreate { json_rpc: String, id: RequestId, params: ElicitationCreateParams },
}

/// [`ClientRequest`] as specifications see it.
pub enum ClientRequestView {
    Ping { json_rpc: Seq<char>, id: RequestIdView, params: PingParamsView },
    Initialize { json_rpc: Seq<char>, id: RequestIdView, params: InitializeParamsView },
    Complete { json_rpc: Seq<char>, id: RequestIdView, params: CompleteParamsView },
    SetLevel { json_rpc: Seq<char>, id: RequestIdView, params: SetLevelParamsView },
    GetPrompt { json_rpc: Seq<char>, id: RequestIdView, params: GetPromptParamsView },
    ListPrompts { json_rpc: Seq<char>, id: RequestIdView, params: PaginatedParamsView },
    ListResources { json_rpc: Seq<char>, id: RequestIdView, params: PaginatedParamsView },
    ListResourceTemplates { json_rpc: Seq<char>, id: RequestIdView, params: PaginatedParamsView },
    ReadResource { json_rpc: Seq<char>, id: RequestIdView, params: ReadResourceParamsView },
    Subscribe { json_rpc: Seq<char>, id: RequestIdView, params: SubscribeParamsView },
    Unsubscribe { json_rpc: Seq<char>, id: RequestIdView, params: UnsubscribeParamsView },
    CallTool { json_rpc: Seq<char>, id: RequestIdView, params: CallToolParamsView },
    ListTools { json_rpc: Seq<char>, id: RequestIdView, params: PaginatedParamsView },
    ElicitationCreate {
        json_rpc: Seq<char>,
        id: RequestIdView,
        params: ElicitationCreateParamsView,
    },
}

impl DeepView for ClientRequest {
    type V = ClientRequestView;

    open spec fn deep_view(&self) -> ClientRequestView {
        match self {
            ClientRequest::Ping { json_rpc, id, params } => {
                ClientRequestView::Ping {
                    json_rpc: json_rpc@,
                    id: id.deep_view(),
                    params: params.deep_view(),
                }
            },
            ClientRequest::Initialize { json_rpc, id, params } => {
                ClientRequestView::Initialize {
                    json_rpc: json_rpc@,
                    id: id.deep_view(),
                    params: params.deep_view(),
                }
            },
            ClientRequest::Complete { json_rpc, id, params } => {
                ClientRequestView::Complete {
                    json_rpc: json_rpc@,
                    id: id.deep_view(),
                    params: params.deep_view(),
                }
            },
            ClientRequest::SetLevel { json_rpc, id, params } => {
                ClientRequestView::SetLevel {
                    json_rpc: json_rpc@,
                    id: id.deep_view(),
                    params: params.deep_view(),
                }
            },
            ClientRequest::GetPrompt { json_rpc, id, params } => {
                ClientRequestView::GetPrompt {
                    json_rpc: json_rpc@,
                    id: id.deep_view(),
                    params: params.deep_view(),
                }
            },
            ClientRequest::ListPrompts { json_rpc, id, params } => {
                ClientRequestView::ListPrompts {
                    json_rpc: json_rpc@,
                    id: id.deep_view(),
                    params: params.deep_view(),
                }
            },
            ClientRequest::ListResources { json_rpc, id, params } => {
                ClientRequestView::ListResources {
                    json_rpc: json_rpc@,
                    id: id.deep_view(),
                    params: params.deep_view(),
                }
            },
            ClientRequest::ListResourceTemplates { json_rpc, id, params } => {
                ClientRequestView::ListResourceTemplates {
                    json_rpc: json_rpc@,
                    id: id.deep_view(),
                    params: params.deep_view(),
                }
            },
            ClientRequest::ReadResource { json_rpc, id, params } => {
                ClientRequestView::ReadResource {
                    json_rpc: json_rpc@,
                    id: id.deep_view(),
                    params: params.deep_view(),
                }
            },
            ClientRequest::Subscribe { json_rpc, id, params } => {
                ClientRequestView::Subscribe {
                    json_rpc: json_rpc@,
                    id: id.deep_view(),
                    params: params.deep_view(),
                }
            },
            ClientRequest::Unsubscribe { json_rpc, id, params } => {
                ClientRequestView::Unsubscribe {
                    json_rpc: json_rpc@,
                    id: id.deep_view(),
                    params: params.deep_view(),
                }
            },
            ClientRequest::CallTool { json_rpc, id, params } => {
                ClientRequestView::CallTool {
                    json_rpc: json_rpc@,
                    id: id.deep_view(),
                    params: params.deep_view(),
                }
            },
            ClientRequest::ListTools { json_rpc, id, params } => {
                ClientRequestView::ListTools {
                    json_rpc: json_rpc@,
                    id: id.deep_view(),
                    params: params.deep_view(),
                }
            },
            ClientRequest::ElicitationCreate { json_rpc, id, params } => {
                ClientRequestView::ElicitationCreate {
                    json_rpc: json_rpc@,
                    id: id.deep_view(),
                    params: params.deep_view(),
                }
            },
        }
    }
}

impl ClientRequest {
    /// The method that names the variant of `v`.
    pub open spec fn method(v: ClientRequestView) -> Seq<char> {
        match v {
            ClientRequestView::Ping { .. } => "ping"@,
            ClientRequestView::Initialize { .. } => "initialize"@,
            ClientRequestView::Complete { .. } => "completion/complete"@,
            ClientRequestView::SetLevel { .. } => "logging/setLevel"@,
            ClientRequestView::GetPrompt { .. } => "prompts/get"@,
            ClientRequestView::ListPrompts { .. } => "prompts/list"@,
            ClientRequestView::ListResources { .. } => "resources/list"@,
            ClientRequestView::ListResourceTemplates { .. } => "resources/templates/list"@,
            ClientRequestView::ReadResource { .. } => "resources/read"@,
            ClientRequestView::Subscribe { .. } => "resources/subscribe"@,
            ClientRequestView::Unsubscribe { .. } => "resources/unsubscribe"@,
            ClientRequestView::CallTool { .. } => "tools/call"@,
            ClientRequestView::ListTools { .. } => "tools/list"@,
            ClientRequestView::ElicitationCreate { .. } => "elicitation/create"@,
        }
    }

    /// The method that names the variant.
    pub fn method_name(&self) -> (text: &'static str)
        ensures
            text@ == Self::method(self.deep_view()),
    {
        match self {
            ClientRequest::Ping { .. } => "ping",
            ClientRequest::Initialize { .. } => "initialize",
            ClientRequest::Complete { .. } => "completion/complete",
            ClientRequest::SetLevel { .. } => "logging/setLevel",
            ClientRequest::GetPrompt { .. } => "prompts/get",
            ClientRequest::ListPrompts { .. } => "prompts/list",
            ClientRequest::ListResources { .. } => "resources/list",
            ClientRequest::ListResourceTemplates { .. } => "resources/templates/list",
            ClientRequest::ReadResource { .. } => "resources/read",
            ClientRequest::Subscribe { .. } => "resources/subscribe",
            ClientRequest::Unsubscribe { .. } => "resources/unsubscribe",
            ClientRequest::CallTool { .. } => "tools/call",
            ClientRequest::ListTools { .. } => "tools/list",
            ClientRequest::ElicitationCreate { .. } => "elicitation/create",
        }
    }

    /// `m` is one of the methods of this union.
    pub open spec fn known(m: Seq<char>) -> bool {
        m == "ping"@
        || m == "initialize"@
        || m == "completion/complete"@
        || m == "logging/setLevel"@
        || m == "prompts/get"@
        || m == "prompts/list"@
        || m == "resources/list"@
        || m == "resources/templates/list"@
        || m == "resources/read"@
        || m == "resources/subscribe"@
        || m == "resources/unsubscribe"@
        || m == "tools/call"@
        || m == "tools/list"@
        || m == "elicitation/create"@
    }

    /// Whether `m` is one of the methods of this union.
    pub fn knows(m: &str) -> (b: bool)
        ensures
            b == Self::known(m@),
    {
        same_text(m, "ping")
        || same_text(m, "initialize")
        || same_text(m, "completion/complete")
        || same_text(m, "logging/setLevel")
        || same_text(m, "prompts/get")
        || same_text(m, "prompts/list")
        || same_text(m, "resources/list")
        || same_text(m, "resources/templates/list")
        || same_text(m, "resources/read")
        || same_text(m, "resources/subscribe")
        || same_text(m, "resources/unsubscribe")
        || same_text(m, "tools/call")
        || same_text(m, "tools/list")
        || same_text(m, "elicitation/create")
    }

    /// The request that the method `m` stands for, with the parameters `raw`.
    /// A method that may leave its parameters out gets empty ones where
    /// there are none.
    pub open spec fn dispatched(
        m: Seq<char>,
        id: RequestIdView,
        raw: Option<JsonView>,
    ) -> Result<ClientRequestView, SchemaError> {
        if m == "ping"@ {
            match params_or::<PingParams>(raw, PingParams::default_view()) {
                Ok(params) => Ok(ClientRequestView::Ping { json_rpc: "2.0"@, id, params }),
                Err(e) => Err(e),
            }
        } else if m == "initialize"@ {
            match params_of::<InitializeParams>(raw) {
                Ok(params) => Ok(ClientRequestView::Initialize { json_rpc: "2.0"@, id, params }),
                Err(e) => Err(e),
            }
        } else if m == "completion/complete"@ {
            match params_of::<CompleteParams>(raw) {
                Ok(params) => Ok(ClientRequestView::Complete { json_rpc: "2.0"@, id, params }),
                Err(e) => Err(e),
            }
        } else if m == "logging/setLevel"@ {
            match params_of::<SetLevelParams>(raw) {
                Ok(params) => Ok(ClientRequestView::SetLevel { json_rpc: "2.0"@, id, params }),
                Err(e) => Err(e),
            }
        } else if m == "prompts/get"@ {
            match params_of::<GetPromptParams>(raw) {
                Ok(params) => Ok(ClientRequestView::GetPrompt { json_rpc: "2.0"@, id, params }),
                Err(e) => Err(e),
            }
        } else if m == "prompts/list"@ {
            match params_of::<PaginatedParams>(raw) {
                Ok(params) => Ok(ClientRequestView::ListPrompts { json_rpc: "2.0"@, id, params }),
                Err(e) => Err(e),
            }
        } else if m == "resources/list"@ {
            match params_of::<PaginatedParams>(raw) {
                Ok(params) => Ok(ClientRequestView::ListResources { json_rpc: "2.0"@, id, params }),
                Err(e) => Err(e),
            }
        } else if m == "resources/templates/list"@ {
            match params_of::<PaginatedParams>(raw) {
                Ok(params) => Ok(
                    ClientRequestView::ListResourceTemplates { json_rpc: "2.0"@, id, params },
                ),
                Err(e) => Err(e),
            }
        } else if m == "resources/read"@ {
            match params_of::<ReadResourceParams>(raw) {
                Ok(params) => Ok(ClientRequestView::ReadResource { json_rpc: "2.0"@, id, params }),
                Err(e) => Err(e),
            }
        } else if m == "resources/subscribe"@ {
            match params_of::<SubscribeParams>(raw) {
                Ok(params) => Ok(ClientRequestView::Subscribe { json_rpc: "2.0"@, id, params }),
                Err(e) => Err(e),
            }
        } else if m == "resources/unsubscribe"@ {
            match params_of::<UnsubscribeParams>(raw) {
                Ok(params) => Ok(ClientRequestView::Unsubscribe { json_rpc: "2.0"@, id, params }),
                Err(e) => Err(e),
            }
        } else if m == "tools/call"@ {
            match params_of::<CallToolParams>(raw) {
                Ok(params) => Ok(ClientRequestView::CallTool { json_rpc: "2.0"@, id, params }),
                Err(e) => Err(e),
            }
        } else if m == "tools/list"@ {
            match params_of::<PaginatedParams>(raw) {
                Ok(params) => Ok(ClientRequestView::ListTools { json_rpc: "2.0"@, id, params }),
                Err(e) => Err(e),
            }
        } else if m == "elicitation/create"@ {
            match params_of::<ElicitationCreateParams>(raw) {
                Ok(params) => Ok(
                    ClientRequestView::ElicitationCreate { json_rpc: "2.0"@, id, params },
                ),
                Err(e) => Err(e),
            }
        } else {
            Err(SchemaError::UnsupportedMethod)
        }
    }

    /// Makes the request that the method `method` stands for, with the
    /// parameters `raw`.
    pub fn dispatch(method: &str, id: RequestId, raw: Option<&Json>) -> (r: Result<
        ClientRequest,
        SchemaError,
    >)
        ensures
            match r {
                Ok(v) => Self::dispatched(method@, id.deep_view(), raw.deep_view()) == Ok::<
                    ClientRequestView,
                    SchemaError,
                >(v.deep_view()),
                Err(e) => Self::dispatched(method@, id.deep_view(), raw.deep_view()) == Err::<
                    ClientRequestView,
                    SchemaError,
                >(e),
            },
    {
        let json_rpc = "2.0".to_owned();
        if same_text(method, "ping") {
            let params = match read_opt_params::<PingParams>(raw)? {
                Some(p) => p,
                None => PingParams::default(),
            };
            Ok(ClientRequest::Ping { json_rpc, id, params })
        } else if same_text(method, "initialize") {
            let params = read_params::<InitializeParams>(raw)?;
            Ok(ClientRequest::Initialize { json_rpc, id, params })
        } else if same_text(method, "completion/complete") {
            let params = read_params::<CompleteParams>(raw)?;
            Ok(ClientRequest::Complete { json_rpc, id, params })
        } else if same_text(method, "logging/setLevel") {
            let params = read_params::<SetLevelParams>(raw)?;
            Ok(ClientRequest::SetLevel { json_rpc, id, params })
        } else if same_text(method, "prompts/get") {
            let params = read_params::<GetPromptParams>(raw)?;
            Ok(ClientRequest::GetPrompt { json_rpc, id, params })
        } else if same_text(method, "prompts/list") {
            let params = read_params::<PaginatedParams>(raw)?;
            Ok(ClientRequest::ListPrompts { json_rpc, id, params })
        } else if same_text(method, "resources/list") {
            let params = read_params::<PaginatedParams>(raw)?;
            Ok(ClientRequest::ListResources { json_rpc, id, params })
        } else if same_text(method, "resources/templates/list") {
            let params = read_params::<PaginatedParams>(raw)?;
            Ok(ClientRequest::ListResourceTemplates { json_rpc, id, params })
        } else if same_text(method, "resources/read") {
            let params = read_params::<ReadResourceParams>(raw)?;
            Ok(ClientRequest::ReadResource { json_rpc, id, params })
        } else if same_text(method, "resources/subscribe") {
            let params = read_params::<SubscribeParams>(raw)?;
            Ok(ClientRequest::Subscribe { json_rpc, id, params })
        } else if same_text(method, "resources/unsubscribe") {
            let params = read_params::<UnsubscribeParams>(raw)?;
            Ok(ClientRequest::Unsubscribe { json_rpc, id, params })
        } else if same_text(method, "tools/call") {
            let params = read_params::<CallToolParams>(raw)?;
            Ok(ClientRequest::CallTool { json_rpc, id, params })
        } else if same_text(method, "tools/list") {
            let params = read_params::<PaginatedParams>(raw)?;
            Ok(ClientRequest::ListTools { json_rpc, id, params })
        } else if same_text(method, "elicitation/create") {
            let params = read_params::<ElicitationCreateParams>(raw)?;
            Ok(ClientRequest::ElicitationCreate { json_rpc, id, params })
        } else {
            Err(SchemaError::UnsupportedMethod)
        }
    }
}

impl Wire for ClientRequest {
    /// The version is 2.0 and the parameters are valid.
    open spec fn valid(v: ClientRequestView) -> bool {
        match v {
            ClientRequestView::Ping { json_rpc, params, .. } => {
                json_rpc == "2.0"@ && PingParams::valid(params)
            },
            ClientRequestView::Initialize { json_rpc, params, .. } => {
                json_rpc == "2.0"@ && InitializeParams::valid(params)
            },
            ClientRequestView::Complete { json_rpc, params, .. } => {
                json_rpc == "2.0"@ && CompleteParams::valid(params)
            },
            ClientRequestView::SetLevel { json_rpc, params, .. } => {
                json_rpc == "2.0"@ && SetLevelParams::valid(params)
            },
            ClientRequestView::GetPrompt { json_rpc, params, .. } => {
                json_rpc == "2.0"@ && GetPromptParams::valid(params)
            },
            ClientRequestView::ListPrompts { json_rpc, params, .. } => {
                json_rpc == "2.0"@ && PaginatedParams::valid(params)
            },
            ClientRequestView::ListResources { json_rpc, params, .. } => {
                json_rpc == "2.0"@ && PaginatedParams::valid(params)
            },
            ClientRequestView::ListResourceTemplates { json_rpc, params, .. } => {
                json_rpc == "2.0"@ && PaginatedParams::valid(params)
            },
            ClientRequestView::ReadResource { json_rpc, params, .. } => {
                json_rpc == "2.0"@ && ReadResourceParams::valid(params)
            },
            ClientRequestView::Subscribe { json_rpc, params, .. } => {
                json_rpc == "2.0"@ && SubscribeParams::valid(params)
            },
            ClientRequestView::Unsubscribe { json_rpc, params, .. } => {
                json_rpc == "2.0"@ && UnsubscribeParams::valid(params)
            },
            ClientRequestView::CallTool { json_rpc, params, .. } => {
                json_rpc == "2.0"@ && CallToolParams::valid(params)
            },
            ClientRequestView::ListTools { json_rpc, params, .. } => {
                json_rpc == "2.0"@ && PaginatedParams::valid(params)
            },
            ClientRequestView::ElicitationCreate { json_rpc, params, .. } => {
                json_rpc == "2.0"@ && ElicitationCreateParams::valid(params)
            },
        }
    }

    open spec fn encode(v: ClientRequestView) -> JsonView {
        match v {
            ClientRequestView::Ping { json_rpc, id, params } => {
                request_frame::<PingParams>(json_rpc, id, "ping"@, params)
            },
            ClientRequestView::Initialize { json_rpc, id, params } => {
                request_frame::<InitializeParams>(json_rpc, id, "initialize"@, params)
            },
            ClientRequestView::Complete { json_rpc, id, params } => {
                request_frame::<CompleteParams>(json_rpc, id, "completion/complete"@, params)
            },
            ClientRequestView::SetLevel { json_rpc, id, params } => {
                request_frame::<SetLevelParams>(json_rpc, id, "logging/setLevel"@, params)
            },
            ClientRequestView::GetPrompt { json_rpc, id, params } => {
                request_frame::<GetPromptParams>(json_rpc, id, "prompts/get"@, params)
            },
            ClientRequestView::ListPrompts { json_rpc, id, params } => {
                request_frame::<PaginatedParams>(json_rpc, id, "prompts/list"@, params)
            },
            ClientRequestView::ListResources { json_rpc, id, params } => {
                request_frame::<PaginatedParams>(json_rpc, id, "resources/list"@, params)
            },
            ClientRequestView::ListResourceTemplates { json_rpc, id, params } => {
                request_frame::<PaginatedParams>(json_rpc, id, "resources/templates/list"@, params)
            },
            ClientRequestView::ReadResource { json_rpc, id, params } => {
                request_frame::<ReadResourceParams>(json_rpc, id, "resources/read"@, params)
            },
            ClientRequestView::Subscribe { json_rpc, id, params } => {
                request_frame::<SubscribeParams>(json_rpc, id, "resources/subscribe"@, params)
            },
            ClientRequestView::Unsubscribe { json_rpc, id, params } => {
                request_frame::<UnsubscribeParams>(json_rpc, id, "resources/unsubscribe"@, params)
            },
            ClientRequestView::CallTool { json_rpc, id, params } => {
                request_frame::<CallToolParams>(json_rpc, id, "tools/call"@, params)
            },
            ClientRequestView::ListTools { json_rpc, id, params } => {
                request_frame::<PaginatedParams>(json_rpc, id, "tools/list"@, params)
            },
            ClientRequestView::ElicitationCreate { json_rpc, id, params } => {
                request_frame::<ElicitationCreateParams>(
                    json_rpc,
                    id,
                    "elicitation/create"@,
                    params,
                )
            },
        }
    }

    /// An object that names version 2.0 and, by a string, one of the methods,
    /// and has an identifier; then what the method stands for. The checks are
    /// made in this order, and the first that fails gives the error.
    open spec fn decode(j: JsonView) -> Result<ClientRequestView, SchemaError> {
        match j {
            JsonView::Object(o) => {
                if !version_ok(o) {
                    Err(SchemaError::MalformedEnvelope)
                } else if method_of(o) is None {
                    Err(SchemaError::MalformedEnvelope)
                } else if !Self::known(method_of(o)->Some_0) {
                    Err(SchemaError::UnsupportedMethod)
                } else if id_of(o) is Err {
                    Err(id_of(o)->Err_0)
                } else {
                    Self::dispatched(method_of(o)->Some_0, id_of(o)->Ok_0, get(o, "params"@))
                }
            },
            _ => Err(SchemaError::MalformedEnvelope),
        }
    }

    fn to_json(&self) -> (j: Json) {
        match self {
            ClientRequest::Ping { json_rpc, id, params } => {
                write_request::<PingParams>(json_rpc, id, "ping", params)
            },
            ClientRequest::Initialize { json_rpc, id, params } => {
                write_request::<InitializeParams>(json_rpc, id, "initialize", params)
            },
            ClientRequest::Complete { json_rpc, id, params } => {
                write_request::<CompleteParams>(json_rpc, id, "completion/complete", params)
            },
            ClientRequest::SetLevel { json_rpc, id, params } => {
                write_request::<SetLevelParams>(json_rpc, id, "logging/setLevel", params)
            },
            ClientRequest::GetPrompt { json_rpc, id, params } => {
                write_request::<GetPromptParams>(json_rpc, id, "prompts/get", params)
            },
            ClientRequest::ListPrompts { json_rpc, id, params } => {
                write_request::<PaginatedParams>(json_rpc, id, "prompts/list", params)
            },
            ClientRequest::ListResources { json_rpc, id, params } => {
                write_request::<PaginatedParams>(json_rpc, id, "resources/list", params)
            },
            ClientRequest::ListResourceTemplates { json_rpc, id, params } => {
                write_request::<PaginatedParams>(json_rpc, id, "resources/templates/list", params)
            },
            ClientRequest::ReadResource { json_rpc, id, params } => {
                write_request::<ReadResourceParams>(json_rpc, id, "resources/read", params)
            },
            ClientRequest::Subscribe { json_rpc, id, params } => {
                write_request::<SubscribeParams>(json_rpc, id, "resources/subscribe", params)
            },
            ClientRequest::Unsubscribe { json_rpc, id, params } => {
                write_request::<UnsubscribeParams>(json_rpc, id, "resources/unsubscribe", params)
            },
            ClientRequest::CallTool { json_rpc, id, params } => {
                write_request::<CallToolParams>(json_rpc, id, "tools/call", params)
            },
            ClientRequest::ListTools { json_rpc, id, params } => {
                write_request::<PaginatedParams>(json_rpc, id, "tools/list", params)
            },
            ClientRequest::ElicitationCreate { json_rpc, id, params } => {
                write_request::<ElicitationCreateParams>(json_rpc, id, "elicitation/create", params)
            },
        }
    }

    fn from_json(j: &Json) -> (r: Result<ClientRequest, SchemaError>) {
        match j {
            Json::Object(entries) => {
                proof {
                    lemma_object_view(*entries);
                }
                if !read_version(entries) {
                    return Err(SchemaError::MalformedEnvelope);
                }
                let m = match read_method(entries) {
                    Some(m) => m.as_str(),
                    None => {
                        return Err(SchemaError::MalformedEnvelope);
                    },
                };
                if !Self::knows(m) {
                    return Err(SchemaError::UnsupportedMethod);
                }
                let id = read_id(entries)?;
                Self::dispatch(m, id, find(entries, "params"))
            },
            _ => Err(SchemaError::MalformedEnvelope),
        }
    }

    proof fn lemma_round_trip(v: ClientRequestView) {
        reveal_strlit("ping");
        reveal_strlit("initialize");
        reveal_strlit("completion/complete");
        reveal_strlit("logging/setLevel");
        reveal_strlit("prompts/get");
        reveal_strlit("prompts/list");
        reveal_strlit("resources/list");
        reveal_strlit("resources/templates/list");
        reveal_strlit("resources/read");
        reveal_strlit("resources/subscribe");
        reveal_strlit("resources/unsubscribe");
        reveal_strlit("tools/call");
        reveal_strlit("tools/list");
        reveal_strlit("elicitation/create");
        assert("ping"@.len() == 4);
        assert("initialize"@.len() == 10);
        assert("completion/complete"@.len() == 19);
        assert("logging/setLevel"@.len() == 16);
        assert("prompts/get"@.len() == 11);
        assert("prompts/list"@.len() == 12);
        assert("resources/list"@.len() == 14);
        assert("resources/templates/list"@.len() == 24);
        assert("resources/read"@.len() == 14);
        assert("resources/subscribe"@.len() == 19);
        assert("resources/unsubscribe"@.len() == 21);
        assert("tools/call"@.len() == 10);
        assert("tools/list"@.len() == 10);
        assert("elicitation/create"@.len() == 18);
        assert("initialize"@[0] == 'i');
        assert("tools/call"@[0] == 't');
        assert("tools/list"@[0] == 't');
        assert("completion/complete"@[0] == 'c');
        assert("resources/subscribe"@[0] == 'r');
        assert("resources/list"@[10] == 'l');
        assert("resources/read"@[10] == 'r');
        assert("tools/call"@[6] == 'c');
        assert("tools/list"@[6] == 'l');
        match v {
            ClientRequestView::Ping { json_rpc, id, params } => {
                lemma_request_frame::<PingParams>(json_rpc, id, "ping"@, params);
                PingParams::lemma_round_trip(params);
            },
            ClientRequestView::Initialize { json_rpc, id, params } => {
                lemma_request_frame::<InitializeParams>(json_rpc, id, "initialize"@, params);
                InitializeParams::lemma_round_trip(params);
            },
            ClientRequestView::Complete { json_rpc, id, params } => {
                lemma_request_frame::<CompleteParams>(json_rpc, id, "completion/complete"@, params);
                CompleteParams::lemma_round_trip(params);
            },
            ClientRequestView::SetLevel { json_rpc, id, params } => {
                lemma_request_frame::<SetLevelParams>(json_rpc, id, "logging/setLevel"@, params);
                SetLevelParams::lemma_round_trip(params);
            },
            ClientRequestView::GetPrompt { json_rpc, id, params } => {
                lemma_request_frame::<GetPromptParams>(json_rpc, id, "prompts/get"@, params);
                GetPromptParams::lemma_round_trip(params);
            },
            ClientRequestView::ListPrompts { json_rpc, id, params } => {
                lemma_request_frame::<PaginatedParams>(json_rpc, id, "prompts/list"@, params);
                PaginatedParams::lemma_round_trip(params);
            },
            ClientRequestView::ListResources { json_rpc, id, params } => {
                lemma_request_frame::<PaginatedParams>(json_rpc, id, "resources/list"@, params);
                PaginatedParams::lemma_round_trip(params);
            },
            ClientRequestView::ListResourceTemplates { json_rpc, id, params } => {
                lemma_request_frame::<PaginatedParams>(
                    json_rpc,
                    id,
                    "resources/templates/list"@,
                    params,
                );
                PaginatedParams::lemma_round_trip(params);
            },
            ClientRequestView::ReadResource { json_rpc, id, params } => {
                lemma_request_frame::<ReadResourceParams>(json_rpc, id, "resources/read"@, params);
                ReadResourceParams::lemma_round_trip(params);
            },
            ClientRequestView::Subscribe { json_rpc, id, params } => {
                lemma_request_frame::<SubscribeParams>(
                    json_rpc,
                    id,
                    "resources/subscribe"@,
                    params,
                );
                SubscribeParams::lemma_round_trip(params);
            },
            ClientRequestView::Unsubscribe { json_rpc, id, params } => {
                lemma_request_frame::<UnsubscribeParams>(
                    json_rpc,
                    id,
                    "resources/unsubscribe"@,
                    params,
                );
                UnsubscribeParams::lemma_round_trip(params);
            },
            ClientRequestView::CallTool { json_rpc, id, params } => {
                lemma_request_frame::<CallToolParams>(json_rpc, id, "tools/call"@, params);
                CallToolParams::lemma_round_trip(params);
            },
            ClientRequestView::ListTools { json_rpc, id, params } => {
                lemma_request_frame::<PaginatedParams>(json_rpc, id, "tools/list"@, params);
                PaginatedParams::lemma_round_trip(params);
            },
            ClientRequestView::ElicitationCreate { json_rpc, id, params } => {
                lemma_request_frame::<ElicitationCreateParams>(
                    json_rpc,
                    id,
                    "elicitation/create"@,
                    params,
                );
                ElicitationCreateParams::lemma_round_trip(params);
            },
        }
    }
}

impl WireSound for ClientRequest {
    proof fn lemma_decoded_valid(j: JsonView) {
        broadcast use group_record;

        let o = j->Object_0;
        match Self::decode(j)->Ok_0 {
            ClientRequestView::Ping { .. } => {
                if get(o, "params"@) is Some {
                    PingParams::lemma_decoded_valid(get(o, "params"@)->Some_0);
                }
            },
            ClientRequestView::Initialize { .. } => {
                if get(o, "params"@) is Some {
                    InitializeParams::lemma_decoded_valid(get(o, "params"@)->Some_0);
                }
            },
            ClientRequestView::Complete { .. } => {
                if get(o, "params"@) is Some {
                    CompleteParams::lemma_decoded_valid(get(o, "params"@)->Some_0);
                }
            },
            ClientRequestView::SetLevel { .. } => {
                if get(o, "params"@) is Some {
                    SetLevelParams::lemma_decoded_valid(get(o, "params"@)->Some_0);
                }
            },
            ClientRequestView::GetPrompt { .. } => {
                if get(o, "params"@) is Some {
                    GetPromptParams::lemma_decoded_valid(get(o, "params"@)->Some_0);
                }
            },
            ClientRequestView::ListPrompts { .. } => {
                if get(o, "params"@) is Some {
                    PaginatedParams::lemma_decoded_valid(get(o, "params"@)->Some_0);
                }
            },
            ClientRequestView::ListResources { .. } => {
                if get(o, "params"@) is Some {
                    PaginatedParams::lemma_decoded_valid(get(o, "params"@)->Some_0);
                }
            },
            ClientRequestView::ListResourceTemplates { .. } => {
                if get(o, "params"@) is Some {
                    PaginatedParams::lemma_decoded_valid(get(o, "params"@)->Some_0);
                }
            },
            ClientRequestView::ReadResource { .. } => {
                if get(o, "params"@) is Some {
                    ReadResourceParams::lemma_decoded_valid(get(o, "params"@)->Some_0);
                }
            },
            ClientRequestView::Subscribe { .. } => {
                if get(o, "params"@) is Some {
                    SubscribeParams::lemma_decoded_valid(get(o, "params"@)->Some_0);
                }
            },
            ClientRequestView::Unsubscribe { .. } => {
                if get(o, "params"@) is Some {
                    UnsubscribeParams::lemma_decoded_valid(get(o, "params"@)->Some_0);
                }
            },
            ClientRequestView::CallTool { .. } => {
                if get(o, "params"@) is Some {
                    CallToolParams::lemma_decoded_valid(get(o, "params"@)->Some_0);
                }
            },
            ClientRequestView::ListTools { .. } => {
                if get(o, "params"@) is Some {
                    PaginatedParams::lemma_decoded_valid(get(o, "params"@)->Some_0);
                }
            },
            ClientRequestView::ElicitationCreate { .. } => {
                if get(o, "params"@) is Some {
                    ElicitationCreateParams::lemma_decoded_valid(get(o, "params"@)->Some_0);
                }
            },
        }
    }
}

/// The notifications that a client sends. The `method` of the frame says which.
#[derive(Debug, Clone)]
pub enum ClientNotification {
    Cancelled { json_rpc: String, params: CancelledNotificationParams },
    Progress { json_rpc: String, params: ProgressNotificationParams },
    Initialized { json_rpc: String, params: MCPNotificationParams },
    RootsListChanged { json_rpc: String, params: MCPNotificationParams },
}

/// [`ClientNotification`] as specifications see it.
pub enum ClientNotificationView {
    Cancelled { json_rpc: Seq<char>, params: CancelledNotificationParamsView },
    Progress { json_rpc: Seq<char>, params: ProgressNotificationParamsView },
    Initialized { json_rpc: Seq<char>, params: MCPNotificationParamsView },
    RootsListChanged { json_rpc: Seq<char>, params: MCPNotificationParamsView },
}

impl DeepView for ClientNotification {
    type V = ClientNotificationView;

    open spec fn deep_view(&self) -> ClientNotificationView {
        match self {
            ClientNotification::Cancelled { json_rpc, params } => {
                ClientNotificationView::Cancelled {
                    json_rpc: json_rpc@,
                    params: params.deep_view(),
                }
            },
            ClientNotification::Progress { json_rpc, params } => {
                ClientNotificationView::Progress {
                    json_rpc: json_rpc@,
                    params: params.deep_view(),
                }
            },
            ClientNotification::Initialized { json_rpc, params } => {
                ClientNotificationView::Initialized {
                    json_rpc: json_rpc@,
                    params: params.deep_view(),
                }
            },
            ClientNotification::RootsListChanged { json_rpc, params } => {
                ClientNotificationView::RootsListChanged {
                    json_rpc: json_rpc@,
                    params: params.deep_view(),
                }
            },
        }
    }
}

impl ClientNotification {
    /// The method that names the variant of `v`.
    pub open spec fn method(v: ClientNotificationView) -> Seq<char> {
        match v {
            ClientNotificationView::Cancelled { .. } => "notifications/cancelled"@,
            ClientNotificationView::Progress { .. } => "notifications/progress"@,
            ClientNotificationView::Initialized { .. } => "notifications/initialized"@,
            ClientNotificationView::RootsListChanged { .. } => "notifications/roots/list_changed"@,
        }
    }

    /// The method that names the variant.
    pub fn method_name(&self) -> (text: &'static str)
        ensures
            text@ == Self::method(self.deep_view()),
    {
        match self {
            ClientNotification::Cancelled { .. } => "notifications/cancelled",
            ClientNotification::Progress { .. } => "notifications/progress",
            ClientNotification::Initialized { .. } => "notifications/initialized",
            ClientNotification::RootsListChanged { .. } => "notifications/roots/list_changed",
        }
    }

    /// `m` is one of the methods of this union.
    pub open spec fn known(m: Seq<char>) -> bool {
        m == "notifications/cancelled"@
        || m == "notifications/progress"@
        || m == "notifications/initialized"@
        || m == "notifications/roots/list_changed"@
    }

    /// Whether `m` is one of the methods of this union.
    pub fn knows(m: &str) -> (b: bool)
        ensures
            b == Self::known(m@),
    {
        same_text(m, "notifications/cancelled")
        || same_text(m, "notifications/progress")
        || same_text(m, "notifications/initialized")
        || same_text(m, "notifications/roots/list_changed")
    }

    /// The notification that the method `m` stands for, with the parameters `raw`.
    /// A method that may leave its parameters out gets empty ones where
    /// there are none.
    pub open spec fn dispatched(
        m: Seq<char>,
        raw: Option<JsonView>,
    ) -> Result<ClientNotificationView, SchemaError> {
        if m == "notifications/cancelled"@ {
            match params_of::<CancelledNotificationParams>(raw) {
                Ok(params) => Ok(ClientNotificationView::Cancelled { json_rpc: "2.0"@, params }),
                Err(e) => Err(e),
            }
        } else if m == "notifications/progress"@ {
            match params_of::<ProgressNotificationParams>(raw) {
                Ok(params) => Ok(ClientNotificationView::Progress { json_rpc: "2.0"@, params }),
                Err(e) => Err(e),
            }
        } else if m == "notifications/initialized"@ {
            match params_or::<MCPNotificationParams>(raw, MCPNotificationParams::default_view()) {
                Ok(params) => Ok(ClientNotificationView::Initialized { json_rpc: "2.0"@, params }),
                Err(e) => Err(e),
            }
        } else if m == "notifications/roots/list_changed"@ {
            match params_or::<MCPNotificationParams>(raw, MCPNotificationParams::default_view()) {
                Ok(params) => Ok(
                    ClientNotificationView::RootsListChanged { json_rpc: "2.0"@, params },
                ),
                Err(e) => Err(e),
            }
        } else {
            Err(SchemaError::UnsupportedMethod)
        }
    }

    /// Makes the notification that the method `method` stands for, with the
    /// parameters `raw`.
    pub fn dispatch(method: &str, raw: Option<&Json>) -> (r: Result<
        ClientNotification,
        SchemaError,
    >)
        ensures
            match r {
                Ok(v) => Self::dispatched(method@, raw.deep_view()) == Ok::<
                    ClientNotificationView,
                    SchemaError,
                >(v.deep_view()),
                Err(e) => Self::dispatched(method@, raw.deep_view()) == Err::<
                    ClientNotificationView,
                    SchemaError,
                >(e),
            },
    {
        let json_rpc = "2.0".to_owned();
        if same_text(method, "notifications/cancelled") {
            let params = read_params::<CancelledNotificationParams>(raw)?;
            Ok(ClientNotification::Cancelled { json_rpc, params })
        } else if same_text(method, "notifications/progress") {
            let params = read_params::<ProgressNotificationParams>(raw)?;
            Ok(ClientNotification::Progress { json_rpc, params })
        } else if same_text(method, "notifications/initialized") {
            let params = match read_opt_params::<MCPNotificationParams>(raw)? {
                Some(p) => p,
                None => MCPNotificationParams::default(),
            };
            Ok(ClientNotification::Initialized { json_rpc, params })
        } else if same_text(method, "notifications/roots/list_changed") {
            let params = match read_opt_params::<MCPNotificationParams>(raw)? {
                Some(p) => p,
                None => MCPNotificationParams::default(),
            };
            Ok(ClientNotification::RootsListChanged { json_rpc, params })
        } else {
            Err(SchemaError::UnsupportedMethod)
        }
    }
}

impl Wire for ClientNotification {
    /// The version is 2.0 and the parameters are valid.
    open spec fn valid(v: ClientNotificationView) -> bool {
        match v {
            ClientNotificationView::Cancelled { json_rpc, params, .. } => {
                json_rpc == "2.0"@ && CancelledNotificationParams::valid(params)
            },
            ClientNotificationView::Progress { json_rpc, params, .. } => {
                json_rpc == "2.0"@ && ProgressNotificationParams::valid(params)
            },
            ClientNotificationView::Initialized { json_rpc, params, .. } => {
                json_rpc == "2.0"@ && MCPNotificationParams::valid(params)
            },
            ClientNotificationView::RootsListChanged { json_rpc, params, .. } => {
                json_rpc == "2.0"@ && MCPNotificationParams::valid(params)
            },
        }
    }

    open spec fn encode(v: ClientNotificationView) -> JsonView {
        match v {
            ClientNotificationView::Cancelled { json_rpc, params } => {
                notification_frame::<CancelledNotificationParams>(
                    json_rpc,
                    "notifications/cancelled"@,
                    params,
                )
            },
            ClientNotificationView::Progress { json_rpc, params } => {
                notification_frame::<ProgressNotificationParams>(
                    json_rpc,
                    "notifications/progress"@,
                    params,
                )
            },
            ClientNotificationView::Initialized { json_rpc, params } => {
                notification_frame::<MCPNotificationParams>(
                    json_rpc,
                    "notifications/initialized"@,
                    params,
                )
            },
            ClientNotificationView::RootsListChanged { json_rpc, params } => {
                notification_frame::<MCPNotificationParams>(
                    json_rpc,
                    "notifications/roots/list_changed"@,
                    params,
                )
            },
        }
    }

    /// An object that names version 2.0 and, by a string, one of the methods,
    /// and has no identifier; then what the method stands for. The checks are
    /// made in this order, and the first that fails gives the error.
    open spec fn decode(j: JsonView) -> Result<ClientNotificationView, SchemaError> {
        match j {
            JsonView::Object(o) => {
                if !version_ok(o) {
                    Err(SchemaError::MalformedEnvelope)
                } else if method_of(o) is None {
                    Err(SchemaError::MalformedEnvelope)
                } else if !Self::known(method_of(o)->Some_0) {
                    Err(SchemaError::UnsupportedMethod)
                } else if get(o, "id"@) is Some {
                    Err(SchemaError::MalformedEnvelope)
                } else {
                    Self::dispatched(method_of(o)->Some_0, get(o, "params"@))
                }
            },
            _ => Err(SchemaError::MalformedEnvelope),
        }
    }

    fn to_json(&self) -> (j: Json) {
        match self {
            ClientNotification::Cancelled { json_rpc, params } => {
                write_notification::<CancelledNotificationParams>(
                    json_rpc,
                    "notifications/cancelled",
                    params,
                )
            },
            ClientNotification::Progress { json_rpc, params } => {
                write_notification::<ProgressNotificationParams>(
                    json_rpc,
                    "notifications/progress",
                    params,
                )
            },
            ClientNotification::Initialized { json_rpc, params } => {
                write_notification::<MCPNotificationParams>(
                    json_rpc,
                    "notifications/initialized",
                    params,
                )
            },
            ClientNotification::RootsListChanged { json_rpc, params } => {
                write_notification::<MCPNotificationParams>(
                    json_rpc,
                    "notifications/roots/list_changed",
                    params,
                )
            },
        }
    }

    fn from_json(j: &Json) -> (r: Result<ClientNotification, SchemaError>) {
        match j {
            Json::Object(entries) => {
                proof {
                    lemma_object_view(*entries);
                }
                if !read_version(entries) {
                    return Err(SchemaError::MalformedEnvelope);
                }
                let m = match read_method(entries) {
                    Some(m) => m.as_str(),
                    None => {
                        return Err(SchemaError::MalformedEnvelope);
                    },
                };
                if !Self::knows(m) {
                    return Err(SchemaError::UnsupportedMethod);
                }
                if has_member(entries, "id") {
                    return Err(SchemaError::MalformedEnvelope);
                }
                Self::dispatch(m, find(entries, "params"))
            },
            _ => Err(SchemaError::MalformedEnvelope),
        }
    }

    proof fn lemma_round_trip(v: ClientNotificationView) {
        reveal_strlit("notifications/cancelled");
        reveal_strlit("notifications/progress");
        reveal_strlit("notifications/initialized");
        reveal_strlit("notifications/roots/list_changed");
        assert("notifications/cancelled"@.len() == 23);
        assert("notifications/progress"@.len() == 22);
        assert("notifications/initialized"@.len() == 25);
        assert("notifications/roots/list_changed"@.len() == 32);
        match v {
            ClientNotificationView::Cancelled { json_rpc, params } => {
                lemma_notification_frame::<CancelledNotificationParams>(
                    json_rpc,
                    "notifications/cancelled"@,
                    params,
                );
                CancelledNotificationParams::lemma_round_trip(params);
            },
            ClientNotificationView::Progress { json_rpc, params } => {
                lemma_notification_frame::<ProgressNotificationParams>(
                    json_rpc,
                    "notifications/progress"@,
                    params,
                );
                ProgressNotificationParams::lemma_round_trip(params);
            },
            ClientNotificationView::Initialized { json_rpc, params } => {
                lemma_notification_frame::<MCPNotificationParams>(
                    json_rpc,
                    "notifications/initialized"@,
                    params,
                );
                MCPNotificationParams::lemma_round_trip(params);
            },
            ClientNotificationView::RootsListChanged { json_rpc, params } => {
                lemma_notification_frame::<MCPNotificationParams>(
                    json_rpc,
                    "notifications/roots/list_changed"@,
                    params,
                );
                MCPNotificationParams::lemma_round_trip(params);
            },
        }
    }
}

impl WireSound for ClientNotification {
    proof fn lemma_decoded_valid(j: JsonView) {
        broadcast use group_record;

        let o = j->Object_0;
        match Self::decode(j)->Ok_0 {
            ClientNotificationView::Cancelled { .. } => {
                if get(o, "params"@) is Some {
                    CancelledNotificationParams::lemma_decoded_valid(get(o, "params"@)->Some_0);
                }
            },
            ClientNotificationView::Progress { .. } => {
                if get(o, "params"@) is Some {
                    ProgressNotificationParams::lemma_decoded_valid(get(o, "params"@)->Some_0);
                }
            },
            ClientNotificationView::Initialized { .. } => {
                if get(o, "params"@) is Some {
                    MCPNotificationParams::lemma_decoded_valid(get(o, "params"@)->Some_0);
                }
            },
            ClientNotificationView::RootsListChanged { .. } => {
                if get(o, "params"@) is Some {
                    MCPNotificationParams::lemma_decoded_valid(get(o, "params"@)->Some_0);
                }
            },
        }
    }
}

} // verus!
