//! A verified core for a JSON-RPC based application protocol: the wire
//! message model (envelopes, method tags, the closed request/notification/
//! result taxonomies for both peers), request/response correlation, and the
//! bounded admission window used by per-message transports.

use vstd::prelude::*;

pub mod codec_base;
pub mod codec_payload;
pub mod codec_raw;
pub mod codec_seq;
pub mod codec_wire;
pub mod flow;
pub mod json;
pub mod model;
pub mod rpc;
pub mod session;

pub use flow::{HandshakeUnit, InboundAction, InboundUnit, SendWindow, WINDOW_SIZE};
pub use json::JsonValue;
pub use session::{CallRecord, Session, SessionPhase};
pub use rpc::{
    ErrorCode, ErrorData, JsonRpcError, JsonRpcMessage, JsonRpcNotification, JsonRpcRequest,
    JsonRpcResponse, JsonRpcVersion2_0, Message, NumberOrString,
};
pub use model::{
    ArgumentInfo, CallToolRequestParam, CallToolResult, CancelledNotificationParam,
    ClientCapabilities, ClientInfo, ClientJsonRpcMessage, ClientMessage, ClientNotification,
    ClientRequest, ClientResult, CompleteRequestParam, CompleteResult, CompletionInfo, ConstString,
    Content, CreateMessageRequestParam, CreateMessageResult, Cursor, DefaultResponse, EmptyObject,
    EmptyResult, GetPromptRequestParam, GetPromptResult, ImageContent, Implementation,
    InitializeRequestParam, InitializeResult, JsonObject, ListPromptsResult,
    ListResourceTemplatesResult, ListResourcesResult, ListRootsResult, ListToolsResult,
    LoggingLevel, LoggingMessageNotificationParam, ModelHint, Notification, NotificationNoParam,
    PaginatedRequestParam, ProgressNotificationParam, ProgressToken, Prompt, PromptArgument,
    PromptMessage, PromptReference, PromptsCapability, ProtocolVersion,
    ReadResourceRequestParam, ReadResourceResult, Reference, Request, RequestId, RequestMeta,
    RequestNoParam, Resource, ResourceContents, ResourceReference, ResourceUpdatedNotificationParam,
    ResourcesCapability, Role, Root, RootsCapabilities, SamplingMessage, ServerCapabilities,
    ServerInfo, ServerJsonRpcMessage, ServerMessage, ServerNotification, ServerRequest,
    ServerResult, SetLevelRequestParam, SubscribeRequestParam, TextContent, Tool, ToolsCapability,
    UnsubscribeRequestParam, WithMeta,
};
