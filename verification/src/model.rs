//! The protocol message taxonomy: the closed set of request, notification
//! and result payloads for each side, the method tags that bind them to
//! their wire names, and the capability records exchanged at handshake.

use vstd::prelude::*;

use crate::json::{JsonV, JsonValue};
use crate::rpc::{ErrorCode, JsonRpcMessage, Message, NumberOrString, NumberOrStringV};

verus! {

/// The raw entries of a JSON object, in wire order.
pub type JsonObject = Vec<(String, JsonValue)>;

pub use crate::json::JsonObjV;

/// An opaque pagination token: passed back verbatim, never inspected.
pub type Cursor = String;

pub type RequestId = NumberOrString;

pub type ProgressToken = NumberOrString;

/// A marker type bound to exactly one literal string; serves as the
/// method-name discriminator of the message it parameterizes.
pub trait ConstString: Sized {
    /// The literal this tag stands for.
    spec fn spec_value() -> Seq<char>;

    /// The literal this tag stands for.
    fn value() -> (r: &'static str)
        ensures
            r@ == Self::spec_value(),
    ;
}

/// The canonical "success, no data" payload: encodes as `{}`.
#[derive(Debug, Clone, Copy, Default, PartialEq, Eq, Structural)]
pub struct EmptyObject {}

/// Mirror alias: an empty object mirrors itself.
pub type EmptyResult = EmptyObject;

impl DeepView for EmptyObject {
    type V = EmptyObject;

    open spec fn deep_view(&self) -> EmptyObject {
        *self
    }
}

/// The protocol version string the handshake recognizes.
pub open spec fn latest_protocol_version() -> Seq<char> {
    "2024-11-05"@
}

/// A protocol version: the recognized literal or any other string carried
/// verbatim, never range-compared.
#[derive(Debug, PartialEq, Eq, Hash)]
pub struct ProtocolVersion(pub String);

impl DeepView for ProtocolVersion {
    type V = Seq<char>;

    open spec fn deep_view(&self) -> Seq<char> {
        self.0@
    }
}

impl ProtocolVersion {
    /// The newest version this implementation speaks.
    pub fn latest() -> (r: Self)
        ensures
            r.deep_view() == latest_protocol_version(),
    {
        ProtocolVersion("2024-11-05".to_owned())
    }

    /// An owned copy of this version.
    pub fn duplicate(&self) -> (r: Self)
        ensures
            r.deep_view() == self.deep_view(),
    {
        ProtocolVersion(self.0.clone())
    }
}

impl Default for ProtocolVersion {
    /// The default version is the newest one.
    fn default() -> (r: Self)
        ensures
            r.deep_view() == latest_protocol_version(),
    {
        ProtocolVersion::latest()
    }
}

/// Who speaks in a sampled message.
#[derive(Debug, Clone, Copy, PartialEq, Eq, Structural)]
pub enum Role {
    User,
    Assistant,
}

impl DeepView for Role {
    type V = Role;

    open spec fn deep_view(&self) -> Role {
        *self
    }
}

/// Severity of a log record, least severe first.
#[derive(Debug, Clone, Copy, PartialEq, Eq, Structural)]
pub enum LoggingLevel {
    Debug,
    Info,
    Notice,
    Warning,
    Error,
    Critical,
    Alert,
    Emergency,
}

impl DeepView for LoggingLevel {
    type V = LoggingLevel;

    open spec fn deep_view(&self) -> LoggingLevel {
        *self
    }
}

/// What a read resource holds: text or binary data, told apart by which
/// of the two keys is present.
#[derive(Debug, PartialEq)]
pub enum ResourceContents {
    TextResourceContents { uri: String, mime_type: Option<String>, text: String },
    BlobResourceContents { uri: String, mime_type: Option<String>, blob: String },
}

/// Mirror of [`ResourceContents`].
pub ghost enum ResourceContentsV {
    TextResourceContents { uri: Seq<char>, mime_type: Option<Seq<char>>, text: Seq<char> },
    BlobResourceContents { uri: Seq<char>, mime_type: Option<Seq<char>>, blob: Seq<char> },
}

impl DeepView for ResourceContents {
    type V = ResourceContentsV;

    open spec fn deep_view(&self) -> ResourceContentsV {
        match self {
            ResourceContents::TextResourceContents { uri, mime_type, text } => {
                ResourceContentsV::TextResourceContents {
                    uri: uri@,
                    mime_type: mime_type.deep_view(),
                    text: text@,
                }
            },
            ResourceContents::BlobResourceContents { uri, mime_type, blob } => {
                ResourceContentsV::BlobResourceContents {
                    uri: uri@,
                    mime_type: mime_type.deep_view(),
                    blob: blob@,
                }
            },
        }
    }
}

/// The name and version a peer reports of itself.
#[derive(Debug, PartialEq)]
pub struct Implementation {
    pub name: String,
    pub version: String,
}

/// Mirror of [`Implementation`].
pub ghost struct ImplementationV {
    pub name: Seq<char>,
    pub version: Seq<char>,
}

impl DeepView for Implementation {
    type V = ImplementationV;

    open spec fn deep_view(&self) -> ImplementationV {
        ImplementationV {
            name: self.name.deep_view(),
            version: self.version.deep_view(),
        }
    }
}

/// Feature flags of the roots capability.
#[derive(Debug, PartialEq)]
pub struct RootsCapabilities {
    pub list_changed: Option<bool>,
}

/// Mirror of [`RootsCapabilities`].
pub ghost struct RootsCapabilitiesV {
    pub list_changed: Option<bool>,
}

impl DeepView for RootsCapabilities {
    type V = RootsCapabilitiesV;

    open spec fn deep_view(&self) -> RootsCapabilitiesV {
        RootsCapabilitiesV {
            list_changed: self.list_changed.deep_view(),
        }
    }
}

/// The sparse capability set a client offers; a present sub-record, not its contents, asserts support.
#[derive(Debug, PartialEq)]
pub struct ClientCapabilities {
    pub experimental: Option<JsonObject>,
    pub roots: Option<RootsCapabilities>,
    pub sampling: Option<JsonObject>,
}

/// Mirror of [`ClientCapabilities`].
pub ghost struct ClientCapabilitiesV {
    pub experimental: Option<JsonObjV>,
    pub roots: Option<RootsCapabilitiesV>,
    pub sampling: Option<JsonObjV>,
}

impl DeepView for ClientCapabilities {
    type V = ClientCapabilitiesV;

    open spec fn deep_view(&self) -> ClientCapabilitiesV {
        ClientCapabilitiesV {
            experimental: self.experimental.deep_view(),
            roots: self.roots.deep_view(),
            sampling: self.sampling.deep_view(),
        }
    }
}

/// Feature flags of the prompts capability.
#[derive(Debug, PartialEq)]
pub struct PromptsCapability {
    pub list_changed: Option<bool>,
}

/// Mirror of [`PromptsCapability`].
pub ghost struct PromptsCapabilityV {
    pub list_changed: Option<bool>,
}

impl DeepView for PromptsCapability {
    type V = PromptsCapabilityV;

    open spec fn deep_view(&self) -> PromptsCapabilityV {
        PromptsCapabilityV {
            list_changed: self.list_changed.deep_view(),
        }
    }
}

/// Feature flags of the resources capability.
#[derive(Debug, PartialEq)]
pub struct ResourcesCapability {
    pub subscribe: Option<bool>,
    pub list_changed: Option<bool>,
}

/// Mirror of [`ResourcesCapability`].
pub ghost struct ResourcesCapabilityV {
    pub subscribe: Option<bool>,
    pub list_changed: Option<bool>,
}

impl DeepView for ResourcesCapability {
    type V = ResourcesCapabilityV;

    open spec fn deep_view(&self) -> ResourcesCapabilityV {
        ResourcesCapabilityV {
            subscribe: self.subscribe.deep_view(),
            list_changed: self.list_changed.deep_view(),
        }
    }
}

/// Feature flags of the tools capability.
#[derive(Debug, PartialEq)]
pub struct ToolsCapability {
    pub list_changed: Option<bool>,
}

/// Mirror of [`ToolsCapability`].
pub ghost struct ToolsCapabilityV {
    pub list_changed: Option<bool>,
}

impl DeepView for ToolsCapability {
    type V = ToolsCapabilityV;

    open spec fn deep_view(&self) -> ToolsCapabilityV {
        ToolsCapabilityV {
            list_changed: self.list_changed.deep_view(),
        }
    }
}

/// The sparse capability set a server offers.
#[derive(Debug, PartialEq)]
pub struct ServerCapabilities {
    pub experimental: Option<JsonObject>,
    pub logging: Option<JsonObject>,
    pub prompts: Option<PromptsCapability>,
    pub resources: Option<ResourcesCapability>,
    pub tools: Option<ToolsCapability>,
}

/// Mirror of [`ServerCapabilities`].
pub ghost struct ServerCapabilitiesV {
    pub experimental: Option<JsonObjV>,
    pub logging: Option<JsonObjV>,
    pub prompts: Option<PromptsCapabilityV>,
    pub resources: Option<ResourcesCapabilityV>,
    pub tools: Option<ToolsCapabilityV>,
}

impl DeepView for ServerCapabilities {
    type V = ServerCapabilitiesV;

    open spec fn deep_view(&self) -> ServerCapabilitiesV {
        ServerCapabilitiesV {
            experimental: self.experimental.deep_view(),
            logging: self.logging.deep_view(),
            prompts: self.prompts.deep_view(),
            resources: self.resources.deep_view(),
            tools: self.tools.deep_view(),
        }
    }
}

/// What the initiator supplies in the `initialize` handshake.
#[derive(Debug, PartialEq)]
pub struct InitializeRequestParam {
    pub protocol_version: ProtocolVersion,
    pub capabilities: ClientCapabilities,
    pub client_info: Implementation,
}

/// Mirror of [`InitializeRequestParam`].
pub ghost struct InitializeRequestParamV {
    pub protocol_version: Seq<char>,
    pub capabilities: ClientCapabilitiesV,
    pub client_info: ImplementationV,
}

impl DeepView for InitializeRequestParam {
    type V = InitializeRequestParamV;

    open spec fn deep_view(&self) -> InitializeRequestParamV {
        InitializeRequestParamV {
            protocol_version: self.protocol_version.deep_view(),
            capabilities: self.capabilities.deep_view(),
            client_info: self.client_info.deep_view(),
        }
    }
}

/// What the responder returns from the `initialize` handshake.
#[derive(Debug, PartialEq)]
pub struct InitializeResult {
    pub protocol_version: ProtocolVersion,
    pub capabilities: ServerCapabilities,
    pub server_info: Implementation,
    pub instructions: Option<String>,
}

/// Mirror of [`InitializeResult`].
pub ghost struct InitializeResultV {
    pub protocol_version: Seq<char>,
    pub capabilities: ServerCapabilitiesV,
    pub server_info: ImplementationV,
    pub instructions: Option<Seq<char>>,
}

impl DeepView for InitializeResult {
    type V = InitializeResultV;

    open spec fn deep_view(&self) -> InitializeResultV {
        InitializeResultV {
            protocol_version: self.protocol_version.deep_view(),
            capabilities: self.capabilities.deep_view(),
            server_info: self.server_info.deep_view(),
            instructions: self.instructions.deep_view(),
        }
    }
}

/// Advises that a previously issued request with this id will go unused.
#[derive(Debug, PartialEq)]
pub struct CancelledNotificationParam {
    pub request_id: RequestId,
    pub reason: Option<String>,
}

/// Mirror of [`CancelledNotificationParam`].
pub ghost struct CancelledNotificationParamV {
    pub request_id: NumberOrStringV,
    pub reason: Option<Seq<char>>,
}

impl DeepView for CancelledNotificationParam {
    type V = CancelledNotificationParamV;

    open spec fn deep_view(&self) -> CancelledNotificationParamV {
        CancelledNotificationParamV {
            request_id: self.request_id.deep_view(),
            reason: self.reason.deep_view(),
        }
    }
}

/// Progress on long-running work; `progress` only ever grows.
#[derive(Debug, PartialEq)]
pub struct ProgressNotificationParam {
    pub progress_token: ProgressToken,
    pub progress: u32,
    pub total: Option<u32>,
}

/// Mirror of [`ProgressNotificationParam`].
pub ghost struct ProgressNotificationParamV {
    pub progress_token: NumberOrStringV,
    pub progress: u32,
    pub total: Option<u32>,
}

impl DeepView for ProgressNotificationParam {
    type V = ProgressNotificationParamV;

    open spec fn deep_view(&self) -> ProgressNotificationParamV {
        ProgressNotificationParamV {
            progress_token: self.progress_token.deep_view(),
            progress: self.progress.deep_view(),
            total: self.total.deep_view(),
        }
    }
}

/// A listing request: an absent cursor asks for the first page.
#[derive(Debug, PartialEq)]
pub struct PaginatedRequestParam {
    pub cursor: Option<String>,
}

/// Mirror of [`PaginatedRequestParam`].
pub ghost struct PaginatedRequestParamV {
    pub cursor: Option<Seq<char>>,
}

impl DeepView for PaginatedRequestParam {
    type V = PaginatedRequestParamV;

    open spec fn deep_view(&self) -> PaginatedRequestParamV {
        PaginatedRequestParamV {
            cursor: self.cursor.deep_view(),
        }
    }
}

/// Names the resource to read.
#[derive(Debug, PartialEq)]
pub struct ReadResourceRequestParam {
    pub uri: String,
}

/// Mirror of [`ReadResourceRequestParam`].
pub ghost struct ReadResourceRequestParamV {
    pub uri: Seq<char>,
}

impl DeepView for ReadResourceRequestParam {
    type V = ReadResourceRequestParamV;

    open spec fn deep_view(&self) -> ReadResourceRequestParamV {
        ReadResourceRequestParamV {
            uri: self.uri.deep_view(),
        }
    }
}

/// Names the resource to watch.
#[derive(Debug, PartialEq)]
pub struct SubscribeRequestParam {
    pub uri: String,
}

/// Mirror of [`SubscribeRequestParam`].
pub ghost struct SubscribeRequestParamV {
    pub uri: Seq<char>,
}

impl DeepView for SubscribeRequestParam {
    type V = SubscribeRequestParamV;

    open spec fn deep_view(&self) -> SubscribeRequestParamV {
        SubscribeRequestParamV {
            uri: self.uri.deep_view(),
        }
    }
}

/// Names the resource to stop watching.
#[derive(Debug, PartialEq)]
pub struct UnsubscribeRequestParam {
    pub uri: String,
}

/// Mirror of [`UnsubscribeRequestParam`].
pub ghost struct UnsubscribeRequestParamV {
    pub uri: Seq<char>,
}

impl DeepView for UnsubscribeRequestParam {
    type V = UnsubscribeRequestParamV;

    open spec fn deep_view(&self) -> UnsubscribeRequestParamV {
        UnsubscribeRequestParamV {
            uri: self.uri.deep_view(),
        }
    }
}

/// Names the resource that changed.
#[derive(Debug, PartialEq)]
pub struct ResourceUpdatedNotificationParam {
    pub uri: String,
}

/// Mirror of [`ResourceUpdatedNotificationParam`].
pub ghost struct ResourceUpdatedNotificationParamV {
    pub uri: Seq<char>,
}

impl DeepView for ResourceUpdatedNotificationParam {
    type V = ResourceUpdatedNotificationParamV;

    open spec fn deep_view(&self) -> ResourceUpdatedNotificationParamV {
        ResourceUpdatedNotificationParamV {
            uri: self.uri.deep_view(),
        }
    }
}

/// Names the prompt to fetch, with optional template arguments.
#[derive(Debug, PartialEq)]
pub struct GetPromptRequestParam {
    pub name: String,
    pub arguments: Option<JsonObject>,
}

/// Mirror of [`GetPromptRequestParam`].
pub ghost struct GetPromptRequestParamV {
    pub name: Seq<char>,
    pub arguments: Option<JsonObjV>,
}

impl DeepView for GetPromptRequestParam {
    type V = GetPromptRequestParamV;

    open spec fn deep_view(&self) -> GetPromptRequestParamV {
        GetPromptRequestParamV {
            name: self.name.deep_view(),
            arguments: self.arguments.deep_view(),
        }
    }
}

/// The least severe level the peer should go on sending.
#[derive(Debug, PartialEq)]
pub struct SetLevelRequestParam {
    pub level: LoggingLevel,
}

/// Mirror of [`SetLevelRequestParam`].
pub ghost struct SetLevelRequestParamV {
    pub level: LoggingLevel,
}

impl DeepView for SetLevelRequestParam {
    type V = SetLevelRequestParamV;

    open spec fn deep_view(&self) -> SetLevelRequestParamV {
        SetLevelRequestParamV {
            level: self.level.deep_view(),
        }
    }
}

/// One log record from the server.
#[derive(Debug, PartialEq)]
pub struct LoggingMessageNotificationParam {
    pub level: LoggingLevel,
    pub logger: Option<String>,
    pub data: JsonValue,
}

/// Mirror of [`LoggingMessageNotificationParam`].
pub ghost struct LoggingMessageNotificationParamV {
    pub level: LoggingLevel,
    pub logger: Option<Seq<char>>,
    pub data: JsonV,
}

impl DeepView for LoggingMessageNotificationParam {
    type V = LoggingMessageNotificationParamV;

    open spec fn deep_view(&self) -> LoggingMessageNotificationParamV {
        LoggingMessageNotificationParamV {
            level: self.level.deep_view(),
            logger: self.logger.deep_view(),
            data: self.data.deep_view(),
        }
    }
}

/// A piece of plain text.
#[derive(Debug, PartialEq)]
pub struct TextContent {
    pub text: String,
}

/// Mirror of [`TextContent`].
pub ghost struct TextContentV {
    pub text: Seq<char>,
}

impl DeepView for TextContent {
    type V = TextContentV;

    open spec fn deep_view(&self) -> TextContentV {
        TextContentV {
            text: self.text.deep_view(),
        }
    }
}

/// An image as base64 data with its media type.
#[derive(Debug, PartialEq)]
pub struct ImageContent {
    pub data: String,
    pub mime_type: String,
}

/// Mirror of [`ImageContent`].
pub ghost struct ImageContentV {
    pub data: Seq<char>,
    pub mime_type: Seq<char>,
}

impl DeepView for ImageContent {
    type V = ImageContentV;

    open spec fn deep_view(&self) -> ImageContentV {
        ImageContentV {
            data: self.data.deep_view(),
            mime_type: self.mime_type.deep_view(),
        }
    }
}

/// One turn of a sampled conversation.
#[derive(Debug, PartialEq)]
pub struct SamplingMessage {
    pub role: Role,
    pub content: Content,
}

/// Mirror of [`SamplingMessage`].
pub ghost struct SamplingMessageV {
    pub role: Role,
    pub content: ContentV,
}

impl DeepView for SamplingMessage {
    type V = SamplingMessageV;

    open spec fn deep_view(&self) -> SamplingMessageV {
        SamplingMessageV {
            role: self.role.deep_view(),
            content: self.content.deep_view(),
        }
    }
}

/// A substring hint for picking a model.
#[derive(Debug, PartialEq)]
pub struct ModelHint {
    pub name: Option<String>,
}

/// Mirror of [`ModelHint`].
pub ghost struct ModelHintV {
    pub name: Option<Seq<char>>,
}

impl DeepView for ModelHint {
    type V = ModelHintV;

    open spec fn deep_view(&self) -> ModelHintV {
        ModelHintV {
            name: self.name.deep_view(),
        }
    }
}

/// Asks the peer to sample a completion over the given conversation.
#[derive(Debug, PartialEq)]
pub struct CreateMessageRequestParam {
    pub messages: Vec<SamplingMessage>,
    pub system_prompt: Option<String>,
    pub include_context: Option<String>,
    pub max_tokens: u32,
    pub stop_sequences: Option<Vec<String>>,
    pub metadata: Option<JsonValue>,
}

/// Mirror of [`CreateMessageRequestParam`].
pub ghost struct CreateMessageRequestParamV {
    pub messages: Seq<SamplingMessageV>,
    pub system_prompt: Option<Seq<char>>,
    pub include_context: Option<Seq<char>>,
    pub max_tokens: u32,
    pub stop_sequences: Option<Seq<Seq<char>>>,
    pub metadata: Option<JsonV>,
}

impl DeepView for CreateMessageRequestParam {
    type V = CreateMessageRequestParamV;

    open spec fn deep_view(&self) -> CreateMessageRequestParamV {
        CreateMessageRequestParamV {
            messages: self.messages.deep_view(),
            system_prompt: self.system_prompt.deep_view(),
            include_context: self.include_context.deep_view(),
            max_tokens: self.max_tokens.deep_view(),
            stop_sequences: self.stop_sequences.deep_view(),
            metadata: self.metadata.deep_view(),
        }
    }
}

/// Points completion at a resource.
#[derive(Debug, PartialEq)]
pub struct ResourceReference {
    pub uri: String,
}

/// Mirror of [`ResourceReference`].
pub ghost struct ResourceReferenceV {
    pub uri: Seq<char>,
}

impl DeepView for ResourceReference {
    type V = ResourceReferenceV;

    open spec fn deep_view(&self) -> ResourceReferenceV {
        ResourceReferenceV {
            uri: self.uri.deep_view(),
        }
    }
}

/// Points completion at a prompt.
#[derive(Debug, PartialEq)]
pub struct PromptReference {
    pub name: String,
}

/// Mirror of [`PromptReference`].
pub ghost struct PromptReferenceV {
    pub name: Seq<char>,
}

impl DeepView for PromptReference {
    type V = PromptReferenceV;

    open spec fn deep_view(&self) -> PromptReferenceV {
        PromptReferenceV {
            name: self.name.deep_view(),
        }
    }
}

/// The argument being completed and the text typed so far.
#[derive(Debug, PartialEq)]
pub struct ArgumentInfo {
    pub name: String,
    pub value: String,
}

/// Mirror of [`ArgumentInfo`].
pub ghost struct ArgumentInfoV {
    pub name: Seq<char>,
    pub value: Seq<char>,
}

impl DeepView for ArgumentInfo {
    type V = ArgumentInfoV;

    open spec fn deep_view(&self) -> ArgumentInfoV {
        ArgumentInfoV {
            name: self.name.deep_view(),
            value: self.value.deep_view(),
        }
    }
}

/// Asks for completion candidates for one argument.
#[derive(Debug, PartialEq)]
pub struct CompleteRequestParam {
    pub reference: Reference,
    pub argument: ArgumentInfo,
}

/// Mirror of [`CompleteRequestParam`].
pub ghost struct CompleteRequestParamV {
    pub reference: ReferenceV,
    pub argument: ArgumentInfoV,
}

impl DeepView for CompleteRequestParam {
    type V = CompleteRequestParamV;

    open spec fn deep_view(&self) -> CompleteRequestParamV {
        CompleteRequestParamV {
            reference: self.reference.deep_view(),
            argument: self.argument.deep_view(),
        }
    }
}

/// Completion candidates, at most a page of them.
#[derive(Debug, PartialEq)]
pub struct CompletionInfo {
    pub values: Vec<String>,
    pub total: Option<u32>,
    pub has_more: Option<bool>,
}

/// Mirror of [`CompletionInfo`].
pub ghost struct CompletionInfoV {
    pub values: Seq<Seq<char>>,
    pub total: Option<u32>,
    pub has_more: Option<bool>,
}

impl DeepView for CompletionInfo {
    type V = CompletionInfoV;

    open spec fn deep_view(&self) -> CompletionInfoV {
        CompletionInfoV {
            values: self.values.deep_view(),
            total: self.total.deep_view(),
            has_more: self.has_more.deep_view(),
        }
    }
}

/// The completion candidates found.
#[derive(Debug, PartialEq)]
pub struct CompleteResult {
    pub completion: CompletionInfo,
}

/// Mirror of [`CompleteResult`].
pub ghost struct CompleteResultV {
    pub completion: CompletionInfoV,
}

impl DeepView for CompleteResult {
    type V = CompleteResultV;

    open spec fn deep_view(&self) -> CompleteResultV {
        CompleteResultV {
            completion: self.completion.deep_view(),
        }
    }
}

/// One root directory or file the client exposes.
#[derive(Debug, PartialEq)]
pub struct Root {
    pub uri: String,
    pub name: Option<String>,
}

/// Mirror of [`Root`].
pub ghost struct RootV {
    pub uri: Seq<char>,
    pub name: Option<Seq<char>>,
}

impl DeepView for Root {
    type V = RootV;

    open spec fn deep_view(&self) -> RootV {
        RootV {
            uri: self.uri.deep_view(),
            name: self.name.deep_view(),
        }
    }
}

/// All roots the client exposes.
#[derive(Debug, PartialEq)]
pub struct ListRootsResult {
    pub roots: Vec<Root>,
}

/// Mirror of [`ListRootsResult`].
pub ghost struct ListRootsResultV {
    pub roots: Seq<RootV>,
}

impl DeepView for ListRootsResult {
    type V = ListRootsResultV;

    open spec fn deep_view(&self) -> ListRootsResultV {
        ListRootsResultV {
            roots: self.roots.deep_view(),
        }
    }
}

/// Names the tool to invoke and its arguments.
#[derive(Debug, PartialEq)]
pub struct CallToolRequestParam {
    pub name: String,
    pub arguments: Option<JsonObject>,
}

/// Mirror of [`CallToolRequestParam`].
pub ghost struct CallToolRequestParamV {
    pub name: Seq<char>,
    pub arguments: Option<JsonObjV>,
}

impl DeepView for CallToolRequestParam {
    type V = CallToolRequestParamV;

    open spec fn deep_view(&self) -> CallToolRequestParamV {
        CallToolRequestParamV {
            name: self.name.deep_view(),
            arguments: self.arguments.deep_view(),
        }
    }
}

/// What a tool invocation produced.
#[derive(Debug, PartialEq)]
pub struct CallToolResult {
    pub content: Vec<Content>,
    pub is_error: Option<bool>,
}

/// Mirror of [`CallToolResult`].
pub ghost struct CallToolResultV {
    pub content: Seq<ContentV>,
    pub is_error: Option<bool>,
}

impl DeepView for CallToolResult {
    type V = CallToolResultV;

    open spec fn deep_view(&self) -> CallToolResultV {
        CallToolResultV {
            content: self.content.deep_view(),
            is_error: self.is_error.deep_view(),
        }
    }
}

/// The sampled completion; the message stands flattened beside the model name on the wire.
#[derive(Debug, PartialEq)]
pub struct CreateMessageResult {
    pub model: String,
    pub stop_reason: Option<String>,
    pub message: SamplingMessage,
}

/// Mirror of [`CreateMessageResult`].
pub ghost struct CreateMessageResultV {
    pub model: Seq<char>,
    pub stop_reason: Option<Seq<char>>,
    pub message: SamplingMessageV,
}

impl DeepView for CreateMessageResult {
    type V = CreateMessageResultV;

    open spec fn deep_view(&self) -> CreateMessageResultV {
        CreateMessageResultV {
            model: self.model.deep_view(),
            stop_reason: self.stop_reason.deep_view(),
            message: self.message.deep_view(),
        }
    }
}

/// One message of a prompt template.
#[derive(Debug, PartialEq)]
pub struct PromptMessage {
    pub role: Role,
    pub content: Content,
}

/// Mirror of [`PromptMessage`].
pub ghost struct PromptMessageV {
    pub role: Role,
    pub content: ContentV,
}

impl DeepView for PromptMessage {
    type V = PromptMessageV;

    open spec fn deep_view(&self) -> PromptMessageV {
        PromptMessageV {
            role: self.role.deep_view(),
            content: self.content.deep_view(),
        }
    }
}

/// One argument a prompt template accepts.
#[derive(Debug, PartialEq)]
pub struct PromptArgument {
    pub name: String,
    pub description: Option<String>,
    pub required: Option<bool>,
}

/// Mirror of [`PromptArgument`].
pub ghost struct PromptArgumentV {
    pub name: Seq<char>,
    pub description: Option<Seq<char>>,
    pub required: Option<bool>,
}

impl DeepView for PromptArgument {
    type V = PromptArgumentV;

    open spec fn deep_view(&self) -> PromptArgumentV {
        PromptArgumentV {
            name: self.name.deep_view(),
            description: self.description.deep_view(),
            required: self.required.deep_view(),
        }
    }
}

/// A prompt template the server offers.
#[derive(Debug, PartialEq)]
pub struct Prompt {
    pub name: String,
    pub description: Option<String>,
    pub arguments: Option<Vec<PromptArgument>>,
}

/// Mirror of [`Prompt`].
pub ghost struct PromptV {
    pub name: Seq<char>,
    pub description: Option<Seq<char>>,
    pub arguments: Option<Seq<PromptArgumentV>>,
}

impl DeepView for Prompt {
    type V = PromptV;

    open spec fn deep_view(&self) -> PromptV {
        PromptV {
            name: self.name.deep_view(),
            description: self.description.deep_view(),
            arguments: self.arguments.deep_view(),
        }
    }
}

/// A resource the server offers.
#[derive(Debug, PartialEq)]
pub struct Resource {
    pub uri: String,
    pub name: String,
    pub description: Option<String>,
    pub mime_type: Option<String>,
}

/// Mirror of [`Resource`].
pub ghost struct ResourceV {
    pub uri: Seq<char>,
    pub name: Seq<char>,
    pub description: Option<Seq<char>>,
    pub mime_type: Option<Seq<char>>,
}

impl DeepView for Resource {
    type V = ResourceV;

    open spec fn deep_view(&self) -> ResourceV {
        ResourceV {
            uri: self.uri.deep_view(),
            name: self.name.deep_view(),
            description: self.description.deep_view(),
            mime_type: self.mime_type.deep_view(),
        }
    }
}

/// A tool the server offers, with the JSON schema of its parameters.
#[derive(Debug, PartialEq)]
pub struct Tool {
    pub name: String,
    pub description: Option<String>,
    pub input_schema: JsonObject,
}

/// Mirror of [`Tool`].
pub ghost struct ToolV {
    pub name: Seq<char>,
    pub description: Option<Seq<char>>,
    pub input_schema: JsonObjV,
}

impl DeepView for Tool {
    type V = ToolV;

    open spec fn deep_view(&self) -> ToolV {
        ToolV {
            name: self.name.deep_view(),
            description: self.description.deep_view(),
            input_schema: self.input_schema.deep_view(),
        }
    }
}

/// A page of resources; an absent cursor ends the listing.
#[derive(Debug, PartialEq)]
pub struct ListResourcesResult {
    pub next_cursor: Option<String>,
    pub resources: Vec<Resource>,
}

/// Mirror of [`ListResourcesResult`].
pub ghost struct ListResourcesResultV {
    pub next_cursor: Option<Seq<char>>,
    pub resources: Seq<ResourceV>,
}

impl DeepView for ListResourcesResult {
    type V = ListResourcesResultV;

    open spec fn deep_view(&self) -> ListResourcesResultV {
        ListResourcesResultV {
            next_cursor: self.next_cursor.deep_view(),
            resources: self.resources.deep_view(),
        }
    }
}

/// A page of resource templates; an absent cursor ends the listing.
#[derive(Debug, PartialEq)]
pub struct ListResourceTemplatesResult {
    pub next_cursor: Option<String>,
    pub resource_templates: Vec<Resource>,
}

/// Mirror of [`ListResourceTemplatesResult`].
pub ghost struct ListResourceTemplatesResultV {
    pub next_cursor: Option<Seq<char>>,
    pub resource_templates: Seq<ResourceV>,
}

impl DeepView for ListResourceTemplatesResult {
    type V = ListResourceTemplatesResultV;

    open spec fn deep_view(&self) -> ListResourceTemplatesResultV {
        ListResourceTemplatesResultV {
            next_cursor: self.next_cursor.deep_view(),
            resource_templates: self.resource_templates.deep_view(),
        }
    }
}

/// A page of prompts; an absent cursor ends the listing.
#[derive(Debug, PartialEq)]
pub struct ListPromptsResult {
    pub next_cursor: Option<String>,
    pub prompts: Vec<Prompt>,
}

/// Mirror of [`ListPromptsResult`].
pub ghost struct ListPromptsResultV {
    pub next_cursor: Option<Seq<char>>,
    pub prompts: Seq<PromptV>,
}

impl DeepView for ListPromptsResult {
    type V = ListPromptsResultV;

    open spec fn deep_view(&self) -> ListPromptsResultV {
        ListPromptsResultV {
            next_cursor: self.next_cursor.deep_view(),
            prompts: self.prompts.deep_view(),
        }
    }
}

/// A page of tools; an absent cursor ends the listing.
#[derive(Debug, PartialEq)]
pub struct ListToolsResult {
    pub next_cursor: Option<String>,
    pub tools: Vec<Tool>,
}

/// Mirror of [`ListToolsResult`].
pub ghost struct ListToolsResultV {
    pub next_cursor: Option<Seq<char>>,
    pub tools: Seq<ToolV>,
}

impl DeepView for ListToolsResult {
    type V = ListToolsResultV;

    open spec fn deep_view(&self) -> ListToolsResultV {
        ListToolsResultV {
            next_cursor: self.next_cursor.deep_view(),
            tools: self.tools.deep_view(),
        }
    }
}

/// Request metadata: the token progress is reported under.
#[derive(Debug, PartialEq)]
pub struct RequestMeta {
    pub progress_token: ProgressToken,
}

/// Mirror of [`RequestMeta`].
pub ghost struct RequestMetaV {
    pub progress_token: NumberOrStringV,
}

impl DeepView for RequestMeta {
    type V = RequestMetaV;

    open spec fn deep_view(&self) -> RequestMetaV {
        RequestMetaV {
            progress_token: self.progress_token.deep_view(),
        }
    }
}

/// Method tag bound to the literal `"notifications/cancelled"`.
#[derive(Debug, Clone, Copy, Default, PartialEq, Eq, Structural)]
pub struct CancelledNotificationMethod;

impl ConstString for CancelledNotificationMethod {
    open spec fn spec_value() -> Seq<char> {
        "notifications/cancelled"@
    }

    fn value() -> (r: &'static str) {
        "notifications/cancelled"
    }
}

/// Method tag bound to the literal `"initialize"`.
#[derive(Debug, Clone, Copy, Default, PartialEq, Eq, Structural)]
pub struct InitializeResultMethod;

impl ConstString for InitializeResultMethod {
    open spec fn spec_value() -> Seq<char> {
        "initialize"@
    }

    fn value() -> (r: &'static str) {
        "initialize"
    }
}

/// Method tag bound to the literal `"notifications/initialized"`.
#[derive(Debug, Clone, Copy, Default, PartialEq, Eq, Structural)]
pub struct InitializedNotificationMethod;

impl ConstString for InitializedNotificationMethod {
    open spec fn spec_value() -> Seq<char> {
        "notifications/initialized"@
    }

    fn value() -> (r: &'static str) {
        "notifications/initialized"
    }
}

/// Method tag bound to the literal `"ping"`.
#[derive(Debug, Clone, Copy, Default, PartialEq, Eq, Structural)]
pub struct PingRequestMethod;

impl ConstString for PingRequestMethod {
    open spec fn spec_value() -> Seq<char> {
        "ping"@
    }

    fn value() -> (r: &'static str) {
        "ping"
    }
}

/// Method tag bound to the literal `"notifications/progress"`.
#[derive(Debug, Clone, Copy, Default, PartialEq, Eq, Structural)]
pub struct ProgressNotificationMethod;

impl ConstString for ProgressNotificationMethod {
    open spec fn spec_value() -> Seq<char> {
        "notifications/progress"@
    }

    fn value() -> (r: &'static str) {
        "notifications/progress"
    }
}

/// Method tag bound to the literal `"resources/list"`.
#[derive(Debug, Clone, Copy, Default, PartialEq, Eq, Structural)]
pub struct ListResourcesRequestMethod;

impl ConstString for ListResourcesRequestMethod {
    open spec fn spec_value() -> Seq<char> {
        "resources/list"@
    }

    fn value() -> (r: &'static str) {
        "resources/list"
    }
}

/// Method tag bound to the literal `"resources/templates/list"`.
#[derive(Debug, Clone, Copy, Default, PartialEq, Eq, Structural)]
pub struct ListResourceTemplatesRequestMethod;

impl ConstString for ListResourceTemplatesRequestMethod {
    open spec fn spec_value() -> Seq<char> {
        "resources/templates/list"@
    }

    fn value() -> (r: &'static str) {
        "resources/templates/list"
    }
}

/// Method tag bound to the literal `"resources/read"`.
#[derive(Debug, Clone, Copy, Default, PartialEq, Eq, Structural)]
pub struct ReadResourceRequestMethod;

impl ConstString for ReadResourceRequestMethod {
    open spec fn spec_value() -> Seq<char> {
        "resources/read"@
    }

    fn value() -> (r: &'static str) {
        "resources/read"
    }
}

/// Method tag bound to the literal `"notifications/resources/list_changed"`.
#[derive(Debug, Clone, Copy, Default, PartialEq, Eq, Structural)]
pub struct ResourceListChangedNotificationMethod;

impl ConstString for ResourceListChangedNotificationMethod {
    open spec fn spec_value() -> Seq<char> {
        "notifications/resources/list_changed"@
    }

    fn value() -> (r: &'static str) {
        "notifications/resources/list_changed"
    }
}

/// Method tag bound to the literal `"resources/subscribe"`.
#[derive(Debug, Clone, Copy, Default, PartialEq, Eq, Structural)]
pub struct SubscribeRequestMethod;

impl ConstString for SubscribeRequestMethod {
    open spec fn spec_value() -> Seq<char> {
        "resources/subscribe"@
    }

    fn value() -> (r: &'static str) {
        "resources/subscribe"
    }
}

/// Method tag bound to the literal `"resources/unsubscribe"`.
#[derive(Debug, Clone, Copy, Default, PartialEq, Eq, Structural)]
pub struct UnsubscribeRequestMethod;

impl ConstString for UnsubscribeRequestMethod {
    open spec fn spec_value() -> Seq<char> {
        "resources/unsubscribe"@
    }

    fn value() -> (r: &'static str) {
        "resources/unsubscribe"
    }
}

/// Method tag bound to the literal `"notifications/resources/updated"`.
#[derive(Debug, Clone, Copy, Default, PartialEq, Eq, Structural)]
pub struct ResourceUpdatedNotificationMethod;

impl ConstString for ResourceUpdatedNotificationMethod {
    open spec fn spec_value() -> Seq<char> {
        "notifications/resources/updated"@
    }

    fn value() -> (r: &'static str) {
        "notifications/resources/updated"
    }
}

/// Method tag bound to the literal `"prompts/list"`.
#[derive(Debug, Clone, Copy, Default, PartialEq, Eq, Structural)]
pub struct ListPromptsRequestMethod;

impl ConstString for ListPromptsRequestMethod {
    open spec fn spec_value() -> Seq<char> {
        "prompts/list"@
    }

    fn value() -> (r: &'static str) {
        "prompts/list"
    }
}

/// Method tag bound to the literal `"prompts/get"`.
#[derive(Debug, Clone, Copy, Default, PartialEq, Eq, Structural)]
pub struct GetPromptRequestMethod;

impl ConstString for GetPromptRequestMethod {
    open spec fn spec_value() -> Seq<char> {
        "prompts/get"@
    }

    fn value() -> (r: &'static str) {
        "prompts/get"
    }
}

/// Method tag bound to the literal `"notifications/prompts/list_changed"`.
#[derive(Debug, Clone, Copy, Default, PartialEq, Eq, Structural)]
pub struct PromptListChangedNotificationMethod;

impl ConstString for PromptListChangedNotificationMethod {
    open spec fn spec_value() -> Seq<char> {
        "notifications/prompts/list_changed"@
    }

    fn value() -> (r: &'static str) {
        "notifications/prompts/list_changed"
    }
}

/// Method tag bound to the literal `"notifications/tools/list_changed"`.
#[derive(Debug, Clone, Copy, Default, PartialEq, Eq, Structural)]
pub struct ToolListChangedNotificationMethod;

impl ConstString for ToolListChangedNotificationMethod {
    open spec fn spec_value() -> Seq<char> {
        "notifications/tools/list_changed"@
    }

    fn value() -> (r: &'static str) {
        "notifications/tools/list_changed"
    }
}

/// Method tag bound to the literal `"logging/setLevel"`.
#[derive(Debug, Clone, Copy, Default, PartialEq, Eq, Structural)]
pub struct SetLevelRequestMethod;

impl ConstString for SetLevelRequestMethod {
    open spec fn spec_value() -> Seq<char> {
        "logging/setLevel"@
    }

    fn value() -> (r: &'static str) {
        "logging/setLevel"
    }
}

/// Method tag bound to the literal `"notifications/message"`.
#[derive(Debug, Clone, Copy, Default, PartialEq, Eq, Structural)]
pub struct LoggingMessageNotificationMethod;

impl ConstString for LoggingMessageNotificationMethod {
    open spec fn spec_value() -> Seq<char> {
        "notifications/message"@
    }

    fn value() -> (r: &'static str) {
        "notifications/message"
    }
}

/// Method tag bound to the literal `"sampling/createMessage"`.
#[derive(Debug, Clone, Copy, Default, PartialEq, Eq, Structural)]
pub struct CreateMessageRequestMethod;

impl ConstString for CreateMessageRequestMethod {
    open spec fn spec_value() -> Seq<char> {
        "sampling/createMessage"@
    }

    fn value() -> (r: &'static str) {
        "sampling/createMessage"
    }
}

/// Method tag bound to the literal `"completion/complete"`.
#[derive(Debug, Clone, Copy, Default, PartialEq, Eq, Structural)]
pub struct CompleteRequestMethod;

impl ConstString for CompleteRequestMethod {
    open spec fn spec_value() -> Seq<char> {
        "completion/complete"@
    }

    fn value() -> (r: &'static str) {
        "completion/complete"
    }
}

/// Method tag bound to the literal `"roots/list"`.
#[derive(Debug, Clone, Copy, Default, PartialEq, Eq, Structural)]
pub struct ListRootsRequestMethod;

impl ConstString for ListRootsRequestMethod {
    open spec fn spec_value() -> Seq<char> {
        "roots/list"@
    }

    fn value() -> (r: &'static str) {
        "roots/list"
    }
}

/// Method tag bound to the literal `"notifications/roots/list_changed"`.
#[derive(Debug, Clone, Copy, Default, PartialEq, Eq, Structural)]
pub struct RootsListChangedNotificationMethod;

impl ConstString for RootsListChangedNotificationMethod {
    open spec fn spec_value() -> Seq<char> {
        "notifications/roots/list_changed"@
    }

    fn value() -> (r: &'static str) {
        "notifications/roots/list_changed"
    }
}

/// Method tag bound to the literal `"tools/list"`.
#[derive(Debug, Clone, Copy, Default, PartialEq, Eq, Structural)]
pub struct ListToolsRequestMethod;

impl ConstString for ListToolsRequestMethod {
    open spec fn spec_value() -> Seq<char> {
        "tools/list"@
    }

    fn value() -> (r: &'static str) {
        "tools/list"
    }
}

/// Method tag bound to the literal `"tools/call"`.
#[derive(Debug, Clone, Copy, Default, PartialEq, Eq, Structural)]
pub struct CallToolRequestMethod;

impl ConstString for CallToolRequestMethod {
    open spec fn spec_value() -> Seq<char> {
        "tools/call"@
    }

    fn value() -> (r: &'static str) {
        "tools/call"
    }
}

/// Every request a client may issue, one variant per method tag, in decode order.
#[derive(Debug, PartialEq)]
pub enum ClientRequest {
    PingRequest,
    InitializeRequest(InitializeRequestParam),
    CompleteRequest(CompleteRequestParam),
    SetLevelRequest(SetLevelRequestParam),
    GetPromptRequest(GetPromptRequestParam),
    ListPromptsRequest(PaginatedRequestParam),
    ListResourcesRequest(PaginatedRequestParam),
    ListResourceTemplatesRequest(PaginatedRequestParam),
    ReadResourceRequest(ReadResourceRequestParam),
    SubscribeRequest(SubscribeRequestParam),
    UnsubscribeRequest(UnsubscribeRequestParam),
    CallToolRequest(CallToolRequestParam),
    ListToolsRequest(PaginatedRequestParam),
}

/// Mirror of [`ClientRequest`].
pub ghost enum ClientRequestV {
    PingRequest,
    InitializeRequest(InitializeRequestParamV),
    CompleteRequest(CompleteRequestParamV),
    SetLevelRequest(SetLevelRequestParamV),
    GetPromptRequest(GetPromptRequestParamV),
    ListPromptsRequest(PaginatedRequestParamV),
    ListResourcesRequest(PaginatedRequestParamV),
    ListResourceTemplatesRequest(PaginatedRequestParamV),
    ReadResourceRequest(ReadResourceRequestParamV),
    SubscribeRequest(SubscribeRequestParamV),
    UnsubscribeRequest(UnsubscribeRequestParamV),
    CallToolRequest(CallToolRequestParamV),
    ListToolsRequest(PaginatedRequestParamV),
}

impl DeepView for ClientRequest {
    type V = ClientRequestV;

    open spec fn deep_view(&self) -> ClientRequestV {
        match self {
            ClientRequest::PingRequest => ClientRequestV::PingRequest,
            ClientRequest::InitializeRequest(p) => ClientRequestV::InitializeRequest(p.deep_view()),
            ClientRequest::CompleteRequest(p) => ClientRequestV::CompleteRequest(p.deep_view()),
            ClientRequest::SetLevelRequest(p) => ClientRequestV::SetLevelRequest(p.deep_view()),
            ClientRequest::GetPromptRequest(p) => ClientRequestV::GetPromptRequest(p.deep_view()),
            ClientRequest::ListPromptsRequest(p) => ClientRequestV::ListPromptsRequest(p.deep_view()),
            ClientRequest::ListResourcesRequest(p) => ClientRequestV::ListResourcesRequest(p.deep_view()),
            ClientRequest::ListResourceTemplatesRequest(p) => ClientRequestV::ListResourceTemplatesRequest(p.deep_view()),
            ClientRequest::ReadResourceRequest(p) => ClientRequestV::ReadResourceRequest(p.deep_view()),
            ClientRequest::SubscribeRequest(p) => ClientRequestV::SubscribeRequest(p.deep_view()),
            ClientRequest::UnsubscribeRequest(p) => ClientRequestV::UnsubscribeRequest(p.deep_view()),
            ClientRequest::CallToolRequest(p) => ClientRequestV::CallToolRequest(p.deep_view()),
            ClientRequest::ListToolsRequest(p) => ClientRequestV::ListToolsRequest(p.deep_view()),
        }
    }
}

/// Every notification a client may send, in decode order.
#[derive(Debug, PartialEq)]
pub enum ClientNotification {
    CancelledNotification(CancelledNotificationParam),
    ProgressNotification(ProgressNotificationParam),
    InitializedNotification,
    RootsListChangedNotification,
}

/// Mirror of [`ClientNotification`].
pub ghost enum ClientNotificationV {
    CancelledNotification(CancelledNotificationParamV),
    ProgressNotification(ProgressNotificationParamV),
    InitializedNotification,
    RootsListChangedNotification,
}

impl DeepView for ClientNotification {
    type V = ClientNotificationV;

    open spec fn deep_view(&self) -> ClientNotificationV {
        match self {
            ClientNotification::CancelledNotification(p) => ClientNotificationV::CancelledNotification(p.deep_view()),
            ClientNotification::ProgressNotification(p) => ClientNotificationV::ProgressNotification(p.deep_view()),
            ClientNotification::InitializedNotification => ClientNotificationV::InitializedNotification,
            ClientNotification::RootsListChangedNotification => ClientNotificationV::RootsListChangedNotification,
        }
    }
}

/// Every result a client may return, in decode order.
#[derive(Debug, PartialEq)]
pub enum ClientResult {
    CreateMessageResult(CreateMessageResult),
    ListRootsResult(ListRootsResult),
    EmptyResult(EmptyObject),
}

/// Mirror of [`ClientResult`].
pub ghost enum ClientResultV {
    CreateMessageResult(CreateMessageResultV),
    ListRootsResult(ListRootsResultV),
    EmptyResult(EmptyObject),
}

impl DeepView for ClientResult {
    type V = ClientResultV;

    open spec fn deep_view(&self) -> ClientResultV {
        match self {
            ClientResult::CreateMessageResult(p) => ClientResultV::CreateMessageResult(p.deep_view()),
            ClientResult::ListRootsResult(p) => ClientResultV::ListRootsResult(p.deep_view()),
            ClientResult::EmptyResult(p) => ClientResultV::EmptyResult(p.deep_view()),
        }
    }
}

/// Every request a server may issue, in decode order.
#[derive(Debug, PartialEq)]
pub enum ServerRequest {
    PingRequest,
    CreateMessageRequest(CreateMessageRequestParam),
    ListRootsRequest,
}

/// Mirror of [`ServerRequest`].
pub ghost enum ServerRequestV {
    PingRequest,
    CreateMessageRequest(CreateMessageRequestParamV),
    ListRootsRequest,
}

impl DeepView for ServerRequest {
    type V = ServerRequestV;

    open spec fn deep_view(&self) -> ServerRequestV {
        match self {
            ServerRequest::PingRequest => ServerRequestV::PingRequest,
            ServerRequest::CreateMessageRequest(p) => ServerRequestV::CreateMessageRequest(p.deep_view()),
            ServerRequest::ListRootsRequest => ServerRequestV::ListRootsRequest,
        }
    }
}

/// Every notification a server may send, in decode order.
#[derive(Debug, PartialEq)]
pub enum ServerNotification {
    CancelledNotification(CancelledNotificationParam),
    ProgressNotification(ProgressNotificationParam),
    LoggingMessageNotification(LoggingMessageNotificationParam),
    ResourceUpdatedNotification(ResourceUpdatedNotificationParam),
    ResourceListChangedNotification,
    ToolListChangedNotification,
    PromptListChangedNotification,
}

/// Mirror of [`ServerNotification`].
pub ghost enum ServerNotificationV {
    CancelledNotification(CancelledNotificationParamV),
    ProgressNotification(ProgressNotificationParamV),
    LoggingMessageNotification(LoggingMessageNotificationParamV),
    ResourceUpdatedNotification(ResourceUpdatedNotificationParamV),
    ResourceListChangedNotification,
    ToolListChangedNotification,
    PromptListChangedNotification,
}

impl DeepView for ServerNotification {
    type V = ServerNotificationV;

    open spec fn deep_view(&self) -> ServerNotificationV {
        match self {
            ServerNotification::CancelledNotification(p) => ServerNotificationV::CancelledNotification(p.deep_view()),
            ServerNotification::ProgressNotification(p) => ServerNotificationV::ProgressNotification(p.deep_view()),
            ServerNotification::LoggingMessageNotification(p) => ServerNotificationV::LoggingMessageNotification(p.deep_view()),
            ServerNotification::ResourceUpdatedNotification(p) => ServerNotificationV::ResourceUpdatedNotification(p.deep_view()),
            ServerNotification::ResourceListChangedNotification => ServerNotificationV::ResourceListChangedNotification,
            ServerNotification::ToolListChangedNotification => ServerNotificationV::ToolListChangedNotification,
            ServerNotification::PromptListChangedNotification => ServerNotificationV::PromptListChangedNotification,
        }
    }
}

/// Every result a server may return, in decode order; order decides which variant an ambiguous object becomes.
#[derive(Debug, PartialEq)]
pub enum ServerResult {
    InitializeResult(InitializeResult),
    CompleteResult(CompleteResult),
    GetPromptResult(GetPromptResult),
    ListPromptsResult(ListPromptsResult),
    ListResourcesResult(ListResourcesResult),
    ListResourceTemplatesResult(ListResourceTemplatesResult),
    ReadResourceResult(ReadResourceResult),
    CallToolResult(CallToolResult),
    ListToolsResult(ListToolsResult),
    EmptyResult(EmptyObject),
}

/// Mirror of [`ServerResult`].
pub ghost enum ServerResultV {
    InitializeResult(InitializeResultV),
    CompleteResult(CompleteResultV),
    GetPromptResult(GetPromptResultV),
    ListPromptsResult(ListPromptsResultV),
    ListResourcesResult(ListResourcesResultV),
    ListResourceTemplatesResult(ListResourceTemplatesResultV),
    ReadResourceResult(ReadResourceResultV),
    CallToolResult(CallToolResultV),
    ListToolsResult(ListToolsResultV),
    EmptyResult(EmptyObject),
}

impl DeepView for ServerResult {
    type V = ServerResultV;

    open spec fn deep_view(&self) -> ServerResultV {
        match self {
            ServerResult::InitializeResult(p) => ServerResultV::InitializeResult(p.deep_view()),
            ServerResult::CompleteResult(p) => ServerResultV::CompleteResult(p.deep_view()),
            ServerResult::GetPromptResult(p) => ServerResultV::GetPromptResult(p.deep_view()),
            ServerResult::ListPromptsResult(p) => ServerResultV::ListPromptsResult(p.deep_view()),
            ServerResult::ListResourcesResult(p) => ServerResultV::ListResourcesResult(p.deep_view()),
            ServerResult::ListResourceTemplatesResult(p) => ServerResultV::ListResourceTemplatesResult(p.deep_view()),
            ServerResult::ReadResourceResult(p) => ServerResultV::ReadResourceResult(p.deep_view()),
            ServerResult::CallToolResult(p) => ServerResultV::CallToolResult(p.deep_view()),
            ServerResult::ListToolsResult(p) => ServerResultV::ListToolsResult(p.deep_view()),
            ServerResult::EmptyResult(p) => ServerResultV::EmptyResult(p.deep_view()),
        }
    }
}

/// What a completion request points at.
#[derive(Debug, PartialEq)]
pub enum Reference {
    Resource(ResourceReference),
    Prompt(PromptReference),
}

/// Mirror of [`Reference`].
pub ghost enum ReferenceV {
    Resource(ResourceReferenceV),
    Prompt(PromptReferenceV),
}

impl DeepView for Reference {
    type V = ReferenceV;

    open spec fn deep_view(&self) -> ReferenceV {
        match self {
            Reference::Resource(p) => ReferenceV::Resource(p.deep_view()),
            Reference::Prompt(p) => ReferenceV::Prompt(p.deep_view()),
        }
    }
}

/// One piece of content, discriminated on the wire by its `type` field.
#[derive(Debug, PartialEq)]
pub enum Content {
    Text(TextContent),
    Image(ImageContent),
}

/// Mirror of [`Content`].
pub ghost enum ContentV {
    Text(TextContentV),
    Image(ImageContentV),
}

impl DeepView for Content {
    type V = ContentV;

    open spec fn deep_view(&self) -> ContentV {
        match self {
            Content::Text(p) => ContentV::Text(p.deep_view()),
            Content::Image(p) => ContentV::Image(p.deep_view()),
        }
    }
}

/// What a prompt fetch returned: the description and rendered messages.
#[derive(Debug, PartialEq)]
pub struct GetPromptResult {
    pub description: Option<String>,
    pub messages: Vec<PromptMessage>,
}

/// Mirror of [`GetPromptResult`].
pub ghost struct GetPromptResultV {
    pub description: Option<Seq<char>>,
    pub messages: Seq<PromptMessageV>,
}

impl DeepView for GetPromptResult {
    type V = GetPromptResultV;

    open spec fn deep_view(&self) -> GetPromptResultV {
        GetPromptResultV {
            description: self.description.deep_view(),
            messages: self.messages.deep_view(),
        }
    }
}

/// What a resource read returned.
#[derive(Debug, PartialEq)]
pub struct ReadResourceResult {
    pub contents: Vec<ResourceContents>,
}

/// Mirror of [`ReadResourceResult`].
pub ghost struct ReadResourceResultV {
    pub contents: Seq<ResourceContentsV>,
}

impl DeepView for ReadResourceResult {
    type V = ReadResourceResultV;

    open spec fn deep_view(&self) -> ReadResourceResultV {
        ReadResourceResultV { contents: self.contents.deep_view() }
    }
}

/// A request whose method is not fixed at the type level: the raw shape
/// under every typed request.
#[derive(Debug, PartialEq)]
pub struct Request<M = String, P = Option<WithMeta<JsonObject, RequestMeta>>> {
    pub method: M,
    pub params: P,
}

/// Mirror of [`Request`].
pub ghost struct RequestV<M, P> {
    pub method: M,
    pub params: P,
}

impl<M: DeepView, P: DeepView> DeepView for Request<M, P> {
    type V = RequestV<M::V, P::V>;

    open spec fn deep_view(&self) -> RequestV<M::V, P::V> {
        RequestV { method: self.method.deep_view(), params: self.params.deep_view() }
    }
}

/// A request that carries no parameters at all.
#[derive(Debug, PartialEq)]
pub struct RequestNoParam<M = String> {
    pub method: M,
}

/// Mirror of [`RequestNoParam`].
pub ghost struct RequestNoParamV<M> {
    pub method: M,
}

impl<M: DeepView> DeepView for RequestNoParam<M> {
    type V = RequestNoParamV<M::V>;

    open spec fn deep_view(&self) -> RequestNoParamV<M::V> {
        RequestNoParamV { method: self.method.deep_view() }
    }
}

/// A notification whose method is not fixed at the type level.
#[derive(Debug, PartialEq)]
pub struct Notification<M = String, P = Option<WithMeta<JsonObject, JsonObject>>> {
    pub method: M,
    pub params: P,
}

/// Mirror of [`Notification`].
pub ghost struct NotificationV<M, P> {
    pub method: M,
    pub params: P,
}

impl<M: DeepView, P: DeepView> DeepView for Notification<M, P> {
    type V = NotificationV<M::V, P::V>;

    open spec fn deep_view(&self) -> NotificationV<M::V, P::V> {
        NotificationV { method: self.method.deep_view(), params: self.params.deep_view() }
    }
}

/// A notification that carries no parameters at all.
#[derive(Debug, PartialEq)]
pub struct NotificationNoParam<M = String> {
    pub method: M,
}

/// Mirror of [`NotificationNoParam`].
pub ghost struct NotificationNoParamV<M> {
    pub method: M,
}

impl<M: DeepView> DeepView for NotificationNoParam<M> {
    type V = NotificationNoParamV<M::V>;

    open spec fn deep_view(&self) -> NotificationNoParamV<M::V> {
        NotificationNoParamV { method: self.method.deep_view() }
    }
}

/// A payload together with its side-channel metadata: on the wire the
/// metadata sits under an `_meta` key beside the payload's own keys, and
/// unknown sibling keys are preserved here rather than rejected.
#[derive(Debug, PartialEq)]
pub struct WithMeta<P, M> {
    pub _meta: Option<M>,
    pub inner: P,
}

/// Mirror of [`WithMeta`].
pub ghost struct WithMetaV<P, M> {
    pub _meta: Option<M>,
    pub inner: P,
}

impl<P: DeepView, M: DeepView> DeepView for WithMeta<P, M> {
    type V = WithMetaV<P::V, M::V>;

    open spec fn deep_view(&self) -> WithMetaV<P::V, M::V> {
        WithMetaV { _meta: self._meta.deep_view(), inner: self.inner.deep_view() }
    }
}

/// The raw result shape: an object with optional metadata.
pub type DefaultResponse = WithMeta<JsonObject, JsonObject>;

pub type ClientJsonRpcMessage = JsonRpcMessage<ClientRequest, ClientResult, ClientNotification>;

pub type ClientMessage = Message<ClientRequest, ClientResult, ClientNotification>;

pub type ServerJsonRpcMessage = JsonRpcMessage<ServerRequest, ServerResult, ServerNotification>;

pub type ServerMessage = Message<ServerRequest, ServerResult, ServerNotification>;

pub type ServerInfo = InitializeResult;

pub type ClientInfo = InitializeRequestParam;

impl Implementation {
    /// This crate's own name and version.
    pub fn from_build_env() -> (r: Self)
        ensures
            r.name@ == "rmcp"@,
            r.version@ == "0.1.0"@,
    {
        Implementation { name: "rmcp".to_owned(), version: "0.1.0".to_owned() }
    }
}

impl Default for Implementation {
    /// The default implementation record names this crate.
    fn default() -> (r: Self)
        ensures
            r.name@ == "rmcp"@,
            r.version@ == "0.1.0"@,
    {
        Implementation::from_build_env()
    }
}

impl Default for ClientCapabilities {
    /// By default a client claims no optional capability.
    fn default() -> (r: Self)
        ensures
            r.experimental is None,
            r.roots is None,
            r.sampling is None,
    {
        ClientCapabilities { experimental: None, roots: None, sampling: None }
    }
}

impl Default for ServerCapabilities {
    /// By default a server claims no optional capability.
    fn default() -> (r: Self)
        ensures
            r.experimental is None,
            r.logging is None,
            r.prompts is None,
            r.resources is None,
            r.tools is None,
    {
        ServerCapabilities {
            experimental: None,
            logging: None,
            prompts: None,
            resources: None,
            tools: None,
        }
    }
}

impl Default for PaginatedRequestParam {
    /// By default a listing starts at its first page.
    fn default() -> (r: Self)
        ensures
            r.cursor is None,
    {
        PaginatedRequestParam { cursor: None }
    }
}

impl Default for ServerInfo {
    /// A fresh server description: latest version, no capabilities, no
    /// instructions, this crate as the implementation.
    fn default() -> (r: Self)
        ensures
            r.protocol_version.deep_view() == latest_protocol_version(),
            r.capabilities == (ServerCapabilities {
                experimental: None,
                logging: None,
                prompts: None,
                resources: None,
                tools: None,
            }),
            r.instructions is None,
    {
        ServerInfo {
            protocol_version: ProtocolVersion::default(),
            capabilities: ServerCapabilities::default(),
            server_info: Implementation::from_build_env(),
            instructions: None,
        }
    }
}

impl Default for ClientInfo {
    /// A fresh client description: latest version, no capabilities, this
    /// crate as the implementation.
    fn default() -> (r: Self)
        ensures
            r.protocol_version.deep_view() == latest_protocol_version(),
            r.capabilities == (ClientCapabilities {
                experimental: None,
                roots: None,
                sampling: None,
            }),
    {
        ClientInfo {
            protocol_version: ProtocolVersion::default(),
            capabilities: ClientCapabilities::default(),
            client_info: Implementation::from_build_env(),
        }
    }
}

impl CallToolResult {
    /// A successful tool outcome carrying the given content.
    pub fn success(content: Vec<Content>) -> (r: Self)
        ensures
            r.content == content,
            r.is_error == Some(false),
    {
        CallToolResult { content, is_error: Some(false) }
    }

    /// A failed tool outcome carrying the given content.
    pub fn error(content: Vec<Content>) -> (r: Self)
        ensures
            r.content == content,
            r.is_error == Some(true),
    {
        CallToolResult { content, is_error: Some(true) }
    }
}

impl ClientResult {
    /// The canonical empty success payload.
    pub fn empty(_ignored: ()) -> (r: ClientResult)
        ensures
            r == ClientResult::EmptyResult(EmptyObject {  }),
    {
        ClientResult::EmptyResult(EmptyObject {  })
    }
}

impl ServerResult {
    /// The canonical empty success payload.
    pub fn empty(_ignored: ()) -> (r: ServerResult)
        ensures
            r == ServerResult::EmptyResult(EmptyObject {  }),
    {
        ServerResult::EmptyResult(EmptyObject {  })
    }
}

impl ServerNotification {
    /// The cancellation payload, where this is a cancellation; the
    /// notification itself otherwise.
    pub fn try_into_cancelled(self) -> (r: Result<CancelledNotificationParam, ServerNotification>)
        ensures
            r == match self {
                ServerNotification::CancelledNotification(p) => Result::<
                    CancelledNotificationParam,
                    ServerNotification,
                >::Ok(p),
                _ => Result::<CancelledNotificationParam, ServerNotification>::Err(self),
            },
    {
        if let ServerNotification::CancelledNotification(t) = self {
            Ok(t)
        } else {
            Err(self)
        }
    }
}

impl ClientNotification {
    /// The cancellation payload, where this is a cancellation; the
    /// notification itself otherwise.
    pub fn try_into_cancelled(self) -> (r: Result<CancelledNotificationParam, ClientNotification>)
        ensures
            r == match self {
                ClientNotification::CancelledNotification(p) => Result::<
                    CancelledNotificationParam,
                    ClientNotification,
                >::Ok(p),
                _ => Result::<CancelledNotificationParam, ClientNotification>::Err(self),
            },
    {
        if let ClientNotification::CancelledNotification(t) = self {
            Ok(t)
        } else {
            Err(self)
        }
    }
}

impl CreateMessageResult {
    /// The peer stopped at a natural end of turn.
    pub fn stop_reason_end_turn() -> (r: &'static str)
        ensures
            r@ == "endTurn"@,
    {
        "endTurn"
    }

    /// The peer stopped on a stop sequence.
    pub fn stop_reason_stop_sequence() -> (r: &'static str)
        ensures
            r@ == "stopSequence"@,
    {
        "stopSequence"
    }

    /// The peer stopped at the token limit.
    pub fn stop_reason_max_tokens() -> (r: &'static str)
        ensures
            r@ == "maxTokens"@,
    {
        "maxTokens"
    }
}

} // verus!
