//! Provider-neutral conversation types shared by routing, clients, and translation.
use vstd::prelude::*;
use vstd::string::*;
use vstd::utf8::encode_utf8;

use crate::format::FormatId;
use crate::json::{Float, Json, JsonMap, Value};
use crate::model::{
    contents, empty_request, lemma_content_view, nothing_preserved, ContentView, MessageView,
    ResponseView,
};
use crate::text::{joined, opt_text};

verus! {

broadcast use lemma_content_view;

/// Actor role normalized across provider APIs.
#[derive(Clone, Copy, Debug, Eq, PartialEq, Structural)]
pub enum Role {
    /// System-level instructions.
    System,
    /// Developer-level instructions supported by some provider APIs.
    Developer,
    /// End-user input.
    User,
    /// Model-generated output.
    Assistant,
    /// Tool execution output.
    Tool,
}

/// Wire-level field used for OpenAI Chat plaintext reasoning.
///
/// The two names are provider dialects rather than interchangeable aliases:
/// callers may need to replay the exact field returned by a model.
#[derive(Clone, Copy, Debug, Eq, PartialEq, Structural)]
pub enum OpenAiChatReasoningField {
    /// The `reasoning` field.
    Reasoning,
    /// The `reasoning_content` field.
    ReasoningContent,
}

impl Default for OpenAiChatReasoningField {
    /// The historical default spelling.
    fn default() -> (field: Self)
        ensures
            field == OpenAiChatReasoningField::Reasoning,
    {
        OpenAiChatReasoningField::Reasoning
    }
}

impl OpenAiChatReasoningField {
    /// Returns true when the field uses the historical default spelling.
    pub fn is_default(&self) -> (default: bool)
        ensures
            default == (*self == OpenAiChatReasoningField::Reasoning),
    {
        matches!(self, OpenAiChatReasoningField::Reasoning)
    }
}

/// Normalized content block variants carried by messages and tool results.
#[derive(Debug, PartialEq)]
pub enum ContentBlock {
    /// Plain text content.
    Text {
        /// Text value.
        text: String,
    },
    /// Model reasoning or thinking content.
    Reasoning {
        /// Reasoning text.
        text: String,
        /// Provider signature used to validate or continue the reasoning block.
        signature: Option<String>,
        /// Structured reasoning details, such as an encrypted `{ "type":
        /// "reasoning.encrypted", "data": "..." }` object, replayed without modification.
        details: Vec<Value>,
        /// OpenAI Chat field that carried plaintext reasoning.
        openai_chat_field: OpenAiChatReasoningField,
    },
    /// Image content.
    Image {
        /// Image location or inline payload.
        source: ImageSource,
    },
    /// Audio content.
    Audio {
        /// Audio location or inline payload.
        source: MediaSource,
    },
    /// Video content.
    Video {
        /// Video location or inline payload.
        source: MediaSource,
    },
    /// File content.
    File {
        /// File identifier or inline payload.
        source: FileSource,
    },
    /// Tool invocation requested by the assistant.
    ToolCall(ToolCall),
    /// Result of an earlier tool invocation.
    ToolResult(ToolResult),
    /// Free-form input tool invocation requested by the assistant.
    CustomToolCall(CustomToolCall),
    /// Result of an earlier free-form input tool invocation.
    CustomToolResult(CustomToolResult),
    /// Computer interaction requested by the assistant.
    ComputerToolCall(ComputerToolCall),
    /// Screenshot and safety acknowledgements returned after computer interaction.
    ComputerToolResult(ComputerToolResult),
    /// Provider-hosted tool invocation requested by the assistant.
    HostedToolCall(HostedToolCall),
    /// Result produced by a provider-hosted tool.
    HostedToolResult(HostedToolResult),
    /// Bounded opaque state retained for a later request.
    OpaqueState(OpaqueState),
    /// Provider-created conversation compaction state.
    Compaction(CompactionItem),
    /// A provider-native generated image.
    GeneratedImage(GeneratedImage),
    /// A provider pause that requires another turn instead of ordinary completion.
    PauseTurn(PauseTurn),
    /// Provider refusal content.
    Refusal {
        /// Human-readable refusal text.
        text: String,
    },
    /// Provider block that has no normalized representation.
    Unknown {
        /// Wire format that supplied the block.
        provider: FormatId,
        /// Exact provider block.
        raw: Value,
    },
}

/// Image payload forms supported by the conversation model.
#[derive(Debug, PartialEq)]
pub enum ImageSource {
    /// Image fetched from a URL.
    Url {
        /// Image URL.
        url: String,
        /// Optional provider-specific image detail level.
        detail: Option<String>,
    },
    /// Base64-encoded image bytes.
    Base64 {
        /// MIME type, when supplied.
        media_type: Option<String>,
        /// Base64-encoded bytes.
        data: String,
    },
    /// Provider image source with no normalized representation.
    Raw(Value),
}

/// File payload forms supported by the conversation model.
#[derive(Debug, PartialEq)]
pub enum FileSource {
    /// Provider-managed file identifier.
    FileId(String),
    /// Inline file payload.
    FileData {
        /// Encoded or textual file data as supplied by the provider format.
        data: String,
        /// Original filename, when supplied.
        filename: Option<String>,
    },
    /// Provider file source with no normalized representation.
    Raw(Value),
}

/// Audio and video payload forms supported by the conversation model.
#[derive(Debug, PartialEq)]
pub enum MediaSource {
    /// Media fetched from a URL.
    Url {
        /// Media URL.
        url: String,
        /// MIME type, when supplied.
        media_type: Option<String>,
    },
    /// Base64-encoded media bytes.
    Base64 {
        /// MIME type, when supplied.
        media_type: Option<String>,
        /// Base64-encoded bytes.
        data: String,
    },
    /// Provider media source with no normalized representation.
    Raw(Value),
}

/// Normalized assistant tool call.
#[derive(Debug, PartialEq)]
pub struct ToolCall {
    /// Provider tool-call identifier used to pair the result.
    pub id: String,
    /// Tool name.
    pub name: String,
    /// Parsed tool arguments.
    pub arguments: Value,
}

/// Normalized tool result message content.
#[derive(Debug, PartialEq)]
pub struct ToolResult {
    /// Identifier of the [`ToolCall`] this result answers.
    pub tool_call_id: String,
    /// Ordered tool output content.
    pub content: Vec<ContentBlock>,
    /// Whether tool execution failed, when the provider reports it.
    pub is_error: Option<bool>,
}

/// Free-form input tool invocation.
#[derive(Debug, PartialEq)]
pub struct CustomToolCall {
    /// Provider tool-call identifier used to pair the result.
    pub id: String,
    /// Provider item identifier, when the protocol distinguishes items from calls.
    pub item_id: Option<String>,
    /// Tool name.
    pub name: String,
    /// Unparsed text input supplied to the tool.
    pub input: String,
}

/// Result of an earlier [`CustomToolCall`].
#[derive(Debug, PartialEq)]
pub struct CustomToolResult {
    /// Identifier of the custom tool call this result answers.
    pub tool_call_id: String,
    /// Text returned by the tool.
    pub output: String,
    /// Whether tool execution failed, when reported.
    pub is_error: Option<bool>,
}

/// Screen geometry and environment exposed to a computer tool.
#[derive(Clone, Debug, PartialEq)]
pub struct ComputerToolConfig {
    /// Width of the interactive surface in pixels.
    pub display_width: u32,
    /// Height of the interactive surface in pixels.
    pub display_height: u32,
    /// Kind of interactive surface.
    pub environment: ComputerEnvironment,
}

/// Kind of interactive surface exposed to a computer tool.
#[derive(Clone, Copy, Debug, Eq, PartialEq, Structural)]
pub enum ComputerEnvironment {
    /// Browser viewport.
    Browser,
    /// Desktop session.
    Desktop,
    /// Mobile-device session.
    Mobile,
}

/// Coordinate on a computer tool's interactive surface.
#[derive(Clone, Copy, Debug, Eq, PartialEq, Structural)]
pub struct ComputerPoint {
    /// Horizontal coordinate.
    pub x: i64,
    /// Vertical coordinate.
    pub y: i64,
}

/// Mouse button used by a computer action.
#[derive(Clone, Copy, Debug, Eq, PartialEq, Structural)]
pub enum ComputerMouseButton {
    /// Primary mouse button.
    Left,
    /// Middle mouse button.
    Middle,
    /// Secondary mouse button.
    Right,
}

/// One provider-neutral computer interaction.
#[derive(Debug, PartialEq)]
pub enum ComputerAction {
    /// Click one point.
    Click {
        /// Click location.
        point: ComputerPoint,
        /// Mouse button to click.
        button: ComputerMouseButton,
    },
    /// Double-click one point.
    DoubleClick {
        /// Click location.
        point: ComputerPoint,
        /// Mouse button to click.
        button: ComputerMouseButton,
    },
    /// Drag through an ordered path.
    Drag {
        /// Ordered drag path.
        path: Vec<ComputerPoint>,
    },
    /// Press one or more keys together.
    KeyPress {
        /// Provider-neutral key names.
        keys: Vec<String>,
    },
    /// Move the pointer without clicking.
    Move {
        /// Destination.
        point: ComputerPoint,
    },
    /// Request a screenshot without another interaction.
    Screenshot,
    /// Scroll at a point.
    Scroll {
        /// Pointer location for the scroll.
        point: ComputerPoint,
        /// Horizontal scroll distance.
        delta_x: i64,
        /// Vertical scroll distance.
        delta_y: i64,
    },
    /// Enter literal text.
    Type {
        /// Text to enter.
        text: String,
    },
    /// Wait for the remote surface.
    Wait,
}

/// One safety check attached to a computer action.
#[derive(Debug, Eq, PartialEq)]
pub struct ComputerSafetyCheck {
    /// Stable identifier echoed when the check is acknowledged.
    pub id: String,
    /// Human-readable check description.
    pub description: String,
}

/// Computer actions requested by the assistant.
#[derive(Debug, PartialEq)]
pub struct ComputerToolCall {
    /// Provider tool-call identifier used to pair the result.
    pub id: String,
    /// Provider item identifier, when supplied.
    pub item_id: Option<String>,
    /// Ordered actions to perform.
    pub actions: Vec<ComputerAction>,
    /// Checks that must be acknowledged before executing the actions.
    pub pending_safety_checks: Vec<ComputerSafetyCheck>,
}

/// Result of an earlier [`ComputerToolCall`].
#[derive(Debug, PartialEq)]
pub struct ComputerToolResult {
    /// Identifier of the computer tool call this result answers.
    pub tool_call_id: String,
    /// Screenshot or other native image returned after executing the action.
    pub output: ImageSource,
    /// Safety checks acknowledged by the executor.
    pub acknowledged_safety_checks: Vec<String>,
}

/// A provider-hosted tool capability.
#[derive(Debug, PartialEq)]
pub enum HostedTool {
    /// Search public web content.
    WebSearch {
        /// Optional allowlist of domains.
        allowed_domains: Vec<String>,
    },
    /// Search provider-managed files.
    FileSearch {
        /// Provider-managed collection identifiers.
        vector_store_ids: Vec<String>,
        /// Maximum result count, when constrained.
        max_results: Option<u32>,
    },
    /// Execute code in a provider-managed container.
    CodeInterpreter {
        /// Existing container identifier, when one is reused.
        container_id: Option<String>,
    },
    /// Generate an image.
    ImageGeneration,
}

/// Invocation of a provider-hosted tool.
#[derive(Debug, PartialEq)]
pub struct HostedToolCall {
    /// Provider call identifier.
    pub id: String,
    /// Provider item identifier, when supplied.
    pub item_id: Option<String>,
    /// Hosted capability being invoked.
    pub tool: HostedTool,
    /// Capability arguments expressed by the neutral JSON input contract.
    pub arguments: Value,
}

/// Result of an earlier [`HostedToolCall`].
#[derive(Debug, PartialEq)]
pub struct HostedToolResult {
    /// Identifier of the hosted tool call this result answers.
    pub tool_call_id: String,
    /// Ordered typed output content.
    pub content: Vec<ContentBlock>,
    /// Whether hosted execution failed, when reported.
    pub is_error: Option<bool>,
}

/// Grammar accepted by a free-form input tool.
#[derive(Clone, Debug, Eq, PartialEq)]
pub enum CustomToolFormat {
    /// Unconstrained text.
    Text,
    /// Input constrained by a grammar.
    Grammar {
        /// Grammar language.
        syntax: GrammarSyntax,
        /// Grammar definition.
        definition: String,
    },
}

/// Supported grammar languages for free-form tools.
#[derive(Clone, Copy, Debug, Eq, PartialEq, Structural)]
pub enum GrammarSyntax {
    /// Lark grammar.
    Lark,
    /// Regular expression.
    Regex,
}

/// Provider-neutral declaration for a non-function tool.
#[derive(Clone, Debug, PartialEq)]
pub enum SpecializedToolDefinition {
    /// Free-form input tool.
    Custom {
        /// Tool name exposed to the model.
        name: String,
        /// Human-readable tool description.
        description: Option<String>,
        /// Accepted free-form input.
        format: CustomToolFormat,
    },
    /// Computer interaction tool.
    Computer {
        /// Screen and environment exposed to the model.
        configuration: ComputerToolConfig,
    },
    /// Provider-hosted capability.
    Hosted {
        /// Capability exposed to the model.
        tool: HostedTool,
    },
}

/// Normalized tool definition.
#[derive(Clone, Debug, PartialEq)]
pub struct ToolDefinition {
    /// Tool name exposed to the model.
    pub name: String,
    /// Human-readable tool description.
    pub description: Option<String>,
    /// JSON Schema describing accepted arguments.
    pub parameters: Value,
    /// Whether the provider should enforce the schema strictly.
    pub strict: Option<bool>,
}

/// Normalized tool choice policy.
#[derive(Clone, Debug, PartialEq)]
pub enum ToolChoice {
    /// Let the model decide whether to call a tool.
    Auto,
    /// Require at least one tool call.
    Required,
    /// Disallow tool calls.
    Disallow,
    /// Require a specific tool.
    Tool {
        /// Required tool name.
        name: String,
    },
    /// Provider tool-choice value with no normalized representation.
    Raw(Value),
}

/// Provider sampling parameters with common cross-provider names.
#[derive(Clone, Debug, PartialEq)]
pub struct SamplingParams {
    /// Sampling temperature.
    pub temperature: Option<Float>,
    /// Nucleus-sampling probability mass.
    pub top_p: Option<Float>,
    /// Maximum number of candidate tokens considered at each step.
    pub top_k: Option<i64>,
}

/// Output budget and structured-output options.
#[derive(Clone, Debug, PartialEq)]
pub struct OutputParams {
    /// Maximum tokens the model may generate.
    pub max_output_tokens: Option<u64>,
    /// Provider-neutral or provider-specific structured-output configuration.
    pub response_format: Option<Value>,
}

/// Provider reasoning controls preserved by translation.
#[derive(Clone, Debug, PartialEq)]
pub struct ReasoningParams {
    /// Requested reasoning effort or level.
    pub effort: Option<String>,
    /// Provider reasoning controls without a normalized field.
    pub raw: Option<Value>,
}

/// Purpose of encrypted or otherwise opaque provider state.
#[derive(Clone, Copy, Debug, Eq, PartialEq, Structural)]
pub enum OpaqueStatePurpose {
    /// Encrypted reasoning continuation state.
    Reasoning,
    /// Conversation continuation state.
    Conversation,
    /// Remote compaction state.
    Compaction,
    /// Within-turn routing state.
    TurnRouting,
}

/// Error returned when opaque provider state exceeds its protocol bound.
#[derive(Clone, Copy, Debug, Eq, PartialEq, Structural)]
pub struct OpaqueStateTooLarge;

impl OpaqueStateTooLarge {
    /// Human-readable message.
    pub fn to_string(&self) -> (text: String)
        ensures
            text@ == "opaque provider state exceeds 1048576 bytes"@,
    {
        "opaque provider state exceeds 1048576 bytes".to_owned()
    }
}

/// Maximum encoded size of one opaque provider state value.
pub const MAX_OPAQUE_STATE_BYTES: usize = 1024 * 1024;

/// Bounded opaque state that can be replayed without exposing provider spellings.
#[derive(Debug, Eq, PartialEq)]
pub struct OpaqueState {
    purpose: OpaqueStatePurpose,
    data: String,
}

impl OpaqueState {
    #[verifier::type_invariant]
    spec fn inv(self) -> bool {
        encode_utf8(self.data@).len() <= MAX_OPAQUE_STATE_BYTES
    }

    /// Purpose of this state.
    pub closed spec fn spec_purpose(self) -> OpaqueStatePurpose {
        self.purpose
    }

    /// Encoded state value.
    pub closed spec fn spec_data(self) -> Seq<char> {
        self.data@
    }

    /// Creates bounded opaque state.
    pub fn new(purpose: OpaqueStatePurpose, data: String) -> (result: Result<
        Self,
        OpaqueStateTooLarge,
    >)
        ensures
            if encode_utf8(data@).len() > MAX_OPAQUE_STATE_BYTES {
                result is Err
            } else {
                result matches Ok(state) && state.spec_purpose() == purpose && state.spec_data()
                    == data@
            },
    {
        if data.as_str().as_bytes().len() > MAX_OPAQUE_STATE_BYTES {
            return Err(OpaqueStateTooLarge);
        }
        Ok(OpaqueState { purpose, data })
    }

    /// Purpose of this state.
    pub fn purpose(&self) -> (purpose: OpaqueStatePurpose)
        ensures
            purpose == self.spec_purpose(),
    {
        self.purpose
    }

    /// Encoded state value, within [`MAX_OPAQUE_STATE_BYTES`].
    pub fn data(&self) -> (data: &str)
        ensures
            data@ == self.spec_data(),
            encode_utf8(data@).len() <= MAX_OPAQUE_STATE_BYTES,
    {
        proof {
            use_type_invariant(self);
        }
        self.data.as_str()
    }
}

impl Clone for OpaqueState {
    /// Copies the state.
    fn clone(&self) -> (copy: Self)
        ensures
            copy == *self,
    {
        proof {
            use_type_invariant(self);
        }
        OpaqueState { purpose: self.purpose, data: self.data.clone() }
    }
}

/// Provider-created conversation compaction output.
#[derive(Debug, Eq, PartialEq)]
pub struct CompactionItem {
    /// Provider item identifier, when supplied.
    pub id: Option<String>,
    /// Human-readable summary, when this compaction form exposes one.
    pub summary: Option<String>,
    /// Opaque continuation state, when this compaction form is encrypted.
    pub state: Option<OpaqueState>,
}

/// Provider-native generated image output.
#[derive(Debug, PartialEq)]
pub struct GeneratedImage {
    /// Provider item identifier, when supplied.
    pub id: Option<String>,
    /// Generated image location or inline payload.
    pub source: ImageSource,
}

/// Update to a turn's generation configuration.
#[derive(Clone, Debug, Eq, PartialEq)]
pub struct TurnConfigurationUpdate {
    /// New reasoning effort, when changed.
    pub reasoning_effort: Option<String>,
    /// New response verbosity, when changed.
    pub text_verbosity: Option<String>,
}

/// A provider pause that requires another request to continue the turn.
#[derive(Debug, Eq, PartialEq)]
pub struct PauseTurn {
    /// Stable continuation identifier, when supplied.
    pub continuation_id: Option<String>,
    /// Safe provider-neutral reason, when supplied.
    pub reason: Option<String>,
}

/// Non-message input appended to a turn in order.
#[derive(Clone, Debug, Eq, PartialEq)]
pub enum TurnInputItem {
    /// Change turn configuration after the preceding conversation items.
    ConfigurationUpdate(TurnConfigurationUpdate),
    /// Request provider-native remote compaction as the final turn item.
    RemoteCompaction,
}

/// Safe provider error classification.
#[derive(Clone, Copy, Debug, Eq, PartialEq, Structural)]
pub enum ProviderErrorClass {
    /// Credential was not accepted.
    Authentication,
    /// Credential was valid but lacked authority.
    Authorization,
    /// Provider rate limit.
    RateLimited,
    /// Request violated the provider contract.
    InvalidRequest,
    /// Request exceeded the model context window.
    ContextWindow,
    /// Provider safety policy rejected content.
    ContentFiltered,
    /// Provider or dependency was unavailable.
    Unavailable,
    /// Provider response violated the expected protocol.
    Protocol,
    /// Provider reported an internal failure.
    Internal,
}

/// Structured, body-free provider error.
#[derive(Clone, Debug, Eq, PartialEq)]
pub struct StructuredProviderError {
    /// Stable provider-neutral classification.
    pub class: ProviderErrorClass,
    /// HTTP status, when the failure came from HTTP.
    pub status: Option<u16>,
    /// Bounded safe provider code, when allowlisted by an adapter.
    pub code: Option<String>,
    /// Provider-advertised retry delay.
    pub retry_after_ms: Option<u64>,
}

/// Provider-neutral response terminal state.
#[derive(Clone, Debug, Eq, PartialEq)]
pub enum ResponseTerminal {
    /// Response completed successfully.
    Completed,
    /// Response ended without completing.
    Incomplete {
        /// Safe provider-neutral reason, when supplied.
        reason: Option<String>,
    },
    /// Response failed with a structured body-free error.
    Failed(StructuredProviderError),
    /// Provider paused the turn for explicit continuation.
    Paused(PauseTurn),
}

/// Nonsemantic response metadata retained across compatible requests.
#[derive(Clone, Debug, Eq, PartialEq)]
pub struct ResponseMetadata {
    /// Model-catalog entity tag returned by the provider.
    pub model_etag: Option<String>,
    /// Bounded within-turn routing state.
    pub turn_state: Option<OpaqueState>,
}

impl Default for ResponseMetadata {
    /// Metadata without any field.
    fn default() -> (metadata: Self)
        ensures
            metadata == (ResponseMetadata { model_etag: None, turn_state: None }),
    {
        ResponseMetadata { model_etag: None, turn_state: None }
    }
}

impl ResponseMetadata {
    /// Whether no field is present.
    pub fn is_empty(&self) -> (empty: bool)
        ensures
            empty == (*self == ResponseMetadata { model_etag: None, turn_state: None }),
    {
        self.model_etag.is_none() && self.turn_state.is_none()
    }
}

/// Provider-specific fields that do not have first-class conversation fields.
#[derive(Clone, Debug, PartialEq)]
pub struct ProviderExtensions {
    /// Provider fields keyed by their original wire names.
    ///
    /// Codecs use these fields when translating to another format. Exact
    /// same-format replay is controlled separately by [`PreservationMetadata`].
    pub fields: JsonMap,
}

/// Exact source payloads retained for lossless same-format round trips.
///
/// Translation's default preservation policy prefers a stored same-format body
/// over reconstructing one from normalized fields. A caller that mutates the IR
/// must clear the corresponding entry or use a policy with preservation disabled
/// when those mutations must be encoded.
#[derive(Clone, Debug, PartialEq)]
pub struct PreservationMetadata {
    /// Original request bodies keyed by source format.
    pub requests: JsonMap,
    /// Original response bodies keyed by source format.
    pub responses: JsonMap,
}

/// Instruction content separated from normal conversation messages.
#[derive(Clone, Debug, PartialEq)]
pub struct InstructionBlock {
    /// Instruction authority, normally [`Role::System`] or [`Role::Developer`].
    pub role: Role,
    /// Ordered instruction content.
    pub content: Vec<ContentBlock>,
}

/// One normalized conversation message.
#[derive(Clone, Debug, PartialEq)]
pub struct Message {
    /// Actor that produced the message.
    pub role: Role,
    /// Ordered message content.
    pub content: Vec<ContentBlock>,
}

/// Normalized request representation shared by Switchyard components.
#[derive(Clone, Debug, PartialEq)]
pub struct LlmRequest {
    /// Model currently addressed by the request.
    ///
    /// This initially contains the name supplied by the inbound client. A routing host may
    /// replace it with the selected target before serving the request.
    pub model: Option<String>,
    /// System and developer instructions separated from conversation turns.
    pub instructions: Vec<InstructionBlock>,
    /// Ordered conversation messages.
    pub messages: Vec<Message>,
    /// Ordered non-message items appended after the conversation.
    pub trailing_items: Vec<TurnInputItem>,
    /// Tools available to the model.
    pub tools: Vec<ToolDefinition>,
    /// Non-function tools available to the model.
    pub specialized_tools: Vec<SpecializedToolDefinition>,
    /// Policy controlling model tool selection.
    pub tool_choice: Option<ToolChoice>,
    /// Common sampling controls.
    pub sampling: SamplingParams,
    /// Output budget and shape controls.
    pub output: OutputParams,
    /// Reasoning controls.
    pub reasoning: ReasoningParams,
    /// Whether the caller requested a streamed response.
    pub stream: bool,
    /// Provider fields without first-class normalized equivalents.
    pub extensions: ProviderExtensions,
    /// Exact provider bodies used by codecs for lossless same-format round trips.
    /// This is separate from the raw request that a host may keep.
    pub preservation: PreservationMetadata,
}

/// Normalized token usage counts.
#[derive(Debug, PartialEq)]
pub struct Usage {
    /// Non-cached input tokens. Provider codecs normalize aggregate OpenAI
    /// input counts by subtracting the cache detail fields.
    pub input_tokens: Option<u64>,
    /// Cache-read and cache-creation token detail, when reported.
    pub cache: Option<Box<InputCacheUsage>>,
    /// Generated output tokens, excluding reasoning detail when the provider reports it separately.
    pub output_tokens: Option<u64>,
    /// Provider-reported or codec-computed total token count.
    ///
    /// Codecs normalize OpenAI aggregate input counts before computing totals, so
    /// this may equal non-cached input plus cache detail plus output.
    pub total_tokens: Option<u64>,
    /// Reasoning output tokens, when reported separately.
    pub reasoning_tokens: Option<u64>,
}

/// Optional cache-token detail kept out of the common, cache-free usage allocation.
#[derive(Debug, PartialEq)]
pub struct InputCacheUsage {
    /// Input tokens read from a provider cache.
    pub cached_input_tokens: Option<u64>,
    /// Input tokens written into a provider cache.
    pub cache_creation_input_tokens: Option<u64>,
}

impl Clone for InputCacheUsage {
    /// Copies the detail.
    fn clone(&self) -> (copy: Self)
        ensures
            copy == *self,
    {
        InputCacheUsage {
            cached_input_tokens: self.cached_input_tokens,
            cache_creation_input_tokens: self.cache_creation_input_tokens,
        }
    }
}

impl Default for InputCacheUsage {
    /// Detail without any count.
    fn default() -> (detail: Self)
        ensures
            detail == (InputCacheUsage {
                cached_input_tokens: None,
                cache_creation_input_tokens: None,
            }),
    {
        InputCacheUsage { cached_input_tokens: None, cache_creation_input_tokens: None }
    }
}

impl Clone for Usage {
    /// Copies the counts.
    fn clone(&self) -> (copy: Self)
        ensures
            copy == *self,
    {
        Usage {
            input_tokens: self.input_tokens,
            cache: match &self.cache {
                Some(cache) => Some(Box::new((&**cache).clone())),
                None => None,
            },
            output_tokens: self.output_tokens,
            total_tokens: self.total_tokens,
            reasoning_tokens: self.reasoning_tokens,
        }
    }
}

/// Usage without any count.
pub open spec fn no_usage() -> Usage {
    Usage {
        input_tokens: None,
        cache: None,
        output_tokens: None,
        total_tokens: None,
        reasoning_tokens: None,
    }
}

impl Default for Usage {
    /// Usage without any count.
    fn default() -> (usage: Self)
        ensures
            usage == no_usage(),
    {
        Usage {
            input_tokens: None,
            cache: None,
            output_tokens: None,
            total_tokens: None,
            reasoning_tokens: None,
        }
    }
}

impl Usage {
    /// Cache-read input-token count.
    pub open spec fn cache_read(self) -> Option<u64> {
        match self.cache {
            Some(cache) => cache.cached_input_tokens,
            None => None,
        }
    }

    /// Cache-creation input-token count.
    pub open spec fn cache_creation(self) -> Option<u64> {
        match self.cache {
            Some(cache) => cache.cache_creation_input_tokens,
            None => None,
        }
    }

    /// Usage with the given cache detail.
    pub open spec fn with_cache(self, read: Option<u64>, creation: Option<u64>) -> Usage {
        Usage {
            cache: Some(
                Box::new(
                    InputCacheUsage {
                        cached_input_tokens: read,
                        cache_creation_input_tokens: creation,
                    },
                ),
            ),
            ..self
        }
    }

    /// Builds cache detail when at least one count is present.
    pub fn cache_details(
        cached_input_tokens: Option<u64>,
        cache_creation_input_tokens: Option<u64>,
    ) -> (detail: Option<Box<InputCacheUsage>>)
        ensures
            match detail {
                Some(detail) => {
                    &&& cached_input_tokens is Some || cache_creation_input_tokens is Some
                    &&& detail.cached_input_tokens == cached_input_tokens
                    &&& detail.cache_creation_input_tokens == cache_creation_input_tokens
                },
                None => cached_input_tokens is None && cache_creation_input_tokens is None,
            },
    {
        if cached_input_tokens.is_none() && cache_creation_input_tokens.is_none() {
            return None;
        }
        Some(Box::new(InputCacheUsage { cached_input_tokens, cache_creation_input_tokens }))
    }

    /// Returns the cache-read input-token count.
    pub fn cached_input_tokens(&self) -> (count: Option<u64>)
        ensures
            count == self.cache_read(),
    {
        match &self.cache {
            Some(cache) => cache.cached_input_tokens,
            None => None,
        }
    }

    /// Returns the cache-creation input-token count.
    pub fn cache_creation_input_tokens(&self) -> (count: Option<u64>)
        ensures
            count == self.cache_creation(),
    {
        match &self.cache {
            Some(cache) => cache.cache_creation_input_tokens,
            None => None,
        }
    }

    /// Sets the cache-read count, allocating cache detail when needed.
    pub fn set_cached_input_tokens(&mut self, value: u64)
        ensures
            *final(self) == old(self).with_cache(Some(value), old(self).cache_creation()),
    {
        let creation = self.cache_creation_input_tokens();
        self.cache = Some(
            Box::new(
                InputCacheUsage {
                    cached_input_tokens: Some(value),
                    cache_creation_input_tokens: creation,
                },
            ),
        );
    }

    /// Sets the cache-creation count, allocating cache detail when needed.
    pub fn set_cache_creation_input_tokens(&mut self, value: u64)
        ensures
            *final(self) == old(self).with_cache(old(self).cache_read(), Some(value)),
    {
        let read = self.cached_input_tokens();
        self.cache = Some(
            Box::new(
                InputCacheUsage {
                    cached_input_tokens: read,
                    cache_creation_input_tokens: Some(value),
                },
            ),
        );
    }
}

/// A cache count that was set is read back, and setting one leaves the other, and every count
/// outside the cache detail, as it was.
pub proof fn law_cache_counts_read_back(usage: Usage, value: u64)
    ensures
        ({
            let read = usage.with_cache(Some(value), usage.cache_creation());
            &&& read.cache_read() == Some(value)
            &&& read.cache_creation() == usage.cache_creation()
            &&& read.input_tokens == usage.input_tokens
            &&& read.output_tokens == usage.output_tokens
            &&& read.total_tokens == usage.total_tokens
            &&& read.reasoning_tokens == usage.reasoning_tokens
        }),
        ({
            let created = usage.with_cache(usage.cache_read(), Some(value));
            &&& created.cache_creation() == Some(value)
            &&& created.cache_read() == usage.cache_read()
            &&& created.input_tokens == usage.input_tokens
            &&& created.output_tokens == usage.output_tokens
            &&& created.total_tokens == usage.total_tokens
            &&& created.reasoning_tokens == usage.reasoning_tokens
        }),
{
}

/// Normalized reason a model stopped producing output.
#[derive(Clone, Copy, Debug, Eq, PartialEq, Structural)]
pub enum StopReason {
    /// Model completed its turn normally.
    EndTurn,
    /// Model reached the configured output limit.
    MaxTokens,
    /// Model stopped to request a tool call.
    ToolUse,
    /// Provider safety or content filtering stopped generation.
    ContentFilter,
    /// Generation terminated because of an error.
    Error,
    /// Provider stop reason with no normalized equivalent.
    Unknown,
}

/// One assistant output item in a normalized response.
#[derive(Clone, Debug, PartialEq)]
pub struct ResponseOutput {
    /// Actor that produced the output, normally [`Role::Assistant`].
    pub role: Role,
    /// Ordered output content.
    pub content: Vec<ContentBlock>,
    /// Why this output stopped, when known.
    pub stop_reason: Option<StopReason>,
}

/// Normalized, fully-buffered response: the aggregate of a completed generation.
/// This is the terminal form of a streamed [`LlmResponse`](crate::stream::LlmResponse).
#[derive(Clone, Debug, PartialEq)]
pub struct AggLlmResponse {
    /// Provider response identifier.
    pub id: Option<String>,
    /// Model reported by the provider.
    pub model: Option<String>,
    /// Ordered response output items.
    pub outputs: Vec<ResponseOutput>,
    /// Normalized token usage.
    pub usage: Usage,
    /// Nonsemantic response metadata.
    pub metadata: ResponseMetadata,
    /// Provider-neutral terminal state, when explicitly reported.
    pub terminal: Option<ResponseTerminal>,
    /// Provider response fields without normalized equivalents.
    pub extensions: ProviderExtensions,
    /// Exact provider bodies retained for lossless round trips.
    pub preservation: PreservationMetadata,
}

/// Texts of the text-like blocks of a message.
pub open spec fn text_parts(content: Seq<ContentView>) -> Seq<Seq<char>>
    decreases content.len(),
{
    if content.len() == 0 {
        Seq::empty()
    } else {
        let parts = text_parts(content.drop_last());
        match content.last() {
            ContentView::Text { text } => parts.push(text),
            ContentView::Refusal { text } => parts.push(text),
            _ => parts,
        }
    }
}

impl Message {
    /// Creates a text-only message for the given role.
    pub fn text(role: Role, text: String) -> (message: Self)
        ensures
            message@ == (MessageView { role, content: seq![ContentView::Text { text: text@ }] }),
    {
        let mut content: Vec<ContentBlock> = Vec::new();
        content.push(ContentBlock::Text { text });
        let message = Message { role, content };
        assert(message@.content =~= seq![ContentView::Text { text: text@ }]);
        message
    }

    /// Concatenates text-like content blocks when the message has any.
    pub fn text_content(&self, separator: &str) -> (text: Option<String>)
        ensures
            opt_text(text) == (if text_parts(self@.content).len() == 0 {
                None
            } else {
                Some(joined(text_parts(self@.content), separator@))
            }),
    {
        let n = self.content.len();
        let mut result: Option<String> = None;
        let mut i: usize = 0;
        let ghost all = contents(self.content@);
        assert(text_parts(all.take(0)).len() == 0);
        while i < n
            invariant
                n == self.content@.len(),
                i <= n,
                all == contents(self.content@),
                opt_text(result) == (if text_parts(all.take(i as int)).len() == 0 {
                    None
                } else {
                    Some(joined(text_parts(all.take(i as int)), separator@))
                }),
            decreases n - i,
        {
            let ghost parts = text_parts(all.take(i as int));
            proof {
                assert(all.take(i + 1).drop_last() =~= all.take(i as int));
                assert(all.take(i + 1).last() == self.content@[i as int]@);
            }
            let part: Option<&String> = match &self.content[i] {
                ContentBlock::Text { text } => Some(text),
                ContentBlock::Refusal { text } => Some(text),
                _ => None,
            };
            if let Some(text) = part {
                proof {
                    assert(text_parts(all.take(i + 1)) == parts.push(text@));
                    assert(parts.push(text@).drop_last() =~= parts);
                }
                result = Some(
                    match result {
                        Some(head) => head.concat(separator).concat(text.as_str()),
                        None => text.clone(),
                    },
                );
            }
            i += 1;
        }
        assert(all.take(n as int) =~= all);
        result
    }
}

/// Contents of the response without output.
pub open spec fn empty_response() -> ResponseView {
    ResponseView {
        id: None,
        model: None,
        outputs: Seq::empty(),
        usage: no_usage(),
        metadata: ResponseMetadata { model_etag: None, turn_state: None },
        terminal: None,
        extensions: Map::empty(),
        preservation: nothing_preserved(),
    }
}

impl Default for ProviderExtensions {
    /// No provider field.
    fn default() -> (extensions: Self)
        ensures
            extensions.fields@ == Map::<Seq<char>, Json>::empty(),
    {
        ProviderExtensions { fields: JsonMap::new() }
    }
}

impl Default for PreservationMetadata {
    /// No preserved body.
    fn default() -> (preservation: Self)
        ensures
            preservation@ == nothing_preserved(),
    {
        PreservationMetadata { requests: JsonMap::new(), responses: JsonMap::new() }
    }
}

impl Default for SamplingParams {
    /// No sampling control.
    fn default() -> (sampling: Self)
        ensures
            sampling == (SamplingParams { temperature: None, top_p: None, top_k: None }),
    {
        SamplingParams { temperature: None, top_p: None, top_k: None }
    }
}

impl Default for OutputParams {
    /// No output control.
    fn default() -> (output: Self)
        ensures
            output == (OutputParams { max_output_tokens: None, response_format: None }),
    {
        OutputParams { max_output_tokens: None, response_format: None }
    }
}

impl Default for ReasoningParams {
    /// No reasoning control.
    fn default() -> (reasoning: Self)
        ensures
            reasoning == (ReasoningParams { effort: None, raw: None }),
    {
        ReasoningParams { effort: None, raw: None }
    }
}

impl Default for TurnConfigurationUpdate {
    /// No change.
    fn default() -> (update: Self)
        ensures
            update == (TurnConfigurationUpdate { reasoning_effort: None, text_verbosity: None }),
    {
        TurnConfigurationUpdate { reasoning_effort: None, text_verbosity: None }
    }
}

impl Default for PauseTurn {
    /// A pause that gives neither identifier nor reason.
    fn default() -> (pause: Self)
        ensures
            pause == (PauseTurn { continuation_id: None, reason: None }),
    {
        PauseTurn { continuation_id: None, reason: None }
    }
}

impl Default for LlmRequest {
    /// The request that sets nothing.
    fn default() -> (request: Self)
        ensures
            request@ == empty_request(),
    {
        let request = LlmRequest {
            model: None,
            instructions: Vec::new(),
            messages: Vec::new(),
            trailing_items: Vec::new(),
            tools: Vec::new(),
            specialized_tools: Vec::new(),
            tool_choice: None,
            sampling: SamplingParams::default(),
            output: OutputParams::default(),
            reasoning: ReasoningParams::default(),
            stream: false,
            extensions: ProviderExtensions::default(),
            preservation: PreservationMetadata::default(),
        };
        assert(request@.instructions =~= empty_request().instructions);
        assert(request@.messages =~= empty_request().messages);
        assert(request@.tools =~= empty_request().tools);
        request
    }
}

impl Default for AggLlmResponse {
    /// The response without output.
    fn default() -> (response: Self)
        ensures
            response@ == empty_response(),
    {
        let response = AggLlmResponse {
            id: None,
            model: None,
            outputs: Vec::new(),
            usage: Usage::default(),
            metadata: ResponseMetadata::default(),
            terminal: None,
            extensions: ProviderExtensions::default(),
            preservation: PreservationMetadata::default(),
        };
        assert(response@.outputs =~= empty_response().outputs);
        response
    }
}

impl AggLlmResponse {
    /// Returns the first output item when a response has any output.
    pub fn first_output(&self) -> (output: Option<&ResponseOutput>)
        ensures
            match output {
                Some(output) => self@.outputs.len() > 0 && output@ == self@.outputs[0],
                None => self@.outputs.len() == 0,
            },
    {
        if self.outputs.len() > 0 {
            Some(&self.outputs[0])
        } else {
            None
        }
    }
}

/// The texts of content are those of its text and refusal blocks, in order, and of no other block.
pub proof fn law_texts_of_content(
    first: Seq<ContentView>,
    second: Seq<ContentView>,
    block: ContentView,
)
    ensures
        text_parts(first + second) == text_parts(first) + text_parts(second),
        text_parts(seq![block]) == (match block {
            ContentView::Text { text } => seq![text],
            ContentView::Refusal { text } => seq![text],
            _ => Seq::empty(),
        }),
    decreases second.len(),
{
    let one = seq![block];
    assert(one.drop_last() =~= Seq::empty());
    assert(text_parts(one.drop_last()) =~= Seq::empty());
    assert(text_parts(one) =~= (match block {
        ContentView::Text { text } => seq![text],
        ContentView::Refusal { text } => seq![text],
        _ => Seq::empty(),
    }));
    if second.len() == 0 {
        assert(first + second =~= first);
        assert(text_parts(first) + text_parts(second) =~= text_parts(first));
    } else {
        law_texts_of_content(first, second.drop_last(), block);
        assert((first + second).drop_last() =~= first + second.drop_last());
        assert((first + second).last() == second.last());
        assert(text_parts(first + second) =~= text_parts(first) + text_parts(second));
    }
}

/// Setting cache counts sets those counts alone.
pub proof fn law_cache_counts_are_set_alone(usage: Usage, read: Option<u64>, creation: Option<u64>)
    ensures
        ({
            let after = usage.with_cache(read, creation);
            &&& after.cache_read() == read
            &&& after.cache_creation() == creation
            &&& after.input_tokens == usage.input_tokens
            &&& after.output_tokens == usage.output_tokens
            &&& after.total_tokens == usage.total_tokens
            &&& after.reasoning_tokens == usage.reasoning_tokens
        }),
        usage.cache is None ==> usage.cache_read() is None && usage.cache_creation() is None,
        no_usage().input_tokens is None && no_usage().output_tokens is None,
        no_usage().total_tokens is None && no_usage().reasoning_tokens is None,
        no_usage().cache is None,
{
}

} // verus!
