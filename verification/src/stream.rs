//! Streaming half of the conversation model: incremental response chunks ([`LlmResponseChunk`]),
//! their stream envelope ([`LlmResponseStreamEvent`]), and the response ([`LlmResponse`]) that
//! carries either the items of a stream or the buffered [`AggLlmResponse`].
use vstd::prelude::*;
use vstd::string::*;

use crate::client::{ClientErrorView, LlmClientError};
use crate::format::FormatId;
use crate::json::{jsons, print_json, printed, Json, Value};
use crate::llm::{
    AggLlmResponse, CompactionItem, ComputerToolCall, CustomToolCall, GeneratedImage,
    HostedToolCall, OpaqueState, PauseTurn, ResponseMetadata, ResponseTerminal, ToolCall, Usage,
};
use crate::model::{
    ComputerToolCallView, CustomToolCallView, GeneratedImageView, HostedToolCallView, ToolCallView,
};
use crate::text::{is_empty, opt_str, opt_text};

verus! {

/// Status reported for an upstream error delivered inside a streaming body. The
/// upstream already sent a success status line before failing, so there is no real
/// code to propagate; 502 matches how a failed upstream call surfaces elsewhere.
pub const MID_STREAM_UPSTREAM_STATUS: u16 = 502;

/// One provider-neutral streaming response chunk.
#[derive(Clone, Debug, PartialEq)]
pub enum LlmResponseChunk {
    /// Starts a response message.
    MessageStart {
        /// Provider response identifier.
        id: Option<String>,
        /// Model reported by the provider.
        model: Option<String>,
    },
    /// Adds text to one output index.
    TextDelta {
        /// Provider output index.
        index: usize,
        /// Text fragment.
        text: String,
    },
    /// Adds reasoning text to one output index.
    ReasoningDelta {
        /// Provider output index.
        index: usize,
        /// Reasoning fragment.
        text: String,
    },
    /// Adds structured reasoning details to one output index.
    ReasoningDetailsDelta {
        /// Provider output index.
        index: usize,
        /// Reasoning detail objects in provider order.
        details: Vec<Value>,
        /// Normalized reasoning text represented by or accompanying the details.
        text: String,
    },
    /// Adds or updates a tool call at one index.
    ToolCallDelta {
        /// Tool-call index within the response.
        index: usize,
        /// Tool-call identifier, normally supplied by the first delta.
        id: Option<String>,
        /// Tool name, normally supplied by the first delta.
        name: Option<String>,
        /// Fragment of the serialized tool arguments.
        arguments_delta: Option<String>,
    },
    /// Finalizes a JSON-schema function tool call.
    ToolCallDone {
        /// Tool-call index within the response.
        index: usize,
        /// Complete tool call.
        call: ToolCall,
    },
    /// Adds free-form input to a custom tool call.
    CustomToolCallDelta {
        /// Tool-call index within the response.
        index: usize,
        /// Provider call identifier, normally supplied by the first delta.
        id: Option<String>,
        /// Provider item identifier, normally supplied by the first delta.
        item_id: Option<String>,
        /// Tool name, normally supplied by the first delta.
        name: Option<String>,
        /// Free-form input fragment.
        input_delta: String,
    },
    /// Finalizes a free-form input tool call.
    CustomToolCallDone {
        /// Tool-call index within the response.
        index: usize,
        /// Complete custom tool call.
        call: CustomToolCall,
    },
    /// Finalizes a computer tool call.
    ComputerToolCallDone {
        /// Tool-call index within the response.
        index: usize,
        /// Complete computer call.
        call: ComputerToolCall,
    },
    /// Finalizes a provider-hosted tool call.
    HostedToolCallDone {
        /// Tool-call index within the response.
        index: usize,
        /// Complete hosted call.
        call: HostedToolCall,
    },
    /// Starts one reasoning output item.
    ReasoningStarted {
        /// Provider output index.
        index: usize,
    },
    /// Finalizes one reasoning output item and its continuation state.
    ReasoningDone {
        /// Provider output index.
        index: usize,
        /// Complete reasoning text when the provider reports it only at completion.
        text: Option<String>,
        /// Bounded opaque state associated with the reasoning item.
        state: Vec<OpaqueState>,
    },
    /// Adds refusal text to one output index.
    RefusalDelta {
        /// Provider output index.
        index: usize,
        /// Refusal text fragment.
        text: String,
    },
    /// Finalizes a refusal.
    RefusalDone {
        /// Provider output index.
        index: usize,
        /// Complete refusal text.
        text: String,
    },
    /// Final text for providers that deliver completion text atomically.
    TextDone {
        /// Provider output index.
        index: usize,
        /// Complete text.
        text: String,
    },
    /// Bounded opaque provider state that does not itself commit semantic output.
    OpaqueState(OpaqueState),
    /// Nonsemantic response metadata.
    ResponseMetadata(ResponseMetadata),
    /// Final provider-native generated image.
    GeneratedImageDone(GeneratedImage),
    /// Final remote compaction result.
    CompactionDone(CompactionItem),
    /// Final pause-turn result.
    PauseTurn(PauseTurn),
    /// Explicit response terminal state.
    ResponseTerminal(ResponseTerminal),
    /// Reports token usage, normally near the end of the stream.
    Usage(Usage),
    /// Ends a response message.
    MessageStop {
        /// Provider stop-reason string before normalization.
        reason: Option<String>,
    },
    /// Reports that an inbound stream event could not be decoded.
    DecodeError {
        /// Human-readable decoding failure.
        message: String,
    },
    /// Reports an upstream failure delivered inside an otherwise successful stream.
    StreamError {
        /// Human-readable upstream failure.
        message: String,
    },
}

/// Contents of an [`LlmResponseChunk`].
pub enum ChunkView {
    /// Starts a response message.
    MessageStart { id: Option<Seq<char>>, model: Option<Seq<char>> },
    /// Adds text.
    TextDelta { index: usize, text: Seq<char> },
    /// Adds reasoning text.
    ReasoningDelta { index: usize, text: Seq<char> },
    /// Adds structured reasoning details.
    ReasoningDetailsDelta { index: usize, details: Seq<Json>, text: Seq<char> },
    /// Adds or updates a tool call.
    ToolCallDelta {
        index: usize,
        id: Option<Seq<char>>,
        name: Option<Seq<char>>,
        arguments_delta: Option<Seq<char>>,
    },
    /// Finalizes a tool call.
    ToolCallDone { index: usize, call: ToolCallView },
    /// Adds input to a custom tool call.
    CustomToolCallDelta {
        index: usize,
        id: Option<Seq<char>>,
        item_id: Option<Seq<char>>,
        name: Option<Seq<char>>,
        input_delta: Seq<char>,
    },
    /// Finalizes a custom tool call.
    CustomToolCallDone { index: usize, call: CustomToolCallView },
    /// Finalizes a computer tool call.
    ComputerToolCallDone { index: usize, call: ComputerToolCallView },
    /// Finalizes a provider-hosted tool call.
    HostedToolCallDone { index: usize, call: HostedToolCallView },
    /// Starts one reasoning output item.
    ReasoningStarted { index: usize },
    /// Finalizes one reasoning output item.
    ReasoningDone { index: usize, text: Option<Seq<char>>, state: Seq<OpaqueState> },
    /// Adds refusal text.
    RefusalDelta { index: usize, text: Seq<char> },
    /// Finalizes a refusal.
    RefusalDone { index: usize, text: Seq<char> },
    /// Final text.
    TextDone { index: usize, text: Seq<char> },
    /// Bounded opaque provider state.
    OpaqueState(OpaqueState),
    /// Nonsemantic response metadata.
    ResponseMetadata(ResponseMetadata),
    /// Final generated image.
    GeneratedImageDone(GeneratedImageView),
    /// Final remote compaction result.
    CompactionDone(CompactionItem),
    /// Final pause-turn result.
    PauseTurn(PauseTurn),
    /// Explicit response terminal state.
    ResponseTerminal(ResponseTerminal),
    /// Token usage.
    Usage(Usage),
    /// Ends a response message.
    MessageStop { reason: Option<Seq<char>> },
    /// An inbound stream event could not be decoded.
    DecodeError { message: Seq<char> },
    /// An upstream failure.
    StreamError { message: Seq<char> },
}

impl View for LlmResponseChunk {
    type V = ChunkView;

    open spec fn view(&self) -> ChunkView {
        match self {
            LlmResponseChunk::MessageStart { id, model } => ChunkView::MessageStart {
                id: opt_text(*id),
                model: opt_text(*model),
            },
            LlmResponseChunk::TextDelta { index, text } => ChunkView::TextDelta {
                index: *index,
                text: text@,
            },
            LlmResponseChunk::ReasoningDelta { index, text } => ChunkView::ReasoningDelta {
                index: *index,
                text: text@,
            },
            LlmResponseChunk::ReasoningDetailsDelta { index, details, text } =>
                ChunkView::ReasoningDetailsDelta {
                index: *index,
                details: jsons(details@),
                text: text@,
            },
            LlmResponseChunk::ToolCallDelta { index, id, name, arguments_delta } =>
                ChunkView::ToolCallDelta {
                index: *index,
                id: opt_text(*id),
                name: opt_text(*name),
                arguments_delta: opt_text(*arguments_delta),
            },
            LlmResponseChunk::ToolCallDone { index, call } => ChunkView::ToolCallDone {
                index: *index,
                call: call@,
            },
            LlmResponseChunk::CustomToolCallDelta { index, id, item_id, name, input_delta } =>
                ChunkView::CustomToolCallDelta {
                index: *index,
                id: opt_text(*id),
                item_id: opt_text(*item_id),
                name: opt_text(*name),
                input_delta: input_delta@,
            },
            LlmResponseChunk::CustomToolCallDone { index, call } => ChunkView::CustomToolCallDone {
                index: *index,
                call: call@,
            },
            LlmResponseChunk::ComputerToolCallDone { index, call } =>
                ChunkView::ComputerToolCallDone { index: *index, call: call@ },
            LlmResponseChunk::HostedToolCallDone { index, call } => ChunkView::HostedToolCallDone {
                index: *index,
                call: call@,
            },
            LlmResponseChunk::ReasoningStarted { index } => ChunkView::ReasoningStarted {
                index: *index,
            },
            LlmResponseChunk::ReasoningDone { index, text, state } => ChunkView::ReasoningDone {
                index: *index,
                text: opt_text(*text),
                state: state@,
            },
            LlmResponseChunk::RefusalDelta { index, text } => ChunkView::RefusalDelta {
                index: *index,
                text: text@,
            },
            LlmResponseChunk::RefusalDone { index, text } => ChunkView::RefusalDone {
                index: *index,
                text: text@,
            },
            LlmResponseChunk::TextDone { index, text } => ChunkView::TextDone {
                index: *index,
                text: text@,
            },
            LlmResponseChunk::OpaqueState(state) => ChunkView::OpaqueState(*state),
            LlmResponseChunk::ResponseMetadata(metadata) => ChunkView::ResponseMetadata(*metadata),
            LlmResponseChunk::GeneratedImageDone(image) => ChunkView::GeneratedImageDone(image@),
            LlmResponseChunk::CompactionDone(item) => ChunkView::CompactionDone(*item),
            LlmResponseChunk::PauseTurn(pause) => ChunkView::PauseTurn(*pause),
            LlmResponseChunk::ResponseTerminal(terminal) => ChunkView::ResponseTerminal(*terminal),
            LlmResponseChunk::Usage(usage) => ChunkView::Usage(*usage),
            LlmResponseChunk::MessageStop { reason } => ChunkView::MessageStop {
                reason: opt_text(*reason),
            },
            LlmResponseChunk::DecodeError { message } => ChunkView::DecodeError {
                message: message@,
            },
            LlmResponseChunk::StreamError { message } => ChunkView::StreamError {
                message: message@,
            },
        }
    }
}

/// Contents of a list of chunks.
pub open spec fn chunk_views(chunks: Seq<LlmResponseChunk>) -> Seq<ChunkView> {
    chunks.map_values(|chunk: LlmResponseChunk| chunk@)
}

/// Whether a stream chunk commits downstream-visible response semantics.
#[derive(Clone, Copy, Debug, Eq, PartialEq, Structural)]
pub enum StreamSemanticClass {
    /// Metadata, lifecycle, or partial tool state that is safe to discard before commitment.
    NonSemantic,
    /// Output that prohibits replay or provider fallback.
    Semantic,
}

impl ChunkView {
    /// The chunk commits semantics: it delivers visible text, a finished item, or an ending other
    /// than a failed or incomplete one.
    pub open spec fn commits(self) -> bool {
        match self {
            ChunkView::TextDelta { text, .. } => text.len() > 0,
            ChunkView::ReasoningDelta { text, .. } => text.len() > 0,
            ChunkView::ReasoningDetailsDelta { text, .. } => text.len() > 0,
            ChunkView::RefusalDelta { text, .. } => text.len() > 0,
            ChunkView::TextDone { text, .. } => text.len() > 0,
            ChunkView::ReasoningDone { text, .. } => text is Some && text->0.len() > 0,
            ChunkView::RefusalDone { .. } => true,
            ChunkView::ToolCallDone { .. } => true,
            ChunkView::CustomToolCallDone { .. } => true,
            ChunkView::ComputerToolCallDone { .. } => true,
            ChunkView::HostedToolCallDone { .. } => true,
            ChunkView::GeneratedImageDone(_) => true,
            ChunkView::CompactionDone(_) => true,
            ChunkView::PauseTurn(_) => true,
            ChunkView::MessageStop { .. } => true,
            ChunkView::ResponseTerminal(terminal) => terminal is Completed || terminal is Paused,
            _ => false,
        }
    }
}

impl LlmResponseChunk {
    /// Classifies the chunk for the shared semantic-commitment boundary.
    pub fn semantic_class(&self) -> (class: StreamSemanticClass)
        ensures
            class == (if self@.commits() {
                StreamSemanticClass::Semantic
            } else {
                StreamSemanticClass::NonSemantic
            }),
    {
        let semantic = match self {
            LlmResponseChunk::TextDelta { text, .. } => !is_empty(text),
            LlmResponseChunk::ReasoningDelta { text, .. } => !is_empty(text),
            LlmResponseChunk::ReasoningDetailsDelta { text, .. } => !is_empty(text),
            LlmResponseChunk::RefusalDelta { text, .. } => !is_empty(text),
            LlmResponseChunk::TextDone { text, .. } => !is_empty(text),
            LlmResponseChunk::ReasoningDone { text: Some(text), .. } => !is_empty(text),
            LlmResponseChunk::RefusalDone { .. } => true,
            LlmResponseChunk::ToolCallDone { .. } => true,
            LlmResponseChunk::CustomToolCallDone { .. } => true,
            LlmResponseChunk::ComputerToolCallDone { .. } => true,
            LlmResponseChunk::HostedToolCallDone { .. } => true,
            LlmResponseChunk::GeneratedImageDone(_) => true,
            LlmResponseChunk::CompactionDone(_) => true,
            LlmResponseChunk::PauseTurn(_) => true,
            LlmResponseChunk::MessageStop { .. } => true,
            LlmResponseChunk::ResponseTerminal(ResponseTerminal::Completed) => true,
            LlmResponseChunk::ResponseTerminal(ResponseTerminal::Paused(_)) => true,
            _ => false,
        };
        if semantic {
            StreamSemanticClass::Semantic
        } else {
            StreamSemanticClass::NonSemantic
        }
    }

    /// Returns whether this chunk crosses the semantic-commitment boundary.
    pub fn commits_semantics(&self) -> (commits: bool)
        ensures
            commits == self@.commits(),
    {
        self.semantic_class() == StreamSemanticClass::Semantic
    }
}

/// Contents of a [`ProviderStreamEvent`].
pub struct ProviderEventView {
    /// Source wire format of the retained event.
    pub source: Seq<char>,
    /// Parsed provider JSON retained for replay.
    pub raw: Json,
}

/// Parsed provider event retained for same-format replay.
#[derive(Clone, Debug, PartialEq)]
pub struct ProviderStreamEvent {
    source: FormatId,
    raw: Value,
}

impl View for ProviderStreamEvent {
    type V = ProviderEventView;

    closed spec fn view(&self) -> ProviderEventView {
        ProviderEventView { source: self.source@, raw: self.raw@ }
    }
}

impl ProviderStreamEvent {
    /// Source wire format of the retained event.
    pub fn source(&self) -> (source: &FormatId)
        ensures
            source@ == self@.source,
    {
        &self.source
    }

    /// Parsed provider JSON retained for replay.
    pub fn raw(&self) -> (raw: &Value)
        ensures
            raw@ == self@.raw,
    {
        &self.raw
    }

    /// Consumes the preservation value into its source format and parsed JSON.
    pub fn into_parts(self) -> (parts: (FormatId, Value))
        ensures
            parts.0@ == self@.source,
            parts.1@ == self@.raw,
    {
        (self.source, self.raw)
    }
}

/// Contents of an optional retained event.
pub open spec fn opt_provider_event(event: Option<ProviderStreamEvent>) -> Option<
    ProviderEventView,
> {
    match event {
        Some(event) => Some(event@),
        None => None,
    }
}

/// Contents of an [`LlmResponseStreamEvent`].
pub struct StreamEventView {
    /// Retained provider event.
    pub preservation: Option<ProviderEventView>,
    /// Provider-neutral chunks.
    pub normalized: Seq<ChunkView>,
}

/// One streaming item crossing the host/algorithm boundary.
///
/// `normalized` contains only provider-neutral chunks. `preservation` is opaque to
/// algorithms and is interpreted by translation codecs for same-format replay.
#[derive(Clone, Debug, PartialEq)]
pub struct LlmResponseStreamEvent {
    preservation: Option<ProviderStreamEvent>,
    normalized: Vec<LlmResponseChunk>,
}

impl View for LlmResponseStreamEvent {
    type V = StreamEventView;

    closed spec fn view(&self) -> StreamEventView {
        StreamEventView {
            preservation: opt_provider_event(self.preservation),
            normalized: chunk_views(self.normalized@),
        }
    }
}

impl LlmResponseStreamEvent {
    /// Creates an event containing only normalized chunks.
    pub fn new(normalized: Vec<LlmResponseChunk>) -> (event: Self)
        ensures
            event@ == (StreamEventView {
                preservation: None,
                normalized: chunk_views(normalized@),
            }),
    {
        LlmResponseStreamEvent { preservation: None, normalized }
    }

    /// Creates an event with parsed provider JSON retained for replay.
    pub fn preserved(source: FormatId, raw: Value, normalized: Vec<LlmResponseChunk>) -> (event:
        Self)
        ensures
            event@ == (StreamEventView {
                preservation: Some(ProviderEventView { source: source@, raw: raw@ }),
                normalized: chunk_views(normalized@),
            }),
    {
        LlmResponseStreamEvent {
            preservation: Some(ProviderStreamEvent { source, raw }),
            normalized,
        }
    }

    /// Retained provider event, when this event came directly from a provider.
    pub fn preservation(&self) -> (event: Option<&ProviderStreamEvent>)
        ensures
            match event {
                Some(event) => self@.preservation == Some(event@),
                None => self@.preservation is None,
            },
    {
        self.preservation.as_ref()
    }

    /// Provider-neutral chunks carried by this event.
    pub fn normalized(&self) -> (chunks: &[LlmResponseChunk])
        ensures
            chunk_views(chunks@) == self@.normalized,
    {
        self.normalized.as_slice()
    }

    /// Consumes the event into its preservation and normalized content.
    pub fn into_parts(self) -> (parts: (Option<ProviderStreamEvent>, Vec<LlmResponseChunk>))
        ensures
            opt_provider_event(parts.0) == self@.preservation,
            chunk_views(parts.1@) == self@.normalized,
    {
        (self.preservation, self.normalized)
    }

    /// Replaces semantic content and drops raw replay data that no longer describes it.
    pub fn replace_normalized(self, normalized: Vec<LlmResponseChunk>) -> (event: Self)
        ensures
            event@ == (StreamEventView {
                preservation: None,
                normalized: chunk_views(normalized@),
            }),
    {
        LlmResponseStreamEvent::new(normalized)
    }
}

impl From<LlmResponseChunk> for LlmResponseStreamEvent {
    /// Creates an event containing one normalized chunk.
    fn from(chunk: LlmResponseChunk) -> (event: Self)
        ensures
            event@ == (StreamEventView { preservation: None, normalized: seq![chunk@] }),
    {
        let mut normalized: Vec<LlmResponseChunk> = Vec::new();
        normalized.push(chunk);
        assert(chunk_views(normalized@) =~= seq![chunk@]);
        LlmResponseStreamEvent::new(normalized)
    }
}

impl vstd::std_specs::convert::FromSpecImpl<LlmResponseChunk> for LlmResponseStreamEvent {
    open spec fn obeys_from_spec() -> bool {
        false
    }

    open spec fn from_spec(chunk: LlmResponseChunk) -> Self {
        arbitrary()
    }
}

/// The items of a response stream in the order of their delivery. Each item may fail on its own.
pub type LlmResponseStream = Vec<Result<LlmResponseStreamEvent, LlmClientError>>;

/// Contents of one stream item.
pub type ItemView = Result<StreamEventView, ClientErrorView>;

/// Contents of one stream item.
pub open spec fn item_view(item: Result<LlmResponseStreamEvent, LlmClientError>) -> ItemView {
    match item {
        Ok(event) => Ok(event@),
        Err(error) => Err(error@),
    }
}

/// Contents of the items of a stream.
pub open spec fn item_views(
    items: Seq<Result<LlmResponseStreamEvent, LlmClientError>>,
) -> Seq<ItemView> {
    items.map_values(|item: Result<LlmResponseStreamEvent, LlmClientError>| item_view(item))
}

/// A model response: either the items of a [`Stream`](LlmResponse::Stream) of events or a
/// terminal buffered [`LlmResponse::Agg`] response.
///
/// A buffered backend returns `Agg` directly; a streaming one returns `Stream` and the consumer
/// folds it to an [`AggLlmResponse`] when it needs the whole response.
pub enum LlmResponse {
    /// Single-consumption response stream.
    Stream(LlmResponseStream),
    /// Fully buffered terminal response.
    Agg(AggLlmResponse),
}

impl LlmResponse {
    /// Borrow the aggregate; `None` while this is still a stream.
    pub fn as_agg(&self) -> (agg: Option<&AggLlmResponse>)
        ensures
            match self {
                LlmResponse::Agg(buffered) => agg == Some(buffered),
                LlmResponse::Stream(_) => agg is None,
            },
    {
        match self {
            LlmResponse::Agg(agg) => Some(agg),
            LlmResponse::Stream(_) => None,
        }
    }

    /// Returns the model recorded by a buffered response.
    ///
    /// Returns `None` for a stream because reading its model-bearing
    /// [`LlmResponseChunk::MessageStart`] event would consume the stream.
    pub fn selected_model(&self) -> (model: Option<&str>)
        ensures
            opt_str(model) == (match self {
                LlmResponse::Agg(buffered) => opt_text(buffered.model),
                LlmResponse::Stream(_) => None,
            }),
    {
        match self {
            LlmResponse::Agg(agg) => match &agg.model {
                Some(model) => Some(model.as_str()),
                None => None,
            },
            LlmResponse::Stream(_) => None,
        }
    }
}

/// Why a translated event stream stopped early.
#[derive(Debug)]
pub enum LlmStreamError {
    /// An upstream error event.
    Upstream(Value),
    /// The stream itself failed.
    Client(LlmClientError),
}

impl From<LlmClientError> for LlmStreamError {
    /// Wraps a failure of the stream itself.
    fn from(error: LlmClientError) -> (wrapped: Self) {
        LlmStreamError::Client(error)
    }
}

impl vstd::std_specs::convert::FromSpecImpl<LlmClientError> for LlmStreamError {
    open spec fn obeys_from_spec() -> bool {
        true
    }

    open spec fn from_spec(error: LlmClientError) -> Self {
        LlmStreamError::Client(error)
    }
}

impl LlmStreamError {
    /// Characters of the message.
    pub open spec fn text(self) -> Seq<char> {
        match self {
            LlmStreamError::Upstream(value) => "upstream stream error: "@ + printed(value@),
            LlmStreamError::Client(error) => error@.text(),
        }
    }

    /// Human-readable message.
    pub fn to_string(&self) -> (text: String)
        ensures
            text@ == self.text(),
    {
        match self {
            LlmStreamError::Upstream(value) => "upstream stream error: ".to_owned().concat(
                print_json(value).as_str(),
            ),
            LlmStreamError::Client(error) => error.to_string(),
        }
    }
}

} // verus!
