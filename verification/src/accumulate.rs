//! Folding of stream chunks into the buffered response.
use std::collections::BTreeMap;
use vstd::prelude::*;
use vstd::string::*;

use crate::client::{ClientErrorView, LlmClientError};
use crate::json::{
    jsons, lemma_value_view, opt_json, parse_json, parsed, string_field, string_of, Json, JsonMap,
    Value,
};
use crate::llm::{
    empty_response, no_usage, AggLlmResponse, ContentBlock, CustomToolCall, OpaqueState,
    OpenAiChatReasoningField, PreservationMetadata, ProviderExtensions, ResponseMetadata,
    ResponseOutput, ResponseTerminal, Role, StopReason, ToolCall, Usage,
};
use crate::model::{
    contents, lemma_content_view, output_views, ContentView, CustomToolCallView, OutputView,
    ResponseView, ToolCallView,
};
use crate::order::{in_order, lemma_in_order_lists, sorted_union};
use crate::stream::{
    chunk_views, item_view, item_views, ChunkView, ItemView, LlmResponse,
    LlmResponseChunk, LlmResponseStreamEvent, MID_STREAM_UPSTREAM_STATUS,
};
use crate::text::{is_empty, is_text, opt_str, opt_text, text_eq};

verus! {

broadcast use lemma_content_view;

/// The detail is an encrypted reasoning detail.
pub open spec fn is_encrypted(detail: Json) -> bool {
    string_of(detail, "type"@) == Some("reasoning.encrypted"@)
}

/// The detail names its provider item id but carries no payload yet.
pub open spec fn is_announcement(detail: Json) -> bool {
    is_encrypted(detail) && detail.get("data"@) is None
}

/// The detail at `at` is the first one that announces the item `id`.
pub open spec fn is_first_announcing(details: Seq<Json>, id: Seq<char>, at: int) -> bool {
    &&& 0 <= at < details.len()
    &&& is_announcement(details[at]) && string_of(details[at], "id"@) == Some(id)
    &&& forall|i: int|
        0 <= i < at ==> !(is_announcement(#[trigger] details[i]) && string_of(details[i], "id"@)
            == Some(id))
}

/// Position of the first detail that announces the item `id`.
pub open spec fn first_announcing(details: Seq<Json>, id: Seq<char>) -> Option<int> {
    if exists|at: int| is_first_announcing(details, id, at) {
        Some(choose|at: int| is_first_announcing(details, id, at))
    } else {
        None
    }
}

proof fn lemma_first_announcing(details: Seq<Json>, id: Seq<char>, at: int)
    requires
        is_first_announcing(details, id, at),
    ensures
        first_announcing(details, id) == Some(at),
{
    let other = first_announcing(details, id)->0;
    assert(is_first_announcing(details, id, other));
    if other < at {
        assert(!(is_announcement(details[other]) && string_of(details[other], "id"@) == Some(id)));
    } else if at < other {
        assert(!(is_announcement(details[at]) && string_of(details[at], "id"@) == Some(id)));
    }
}

/// Details after one more arrived: an encrypted detail takes the place of the first announcement
/// of its item, any other goes to the end.
pub open spec fn with_detail(details: Seq<Json>, detail: Json) -> Seq<Json> {
    match (is_encrypted(detail), string_of(detail, "id"@)) {
        (true, Some(id)) => match first_announcing(details, id) {
            Some(at) => details.update(at, detail),
            None => details.push(detail),
        },
        _ => details.push(detail),
    }
}

/// Details after more arrived one by one.
pub open spec fn with_details(details: Seq<Json>, more: Seq<Json>) -> Seq<Json>
    decreases more.len(),
{
    if more.len() == 0 {
        details
    } else {
        with_detail(with_details(details, more.drop_last()), more.last())
    }
}

/// An encrypted reasoning detail that names its provider item id but carries no payload yet.
pub fn is_reasoning_id_announcement(detail: &Value) -> (announcement: bool)
    ensures
        announcement == is_announcement(detail@),
{
    is_text(string_field(detail, "type"), "reasoning.encrypted") && detail.get("data").is_none()
}

/// Appends a reasoning detail to an accumulated block. A stream decoder announces a reasoning
/// item's provider id (`{"type": "reasoning.encrypted", "id"}`) before the payload arrives; the
/// payload detail then replaces that announcement so history holds one detail.
pub fn push_reasoning_detail(details: &mut Vec<Value>, detail: Value)
    ensures
        jsons(final(details)@) == with_detail(jsons(old(details)@), detail@),
{
    let ghost before = jsons(details@);
    if is_text(string_field(&detail, "type"), "reasoning.encrypted") {
        if let Some(id) = string_field(&detail, "id") {
            let n = details.len();
            let mut i: usize = 0;
            while i < n
                invariant
                    n == details@.len(),
                    i <= n,
                    before == jsons(details@),
                    details@ == old(details)@,
                    is_encrypted(detail@),
                    string_of(detail@, "id"@) == Some(id@),
                    forall|j: int|
                        0 <= j < i ==> !(is_announcement(#[trigger] before[j]) && string_of(
                            before[j],
                            "id"@,
                        ) == Some(id@)),
                decreases n - i,
            {
                assert(before[i as int] == details@[i as int]@);
                if is_reasoning_id_announcement(&details[i]) && is_text(
                    string_field(&details[i], "id"),
                    id,
                ) {
                    proof {
                        lemma_first_announcing(before, id@, i as int);
                    }
                    let ghost value = detail@;
                    details.set(i, detail);
                    assert(jsons(details@) =~= before.update(i as int, value));
                    return ;
                }
                i += 1;
            }
            assert(first_announcing(before, id@) is None);
        }
    }
    let ghost value = detail@;
    details.push(detail);
    assert(jsons(details@) =~= before.push(value));
}

/// Arguments of a tool call, given what parsing their text brought: the document, or the text
/// itself as a JSON string where it is not valid JSON.
pub open spec fn arguments_from(text: Seq<char>, outcome: Option<Json>) -> Json {
    match outcome {
        Some(document) => document,
        None => Json::String(text),
    }
}

/// Arguments of a tool call, from their assembled text. Empty text stands for the empty object.
pub open spec fn tool_arguments(text: Seq<char>) -> Json {
    if text.len() == 0 {
        Json::Object(Map::empty())
    } else {
        arguments_from(text, parsed(text))
    }
}

/// The parsed document, or the text as a JSON string where there is none.
pub fn arguments_or_text(text: &str, outcome: Option<Value>) -> (arguments: Value)
    ensures
        arguments@ == arguments_from(text@, opt_json(outcome)),
{
    match outcome {
        Some(document) => document,
        None => Value::text(text),
    }
}

/// Parse an assembled tool-call arguments string as JSON, falling back to a JSON
/// string when it is not valid JSON and to an empty object when it is empty.
pub fn parse_tool_arguments(arguments: &str) -> (value: Value)
    ensures
        value@ == tool_arguments(arguments@),
{
    broadcast use lemma_value_view;

    if arguments.unicode_len() == 0 {
        return Value::Object(JsonMap::new());
    }
    arguments_or_text(arguments, parse_json(arguments))
}

/// Stop reason that a provider string stands for.
pub open spec fn normalized_stop(reason: Option<Seq<char>>) -> StopReason {
    match reason {
        None => StopReason::EndTurn,
        Some(name) => if name == "length"@ || name == "max_tokens"@ {
            StopReason::MaxTokens
        } else if name == "tool_calls"@ || name == "function_call"@ || name == "tool_use"@ {
            StopReason::ToolUse
        } else if name == "content_filter"@ {
            StopReason::ContentFilter
        } else if name == "stop"@ || name == "end_turn"@ || name == "stop_sequence"@ {
            StopReason::EndTurn
        } else {
            StopReason::Unknown
        },
    }
}

/// Map a provider stop-reason string (as carried by [`LlmResponseChunk::MessageStop`])
/// to a normalized [`StopReason`], covering the common OpenAI and Anthropic spellings.
pub fn stop_reason_from_str(reason: Option<&str>) -> (stop: StopReason)
    ensures
        stop == normalized_stop(opt_str(reason)),
{
    match reason {
        None => StopReason::EndTurn,
        Some(name) => if text_eq(name, "length") || text_eq(name, "max_tokens") {
            StopReason::MaxTokens
        } else if text_eq(name, "tool_calls") || text_eq(name, "function_call") || text_eq(
            name,
            "tool_use",
        ) {
            StopReason::ToolUse
        } else if text_eq(name, "content_filter") {
            StopReason::ContentFilter
        } else if text_eq(name, "stop") || text_eq(name, "end_turn") || text_eq(
            name,
            "stop_sequence",
        ) {
            StopReason::EndTurn
        } else {
            StopReason::Unknown
        },
    }
}

/// Contents of a tool call being assembled.
#[verifier::ext_equal]
pub struct PartialCallView {
    /// Provider call identifier.
    pub id: Option<Seq<char>>,
    /// Tool name.
    pub name: Option<Seq<char>>,
    /// Text of the arguments so far.
    pub arguments: Seq<char>,
}

/// Contents of a custom tool call being assembled.
#[verifier::ext_equal]
pub struct PartialCustomCallView {
    /// Provider call identifier.
    pub id: Option<Seq<char>>,
    /// Provider item identifier.
    pub item_id: Option<Seq<char>>,
    /// Tool name.
    pub name: Option<Seq<char>>,
    /// Input so far.
    pub input: Seq<char>,
}

/// Contents of a [`ResponseAccumulator`].
#[verifier::ext_equal]
pub struct AccumulatorView {
    /// Provider response identifier.
    pub id: Option<Seq<char>>,
    /// Model reported by the provider.
    pub model: Option<Seq<char>>,
    /// Text so far.
    pub text: Seq<char>,
    /// Reasoning text so far.
    pub reasoning: Option<Seq<char>>,
    /// Reasoning details so far.
    pub reasoning_details: Seq<Json>,
    /// Tool calls being assembled, by index.
    pub tool_calls: Map<usize, PartialCallView>,
    /// Custom tool calls being assembled, by index.
    pub custom_tool_calls: Map<usize, PartialCustomCallView>,
    /// Token usage.
    pub usage: Usage,
    /// Why the response stopped.
    pub stop_reason: Option<StopReason>,
    /// Refusal text so far.
    pub refusal: Option<Seq<char>>,
    /// Opaque states in order.
    pub opaque_state: Seq<OpaqueState>,
    /// Finished blocks in order.
    pub finalized_blocks: Seq<ContentView>,
    /// Response metadata.
    pub metadata: ResponseMetadata,
    /// Terminal state.
    pub terminal: Option<ResponseTerminal>,
}

/// The accumulator to which no chunk was applied.
pub open spec fn fresh() -> AccumulatorView {
    AccumulatorView {
        id: None,
        model: None,
        text: Seq::empty(),
        reasoning: None,
        reasoning_details: Seq::empty(),
        tool_calls: Map::empty(),
        custom_tool_calls: Map::empty(),
        usage: no_usage(),
        stop_reason: None,
        refusal: None,
        opaque_state: Seq::empty(),
        finalized_blocks: Seq::empty(),
        metadata: ResponseMetadata { model_etag: None, turn_state: None },
        terminal: None,
    }
}

/// The newer value when there is one, else the older.
pub open spec fn newer<T>(new: Option<T>, old: Option<T>) -> Option<T> {
    if new is Some {
        new
    } else {
        old
    }
}

/// Text after a fragment was appended; no text counts as empty.
pub open spec fn appended(head: Option<Seq<char>>, tail: Seq<char>) -> Option<Seq<char>> {
    match head {
        Some(head) => Some(head + tail),
        None => Some(tail),
    }
}

/// The tool call being assembled at an index.
pub open spec fn partial_call(calls: Map<usize, PartialCallView>, index: usize) -> PartialCallView {
    if calls.contains_key(index) {
        calls[index]
    } else {
        PartialCallView { id: None, name: None, arguments: Seq::empty() }
    }
}

/// The custom tool call being assembled at an index.
pub open spec fn partial_custom_call(
    calls: Map<usize, PartialCustomCallView>,
    index: usize,
) -> PartialCustomCallView {
    if calls.contains_key(index) {
        calls[index]
    } else {
        PartialCustomCallView { id: None, item_id: None, name: None, input: Seq::empty() }
    }
}

/// The accumulator after one chunk. Later fields of `MessageStart`, `Usage` and `MessageStop`
/// overwrite earlier ones; text, reasoning, and tool-call arguments append.
pub open spec fn accumulate(acc: AccumulatorView, chunk: ChunkView) -> AccumulatorView {
    match chunk {
        ChunkView::MessageStart { id, model } => AccumulatorView {
            id: newer(id, acc.id),
            model: newer(model, acc.model),
            ..acc
        },
        ChunkView::TextDelta { index, text } => AccumulatorView { text: acc.text + text, ..acc },
        ChunkView::TextDone { index, text } => AccumulatorView {
            text: if acc.text.len() == 0 {
                text
            } else {
                acc.text
            },
            ..acc
        },
        ChunkView::ReasoningDelta { index, text } => AccumulatorView {
            reasoning: appended(acc.reasoning, text),
            ..acc
        },
        ChunkView::ReasoningDetailsDelta { index, details, text } => AccumulatorView {
            reasoning_details: with_details(acc.reasoning_details, details),
            reasoning: if text.len() == 0 {
                acc.reasoning
            } else {
                appended(acc.reasoning, text)
            },
            ..acc
        },
        ChunkView::ReasoningStarted { index } => acc,
        ChunkView::ReasoningDone { index, text, state } => AccumulatorView {
            reasoning: if text is Some && (acc.reasoning is None || acc.reasoning->0.len() == 0) {
                text
            } else {
                acc.reasoning
            },
            opaque_state: acc.opaque_state + state,
            ..acc
        },
        ChunkView::RefusalDelta { index, text } => AccumulatorView {
            refusal: appended(acc.refusal, text),
            ..acc
        },
        ChunkView::RefusalDone { index, text } => AccumulatorView { refusal: Some(text), ..acc },
        ChunkView::ToolCallDelta { index, id, name, arguments_delta } => {
            let call = partial_call(acc.tool_calls, index);
            AccumulatorView {
                tool_calls: acc.tool_calls.insert(
                    index,
                    PartialCallView {
                        id: newer(id, call.id),
                        name: newer(name, call.name),
                        arguments: match arguments_delta {
                            Some(delta) => call.arguments + delta,
                            None => call.arguments,
                        },
                    },
                ),
                ..acc
            }
        },
        ChunkView::ToolCallDone { index, call } => AccumulatorView {
            tool_calls: acc.tool_calls.remove(index),
            finalized_blocks: acc.finalized_blocks.push(ContentView::ToolCall(call)),
            ..acc
        },
        ChunkView::CustomToolCallDelta { index, id, item_id, name, input_delta } => {
            let call = partial_custom_call(acc.custom_tool_calls, index);
            AccumulatorView {
                custom_tool_calls: acc.custom_tool_calls.insert(
                    index,
                    PartialCustomCallView {
                        id: newer(id, call.id),
                        item_id: newer(item_id, call.item_id),
                        name: newer(name, call.name),
                        input: call.input + input_delta,
                    },
                ),
                ..acc
            }
        },
        ChunkView::CustomToolCallDone { index, call } => AccumulatorView {
            custom_tool_calls: acc.custom_tool_calls.remove(index),
            finalized_blocks: acc.finalized_blocks.push(ContentView::CustomToolCall(call)),
            ..acc
        },
        ChunkView::ComputerToolCallDone { index, call } => AccumulatorView {
            finalized_blocks: acc.finalized_blocks.push(ContentView::ComputerToolCall(call)),
            ..acc
        },
        ChunkView::HostedToolCallDone { index, call } => AccumulatorView {
            finalized_blocks: acc.finalized_blocks.push(ContentView::HostedToolCall(call)),
            ..acc
        },
        ChunkView::OpaqueState(state) => AccumulatorView {
            opaque_state: acc.opaque_state.push(state),
            ..acc
        },
        ChunkView::ResponseMetadata(metadata) => AccumulatorView {
            metadata: ResponseMetadata {
                model_etag: newer(metadata.model_etag, acc.metadata.model_etag),
                turn_state: newer(metadata.turn_state, acc.metadata.turn_state),
            },
            ..acc
        },
        ChunkView::GeneratedImageDone(image) => AccumulatorView {
            finalized_blocks: acc.finalized_blocks.push(ContentView::GeneratedImage(image)),
            ..acc
        },
        ChunkView::CompactionDone(item) => AccumulatorView {
            finalized_blocks: acc.finalized_blocks.push(ContentView::Compaction(item)),
            ..acc
        },
        ChunkView::PauseTurn(pause) => AccumulatorView {
            finalized_blocks: acc.finalized_blocks.push(ContentView::PauseTurn(pause)),
            ..acc
        },
        ChunkView::ResponseTerminal(terminal) => AccumulatorView {
            terminal: Some(terminal),
            ..acc
        },
        ChunkView::Usage(usage) => AccumulatorView { usage, ..acc },
        ChunkView::MessageStop { reason } => AccumulatorView {
            stop_reason: Some(normalized_stop(reason)),
            ..acc
        },
        ChunkView::DecodeError { .. } => acc,
        ChunkView::StreamError { .. } => acc,
    }
}

/// A tool call being assembled from streamed [`LlmResponseChunk::ToolCallDelta`]s.
struct PartialToolCall {
    id: Option<String>,
    name: Option<String>,
    arguments: String,
}

impl View for PartialToolCall {
    type V = PartialCallView;

    closed spec fn view(&self) -> PartialCallView {
        PartialCallView {
            id: opt_text(self.id),
            name: opt_text(self.name),
            arguments: self.arguments@,
        }
    }
}

/// A custom tool call being assembled from streamed input deltas.
struct PartialCustomToolCall {
    id: Option<String>,
    item_id: Option<String>,
    name: Option<String>,
    input: String,
}

impl View for PartialCustomToolCall {
    type V = PartialCustomCallView;

    closed spec fn view(&self) -> PartialCustomCallView {
        PartialCustomCallView {
            id: opt_text(self.id),
            item_id: opt_text(self.item_id),
            name: opt_text(self.name),
            input: self.input@,
        }
    }
}

/// Folds a sequence of [`LlmResponseChunk`]s into the terminal [`AggLlmResponse`].
///
/// Text and reasoning deltas concatenate; tool-call deltas assemble by index (name,
/// id, and a growing arguments string parsed as JSON at the end); `MessageStart`,
/// `Usage`, and `MessageStop` set the corresponding fields.
/// [`DecodeError`](LlmResponseChunk::DecodeError) and
/// [`StreamError`](LlmResponseChunk::StreamError) chunks are ignored here; use
/// [`LlmResponse::into_agg`] when they must become errors.
///
/// Folding is lossy for multiple outputs: text and reasoning indices are ignored,
/// and [`finish`](Self::finish) produces one assistant output. Prefer
/// [`LlmResponse::into_agg`] when stream errors must be surfaced.
///
/// Drive it by `push`-ing each chunk in order, then call [`finish`](Self::finish).
pub struct ResponseAccumulator {
    id: Option<String>,
    model: Option<String>,
    text: String,
    reasoning: Option<String>,
    reasoning_details: Vec<Value>,
    tool_calls: BTreeMap<usize, PartialToolCall>,
    custom_tool_calls: BTreeMap<usize, PartialCustomToolCall>,
    usage: Usage,
    stop_reason: Option<StopReason>,
    refusal: Option<String>,
    opaque_state: Vec<OpaqueState>,
    finalized_blocks: Vec<ContentBlock>,
    metadata: ResponseMetadata,
    terminal: Option<ResponseTerminal>,
}

impl View for ResponseAccumulator {
    type V = AccumulatorView;

    closed spec fn view(&self) -> AccumulatorView {
        AccumulatorView {
            id: opt_text(self.id),
            model: opt_text(self.model),
            text: self.text@,
            reasoning: opt_text(self.reasoning),
            reasoning_details: jsons(self.reasoning_details@),
            tool_calls: self.tool_calls@.map_values(|call: PartialToolCall| call@),
            custom_tool_calls: self.custom_tool_calls@.map_values(
                |call: PartialCustomToolCall| call@,
            ),
            usage: self.usage,
            stop_reason: self.stop_reason,
            refusal: opt_text(self.refusal),
            opaque_state: self.opaque_state@,
            finalized_blocks: contents(self.finalized_blocks@),
            metadata: self.metadata,
            terminal: self.terminal,
        }
    }
}

/// Appends a fragment to a text that may not have begun.
fn append_to(head: &mut Option<String>, tail: &str)
    ensures
        opt_text(*final(head)) == appended(opt_text(*old(head)), tail@),
{
    let text = match head.take() {
        Some(text) => text.concat(tail),
        None => tail.to_owned(),
    };
    *head = Some(text);
}

impl ResponseAccumulator {
    /// A fresh accumulator with no chunks applied.
    pub fn new() -> (accumulator: Self)
        ensures
            accumulator@ == fresh(),
    {
        let accumulator = ResponseAccumulator {
            id: None,
            model: None,
            text: String::new(),
            reasoning: None,
            reasoning_details: Vec::new(),
            tool_calls: BTreeMap::new(),
            custom_tool_calls: BTreeMap::new(),
            usage: Usage::default(),
            stop_reason: None,
            refusal: None,
            opaque_state: Vec::new(),
            finalized_blocks: Vec::new(),
            metadata: ResponseMetadata::default(),
            terminal: None,
        };
        assert(accumulator@ =~= fresh());
        accumulator
    }
}

impl Default for ResponseAccumulator {
    /// A fresh accumulator with no chunks applied.
    fn default() -> (accumulator: Self)
        ensures
            accumulator@ == fresh(),
    {
        ResponseAccumulator::new()
    }
}

impl ResponseAccumulator {
    /// Adds a finished block.
    fn finalize(&mut self, block: ContentBlock)
        ensures
            final(self)@ == (AccumulatorView {
                finalized_blocks: old(self)@.finalized_blocks.push(block@),
                ..old(self)@
            }),
    {
        let ghost view = block@;
        self.finalized_blocks.push(block);
        assert(contents(self.finalized_blocks@) =~= contents(old(self).finalized_blocks@).push(
            view,
        ));
    }

    /// Adds reasoning details one by one.
    fn push_details(&mut self, details: Vec<Value>)
        ensures
            final(self)@ == (AccumulatorView {
                reasoning_details: with_details(old(self)@.reasoning_details, jsons(details@)),
                ..old(self)@
            }),
    {
        let ghost all = jsons(details@);
        let ghost start = jsons(self.reasoning_details@);
        let mut collected: Vec<Value> = Vec::new();
        std::mem::swap(&mut collected, &mut self.reasoning_details);
        for detail in it: details
            invariant
                it.seq() == details@,
                all == jsons(details@),
                jsons(collected@) == with_details(start, all.take(it.index())),
        {
            proof {
                let i = it.index();
                assert(all.take(i + 1).drop_last() =~= all.take(i));
                assert(all.take(i + 1).last() == detail@);
            }
            push_reasoning_detail(&mut collected, detail);
        }
        assert(all.take(all.len() as int) =~= all);
        self.reasoning_details = collected;
    }

    /// Adds or updates the tool call at an index.
    fn push_tool_delta(
        &mut self,
        index: usize,
        id: Option<String>,
        name: Option<String>,
        arguments_delta: Option<String>,
    )
        ensures
            final(self)@ == accumulate(
                old(self)@,
                ChunkView::ToolCallDelta {
                    index,
                    id: opt_text(id),
                    name: opt_text(name),
                    arguments_delta: opt_text(arguments_delta),
                },
            ),
    {
        let mut call = match self.tool_calls.remove(&index) {
            Some(call) => call,
            None => PartialToolCall { id: None, name: None, arguments: String::new() },
        };
        assert(call@ =~= partial_call(old(self)@.tool_calls, index));
        if id.is_some() {
            call.id = id;
        }
        if name.is_some() {
            call.name = name;
        }
        if let Some(delta) = arguments_delta {
            call.arguments.append(delta.as_str());
        }
        let ghost done = call@;
        self.tool_calls.insert(index, call);
        assert(self@.tool_calls =~= old(self)@.tool_calls.insert(index, done));
    }

    /// Adds or updates the custom tool call at an index.
    fn push_custom_tool_delta(
        &mut self,
        index: usize,
        id: Option<String>,
        item_id: Option<String>,
        name: Option<String>,
        input_delta: String,
    )
        ensures
            final(self)@ == accumulate(
                old(self)@,
                ChunkView::CustomToolCallDelta {
                    index,
                    id: opt_text(id),
                    item_id: opt_text(item_id),
                    name: opt_text(name),
                    input_delta: input_delta@,
                },
            ),
    {
        let mut call = match self.custom_tool_calls.remove(&index) {
            Some(call) => call,
            None => PartialCustomToolCall {
                id: None,
                item_id: None,
                name: None,
                input: String::new(),
            },
        };
        assert(call@ =~= partial_custom_call(old(self)@.custom_tool_calls, index));
        if id.is_some() {
            call.id = id;
        }
        if item_id.is_some() {
            call.item_id = item_id;
        }
        if name.is_some() {
            call.name = name;
        }
        call.input.append(input_delta.as_str());
        let ghost done = call@;
        self.custom_tool_calls.insert(index, call);
        assert(self@.custom_tool_calls =~= old(self)@.custom_tool_calls.insert(index, done));
    }

    /// Apply one chunk. Later `MessageStart`/`Usage`/`MessageStop` fields overwrite
    /// earlier ones; text, reasoning, and tool-call arguments append.
    pub fn push(&mut self, chunk: LlmResponseChunk)
        ensures
            final(self)@ == accumulate(old(self)@, chunk@),
    {
        match chunk {
            LlmResponseChunk::MessageStart { id, model } => {
                if id.is_some() {
                    self.id = id;
                }
                if model.is_some() {
                    self.model = model;
                }
            },
            LlmResponseChunk::TextDelta { text, .. } => {
                self.text.append(text.as_str());
            },
            LlmResponseChunk::TextDone { text, .. } => {
                if is_empty(&self.text) {
                    self.text = text;
                }
            },
            LlmResponseChunk::ReasoningDelta { text, .. } => {
                append_to(&mut self.reasoning, text.as_str());
            },
            LlmResponseChunk::ReasoningDetailsDelta { details, text, .. } => {
                self.push_details(details);
                if !is_empty(&text) {
                    append_to(&mut self.reasoning, text.as_str());
                }
            },
            LlmResponseChunk::ReasoningStarted { .. } => {},
            LlmResponseChunk::ReasoningDone { text, state, .. } => {
                let silent = match &self.reasoning {
                    Some(reasoning) => is_empty(reasoning),
                    None => true,
                };
                if silent && text.is_some() {
                    self.reasoning = text;
                }
                let mut state = state;
                let ghost added = state@;
                self.opaque_state.append(&mut state);
                assert(self.opaque_state@ =~= old(self).opaque_state@ + added);
            },
            LlmResponseChunk::RefusalDelta { text, .. } => {
                append_to(&mut self.refusal, text.as_str());
            },
            LlmResponseChunk::RefusalDone { text, .. } => {
                self.refusal = Some(text);
            },
            LlmResponseChunk::ToolCallDelta { index, id, name, arguments_delta } => {
                self.push_tool_delta(index, id, name, arguments_delta);
            },
            LlmResponseChunk::ToolCallDone { index, call } => {
                self.tool_calls.remove(&index);
                assert(self@.tool_calls =~= old(self)@.tool_calls.remove(index));
                self.finalize(ContentBlock::ToolCall(call));
            },
            LlmResponseChunk::CustomToolCallDelta { index, id, item_id, name, input_delta } => {
                self.push_custom_tool_delta(index, id, item_id, name, input_delta);
            },
            LlmResponseChunk::CustomToolCallDone { index, call } => {
                self.custom_tool_calls.remove(&index);
                assert(self@.custom_tool_calls =~= old(self)@.custom_tool_calls.remove(index));
                self.finalize(ContentBlock::CustomToolCall(call));
            },
            LlmResponseChunk::ComputerToolCallDone { call, .. } => {
                self.finalize(ContentBlock::ComputerToolCall(call));
            },
            LlmResponseChunk::HostedToolCallDone { call, .. } => {
                self.finalize(ContentBlock::HostedToolCall(call));
            },
            LlmResponseChunk::OpaqueState(state) => {
                self.opaque_state.push(state);
            },
            LlmResponseChunk::ResponseMetadata(metadata) => {
                if metadata.model_etag.is_some() {
                    self.metadata.model_etag = metadata.model_etag;
                }
                if metadata.turn_state.is_some() {
                    self.metadata.turn_state = metadata.turn_state;
                }
            },
            LlmResponseChunk::GeneratedImageDone(image) => {
                self.finalize(ContentBlock::GeneratedImage(image));
            },
            LlmResponseChunk::CompactionDone(item) => {
                self.finalize(ContentBlock::Compaction(item));
            },
            LlmResponseChunk::PauseTurn(pause) => {
                self.finalize(ContentBlock::PauseTurn(pause));
            },
            LlmResponseChunk::ResponseTerminal(terminal) => {
                self.terminal = Some(terminal);
            },
            LlmResponseChunk::Usage(usage) => {
                self.usage = usage;
            },
            LlmResponseChunk::MessageStop { reason } => {
                let reason: Option<&str> = match &reason {
                    Some(reason) => Some(reason.as_str()),
                    None => None,
                };
                self.stop_reason = Some(stop_reason_from_str(reason));
            },
            LlmResponseChunk::DecodeError { .. } => {},
            LlmResponseChunk::StreamError { .. } => {},
        }
    }
}

/// The text, or the empty text where there is none.
pub open spec fn or_empty(text: Option<Seq<char>>) -> Seq<char> {
    match text {
        Some(text) => text,
        None => Seq::empty(),
    }
}

/// Block of a tool call assembled from deltas.
pub open spec fn assembled_call(call: PartialCallView) -> ContentView {
    ContentView::ToolCall(
        ToolCallView {
            id: or_empty(call.id),
            name: or_empty(call.name),
            arguments: tool_arguments(call.arguments),
        },
    )
}

/// Block of a custom tool call assembled from deltas.
pub open spec fn assembled_custom_call(call: PartialCustomCallView) -> ContentView {
    ContentView::CustomToolCall(
        CustomToolCallView {
            id: or_empty(call.id),
            item_id: call.item_id,
            name: or_empty(call.name),
            input: call.input,
        },
    )
}

/// Reasoning details that carry a payload. An announcement whose payload never arrived is a
/// stream-level hint only.
pub open spec fn payloads(details: Seq<Json>) -> Seq<Json> {
    details.filter(|detail: Json| !is_announcement(detail))
}

/// The reasoning block, when any reasoning arrived.
pub open spec fn reasoning_blocks(acc: AccumulatorView) -> Seq<ContentView> {
    if acc.reasoning is Some || acc.reasoning_details.len() > 0 {
        seq![
            ContentView::Reasoning {
                text: or_empty(acc.reasoning),
                signature: None,
                details: payloads(acc.reasoning_details),
                openai_chat_field: OpenAiChatReasoningField::Reasoning,
            },
        ]
    } else {
        Seq::empty()
    }
}

/// The text block, when any text arrived.
pub open spec fn text_blocks(acc: AccumulatorView) -> Seq<ContentView> {
    if acc.text.len() > 0 {
        seq![ContentView::Text { text: acc.text }]
    } else {
        Seq::empty()
    }
}

/// The refusal block, when a refusal arrived.
pub open spec fn refusal_blocks(acc: AccumulatorView) -> Seq<ContentView> {
    match acc.refusal {
        Some(text) => seq![ContentView::Refusal { text }],
        None => Seq::empty(),
    }
}

/// The blocks of opaque states.
pub open spec fn state_blocks(states: Seq<OpaqueState>) -> Seq<ContentView> {
    states.map_values(|state: OpaqueState| ContentView::OpaqueState(state))
}

/// The blocks of the unfinished calls at an index: the tool call, then the custom tool call.
pub open spec fn partial_blocks_at(acc: AccumulatorView, index: usize) -> Seq<ContentView> {
    (if acc.tool_calls.contains_key(index) {
        seq![assembled_call(acc.tool_calls[index])]
    } else {
        Seq::empty()
    }) + (if acc.custom_tool_calls.contains_key(index) {
        seq![assembled_custom_call(acc.custom_tool_calls[index])]
    } else {
        Seq::empty()
    })
}

/// The indices of the unfinished calls of either kind. Both kinds share one index space.
pub open spec fn partial_indices(acc: AccumulatorView) -> Set<usize> {
    acc.tool_calls.dom().union(acc.custom_tool_calls.dom())
}

/// The blocks of the unfinished calls of either kind, by index.
pub open spec fn partial_blocks(acc: AccumulatorView) -> Seq<ContentView> {
    in_order(partial_indices(acc)).map_values(
        |index: usize| partial_blocks_at(acc, index),
    ).flatten()
}

/// The content of the buffered response: reasoning, text, refusal, partial calls by index, opaque
/// state, then finalized typed items.
pub open spec fn finished_content(acc: AccumulatorView) -> Seq<ContentView> {
    reasoning_blocks(acc) + text_blocks(acc) + refusal_blocks(acc) + partial_blocks(acc)
        + state_blocks(acc.opaque_state) + acc.finalized_blocks
}

/// The buffered response that an accumulator stands for: one assistant output.
pub open spec fn finished(acc: AccumulatorView) -> ResponseView {
    ResponseView {
        id: acc.id,
        model: acc.model,
        outputs: seq![
            OutputView {
                role: Role::Assistant,
                content: finished_content(acc),
                stop_reason: acc.stop_reason,
            },
        ],
        usage: acc.usage,
        metadata: acc.metadata,
        terminal: acc.terminal,
        ..empty_response()
    }
}

/// A copy of the text, or the empty text where there is none.
fn text_or_empty(text: &Option<String>) -> (result: String)
    ensures
        result@ == or_empty(opt_text(*text)),
{
    match text {
        Some(text) => text.clone(),
        None => {
            let empty = String::new();
            assert(empty@ =~= Seq::empty());
            empty
        },
    }
}

/// Joining a list of lists with one more list appends its items.
proof fn lemma_flatten_push<A>(lists: Seq<Seq<A>>, last: Seq<A>)
    ensures
        lists.push(last).flatten() == lists.flatten() + last,
{
    lists.lemma_flatten_and_flatten_alt_are_equivalent();
    lists.push(last).lemma_flatten_and_flatten_alt_are_equivalent();
    assert(lists.push(last).drop_last() =~= lists);
}

impl PartialToolCall {
    /// The block of the call.
    fn to_block(&self) -> (block: ContentBlock)
        ensures
            block@ == assembled_call(self@),
    {
        ContentBlock::ToolCall(
            ToolCall {
                id: text_or_empty(&self.id),
                name: text_or_empty(&self.name),
                arguments: parse_tool_arguments(self.arguments.as_str()),
            },
        )
    }
}

impl PartialCustomToolCall {
    /// The block of the call.
    fn to_block(&self) -> (block: ContentBlock)
        ensures
            block@ == assembled_custom_call(self@),
    {
        ContentBlock::CustomToolCall(
            CustomToolCall {
                id: text_or_empty(&self.id),
                item_id: self.item_id.clone(),
                name: text_or_empty(&self.name),
                input: self.input.clone(),
            },
        )
    }
}

impl ResponseAccumulator {
    /// The blocks of the unfinished calls at an index.
    fn unfinished_at(&self, index: usize) -> (blocks: Vec<ContentBlock>)
        ensures
            contents(blocks@) == partial_blocks_at(self@, index),
    {
        let mut blocks: Vec<ContentBlock> = Vec::new();
        if let Some(call) = self.tool_calls.get(&index) {
            blocks.push(call.to_block());
        }
        if let Some(call) = self.custom_tool_calls.get(&index) {
            blocks.push(call.to_block());
        }
        assert(contents(blocks@) =~= partial_blocks_at(self@, index));
        blocks
    }

    /// The blocks of the unfinished calls of either kind, by index.
    fn unfinished_calls(&self) -> (blocks: Vec<ContentBlock>)
        ensures
            contents(blocks@) == partial_blocks(self@),
    {
        let keys = sorted_union(&self.tool_calls, &self.custom_tool_calls);
        let ghost acc = self@;
        let ghost lists = keys@.map_values(|index: usize| partial_blocks_at(acc, index));
        let n = keys.len();
        let mut blocks: Vec<ContentBlock> = Vec::new();
        let mut i: usize = 0;
        proof {
            assert(acc.tool_calls.dom() =~= self.tool_calls@.dom());
            assert(acc.custom_tool_calls.dom() =~= self.custom_tool_calls@.dom());
            assert(contents(blocks@) =~= lists.take(0).flatten());
        }
        while i < n
            invariant
                n == keys@.len(),
                i <= n,
                acc == self@,
                lists == keys@.map_values(|index: usize| partial_blocks_at(acc, index)),
                contents(blocks@) == lists.take(i as int).flatten(),
            decreases n - i,
        {
            append_blocks(&mut blocks, self.unfinished_at(keys[i]));
            proof {
                lemma_flatten_push(lists.take(i as int), lists[i as int]);
                assert(lists.take(i + 1) =~= lists.take(i as int).push(lists[i as int]));
            }
            i += 1;
        }
        assert(lists.take(n as int) =~= lists);
        blocks
    }
}

/// The details that carry a payload.
fn with_payload(details: Vec<Value>) -> (kept: Vec<Value>)
    ensures
        jsons(kept@) == payloads(jsons(details@)),
{
    let ghost all = jsons(details@);
    let mut kept: Vec<Value> = Vec::new();
    proof {
        reveal(Seq::filter);
        assert(jsons(kept@) =~= payloads(all.take(0)));
    }
    for detail in it: details
        invariant
            it.seq() == details@,
            all == jsons(details@),
            jsons(kept@) == payloads(all.take(it.index())),
    {
        let ghost value = detail@;
        let ghost so_far = jsons(kept@);
        proof {
            reveal(Seq::filter);
            let i = it.index();
            assert(all.take(i + 1).drop_last() =~= all.take(i));
            assert(all.take(i + 1).last() == value);
        }
        if !is_reasoning_id_announcement(&detail) {
            kept.push(detail);
            assert(jsons(kept@) =~= so_far.push(value));
        }
    }
    assert(all.take(all.len() as int) =~= all);
    kept
}

/// The blocks of opaque states.
fn opaque_blocks(states: Vec<OpaqueState>) -> (blocks: Vec<ContentBlock>)
    ensures
        contents(blocks@) == state_blocks(states@),
{
    let mut blocks: Vec<ContentBlock> = Vec::new();
    for state in it: states
        invariant
            it.seq() == states@,
            contents(blocks@) == state_blocks(states@.take(it.index())),
    {
        let ghost so_far = contents(blocks@);
        blocks.push(ContentBlock::OpaqueState(state));
        proof {
            let i = it.index();
            assert(contents(blocks@) =~= so_far.push(ContentView::OpaqueState(state)));
            assert(state_blocks(states@.take(i + 1)) =~= so_far.push(
                ContentView::OpaqueState(state),
            ));
        }
    }
    assert(states@.take(states@.len() as int) =~= states@);
    blocks
}

/// Moves blocks to the end of a list.
fn append_blocks(content: &mut Vec<ContentBlock>, blocks: Vec<ContentBlock>)
    ensures
        contents(final(content)@) == contents(old(content)@) + contents(blocks@),
{
    let mut blocks = blocks;
    let ghost added = blocks@;
    content.append(&mut blocks);
    assert(contents(content@) =~= contents(old(content)@) + contents(added));
}

impl ResponseAccumulator {
    /// Build the buffered response. Content is ordered reasoning, text, refusal,
    /// partial calls by index, opaque state, then finalized typed items.
    pub fn finish(self) -> (response: AggLlmResponse)
        ensures
            response@ == finished(self@),
    {
        let ghost acc = self@;
        let unfinished = self.unfinished_calls();
        let mut content: Vec<ContentBlock> = Vec::new();
        if self.reasoning.is_some() || self.reasoning_details.len() > 0 {
            content.push(
                ContentBlock::Reasoning {
                    text: text_or_empty(&self.reasoning),
                    signature: None,
                    details: with_payload(self.reasoning_details),
                    openai_chat_field: OpenAiChatReasoningField::default(),
                },
            );
        }
        assert(contents(content@) =~= reasoning_blocks(acc));
        if !is_empty(&self.text) {
            content.push(ContentBlock::Text { text: self.text });
        }
        assert(contents(content@) =~= reasoning_blocks(acc) + text_blocks(acc));
        if let Some(text) = self.refusal {
            content.push(ContentBlock::Refusal { text });
        }
        assert(contents(content@) =~= reasoning_blocks(acc) + text_blocks(acc) + refusal_blocks(
            acc,
        ));
        append_blocks(&mut content, unfinished);
        append_blocks(&mut content, opaque_blocks(self.opaque_state));
        append_blocks(&mut content, self.finalized_blocks);
        assert(contents(content@) == finished_content(acc));
        let mut outputs: Vec<ResponseOutput> = Vec::new();
        outputs.push(
            ResponseOutput { role: Role::Assistant, content, stop_reason: self.stop_reason },
        );
        assert(output_views(outputs@) =~= finished(acc).outputs);
        AggLlmResponse {
            id: self.id,
            model: self.model,
            outputs,
            usage: self.usage,
            metadata: self.metadata,
            terminal: self.terminal,
            extensions: ProviderExtensions::default(),
            preservation: PreservationMetadata::default(),
        }
    }
}

/// The error that a chunk reports in band.
pub open spec fn chunk_error(chunk: ChunkView) -> Option<ClientErrorView> {
    match chunk {
        ChunkView::DecodeError { message } => Some(ClientErrorView::ResponseTranslation(message)),
        ChunkView::StreamError { message } => Some(
            ClientErrorView::UpstreamHttp { status: MID_STREAM_UPSTREAM_STATUS, body: message },
        ),
        _ => None,
    }
}

/// Where folding stands: the accumulator, and the error that stopped it, if any.
pub struct Progress {
    /// The accumulator.
    pub acc: AccumulatorView,
    /// The error that stopped the folding.
    pub error: Option<ClientErrorView>,
}

/// Folding after one more chunk. The first error stops it.
pub open spec fn after_chunk(progress: Progress, chunk: ChunkView) -> Progress {
    if progress.error is Some {
        progress
    } else {
        match chunk_error(chunk) {
            Some(error) => Progress { error: Some(error), ..progress },
            None => Progress { acc: accumulate(progress.acc, chunk), ..progress },
        }
    }
}

/// Folding after more chunks.
pub open spec fn after_chunks(progress: Progress, chunks: Seq<ChunkView>) -> Progress
    decreases chunks.len(),
{
    if chunks.len() == 0 {
        progress
    } else {
        after_chunk(after_chunks(progress, chunks.drop_last()), chunks.last())
    }
}

/// Folding after one more stream item. An item that failed stops it with the item's error.
pub open spec fn after_item(progress: Progress, item: ItemView) -> Progress {
    if progress.error is Some {
        progress
    } else {
        match item {
            Ok(event) => after_chunks(progress, event.normalized),
            Err(error) => Progress { error: Some(error), ..progress },
        }
    }
}

/// Folding after more stream items.
pub open spec fn after_items(progress: Progress, items: Seq<ItemView>) -> Progress
    decreases items.len(),
{
    if items.len() == 0 {
        progress
    } else {
        after_item(after_items(progress, items.drop_last()), items.last())
    }
}

/// The buffered response of a stream, or the first error in it.
pub open spec fn aggregated(items: Seq<ItemView>) -> Result<ResponseView, ClientErrorView> {
    let progress = after_items(Progress { acc: fresh(), error: None }, items);
    match progress.error {
        Some(error) => Err(error),
        None => Ok(finished(progress.acc)),
    }
}

/// Once folding has stopped, further chunks change nothing.
pub proof fn law_chunks_after_error(progress: Progress, chunks: Seq<ChunkView>)
    requires
        progress.error is Some,
    ensures
        after_chunks(progress, chunks) == progress,
    decreases chunks.len(),
{
    if chunks.len() > 0 {
        law_chunks_after_error(progress, chunks.drop_last());
    }
}

/// Folding the chunks of two lists in turn is folding them joined.
pub proof fn law_chunks_in_turn(progress: Progress, first: Seq<ChunkView>, second: Seq<ChunkView>)
    ensures
        after_chunks(after_chunks(progress, first), second) == after_chunks(
            progress,
            first + second,
        ),
    decreases second.len(),
{
    if second.len() == 0 {
        assert(first + second =~= first);
    } else {
        law_chunks_in_turn(progress, first, second.drop_last());
        assert((first + second).drop_last() =~= first + second.drop_last());
    }
}

/// Once folding has stopped, further items change nothing: the first error of a stream decides.
pub proof fn law_items_after_error(progress: Progress, items: Seq<ItemView>)
    requires
        progress.error is Some,
    ensures
        after_items(progress, items) == progress,
    decreases items.len(),
{
    if items.len() > 0 {
        law_items_after_error(progress, items.drop_last());
    }
}

/// Folding the items of two streams in turn is folding them joined.
pub proof fn law_items_in_turn(progress: Progress, first: Seq<ItemView>, second: Seq<ItemView>)
    ensures
        after_items(after_items(progress, first), second) == after_items(progress, first + second),
    decreases second.len(),
{
    if second.len() == 0 {
        assert(first + second =~= first);
    } else {
        law_items_in_turn(progress, first, second.drop_last());
        assert((first + second).drop_last() =~= first + second.drop_last());
    }
}

/// The error of an outcome.
pub open spec fn outcome_error(outcome: Result<(), LlmClientError>) -> Option<ClientErrorView> {
    match outcome {
        Ok(_) => None,
        Err(error) => Some(error@),
    }
}

/// Applies one chunk, or reports the error that it carries in band and leaves the accumulator as
/// it was.
pub fn push_checked_chunk(accumulator: &mut ResponseAccumulator, chunk: LlmResponseChunk) -> (
    outcome: Result<(), LlmClientError>)
    ensures
        outcome_error(outcome) == chunk_error(chunk@),
        final(accumulator)@ == (if chunk_error(chunk@) is Some {
            old(accumulator)@
        } else {
            accumulate(old(accumulator)@, chunk@)
        }),
{
    match chunk {
        LlmResponseChunk::DecodeError { message } => {
            Err(LlmClientError::ResponseTranslation(message))
        },
        LlmResponseChunk::StreamError { message } => {
            Err(LlmClientError::UpstreamHttp { status: MID_STREAM_UPSTREAM_STATUS, body: message })
        },
        chunk => {
            accumulator.push(chunk);
            Ok(())
        },
    }
}

/// Applies the normalized chunks of one stream item up to the first error, which is returned: the
/// error of the item itself, or one that a chunk carries in band.
pub fn push_item(
    accumulator: &mut ResponseAccumulator,
    item: Result<LlmResponseStreamEvent, LlmClientError>,
) -> (outcome: Result<(), LlmClientError>)
    ensures
        (Progress { acc: final(accumulator)@, error: outcome_error(outcome) }) == after_item(
            Progress { acc: old(accumulator)@, error: None },
            item_view(item),
        ),
{
    let event = match item {
        Ok(event) => event,
        Err(error) => {
            return Err(error);
        },
    };
    let chunks = event.into_parts().1;
    let ghost all = chunk_views(chunks@);
    let ghost start = Progress { acc: accumulator@, error: None };
    for chunk in it: chunks
        invariant
            it.seq() == chunks@,
            all == chunk_views(chunks@),
            (Progress { acc: accumulator@, error: None }) == after_chunks(
                start,
                all.take(it.index()),
            ),
            start == (Progress { acc: old(accumulator)@, error: None }),
            item matches Ok(event) && event@.normalized == all,
    {
        let ghost i = it.index();
        proof {
            assert(all.take(i + 1).drop_last() =~= all.take(i));
            assert(all.take(i + 1).last() == chunk@);
        }
        if let Err(error) = push_checked_chunk(accumulator, chunk) {
            proof {
                let rest = all.skip(i + 1);
                assert(all =~= all.take(i + 1) + rest);
                law_chunks_in_turn(start, all.take(i + 1), rest);
                law_chunks_after_error(
                    Progress { acc: accumulator@, error: Some(error@) },
                    rest,
                );
            }
            return Err(error);
        }
    }
    assert(all.take(all.len() as int) =~= all);
    Ok(())
}

/// Contents of the outcome of an aggregation.
pub open spec fn response_outcome(outcome: Result<AggLlmResponse, LlmClientError>) -> Result<
    ResponseView,
    ClientErrorView,
> {
    match outcome {
        Ok(response) => Ok(response@),
        Err(error) => Err(error@),
    }
}

impl LlmResponse {
    /// Reduce to the buffered aggregate: return an `Agg` unchanged, or fold the normalized chunks
    /// of a `Stream` into an [`AggLlmResponse`] via [`ResponseAccumulator`]. A stream item error
    /// aborts with `Err`, as does an in-band [`LlmResponseChunk::DecodeError`] (as
    /// `ResponseTranslation`) or [`LlmResponseChunk::StreamError`] (as `UpstreamHttp`).
    pub fn into_agg(self) -> (outcome: Result<AggLlmResponse, LlmClientError>)
        ensures
            match self {
                LlmResponse::Agg(agg) => outcome == Ok::<AggLlmResponse, LlmClientError>(agg),
                LlmResponse::Stream(items) => response_outcome(outcome) == aggregated(
                    item_views(items@),
                ),
            },
    {
        let items = match self {
            LlmResponse::Agg(agg) => {
                return Ok(agg);
            },
            LlmResponse::Stream(items) => items,
        };
        let ghost all = item_views(items@);
        let ghost start = Progress { acc: fresh(), error: None };
        let mut accumulator = ResponseAccumulator::new();
        for item in it: items
            invariant
                it.seq() == items@,
                all == item_views(items@),
                start == (Progress { acc: fresh(), error: None }),
                (Progress { acc: accumulator@, error: None }) == after_items(
                    start,
                    all.take(it.index()),
                ),
                self matches LlmResponse::Stream(stream) && item_views(stream@) == all,
        {
            let ghost i = it.index();
            proof {
                assert(all.take(i + 1).drop_last() =~= all.take(i));
                assert(all.take(i + 1).last() == item_view(item));
            }
            if let Err(error) = push_item(&mut accumulator, item) {
                proof {
                    let rest = all.skip(i + 1);
                    assert(all =~= all.take(i + 1) + rest);
                    law_items_in_turn(start, all.take(i + 1), rest);
                    law_items_after_error(
                        Progress { acc: accumulator@, error: Some(error@) },
                        rest,
                    );
                }
                return Err(error);
            }
        }
        assert(all.take(all.len() as int) =~= all);
        Ok(accumulator.finish())
    }
}

/// A chunk that reports an error leaves the accumulator as it was.
pub proof fn law_error_chunks_are_ignored(acc: AccumulatorView, chunk: ChunkView)
    requires
        chunk_error(chunk) is Some,
    ensures
        accumulate(acc, chunk) == acc,
{
}

/// A chunk that commits no semantics adds no text, no finished item and no stop reason, and leaves
/// reasoning and refusal text as they read: it can be discarded before commitment.
pub proof fn law_uncommitted_chunks_show_nothing(acc: AccumulatorView, chunk: ChunkView)
    requires
        !chunk.commits(),
    ensures
        accumulate(acc, chunk).text == acc.text,
        accumulate(acc, chunk).finalized_blocks == acc.finalized_blocks,
        accumulate(acc, chunk).stop_reason == acc.stop_reason,
        or_empty(accumulate(acc, chunk).reasoning) == or_empty(acc.reasoning),
        or_empty(accumulate(acc, chunk).refusal) == or_empty(acc.refusal),
{
    let after = accumulate(acc, chunk);
    assert(after.text =~= acc.text);
    assert(or_empty(after.reasoning) =~= or_empty(acc.reasoning));
    assert(or_empty(after.refusal) =~= or_empty(acc.refusal));
}

/// The output index of text, reasoning and refusal chunks makes no difference.
pub proof fn law_output_index_is_ignored(
    acc: AccumulatorView,
    i: usize,
    j: usize,
    text: Seq<char>,
    details: Seq<Json>,
)
    ensures
        accumulate(acc, ChunkView::TextDelta { index: i, text }) == accumulate(
            acc,
            ChunkView::TextDelta { index: j, text },
        ),
        accumulate(acc, ChunkView::ReasoningDelta { index: i, text }) == accumulate(
            acc,
            ChunkView::ReasoningDelta { index: j, text },
        ),
        accumulate(acc, ChunkView::ReasoningDetailsDelta { index: i, details, text })
            == accumulate(acc, ChunkView::ReasoningDetailsDelta { index: j, details, text }),
        accumulate(acc, ChunkView::RefusalDelta { index: i, text }) == accumulate(
            acc,
            ChunkView::RefusalDelta { index: j, text },
        ),
{
}

/// Two fragments in turn are one joined fragment, whatever the cut: of text, of reasoning, of a
/// refusal, and of the arguments of one tool call.
pub proof fn law_fragments_join(
    acc: AccumulatorView,
    index: usize,
    first: Seq<char>,
    second: Seq<char>,
)
    ensures
        accumulate(
            accumulate(acc, ChunkView::TextDelta { index, text: first }),
            ChunkView::TextDelta { index, text: second },
        ) == accumulate(acc, ChunkView::TextDelta { index, text: first + second }),
        accumulate(
            accumulate(acc, ChunkView::ReasoningDelta { index, text: first }),
            ChunkView::ReasoningDelta { index, text: second },
        ) == accumulate(acc, ChunkView::ReasoningDelta { index, text: first + second }),
        accumulate(
            accumulate(acc, ChunkView::RefusalDelta { index, text: first }),
            ChunkView::RefusalDelta { index, text: second },
        ) == accumulate(acc, ChunkView::RefusalDelta { index, text: first + second }),
        accumulate(
            accumulate(
                acc,
                ChunkView::ToolCallDelta {
                    index,
                    id: None,
                    name: None,
                    arguments_delta: Some(first),
                },
            ),
            ChunkView::ToolCallDelta { index, id: None, name: None, arguments_delta: Some(second) },
        ) == accumulate(
            acc,
            ChunkView::ToolCallDelta {
                index,
                id: None,
                name: None,
                arguments_delta: Some(first + second),
            },
        ),
{
    assert(acc.text + first + second =~= acc.text + (first + second));
    if let Some(head) = acc.reasoning {
        assert(head + first + second =~= head + (first + second));
    }
    if let Some(head) = acc.refusal {
        assert(head + first + second =~= head + (first + second));
    }
    let call = partial_call(acc.tool_calls, index);
    assert(call.arguments + first + second =~= call.arguments + (first + second));
    let joined = PartialCallView { arguments: call.arguments + (first + second), ..call };
    let once = PartialCallView { arguments: call.arguments + first, ..call };
    assert(acc.tool_calls.insert(index, once).insert(index, joined) =~= acc.tool_calls.insert(
        index,
        joined,
    ));
}

/// Tool calls assemble by index: deltas of calls at different indices can arrive in either order.
pub proof fn law_tool_calls_assemble_by_index(acc: AccumulatorView, a: ChunkView, b: ChunkView)
    requires
        a matches ChunkView::ToolCallDelta { index: i, .. } && b matches ChunkView::ToolCallDelta {
            index: j,
            ..
        } && i != j,
    ensures
        accumulate(accumulate(acc, a), b) == accumulate(accumulate(acc, b), a),
{
    let ab = accumulate(accumulate(acc, a), b);
    let ba = accumulate(accumulate(acc, b), a);
    assert(ab.tool_calls =~= ba.tool_calls);
}

/// Joining two lists of lists in turn.
proof fn lemma_flatten_joined<A>(first: Seq<Seq<A>>, second: Seq<Seq<A>>)
    ensures
        (first + second).flatten() == first.flatten() + second.flatten(),
    decreases second.len(),
{
    if second.len() == 0 {
        assert(first + second =~= first);
        assert(first.flatten() + second.flatten() =~= first.flatten());
    } else {
        let rest = second.drop_last();
        lemma_flatten_joined(first, rest);
        lemma_flatten_push(first + rest, second.last());
        lemma_flatten_push(rest, second.last());
        assert((first + rest).push(second.last()) =~= first + second);
        assert(rest.push(second.last()) =~= second);
        assert(first.flatten() + rest.flatten() + second.last() =~= first.flatten() + (
        rest.flatten() + second.last()));
    }
}

/// Unfinished calls come by index, whatever their kind: those at a lower index stand before those
/// at a higher one.
pub proof fn law_unfinished_calls_come_by_index(acc: AccumulatorView, i: usize, j: usize)
    requires
        i < j,
        partial_indices(acc).contains(i),
        partial_indices(acc).contains(j),
    ensures
        exists|before: Seq<ContentView>, between: Seq<ContentView>, after: Seq<ContentView>|
            partial_blocks(acc) == #[trigger] (before + partial_blocks_at(acc, i) + between
                + partial_blocks_at(acc, j) + after),
{
    let indices = partial_indices(acc);
    let keys = in_order(indices);
    let lists = keys.map_values(|index: usize| partial_blocks_at(acc, index));
    lemma_in_order_lists(indices);
    assert(keys.to_set().contains(i) && keys.to_set().contains(j));
    let p = choose|p: int| 0 <= p < keys.len() && keys[p] == i;
    let q = choose|q: int| 0 <= q < keys.len() && keys[q] == j;
    assert(p < q);
    let middle = lists.subrange(p + 1, q);
    let tail = lists.skip(q + 1);
    let head = lists.take(p);
    lemma_flatten_push(head, lists[p]);
    lemma_flatten_joined(head.push(lists[p]), middle);
    lemma_flatten_push(head.push(lists[p]) + middle, lists[q]);
    lemma_flatten_joined((head.push(lists[p]) + middle).push(lists[q]), tail);
    assert((head.push(lists[p]) + middle).push(lists[q]) + tail =~= lists);
    assert(partial_blocks(acc) == head.flatten() + partial_blocks_at(acc, i) + middle.flatten()
        + partial_blocks_at(acc, j) + tail.flatten());
}

/// A payload takes the place of the announcement of its item, so that one detail is held.
pub proof fn law_payload_replaces_announcement(
    details: Seq<Json>,
    announcement: Json,
    payload: Json,
    id: Seq<char>,
)
    requires
        first_announcing(details, id) is None,
        is_announcement(announcement),
        string_of(announcement, "id"@) == Some(id),
        is_encrypted(payload),
        string_of(payload, "id"@) == Some(id),
    ensures
        with_detail(with_detail(details, announcement), payload) == details.push(payload),
{
    let announced = details.push(announcement);
    let at = details.len() as int;
    assert forall|i: int| 0 <= i < at implies !(is_announcement(#[trigger] announced[i])
        && string_of(announced[i], "id"@) == Some(id)) by {
        if is_announcement(announced[i]) && string_of(announced[i], "id"@) == Some(id) {
            lemma_first_exists(details, id, i);
        }
    }
    lemma_first_announcing(announced, id, at);
    assert(announced.update(at, payload) =~= details.push(payload));
}

proof fn lemma_first_exists(details: Seq<Json>, id: Seq<char>, at: int)
    requires
        0 <= at < details.len(),
        is_announcement(details[at]),
        string_of(details[at], "id"@) == Some(id),
    ensures
        first_announcing(details, id) is Some,
    decreases at,
{
    if exists|i: int|
        0 <= i < at && is_announcement(#[trigger] details[i]) && string_of(details[i], "id"@)
            == Some(id) {
        let i = choose|i: int|
            0 <= i < at && is_announcement(#[trigger] details[i]) && string_of(details[i], "id"@)
                == Some(id);
        lemma_first_exists(details, id, i);
    } else {
        assert(is_first_announcing(details, id, at));
    }
}

/// A finished response holds no announcement, and every detail with a payload.
pub proof fn law_finished_details_carry_payload(details: Seq<Json>)
    ensures
        forall|i: int|
            0 <= i < payloads(details).len() ==> !is_announcement(#[trigger] payloads(details)[i]),
        forall|i: int|
            0 <= i < details.len() && !is_announcement(#[trigger] details[i]) ==> payloads(
                details,
            ).contains(details[i]),
{
    broadcast use vstd::seq_lib::group_filter_ensures;

}

} // verus!
