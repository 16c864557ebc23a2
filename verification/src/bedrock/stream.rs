//! Amazon Bedrock ConverseStream event payload codec.
//!
//! AWS EventStream carrier framing is left to the host. This codec consumes and produces the JSON
//! payload carried by each framed EventStream message.
use vstd::prelude::*;
use vstd::string::*;

use super::buffered::fields_of;
use super::fields::{apply_usage, object_of, owned, reported_usage, single};
use crate::accumulate::{newer, or_empty};
use crate::format::{FormatId, WireFormat};
use crate::json::{
    field, first_with_suffix, jsons, lemma_value_view, object_field, str_field, u64_field, Json,
    JsonMap, JsonNumber, Value,
};
use crate::order::{lists_ascending, sorted_keys, values_in_order};
use crate::stream::{chunk_views, ChunkView, LlmResponseChunk};
use crate::stream_state::{
    fresh_tool, record_source_identity, StateView, StreamTranslationState, ToolStateView,
    ToolStreamState,
};
use crate::text::{is_empty, opt_str, opt_text, text_eq};

verus! {

broadcast use lemma_value_view;

/// Stream codec for Bedrock ConverseStream JSON event payloads.
pub struct BedrockConverseStreamCodec;

/// The state after an event, and what it gives.
pub struct Emitted<T> {
    /// State after the event.
    pub state: StateView,
    /// Chunks or events in order.
    pub out: Seq<T>,
}

/// Index of the content block that an event speaks of; without one, zero.
pub open spec fn block_index(fields: Map<Seq<char>, Json>) -> usize {
    match u64_field(fields, "contentBlockIndex"@) {
        Some(index) => index as usize,
        None => 0,
    }
}

/// Index of the content block that an event speaks of.
fn index_of_block(map: &JsonMap) -> (index: usize)
    ensures
        index == block_index(map@),
{
    match map.u64_field("contentBlockIndex") {
        Some(index) => #[verifier::truncate] (index as usize),
        None => 0,
    }
}

/// Chunks of a `contentBlockStart` event: only a tool call has one.
pub open spec fn started_chunks(fields: Map<Seq<char>, Json>) -> Seq<ChunkView> {
    match object_field(fields_of(fields, "start"@), "toolUse"@) {
        Some(tool) => seq![
            ChunkView::ToolCallDelta {
                index: block_index(fields),
                id: str_field(tool, "toolUseId"@),
                name: str_field(tool, "name"@),
                arguments_delta: None,
            },
        ],
        None => Seq::empty(),
    }
}

/// One chunk.
fn one(chunk: LlmResponseChunk) -> (chunks: Vec<LlmResponseChunk>)
    ensures
        chunk_views(chunks@) == seq![chunk@],
{
    let mut chunks: Vec<LlmResponseChunk> = Vec::new();
    chunks.push(chunk);
    assert(chunk_views(chunks@) =~= seq![chunk@]);
    chunks
}

/// No chunk.
fn no_chunks() -> (chunks: Vec<LlmResponseChunk>)
    ensures
        chunk_views(chunks@) == Seq::<ChunkView>::empty(),
{
    let chunks: Vec<LlmResponseChunk> = Vec::new();
    assert(chunk_views(chunks@) =~= Seq::empty());
    chunks
}

/// Decodes a `contentBlockStart` event.
pub fn decode_content_start(map: &JsonMap) -> (chunks: Vec<LlmResponseChunk>)
    ensures
        chunk_views(chunks@) == started_chunks(map@),
{
    let tool = match map.object_field("start") {
        Some(start) => start.object_field("toolUse"),
        None => None,
    };
    match tool {
        Some(tool) => one(
            LlmResponseChunk::ToolCallDelta {
                index: index_of_block(map),
                id: owned(tool.str_field("toolUseId")),
                name: owned(tool.str_field("name")),
                arguments_delta: None,
            },
        ),
        None => no_chunks(),
    }
}

/// Chunks of a `contentBlockDelta` event: text, tool input or reasoning text, in this order.
pub open spec fn delta_chunks(fields: Map<Seq<char>, Json>) -> Seq<ChunkView> {
    let index = block_index(fields);
    let delta = fields_of(fields, "delta"@);
    if let Some(text) = str_field(delta, "text"@) {
        seq![ChunkView::TextDelta { index, text }]
    } else if let Some(input) = str_field(fields_of(delta, "toolUse"@), "input"@) {
        seq![
            ChunkView::ToolCallDelta { index, id: None, name: None, arguments_delta: Some(input) },
        ]
    } else if let Some(text) = str_field(fields_of(delta, "reasoningContent"@), "text"@) {
        seq![ChunkView::ReasoningDelta { index, text }]
    } else {
        Seq::empty()
    }
}

/// String field of an object in a field.
fn nested_str<'a>(map: &'a JsonMap, key: &str, inner: &str) -> (text: Option<&'a str>)
    ensures
        opt_str(text) == str_field(fields_of(map@, key@), inner@),
{
    match map.object_field(key) {
        Some(object) => object.str_field(inner),
        None => None,
    }
}

/// Decodes a `contentBlockDelta` event.
pub fn decode_content_delta(map: &JsonMap) -> (chunks: Vec<LlmResponseChunk>)
    ensures
        chunk_views(chunks@) == delta_chunks(map@),
{
    let index = index_of_block(map);
    let delta = match map.object_field("delta") {
        Some(delta) => delta,
        None => {
            return no_chunks();
        },
    };
    if let Some(text) = delta.str_field("text") {
        return one(LlmResponseChunk::TextDelta { index, text: text.to_owned() });
    }
    if let Some(input) = nested_str(delta, "toolUse", "input") {
        return one(
            LlmResponseChunk::ToolCallDelta {
                index,
                id: None,
                name: None,
                arguments_delta: Some(input.to_owned()),
            },
        );
    }
    if let Some(text) = nested_str(delta, "reasoningContent", "text") {
        return one(LlmResponseChunk::ReasoningDelta { index, text: text.to_owned() });
    }
    no_chunks()
}

/// Chunks of one event, and the state after it.
pub open spec fn decoded_event(state: StateView, event: Json) -> Emitted<ChunkView> {
    match event {
        Json::Object(fields) => decoded_fields(state, fields),
        _ => Emitted {
            state,
            out: seq![
                ChunkView::DecodeError { message: "Bedrock stream event is not an object"@ },
            ],
        },
    }
}

/// Chunks of an event object, and the state after it.
pub open spec fn decoded_fields(
    state: StateView,
    fields: Map<Seq<char>, Json>,
) -> Emitted<ChunkView> {
    if fields.contains_key("messageStart"@) {
        Emitted {
            state: StateView { saw_message_start: true, ..state },
            out: seq![ChunkView::MessageStart { id: None, model: None }],
        }
    } else if let Some(start) = object_field(fields, "contentBlockStart"@) {
        Emitted { state, out: started_chunks(start) }
    } else if let Some(delta) = object_field(fields, "contentBlockDelta"@) {
        Emitted { state, out: delta_chunks(delta) }
    } else if let Some(stop) = object_field(fields, "messageStop"@) {
        let reason = str_field(stop, "stopReason"@);
        Emitted {
            state: StateView { stop_reason: reason, ..state },
            out: seq![ChunkView::MessageStop { reason }],
        }
    } else if let Some(report) = field(fields_of(fields, "metadata"@), "usage"@) {
        let usage = reported_usage(state.usage, Some(report));
        Emitted {
            state: StateView { usage, saw_backend_usage: true, ..state },
            out: seq![ChunkView::Usage(usage)],
        }
    } else if let Some(name) = first_with_suffix(fields, "Exception"@) {
        Emitted {
            state,
            out: seq![ChunkView::StreamError { message: "Bedrock stream failed with "@ + name }],
        }
    } else {
        Emitted { state, out: Seq::empty() }
    }
}

/// Applies a usage report.
pub fn capture_usage(state: &mut StreamTranslationState, value: &Value)
    ensures
        final(state)@ == (StateView {
            usage: reported_usage(old(state)@.usage, Some(value@)),
            saw_backend_usage: true,
            ..old(state)@
        }),
{
    apply_usage(&mut state.usage, Some(value));
    state.saw_backend_usage = true;
}

/// Decodes one event.
pub fn decode_bedrock_event(state: &mut StreamTranslationState, event: &Value) -> (chunks: Vec<
    LlmResponseChunk,
>)
    ensures
        (Emitted { state: final(state)@, out: chunk_views(chunks@) }) == decoded_event(
            old(state)@,
            event@,
        ),
{
    let map = match event.as_object() {
        Some(map) => map,
        None => {
            return one(
                LlmResponseChunk::DecodeError {
                    message: "Bedrock stream event is not an object".to_owned(),
                },
            );
        },
    };
    if map.get("messageStart").is_some() {
        state.saw_message_start = true;
        return one(LlmResponseChunk::MessageStart { id: None, model: None });
    }
    if let Some(start) = map.object_field("contentBlockStart") {
        return decode_content_start(start);
    }
    if let Some(delta) = map.object_field("contentBlockDelta") {
        return decode_content_delta(delta);
    }
    if let Some(stop) = map.object_field("messageStop") {
        let reason = owned(stop.str_field("stopReason"));
        state.stop_reason = reason.clone();
        return one(LlmResponseChunk::MessageStop { reason });
    }
    if let Some(metadata) = map.object_field("metadata") {
        if let Some(usage) = metadata.get("usage") {
            capture_usage(state, usage);
            return one(LlmResponseChunk::Usage(state.usage.clone()));
        }
    }
    if let Some(name) = map.first_key_with_suffix("Exception") {
        return one(
            LlmResponseChunk::StreamError {
                message: "Bedrock stream failed with ".to_owned().concat(name),
            },
        );
    }
    no_chunks()
}

/// JSON number of a block index.
pub open spec fn index_json(index: usize) -> Json {
    Json::Number(JsonNumber::PosInt(index as u64))
}

/// The event that starts the message.
pub open spec fn message_start_event() -> Json {
    object_of("messageStart"@, object_of("role"@, Json::String("assistant"@)))
}

/// The event that opens the block of a tool call.
pub open spec fn tool_start_event(index: usize, id: Seq<char>, name: Seq<char>) -> Json {
    object_of(
        "contentBlockStart"@,
        Json::Object(
            Map::empty().insert("contentBlockIndex"@, index_json(index)).insert(
                "start"@,
                object_of(
                    "toolUse"@,
                    Json::Object(
                        Map::empty().insert("toolUseId"@, Json::String(id)).insert(
                            "name"@,
                            Json::String(name),
                        ),
                    ),
                ),
            ),
        ),
    )
}

/// The event that adds to a block.
pub open spec fn delta_event(index: usize, delta: Json) -> Json {
    object_of(
        "contentBlockDelta"@,
        Json::Object(
            Map::empty().insert("contentBlockIndex"@, index_json(index)).insert("delta"@, delta),
        ),
    )
}

/// The event that adds text.
pub open spec fn text_event(index: usize, text: Seq<char>) -> Json {
    delta_event(index, object_of("text"@, Json::String(text)))
}

/// The event that adds reasoning text.
pub open spec fn reasoning_event(index: usize, text: Seq<char>) -> Json {
    delta_event(index, object_of("reasoningContent"@, object_of("text"@, Json::String(text))))
}

/// The event that adds tool input.
pub open spec fn input_event(index: usize, input: Seq<char>) -> Json {
    delta_event(index, object_of("toolUse"@, object_of("input"@, Json::String(input))))
}

/// The event that closes a block.
pub open spec fn block_stop_event(index: usize) -> Json {
    object_of("contentBlockStop"@, object_of("contentBlockIndex"@, index_json(index)))
}

/// The event that reports a failure.
pub open spec fn failure_event(message: Seq<char>) -> Json {
    object_of("modelStreamErrorException"@, object_of("message"@, Json::String(message)))
}

/// One event.
fn event(value: Value) -> (events: Vec<Value>)
    ensures
        jsons(events@) == seq![value@],
{
    let mut events: Vec<Value> = Vec::new();
    events.push(value);
    assert(jsons(events@) =~= seq![value@]);
    events
}

/// No event.
fn no_events() -> (events: Vec<Value>)
    ensures
        jsons(events@) == Seq::<Json>::empty(),
{
    let events: Vec<Value> = Vec::new();
    assert(jsons(events@) =~= Seq::empty());
    events
}

/// Adds an event.
fn push_event(events: &mut Vec<Value>, value: Value)
    ensures
        jsons(final(events)@) == jsons(old(events)@).push(value@),
{
    let ghost view = value@;
    events.push(value);
    assert(jsons(events@) =~= jsons(old(events)@).push(view));
}

/// Builds the event that starts the message.
fn message_start() -> (value: Value)
    ensures
        value@ == message_start_event(),
{
    single("messageStart", single("role", Value::text("assistant")))
}

/// Builds an event that adds to a block.
fn block_delta(index: usize, delta: Value) -> (value: Value)
    ensures
        value@ == delta_event(index, delta@),
{
    single(
        "contentBlockDelta",
        Value::Object(
            JsonMap::new().with("contentBlockIndex", Value::integer(index as u64)).with(
                "delta",
                delta,
            ),
        ),
    )
}

/// Builds the event that closes a block.
fn block_stop(index: usize) -> (value: Value)
    ensures
        value@ == block_stop_event(index),
{
    single("contentBlockStop", single("contentBlockIndex", Value::integer(index as u64)))
}

/// There is an index for one more block.
pub open spec fn has_index(state: StateView) -> bool {
    state.next_content_index < usize::MAX
}

/// The counters of the state have room for what a chunk counts.
pub open spec fn has_room(state: StateView, chunk: ChunkView) -> bool {
    state.errored || match chunk {
        ChunkView::TextDelta { .. } => state.output_tokens_seen < u64::MAX && (
        state.text_block_index is Some || has_index(state)),
        ChunkView::ReasoningDelta { index, text } => text.len() == 0
            || state.reasoning_block_index is Some || has_index(state),
        ChunkView::ReasoningDetailsDelta { index, details, text } => text.len() == 0
            || state.reasoning_block_index is Some || has_index(state),
        ChunkView::ToolCallDelta { index, id, name, arguments_delta } => {
            let tool = identified(tool_at(state.tool_states, index), id, name);
            tool.started || tool.name is None || has_index(state)
        },
        _ => true,
    }
}

/// Index of the text block: the open one, else the next.
pub open spec fn text_block(state: StateView) -> usize {
    match state.text_block_index {
        Some(index) => index,
        None => state.next_content_index,
    }
}

/// The state with an open text block.
pub open spec fn with_text_block(state: StateView) -> StateView {
    match state.text_block_index {
        Some(_) => state,
        None => StateView {
            text_block_index: Some(state.next_content_index),
            text_block_started: true,
            emitted_content_block: true,
            next_content_index: (state.next_content_index + 1) as usize,
            ..state
        },
    }
}

/// Opens a text block where none is open, and returns its index.
pub fn ensure_text_block(state: &mut StreamTranslationState) -> (index: usize)
    requires
        old(state)@.text_block_index is Some || has_index(old(state)@),
    ensures
        index == text_block(old(state)@),
        final(state)@ == with_text_block(old(state)@),
{
    if let Some(index) = state.text_block_index {
        return index;
    }
    let index = state.next_content_index;
    state.next_content_index = index + 1;
    state.text_block_index = Some(index);
    state.text_block_started = true;
    state.emitted_content_block = true;
    index
}

/// Index of the reasoning block: the open one, else the next.
pub open spec fn reasoning_block(state: StateView) -> usize {
    match state.reasoning_block_index {
        Some(index) => index,
        None => state.next_content_index,
    }
}

/// The state with an open reasoning block.
pub open spec fn with_reasoning_block(state: StateView) -> StateView {
    match state.reasoning_block_index {
        Some(_) => state,
        None => StateView {
            reasoning_block_index: Some(state.next_content_index),
            reasoning_block_started: true,
            emitted_content_block: true,
            next_content_index: (state.next_content_index + 1) as usize,
            ..state
        },
    }
}

/// Opens a reasoning block where none is open, and returns its index.
pub fn ensure_reasoning_block(state: &mut StreamTranslationState) -> (index: usize)
    requires
        old(state)@.reasoning_block_index is Some || has_index(old(state)@),
    ensures
        index == reasoning_block(old(state)@),
        final(state)@ == with_reasoning_block(old(state)@),
{
    if let Some(index) = state.reasoning_block_index {
        return index;
    }
    let index = state.next_content_index;
    state.next_content_index = index + 1;
    state.reasoning_block_index = Some(index);
    state.reasoning_block_started = true;
    state.emitted_content_block = true;
    index
}

/// The tool call at an index of the response.
pub open spec fn tool_at(tools: Map<usize, ToolStateView>, index: usize) -> ToolStateView {
    if tools.contains_key(index) {
        tools[index]
    } else {
        fresh_tool()
    }
}

/// The tool call at an index after a delta named it or gave its identifier.
pub open spec fn identified(
    tool: ToolStateView,
    id: Option<Seq<char>>,
    name: Option<Seq<char>>,
) -> ToolStateView {
    ToolStateView { id: newer(id, tool.id), name: newer(name, tool.name), ..tool }
}

/// The state with a tool call at an index of the response.
pub open spec fn with_tool(state: StateView, index: usize, tool: ToolStateView) -> StateView {
    StateView { tool_states: state.tool_states.insert(index, tool), ..state }
}

/// Events of a tool-call delta, and the state after it. The block of the call opens when the tool
/// is named; arguments that arrive earlier are set aside.
pub open spec fn encoded_tool_delta(
    state: StateView,
    index: usize,
    id: Option<Seq<char>>,
    name: Option<Seq<char>>,
    arguments: Option<Seq<char>>,
) -> Emitted<Json> {
    let tool = identified(tool_at(state.tool_states, index), id, name);
    if tool.started {
        encoded_arguments(state, index, tool, arguments)
    } else {
        match tool.name {
            None => Emitted {
                state: with_tool(state, index, set_aside(tool, arguments)),
                out: Seq::empty(),
            },
            Some(name) => {
                let rest = encoded_arguments(
                    with_block(state),
                    index,
                    opened(tool, state.next_content_index),
                    arguments,
                );
                Emitted {
                    state: rest.state,
                    out: seq![tool_start_event(state.next_content_index, or_empty(tool.id), name)]
                        + rest.out,
                }
            },
        }
    }
}

/// The tool call with arguments set aside.
pub open spec fn set_aside(tool: ToolStateView, arguments: Option<Seq<char>>) -> ToolStateView {
    ToolStateView { pending_arguments: tool.pending_arguments + or_empty(arguments), ..tool }
}

/// The tool call with an open block.
pub open spec fn opened(tool: ToolStateView, content_index: usize) -> ToolStateView {
    ToolStateView { content_index: Some(content_index), started: true, ..tool }
}

/// The state with one more block.
pub open spec fn with_block(state: StateView) -> StateView {
    StateView {
        next_content_index: (state.next_content_index + 1) as usize,
        emitted_content_block: true,
        ..state
    }
}

/// Events of the arguments of an open tool call, and the state after them.
pub open spec fn encoded_arguments(
    state: StateView,
    index: usize,
    tool: ToolStateView,
    arguments: Option<Seq<char>>,
) -> Emitted<Json> {
    match arguments {
        Some(input) => Emitted {
            state: with_tool(
                state,
                index,
                ToolStateView { arguments: tool.arguments + input, ..tool },
            ),
            out: seq![
                input_event(
                    match tool.content_index {
                        Some(content_index) => content_index,
                        None => index,
                    },
                    input,
                ),
            ],
        },
        None => Emitted { state: with_tool(state, index, tool), out: Seq::empty() },
    }
}

/// Builds the event that opens the block of a tool call.
fn tool_start(index: usize, id: &Option<String>, name: &String) -> (value: Value)
    ensures
        value@ == tool_start_event(index, or_empty(opt_text(*id)), name@),
{
    let id = match id {
        Some(id) => Value::text(id.as_str()),
        None => {
            proof {
                reveal_strlit("");
                assert(""@ =~= Seq::empty());
            }
            Value::text("")
        },
    };
    let tool = JsonMap::new().with("toolUseId", id).with("name", Value::text(name.as_str()));
    single(
        "contentBlockStart",
        Value::Object(
            JsonMap::new().with("contentBlockIndex", Value::integer(index as u64)).with(
                "start",
                single("toolUse", Value::Object(tool)),
            ),
        ),
    )
}

/// Takes the tool call at an index of the response out of the state.
fn take_tool(state: &mut StreamTranslationState, index: usize) -> (tool: ToolStreamState)
    ensures
        tool@ == tool_at(old(state)@.tool_states, index),
        final(state)@ == (StateView {
            tool_states: old(state)@.tool_states.remove(index),
            ..old(state)@
        }),
{
    let tool = match state.tool_states.remove(&index) {
        Some(tool) => tool,
        None => ToolStreamState::default(),
    };
    assert(state@.tool_states =~= old(state)@.tool_states.remove(index));
    tool
}

/// Puts a tool call at an index of the response into the state.
fn put_tool(state: &mut StreamTranslationState, index: usize, tool: ToolStreamState)
    ensures
        final(state)@ == with_tool(old(state)@, index, tool@),
{
    let ghost view = tool@;
    state.tool_states.insert(index, tool);
    assert(state@.tool_states =~= old(state)@.tool_states.insert(index, view));
}

/// Encodes the arguments of an open tool call, which goes back into the state.
fn encode_arguments(
    state: &mut StreamTranslationState,
    index: usize,
    tool: ToolStreamState,
    arguments_delta: Option<String>,
) -> (events: Vec<Value>)
    ensures
        (Emitted { state: final(state)@, out: jsons(events@) }) == encoded_arguments(
            old(state)@,
            index,
            tool@,
            opt_text(arguments_delta),
        ),
{
    match arguments_delta {
        Some(input) => {
            let mut tool = tool;
            tool.arguments.append(input.as_str());
            let content_index = match tool.content_index {
                Some(content_index) => content_index,
                None => index,
            };
            put_tool(state, index, tool);
            event(
                block_delta(
                    content_index,
                    single("toolUse", single("input", Value::text(input.as_str()))),
                ),
            )
        },
        None => {
            put_tool(state, index, tool);
            no_events()
        },
    }
}

/// Encodes a tool-call delta.
pub fn encode_tool_delta(
    state: &mut StreamTranslationState,
    index: usize,
    id: Option<String>,
    name: Option<String>,
    arguments_delta: Option<String>,
) -> (events: Vec<Value>)
    requires
        ({
            let tool = identified(
                tool_at(old(state)@.tool_states, index),
                opt_text(id),
                opt_text(name),
            );
            tool.started || tool.name is None || has_index(old(state)@)
        }),
    ensures
        (Emitted { state: final(state)@, out: jsons(events@) }) == encoded_tool_delta(
            old(state)@,
            index,
            opt_text(id),
            opt_text(name),
            opt_text(arguments_delta),
        ),
{
    let tool = take_tool(state, index);
    let tool = identify(tool, id, name);
    proof {
        lemma_put_back(old(state)@.tool_states, index);
    }
    if tool.started {
        encode_arguments(state, index, tool, arguments_delta)
    } else if tool.name.is_some() {
        open_tool(state, index, tool, arguments_delta)
    } else {
        let mut tool = tool;
        if let Some(input) = arguments_delta {
            tool.pending_arguments.append(input.as_str());
        }
        assert(tool@.pending_arguments =~= tool_at(
            old(state)@.tool_states,
            index,
        ).pending_arguments + or_empty(opt_text(arguments_delta)));
        put_tool(state, index, tool);
        no_events()
    }
}

/// Names a tool call or gives its identifier.
fn identify(tool: ToolStreamState, id: Option<String>, name: Option<String>) -> (result:
    ToolStreamState)
    ensures
        result@ == identified(tool@, opt_text(id), opt_text(name)),
{
    let mut tool = tool;
    if id.is_some() {
        tool.id = id;
    }
    if name.is_some() {
        tool.name = name;
    }
    tool
}

/// Opens the block of a named tool call, and encodes its first arguments.
fn open_tool(
    state: &mut StreamTranslationState,
    index: usize,
    tool: ToolStreamState,
    arguments_delta: Option<String>,
) -> (events: Vec<Value>)
    requires
        has_index(old(state)@),
        tool@.name is Some,
    ensures
        ({
            let rest = encoded_arguments(
                with_block(old(state)@),
                index,
                opened(tool@, old(state)@.next_content_index),
                opt_text(arguments_delta),
            );
            &&& final(state)@ == rest.state
            &&& jsons(events@) == seq![
                tool_start_event(
                    old(state)@.next_content_index,
                    or_empty(tool@.id),
                    tool@.name->0,
                ),
            ] + rest.out
        }),
{
    let content_index = state.next_content_index;
    let mut tool = tool;
    let mut events = match &tool.name {
        Some(name) => event(tool_start(content_index, &tool.id, name)),
        None => no_events(),
    };
    tool.content_index = Some(content_index);
    tool.started = true;
    state.next_content_index = content_index + 1;
    state.emitted_content_block = true;
    let ghost start = jsons(events@);
    let mut rest = encode_arguments(state, index, tool, arguments_delta);
    let ghost added = rest@;
    events.append(&mut rest);
    assert(jsons(events@) =~= start + jsons(added));
    events
}

/// What is taken out at an index and put back replaces what was there.
proof fn lemma_put_back(tools: Map<usize, ToolStateView>, index: usize)
    ensures
        forall|tool: ToolStateView| #[trigger]
            tools.remove(index).insert(index, tool) == tools.insert(index, tool),
{
    assert forall|tool: ToolStateView| #[trigger]
        tools.remove(index).insert(index, tool) == tools.insert(index, tool) by {
        assert(tools.remove(index).insert(index, tool) =~= tools.insert(index, tool));
    }
}

/// Events of a reasoning fragment, and the state after it. Converse has no slot for opaque
/// reasoning details, so only the text counts; an empty one gives nothing.
pub open spec fn encoded_reasoning(state: StateView, text: Seq<char>) -> Emitted<Json> {
    if text.len() == 0 {
        Emitted { state, out: Seq::empty() }
    } else {
        Emitted {
            state: with_reasoning_block(state),
            out: seq![reasoning_event(reasoning_block(state), text)],
        }
    }
}

/// Events of one chunk, and the state after it. Usage and the stop reason are kept for the end of
/// the stream. Chunks that ConverseStream has no event for give none, and so does every chunk
/// after a failure.
pub open spec fn encoded_event(state: StateView, chunk: ChunkView) -> Emitted<Json> {
    if state.errored {
        Emitted { state, out: Seq::empty() }
    } else {
        match chunk {
            ChunkView::MessageStart { id, model } => Emitted {
                state: StateView {
                    source_id: newer(id, state.source_id),
                    source_model: newer(model, state.source_model),
                    emitted_message_start: true,
                    ..state
                },
                out: if state.emitted_message_start {
                    Seq::empty()
                } else {
                    seq![message_start_event()]
                },
            },
            ChunkView::TextDelta { index, text } => Emitted {
                state: StateView {
                    output_tokens_seen: (state.output_tokens_seen + 1) as u64,
                    ..with_text_block(state)
                },
                out: seq![text_event(text_block(state), text)],
            },
            ChunkView::ReasoningDelta { index, text } => encoded_reasoning(state, text),
            ChunkView::ReasoningDetailsDelta { index, details, text } => encoded_reasoning(
                state,
                text,
            ),
            ChunkView::ToolCallDelta { index, id, name, arguments_delta } => encoded_tool_delta(
                state,
                index,
                id,
                name,
                arguments_delta,
            ),
            ChunkView::Usage(usage) => Emitted {
                state: StateView { usage, saw_backend_usage: true, ..state },
                out: Seq::empty(),
            },
            ChunkView::MessageStop { reason } => Emitted {
                state: StateView { stop_reason: newer(reason, state.stop_reason), ..state },
                out: Seq::empty(),
            },
            ChunkView::StreamError { message } => Emitted {
                state: StateView { finished: true, errored: true, ..state },
                out: seq![failure_event(message)],
            },
            ChunkView::DecodeError { message } => Emitted {
                state: StateView { finished: true, errored: true, ..state },
                out: seq![failure_event(message)],
            },
            _ => Emitted { state, out: Seq::empty() },
        }
    }
}

/// Encodes a reasoning fragment.
fn encode_reasoning(state: &mut StreamTranslationState, text: &String) -> (events: Vec<Value>)
    requires
        text@.len() == 0 || old(state)@.reasoning_block_index is Some || has_index(old(state)@),
    ensures
        (Emitted { state: final(state)@, out: jsons(events@) }) == encoded_reasoning(
            old(state)@,
            text@,
        ),
{
    if is_empty(text) {
        return no_events();
    }
    let index = ensure_reasoning_block(state);
    event(
        block_delta(
            index,
            single("reasoningContent", single("text", Value::text(text.as_str()))),
        ),
    )
}

/// Ends the stream with a failure.
fn fail(state: &mut StreamTranslationState, message: &String) -> (events: Vec<Value>)
    ensures
        final(state)@ == (StateView { finished: true, errored: true, ..old(state)@ }),
        jsons(events@) == seq![failure_event(message@)],
{
    state.finished = true;
    state.errored = true;
    event(
        single("modelStreamErrorException", single("message", Value::text(message.as_str()))),
    )
}

/// Whether the counters of the state have room for what a chunk counts.
pub fn can_encode(state: &StreamTranslationState, chunk: &LlmResponseChunk) -> (room: bool)
    ensures
        room == has_room(state@, chunk@),
{
    if state.errored {
        return true;
    }
    let index_left = state.next_content_index < usize::MAX;
    match chunk {
        LlmResponseChunk::TextDelta { .. } => state.output_tokens_seen < u64::MAX && (
        state.text_block_index.is_some() || index_left),
        LlmResponseChunk::ReasoningDelta { text, .. } => is_empty(text)
            || state.reasoning_block_index.is_some() || index_left,
        LlmResponseChunk::ReasoningDetailsDelta { text, .. } => is_empty(text)
            || state.reasoning_block_index.is_some() || index_left,
        LlmResponseChunk::ToolCallDelta { index, name, .. } => match state.tool_states.get(index) {
            Some(tool) => tool.started || (name.is_none() && tool.name.is_none()) || index_left,
            None => name.is_none() || index_left,
        },
        _ => true,
    }
}

/// Encodes one chunk.
pub fn encode_bedrock_event(state: &mut StreamTranslationState, chunk: LlmResponseChunk) -> (events:
    Vec<Value>)
    requires
        has_room(old(state)@, chunk@),
    ensures
        (Emitted { state: final(state)@, out: jsons(events@) }) == encoded_event(
            old(state)@,
            chunk@,
        ),
{
    if state.errored {
        return no_events();
    }
    match chunk {
        LlmResponseChunk::MessageStart { id, model } => {
            record_source_identity(state, id, model);
            if state.emitted_message_start {
                no_events()
            } else {
                state.emitted_message_start = true;
                event(message_start())
            }
        },
        LlmResponseChunk::TextDelta { text, .. } => {
            let index = ensure_text_block(state);
            state.output_tokens_seen = state.output_tokens_seen + 1;
            event(block_delta(index, single("text", Value::text(text.as_str()))))
        },
        LlmResponseChunk::ReasoningDelta { text, .. } => encode_reasoning(state, &text),
        LlmResponseChunk::ReasoningDetailsDelta { text, .. } => encode_reasoning(state, &text),
        LlmResponseChunk::ToolCallDelta { index, id, name, arguments_delta } => encode_tool_delta(
            state,
            index,
            id,
            name,
            arguments_delta,
        ),
        LlmResponseChunk::Usage(usage) => {
            state.usage = usage;
            state.saw_backend_usage = true;
            no_events()
        },
        LlmResponseChunk::MessageStop { reason } => {
            if reason.is_some() {
                state.stop_reason = reason;
            }
            no_events()
        },
        LlmResponseChunk::StreamError { message } => fail(state, &message),
        LlmResponseChunk::DecodeError { message } => fail(state, &message),
        _ => no_events(),
    }
}

/// The Converse name of a stop reason in any common spelling.
pub open spec fn converse_stop_name(reason: Option<Seq<char>>) -> Seq<char> {
    match reason {
        Some(name) => if name == "max_tokens"@ || name == "length"@ {
            "max_tokens"@
        } else if name == "tool_use"@ || name == "tool_calls"@ {
            "tool_use"@
        } else if name == "content_filter"@ || name == "content_filtered"@ || name
            == "guardrail_intervened"@ {
            "content_filtered"@
        } else {
            "end_turn"@
        },
        None => "end_turn"@,
    }
}

/// The Converse name of a stop reason in any common spelling.
pub fn bedrock_stop_reason(reason: Option<&str>) -> (name: &'static str)
    ensures
        name@ == converse_stop_name(opt_str(reason)),
{
    match reason {
        Some(name) => if text_eq(name, "max_tokens") || text_eq(name, "length") {
            "max_tokens"
        } else if text_eq(name, "tool_use") || text_eq(name, "tool_calls") {
            "tool_use"
        } else if text_eq(name, "content_filter") || text_eq(name, "content_filtered") || text_eq(
            name,
            "guardrail_intervened",
        ) {
            "content_filtered"
        } else {
            "end_turn"
        },
        None => "end_turn",
    }
}

/// The sum of two counts, or the largest count where it does not fit.
pub open spec fn saturating_sum(a: u64, b: u64) -> u64 {
    if a + b > u64::MAX {
        u64::MAX
    } else {
        (a + b) as u64
    }
}

/// The count, or another where there is none.
pub open spec fn count_or(count: Option<u64>, other: u64) -> u64 {
    match count {
        Some(count) => count,
        None => other,
    }
}

/// JSON number of a count.
pub open spec fn count_json(count: u64) -> Json {
    Json::Number(JsonNumber::PosInt(count))
}

/// JSON number of an optional count, or `null`.
pub open spec fn count_or_null(count: Option<u64>) -> Json {
    match count {
        Some(count) => count_json(count),
        None => Json::Null,
    }
}

/// The `usage` object at the end of a stream. Without a reported count of output tokens it counts
/// text fragments; without a reported total it adds input and output.
pub open spec fn final_usage(state: StateView) -> Json {
    let output = count_or(state.usage.output_tokens, state.output_tokens_seen);
    let input = count_or(state.usage.input_tokens, 0);
    Json::Object(
        Map::empty().insert("inputTokens"@, count_json(input)).insert(
            "outputTokens"@,
            count_json(output),
        ).insert(
            "totalTokens"@,
            count_json(count_or(state.usage.total_tokens, saturating_sum(input, output))),
        ).insert("cacheReadInputTokens"@, count_or_null(state.usage.cache_read())).insert(
            "cacheWriteInputTokens"@,
            count_or_null(state.usage.cache_creation()),
        ),
    )
}

/// JSON number of an optional count, or `null`.
fn nullable_count(count: Option<u64>) -> (value: Value)
    ensures
        value@ == count_or_null(count),
{
    match count {
        Some(count) => Value::integer(count),
        None => Value::Null,
    }
}

/// Encodes the usage at the end of a stream.
pub fn encode_usage(state: &StreamTranslationState) -> (value: Value)
    ensures
        value@ == final_usage(state@),
{
    let output = match state.usage.output_tokens {
        Some(tokens) => tokens,
        None => state.output_tokens_seen,
    };
    let input: u64 = match state.usage.input_tokens {
        Some(tokens) => tokens,
        None => 0,
    };
    let total = match state.usage.total_tokens {
        Some(tokens) => tokens,
        None => input.saturating_add(output),
    };
    Value::Object(
        JsonMap::new().with("inputTokens", Value::integer(input)).with(
            "outputTokens",
            Value::integer(output),
        ).with("totalTokens", Value::integer(total)).with(
            "cacheReadInputTokens",
            nullable_count(state.usage.cached_input_tokens()),
        ).with(
            "cacheWriteInputTokens",
            nullable_count(state.usage.cache_creation_input_tokens()),
        ),
    )
}

/// The event that closes an open block, where there is one.
pub open spec fn block_stops(index: Option<usize>) -> Seq<Json> {
    match index {
        Some(index) => seq![block_stop_event(index)],
        None => Seq::empty(),
    }
}

/// The events that close the open blocks of tool calls.
pub open spec fn tool_stops(tools: Seq<ToolStateView>) -> Seq<Json>
    decreases tools.len(),
{
    if tools.len() == 0 {
        Seq::empty()
    } else {
        let before = tool_stops(tools.drop_last());
        if tools.last().started {
            before + block_stops(tools.last().content_index)
        } else {
            before
        }
    }
}

/// The tool call with its block closed.
pub open spec fn closed(tool: ToolStateView) -> ToolStateView {
    ToolStateView { started: false, ..tool }
}

/// The events that end a stream, and the state after them: the message start if it is still owed,
/// the end of every open block, the stop reason and the usage. A stream that has ended gives none.
pub open spec fn finished_stream(state: StateView) -> Emitted<Json> {
    if state.finished {
        Emitted { state, out: Seq::empty() }
    } else {
        Emitted {
            state: StateView {
                emitted_message_start: true,
                text_block_index: None,
                reasoning_block_index: None,
                tool_states: state.tool_states.map_values(|tool: ToolStateView| closed(tool)),
                finished: true,
                ..state
            },
            out: (if state.emitted_message_start {
                Seq::empty()
            } else {
                seq![message_start_event()]
            }) + block_stops(state.text_block_index) + block_stops(state.reasoning_block_index)
                + tool_stops(values_in_order(state.tool_states)) + seq![
                object_of(
                    "messageStop"@,
                    object_of("stopReason"@, Json::String(converse_stop_name(state.stop_reason))),
                ),
                object_of("metadata"@, object_of("usage"@, final_usage(state))),
            ],
        }
    }
}

/// Closes an open block.
fn push_stop(events: &mut Vec<Value>, index: Option<usize>)
    ensures
        jsons(final(events)@) == jsons(old(events)@) + block_stops(index),
{
    match index {
        Some(index) => {
            push_event(events, block_stop(index));
            assert(jsons(events@) =~= jsons(old(events)@) + block_stops(Some(index)));
        },
        None => {
            assert(jsons(events@) =~= jsons(old(events)@) + block_stops(None));
        },
    }
}

/// Closes the open blocks of all tool calls, in the order of their indices.
fn close_tools(state: &mut StreamTranslationState, events: &mut Vec<Value>)
    ensures
        final(state)@ == (StateView {
            tool_states: old(state)@.tool_states.map_values(|tool: ToolStateView| closed(tool)),
            ..old(state)@
        }),
        jsons(final(events)@) == jsons(old(events)@) + tool_stops(
            values_in_order(old(state)@.tool_states),
        ),
{
    let ghost before = state@.tool_states;
    let ghost base = jsons(events@);
    let keys = sorted_keys(&state.tool_states);
    let ghost all = values_in_order(before);
    let n = keys.len();
    let mut i: usize = 0;
    proof {
        assert(before.dom() =~= state.tool_states@.dom());
        assert(tool_stops(all.take(0)) =~= Seq::empty());
        assert(base + Seq::empty() =~= base);
        assert forall|k: int| 0 <= k < n implies before.contains_key(#[trigger] keys@[k]) by {
            assert(keys@.to_set().contains(keys@[k]));
        }
    }
    while i < n
        invariant
            n == keys@.len(),
            i <= n,
            before == old(state)@.tool_states,
            base == jsons(old(events)@),
            lists_ascending(keys@, before.dom()),
            forall|k: int| 0 <= k < n ==> before.contains_key(#[trigger] keys@[k]),
            all == keys@.map_values(|key: usize| before[key]),
            state@ == (StateView { tool_states: state@.tool_states, ..old(state)@ }),
            state@.tool_states.dom() == before.dom(),
            forall|k: int|
                0 <= k < n ==> state@.tool_states[#[trigger] keys@[k]] == (if k < i {
                    closed(before[keys@[k]])
                } else {
                    before[keys@[k]]
                }),
            jsons(events@) == base + tool_stops(all.take(i as int)),
        decreases n - i,
    {
        let key = keys[i];
        let ghost was = state@.tool_states;
        proof {
            assert(was[keys@[i as int]] == before[key]);
            assert(before.contains_key(keys@[i as int]));
            assert(all.take(i + 1).drop_last() =~= all.take(i as int));
            assert(all.take(i + 1).last() == before[key]);
        }
        let mut tool = take_tool(state, key);
        let ghost so_far = tool_stops(all.take(i as int));
        if tool.started {
            push_stop(events, tool.content_index);
            tool.started = false;
            assert(base + so_far + block_stops(tool.content_index) =~= base + (so_far + block_stops(
                tool.content_index,
            )));
        }
        assert(tool@ =~= closed(before[key]));
        put_tool(state, key, tool);
        proof {
            assert(state@.tool_states =~= was.insert(key, closed(before[key])));
            assert(state@.tool_states.dom() =~= before.dom());
            assert forall|k: int| 0 <= k < n implies state@.tool_states[#[trigger] keys@[k]] == (
            if k < i + 1 {
                closed(before[keys@[k]])
            } else {
                before[keys@[k]]
            }) by {
                if k != i {
                    assert(keys@[k] != keys@[i as int]);
                    assert(was[keys@[k]] == (if k < i {
                        closed(before[keys@[k]])
                    } else {
                        before[keys@[k]]
                    }));
                }
            }
        }
        i += 1;
    }
    proof {
        let expected = before.map_values(|tool: ToolStateView| closed(tool));
        assert forall|key: usize| #[trigger] state@.tool_states.contains_key(key) implies
            state@.tool_states[key] == expected[key] by {
            assert(keys@.to_set().contains(key));
            let k = choose|k: int| 0 <= k < keys@.len() && keys@[k] == key;
            assert(state@.tool_states[keys@[k]] == closed(before[keys@[k]]));
        }
        assert(state@.tool_states =~= expected);
        assert(all.take(n as int) =~= all);
    }
}

/// Ends the stream.
pub fn finish_bedrock_stream(state: &mut StreamTranslationState) -> (events: Vec<Value>)
    ensures
        (Emitted { state: final(state)@, out: jsons(events@) }) == finished_stream(old(state)@),
{
    if state.finished {
        return no_events();
    }
    let ghost before = state@;
    let usage = encode_usage(state);
    let mut events = no_events();
    if !state.emitted_message_start {
        push_event(&mut events, message_start());
        state.emitted_message_start = true;
    }
    push_stop(&mut events, state.text_block_index);
    state.text_block_index = None;
    push_stop(&mut events, state.reasoning_block_index);
    state.reasoning_block_index = None;
    close_tools(state, &mut events);
    let reason: Option<&str> = match &state.stop_reason {
        Some(reason) => Some(reason.as_str()),
        None => None,
    };
    let reason = single("stopReason", Value::text(bedrock_stop_reason(reason)));
    push_event(&mut events, single("messageStop", reason));
    push_event(&mut events, single("metadata", single("usage", usage)));
    state.finished = true;
    assert(jsons(events@) =~= finished_stream(before).out);
    events
}

impl BedrockConverseStreamCodec {
    /// Wire format of the codec.
    pub fn format(&self) -> (format: FormatId)
        ensures
            format@ == WireFormat::BedrockConverse.name(),
    {
        WireFormat::BedrockConverse.id()
    }

    /// Decodes one event into normalized chunks.
    pub fn decode_event(&self, state: &mut StreamTranslationState, event: &Value) -> (chunks: Vec<
        LlmResponseChunk,
    >)
        ensures
            (Emitted { state: final(state)@, out: chunk_views(chunks@) }) == decoded_event(
                old(state)@,
                event@,
            ),
    {
        decode_bedrock_event(state, event)
    }

    /// Encodes one chunk into events.
    pub fn encode_event(&self, state: &mut StreamTranslationState, event: LlmResponseChunk) -> (
        events: Vec<Value>)
        requires
            has_room(old(state)@, event@),
        ensures
            (Emitted { state: final(state)@, out: jsons(events@) }) == encoded_event(
                old(state)@,
                event@,
            ),
    {
        encode_bedrock_event(state, event)
    }

    /// Ends the stream.
    pub fn finish(&self, state: &mut StreamTranslationState) -> (events: Vec<Value>)
        ensures
            (Emitted { state: final(state)@, out: jsons(events@) }) == finished_stream(old(state)@),
    {
        finish_bedrock_stream(state)
    }
}

} // verus!
