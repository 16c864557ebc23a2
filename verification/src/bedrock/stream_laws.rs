//! Laws of the ConverseStream codec.
use vstd::prelude::*;

use super::buffered::fields_of;
use super::fields::{decoded_stop_reason, object_of};
use super::stream::{
    block_index, block_stop_event, block_stops, closed, converse_stop_name, decoded_event,
    delta_chunks, delta_event, encoded_event, final_usage, finished_stream, has_room, identified,
    input_event, message_start_event, reasoning_block, reasoning_event, text_block, text_event,
    tool_at, tool_start_event, tool_stops, Emitted,
};
use crate::accumulate::{accumulate, after_chunks, chunk_error, AccumulatorView, Progress};
use crate::json::{
    first_with_suffix, is_first_with_suffix, object_field, str_field, u64_field, Json,
};
use crate::llm::StopReason;
use crate::order::{in_order, lemma_in_order_lists, values_in_order};
use crate::replay::stop_name;
use crate::stream::ChunkView;
use crate::stream_state::{fresh_state, StateView, ToolStateView};

verus! {

/// After a failure the stream is over: no chunk and no end gives an event or changes the state.
pub proof fn law_failed_stream_is_silent(state: StateView, failure: ChunkView, later: ChunkView)
    requires
        !state.errored,
        chunk_error(failure) is Some,
    ensures
        encoded_event(state, failure).out.len() == 1,
        ({
            let after = encoded_event(state, failure).state;
            &&& encoded_event(after, later) == (Emitted { state: after, out: Seq::<Json>::empty() })
            &&& finished_stream(after) == (Emitted { state: after, out: Seq::<Json>::empty() })
        }),
{
}

/// A stream ends once: ending it again gives nothing and changes nothing.
pub proof fn law_stream_ends_once(state: StateView)
    ensures
        ({
            let after = finished_stream(state).state;
            finished_stream(after) == (Emitted { state: after, out: Seq::<Json>::empty() })
        }),
{
}

/// The message starts once: after a message start or the end of the stream none is emitted again.
pub proof fn law_message_starts_once(
    state: StateView,
    id: Option<Seq<char>>,
    model: Option<Seq<char>>,
)
    requires
        !state.errored,
    ensures
        ({
            let start = ChunkView::MessageStart { id, model };
            let after = encoded_event(state, start).state;
            let ended = finished_stream(state).state;
            &&& encoded_event(after, start).out.len() == 0
            &&& !state.finished ==> encoded_event(ended, start).out.len() == 0
        }),
{
}

/// Each chunk takes at most one block index and counts at most one fragment, so that the counters
/// have room for as many chunks as a counter can count.
pub proof fn law_counters_grow_by_one(state: StateView, chunk: ChunkView)
    requires
        has_room(state, chunk),
    ensures
        ({
            let after = encoded_event(state, chunk).state;
            &&& state.next_content_index <= after.next_content_index
            &&& after.next_content_index <= state.next_content_index + 1
            &&& state.output_tokens_seen <= after.output_tokens_seen
            &&& after.output_tokens_seen <= state.output_tokens_seen + 1
        }),
{
}

/// The block of a tool call is open at an index.
pub open spec fn holds_block(tool: ToolStateView, index: usize) -> bool {
    tool.started && tool.content_index == Some(index)
}

/// Open blocks have indices of their own, all below the next one.
pub open spec fn blocks_apart(state: StateView) -> bool {
    &&& state.text_block_index matches Some(text) ==> text < state.next_content_index
    &&& state.reasoning_block_index matches Some(reasoning) ==> reasoning
        < state.next_content_index
    &&& state.text_block_index is Some ==> state.text_block_index != state.reasoning_block_index
    &&& forall|key: usize|
        #![trigger state.tool_states[key]]
        state.tool_states.contains_key(key) && state.tool_states[key].started ==> {
            &&& state.tool_states[key].content_index is Some
            &&& state.tool_states[key].content_index->0 < state.next_content_index
            &&& state.tool_states[key].content_index != state.text_block_index
            &&& state.tool_states[key].content_index != state.reasoning_block_index
        }
    &&& forall|a: usize, b: usize|
        #![trigger state.tool_states[a], state.tool_states[b]]
        a != b && state.tool_states.contains_key(a) && state.tool_states.contains_key(b)
            && state.tool_states[a].started && state.tool_states[b].started
            ==> state.tool_states[a].content_index != state.tool_states[b].content_index
}

/// Open blocks keep indices of their own: at the start, after every chunk, and after the end.
pub proof fn law_blocks_stay_apart(state: StateView, chunk: ChunkView)
    requires
        blocks_apart(state),
        has_room(state, chunk),
    ensures
        blocks_apart(fresh_state()),
        blocks_apart(encoded_event(state, chunk).state),
        blocks_apart(finished_stream(state).state),
{
    let after = encoded_event(state, chunk).state;
    let ended = finished_stream(state).state;
    assert(blocks_apart(ended)) by {
        assert forall|key: usize| ended.tool_states.contains_key(key) && !state.finished implies !(
        #[trigger] ended.tool_states[key]).started by {
            assert(ended.tool_states[key] == closed(state.tool_states[key]));
        }
    }
    if let ChunkView::ToolCallDelta { index, id, name, arguments_delta } = chunk {
        if !state.errored {
            let tool = identified(tool_at(state.tool_states, index), id, name);
            assert forall|key: usize| key != index implies after.tool_states.contains_key(key)
                == state.tool_states.contains_key(key) && (state.tool_states.contains_key(key)
                ==> (#[trigger] after.tool_states[key]) == state.tool_states[key]) by {
            }
            if state.tool_states.contains_key(index) {
                assert(tool.started == state.tool_states[index].started);
            }
            assert(after.tool_states.contains_key(index));
            assert(blocks_apart(after));
        }
    }
}

/// The indices of the open blocks of tool calls.
pub open spec fn tool_blocks(tools: Seq<ToolStateView>) -> Seq<usize>
    decreases tools.len(),
{
    if tools.len() == 0 {
        Seq::empty()
    } else {
        let before = tool_blocks(tools.drop_last());
        match tools.last().content_index {
            Some(index) => if tools.last().started {
                before.push(index)
            } else {
                before
            },
            None => before,
        }
    }
}

/// The index of a block, if it is open.
pub open spec fn opt_block(index: Option<usize>) -> Seq<usize> {
    match index {
        Some(index) => seq![index],
        None => Seq::empty(),
    }
}

/// The indices of the open blocks: text, reasoning, then tool calls in order.
pub open spec fn open_blocks(state: StateView) -> Seq<usize> {
    opt_block(state.text_block_index) + opt_block(state.reasoning_block_index) + tool_blocks(
        values_in_order(state.tool_states),
    )
}

/// The events that close blocks.
pub open spec fn stops(blocks: Seq<usize>) -> Seq<Json> {
    blocks.map_values(|index: usize| block_stop_event(index))
}

proof fn lemma_tool_stops(tools: Seq<ToolStateView>)
    ensures
        tool_stops(tools) == stops(tool_blocks(tools)),
    decreases tools.len(),
{
    if tools.len() == 0 {
        assert(tool_stops(tools) =~= stops(tool_blocks(tools)));
    } else {
        lemma_tool_stops(tools.drop_last());
        let before = tool_blocks(tools.drop_last());
        if let Some(index) = tools.last().content_index {
            assert(stops(before.push(index)) =~= stops(before) + block_stops(Some(index)));
        }
        assert(stops(before) + block_stops(None) =~= stops(before));
    }
}

/// An index of an open tool block belongs to a started call in the list.
proof fn lemma_tool_blocks_owned(tools: Seq<ToolStateView>, i: int) -> (k: int)
    requires
        0 <= i < tool_blocks(tools).len(),
    ensures
        0 <= k < tools.len(),
        holds_block(tools[k], tool_blocks(tools)[i]),
    decreases tools.len(),
{
    let rest = tools.drop_last();
    if i < tool_blocks(rest).len() {
        let k = lemma_tool_blocks_owned(rest, i);
        assert(rest[k] == tools[k]);
        k
    } else {
        tools.len() - 1
    }
}

proof fn lemma_tool_blocks_distinct(tools: Seq<ToolStateView>)
    requires
        forall|a: int, b: int|
            0 <= a < b < tools.len() && tools[a].started && tools[b].started ==> (
            #[trigger] tools[a]).content_index != (#[trigger] tools[b]).content_index,
    ensures
        tool_blocks(tools).no_duplicates(),
    decreases tools.len(),
{
    if tools.len() > 0 {
        let rest = tools.drop_last();
        assert forall|a: int, b: int|
            0 <= a < b < rest.len() && rest[a].started && rest[b].started implies (
        #[trigger] rest[a]).content_index != (#[trigger] rest[b]).content_index by {
            assert(rest[a] == tools[a] && rest[b] == tools[b]);
        }
        lemma_tool_blocks_distinct(rest);
        let blocks = tool_blocks(tools);
        let last = tools.len() - 1;
        assert forall|i: int, j: int| 0 <= i < j < blocks.len() implies blocks[i] != blocks[j] by {
            if j == tool_blocks(rest).len() {
                let k = lemma_tool_blocks_owned(rest, i);
                assert(rest[k] == tools[k]);
                assert(tools[k].content_index != tools[last].content_index);
            }
        }
    }
}

/// The end of a stream closes every open block, and each once.
pub proof fn law_end_closes_open_blocks(state: StateView)
    requires
        !state.finished,
        blocks_apart(state),
    ensures
        open_blocks(state).no_duplicates(),
        open_blocks(finished_stream(state).state).len() == 0,
        ({
            let out = finished_stream(state).out;
            let first = if state.emitted_message_start {
                0int
            } else {
                1int
            };
            &&& out.subrange(first, out.len() - 2) == stops(open_blocks(state))
            &&& !state.emitted_message_start ==> out[0] == message_start_event()
            &&& out[out.len() - 2].get("messageStop"@) is Some
            &&& out[out.len() - 1] == object_of(
                "metadata"@,
                object_of("usage"@, final_usage(state)),
            )
        }),
{
    let tools = values_in_order(state.tool_states);
    let keys = in_order(state.tool_states.dom());
    lemma_keys(state.tool_states);
    assert forall|a: int, b: int|
        0 <= a < b < tools.len() && tools[a].started && tools[b].started implies (
    #[trigger] tools[a]).content_index != (#[trigger] tools[b]).content_index by {
        assert(state.tool_states.contains_key(keys[a]) && state.tool_states.contains_key(keys[b]));
        assert(tools[a] == state.tool_states[keys[a]] && tools[b] == state.tool_states[keys[b]]);
    }
    lemma_tool_blocks_distinct(tools);
    lemma_tool_stops(tools);
    let blocks = open_blocks(state);
    let head = opt_block(state.text_block_index) + opt_block(state.reasoning_block_index);
    let rest = tool_blocks(tools);
    assert forall|i: int, j: int| 0 <= i < j < blocks.len() implies blocks[i] != blocks[j] by {
        if j >= head.len() {
            assert(blocks[j] == rest[j - head.len()]);
            let k = lemma_tool_blocks_owned(tools, j - head.len());
            assert(state.tool_states.contains_key(keys[k]));
            assert(tools[k] == state.tool_states[keys[k]]);
            if i >= head.len() {
                assert(blocks[i] == rest[i - head.len()]);
            }
        }
    }
    let out = finished_stream(state).out;
    let start = if state.emitted_message_start {
        Seq::empty()
    } else {
        seq![message_start_event()]
    };
    assert(out.subrange(start.len() as int, out.len() - 2) =~= stops(blocks));
    let ended = finished_stream(state).state.tool_states;
    lemma_keys(ended);
    assert forall|i: int| 0 <= i < values_in_order(ended).len() implies !(
    #[trigger] values_in_order(ended)[i]).started by {
        assert(ended.contains_key(in_order(ended.dom())[i]));
    }
    lemma_closed_tools(values_in_order(ended));
}

/// The calls in order are calls of the map, each once.
proof fn lemma_keys(tools: Map<usize, ToolStateView>)
    ensures
        forall|i: int|
            0 <= i < in_order(tools.dom()).len() ==> tools.contains_key(
                #[trigger] in_order(tools.dom())[i],
            ),
        forall|i: int, j: int|
            0 <= i < j < in_order(tools.dom()).len() ==> in_order(tools.dom())[i] != in_order(
                tools.dom(),
            )[j],
{
    let keys = in_order(tools.dom());
    lemma_in_order_lists(tools.dom());
    assert forall|i: int| 0 <= i < keys.len() implies tools.contains_key(#[trigger] keys[i]) by {
        assert(keys.to_set().contains(keys[i]));
    }
}

/// Closed calls hold no block.
proof fn lemma_closed_tools(tools: Seq<ToolStateView>)
    requires
        forall|i: int| 0 <= i < tools.len() ==> !(#[trigger] tools[i]).started,
    ensures
        tool_blocks(tools).len() == 0,
    decreases tools.len(),
{
    if tools.len() > 0 {
        let rest = tools.drop_last();
        assert forall|i: int| 0 <= i < rest.len() implies !(#[trigger] rest[i]).started by {
            assert(rest[i] == tools[i]);
        }
        lemma_closed_tools(rest);
        assert(!tools[tools.len() - 1].started);
    }
}

/// The names of stream events and of their parts differ.
proof fn lemma_event_names()
    ensures
        "contentBlockStart"@ != "messageStart"@,
        "contentBlockDelta"@ != "messageStart"@,
        "contentBlockDelta"@ != "contentBlockStart"@,
        "messageStop"@ != "messageStart"@,
        "messageStop"@ != "contentBlockStart"@,
        "messageStop"@ != "contentBlockDelta"@,
        "metadata"@ != "messageStart"@,
        "metadata"@ != "contentBlockStart"@,
        "metadata"@ != "contentBlockDelta"@,
        "metadata"@ != "messageStop"@,
        "contentBlockIndex"@ != "start"@,
        "contentBlockIndex"@ != "delta"@,
        "toolUseId"@ != "name"@,
        "text"@ != "toolUse"@,
        "text"@ != "reasoningContent"@,
        "toolUse"@ != "reasoningContent"@,
{
    reveal_strlit("messageStart");
    reveal_strlit("contentBlockStart");
    reveal_strlit("contentBlockDelta");
    reveal_strlit("messageStop");
    reveal_strlit("metadata");
    reveal_strlit("contentBlockIndex");
    reveal_strlit("start");
    reveal_strlit("delta");
    reveal_strlit("toolUseId");
    reveal_strlit("name");
    reveal_strlit("text");
    reveal_strlit("toolUse");
    reveal_strlit("reasoningContent");
    assert("messageStart"@.len() == 12 && "contentBlockStart"@.len() == 17);
    assert("contentBlockDelta"@.len() == 17 && "messageStop"@.len() == 11);
    assert("metadata"@.len() == 8 && "contentBlockIndex"@.len() == 17);
    assert("start"@.len() == 5 && "delta"@.len() == 5 && "toolUseId"@.len() == 9);
    assert("name"@.len() == 4 && "text"@.len() == 4 && "toolUse"@.len() == 7);
    assert("reasoningContent"@.len() == 16);
    assert("contentBlockStart"@[12] == 'S' && "contentBlockDelta"@[12] == 'D');
}

/// A text event decodes to the text, at the index of its block.
pub proof fn law_text_event_decodes(state: StateView, index: usize, text: Seq<char>)
    ensures
        decoded_event(state, text_event(index, text)) == (Emitted {
            state,
            out: seq![ChunkView::TextDelta { index, text }],
        }),
{
    lemma_event_names();
    let delta = object_of("text"@, Json::String(text));
    lemma_delta_decodes(state, index, delta);
}

/// A reasoning event decodes to the reasoning text, at the index of its block.
pub proof fn law_reasoning_event_decodes(state: StateView, index: usize, text: Seq<char>)
    ensures
        decoded_event(state, reasoning_event(index, text)) == (Emitted {
            state,
            out: seq![ChunkView::ReasoningDelta { index, text }],
        }),
{
    lemma_event_names();
    let inner = object_of("text"@, Json::String(text));
    let delta = object_of("reasoningContent"@, inner);
    lemma_delta_decodes(state, index, delta);
    let fields = delta->Object_0;
    assert(object_field(fields, "reasoningContent"@) == Some(inner->Object_0));
    assert(str_field(fields_of(fields, "toolUse"@), "input"@) is None);
}

/// A tool-input event decodes to the input, at the index of its block.
pub proof fn law_input_event_decodes(state: StateView, index: usize, input: Seq<char>)
    ensures
        decoded_event(state, input_event(index, input)) == (Emitted {
            state,
            out: seq![
                ChunkView::ToolCallDelta {
                    index,
                    id: None,
                    name: None,
                    arguments_delta: Some(input),
                },
            ],
        }),
{
    lemma_event_names();
    let inner = object_of("input"@, Json::String(input));
    let delta = object_of("toolUse"@, inner);
    lemma_delta_decodes(state, index, delta);
    assert(object_field(delta->Object_0, "toolUse"@) == Some(inner->Object_0));
}

/// The event that opens a tool call decodes to its identifier and name, at the index of its block.
pub proof fn law_tool_start_event_decodes(
    state: StateView,
    index: usize,
    id: Seq<char>,
    name: Seq<char>,
)
    ensures
        decoded_event(state, tool_start_event(index, id, name)) == (Emitted {
            state,
            out: seq![
                ChunkView::ToolCallDelta {
                    index,
                    id: Some(id),
                    name: Some(name),
                    arguments_delta: None,
                },
            ],
        }),
{
    lemma_event_names();
    let event = tool_start_event(index, id, name);
    let start = object_field(event->Object_0, "contentBlockStart"@)->0;
    assert(object_field(event->Object_0, "contentBlockStart"@) == Some(start));
    assert(u64_field(start, "contentBlockIndex"@) == Some(index as u64));
    assert(block_index(start) == index);
    let tool = object_field(fields_of(start, "start"@), "toolUse"@)->0;
    assert(str_field(tool, "toolUseId"@) == Some(id));
    assert(str_field(tool, "name"@) == Some(name));
}

proof fn lemma_delta_decodes(state: StateView, index: usize, delta: Json)
    requires
        delta is Object,
    ensures
        ({
            let inner = object_field(delta_event(index, delta)->Object_0, "contentBlockDelta"@)->0;
            &&& decoded_event(state, delta_event(index, delta)) == (Emitted {
                state,
                out: delta_chunks(inner),
            })
            &&& block_index(inner) == index
            &&& fields_of(inner, "delta"@) == delta->Object_0
        }),
{
    lemma_event_names();
    let event = delta_event(index, delta);
    let inner = object_field(event->Object_0, "contentBlockDelta"@)->0;
    assert(object_field(event->Object_0, "contentBlockDelta"@) == Some(inner));
    assert(u64_field(inner, "contentBlockIndex"@) == Some(index as u64));
}

/// Text that is encoded and decoded folds as it did: the fold ignores the index of its block.
pub proof fn law_encoded_text_folds_alike(
    encoder: StateView,
    decoder: StateView,
    acc: AccumulatorView,
    index: usize,
    text: Seq<char>,
)
    requires
        !encoder.errored,
    ensures
        ({
            let chunk = ChunkView::TextDelta { index, text };
            let events = encoded_event(encoder, chunk).out;
            let chunks = decoded_event(decoder, events[0]).out;
            &&& events.len() == 1
            &&& chunks.len() == 1
            &&& accumulate(acc, chunks[0]) == accumulate(acc, chunk)
        }),
{
    law_text_event_decodes(decoder, text_block(encoder), text);
}

/// Reasoning text that is encoded and decoded folds as it did.
pub proof fn law_encoded_reasoning_folds_alike(
    encoder: StateView,
    decoder: StateView,
    acc: AccumulatorView,
    index: usize,
    text: Seq<char>,
)
    requires
        !encoder.errored,
        text.len() > 0,
    ensures
        ({
            let chunk = ChunkView::ReasoningDelta { index, text };
            let events = encoded_event(encoder, chunk).out;
            let chunks = decoded_event(decoder, events[0]).out;
            &&& events.len() == 1
            &&& chunks.len() == 1
            &&& accumulate(acc, chunks[0]) == accumulate(acc, chunk)
        }),
{
    law_reasoning_event_decodes(decoder, reasoning_block(encoder), text);
}

/// Events of a list of chunks, and the state after them.
pub open spec fn encoded_chunks(state: StateView, chunks: Seq<ChunkView>) -> Emitted<Json>
    decreases chunks.len(),
{
    if chunks.len() == 0 {
        Emitted { state, out: Seq::empty() }
    } else {
        let before = encoded_chunks(state, chunks.drop_last());
        let last = encoded_event(before.state, chunks.last());
        Emitted { state: last.state, out: before.out + last.out }
    }
}

/// Chunks of a list of events, and the state after them.
pub open spec fn decoded_events(state: StateView, events: Seq<Json>) -> Emitted<ChunkView>
    decreases events.len(),
{
    if events.len() == 0 {
        Emitted { state, out: Seq::empty() }
    } else {
        let before = decoded_events(state, events.drop_last());
        let last = decoded_event(before.state, events.last());
        Emitted { state: last.state, out: before.out + last.out }
    }
}

/// The chunk adds text, or reasoning text.
pub open spec fn adds_text(chunk: ChunkView) -> bool {
    match chunk {
        ChunkView::TextDelta { .. } => true,
        ChunkView::ReasoningDelta { index, text } => text.len() > 0,
        _ => false,
    }
}

/// A stream of text and reasoning that is encoded and decoded folds as it did.
pub proof fn law_encoded_stream_folds_alike(
    encoder: StateView,
    decoder: StateView,
    progress: Progress,
    chunks: Seq<ChunkView>,
)
    requires
        !encoder.errored,
        forall|i: int| 0 <= i < chunks.len() ==> adds_text(#[trigger] chunks[i]),
    ensures
        ({
            let encoded = encoded_chunks(encoder, chunks);
            let decoded = decoded_events(decoder, encoded.out);
            &&& !encoded.state.errored
            &&& decoded.state == decoder
            &&& after_chunks(progress, decoded.out) == after_chunks(progress, chunks)
        }),
    decreases chunks.len(),
{
    if chunks.len() > 0 {
        let rest = chunks.drop_last();
        let last = chunks.last();
        assert forall|i: int| 0 <= i < rest.len() implies adds_text(#[trigger] rest[i]) by {
            assert(rest[i] == chunks[i]);
        }
        assert(adds_text(chunks[chunks.len() - 1]));
        law_encoded_stream_folds_alike(encoder, decoder, progress, rest);
        let before = encoded_chunks(encoder, rest);
        let so_far = decoded_events(decoder, before.out);
        let step = encoded_event(before.state, last);
        let acc = after_chunks(progress, rest).acc;
        match last {
            ChunkView::TextDelta { index, text } => {
                law_encoded_text_folds_alike(before.state, decoder, acc, index, text);
                law_text_event_decodes(decoder, text_block(before.state), text);
            },
            ChunkView::ReasoningDelta { index, text } => {
                law_encoded_reasoning_folds_alike(before.state, decoder, acc, index, text);
                law_reasoning_event_decodes(decoder, reasoning_block(before.state), text);
            },
            _ => {},
        }
        let events = before.out + step.out;
        assert(events.drop_last() =~= before.out);
        assert(events.last() == step.out[0]);
        let back = decoded_event(decoder, step.out[0]).out;
        assert(back =~= seq![back[0]]);
        let chunks_back = so_far.out + back;
        assert(chunks_back.drop_last() =~= so_far.out);
        assert(chunks_back.last() == back[0]);
    }
}

/// A named tool call whose block opens with its first arguments decodes to its identifier and name
/// and then its arguments, both at the index of its block.
pub proof fn law_encoded_tool_call_decodes(
    encoder: StateView,
    decoder: StateView,
    index: usize,
    id: Seq<char>,
    name: Seq<char>,
    arguments: Seq<char>,
)
    requires
        !encoder.errored,
        !tool_at(encoder.tool_states, index).started,
    ensures
        ({
            let chunk = ChunkView::ToolCallDelta {
                index,
                id: Some(id),
                name: Some(name),
                arguments_delta: Some(arguments),
            };
            let events = encoded_event(encoder, chunk).out;
            let block = encoder.next_content_index;
            &&& events.len() == 2
            &&& decoded_event(decoder, events[0]).out == seq![
                ChunkView::ToolCallDelta {
                    index: block,
                    id: Some(id),
                    name: Some(name),
                    arguments_delta: None,
                },
            ]
            &&& decoded_event(decoder, events[1]).out == seq![
                ChunkView::ToolCallDelta {
                    index: block,
                    id: None,
                    name: None,
                    arguments_delta: Some(arguments),
                },
            ]
        }),
{
    law_tool_start_event_decodes(decoder, encoder.next_content_index, id, name);
    law_input_event_decodes(decoder, encoder.next_content_index, arguments);
}

/// A failure that is encoded is decoded as a failure: it is not lost on the way.
pub proof fn law_failure_stays_a_failure(
    encoder: StateView,
    decoder: StateView,
    failure: ChunkView,
)
    requires
        !encoder.errored,
        chunk_error(failure) is Some,
    ensures
        ({
            let events = encoded_event(encoder, failure).out;
            let chunks = decoded_event(decoder, events[0]).out;
            &&& events.len() == 1
            &&& chunks == seq![
                ChunkView::StreamError {
                    message: "Bedrock stream failed with "@ + "modelStreamErrorException"@,
                },
            ]
        }),
{
    let name = "modelStreamErrorException"@;
    let suffix = "Exception"@;
    reveal_strlit("modelStreamErrorException");
    reveal_strlit("Exception");
    reveal_strlit("messageStart");
    reveal_strlit("contentBlockStart");
    reveal_strlit("contentBlockDelta");
    reveal_strlit("messageStop");
    reveal_strlit("metadata");
    assert(name.len() == 25 && suffix.len() == 9);
    assert("messageStart"@.len() == 12 && "contentBlockStart"@.len() == 17);
    assert("contentBlockDelta"@.len() == 17 && "messageStop"@.len() == 11);
    assert("metadata"@.len() == 8);
    assert(name.subrange(16, 25) =~= suffix);
    let fields = encoded_event(encoder, failure).out[0]->Object_0;
    assert(is_first_with_suffix(fields, suffix, name));
    let found = first_with_suffix(fields, suffix)->0;
    assert(is_first_with_suffix(fields, suffix, found));
    assert(found == name);
}

/// A normalized stop reason survives a Converse stream; `Error` and `Unknown` end as `EndTurn`.
pub proof fn law_streamed_stop_reason(reason: StopReason)
    ensures
        decoded_stop_reason(converse_stop_name(Some(stop_name(reason)))) == (match reason {
            StopReason::Error => StopReason::EndTurn,
            StopReason::Unknown => StopReason::EndTurn,
            _ => reason,
        }),
{
    reveal_strlit("end_turn");
    reveal_strlit("stop_sequence");
    reveal_strlit("max_tokens");
    reveal_strlit("length");
    reveal_strlit("tool_use");
    reveal_strlit("tool_calls");
    reveal_strlit("content_filter");
    reveal_strlit("content_filtered");
    reveal_strlit("guardrail_intervened");
    reveal_strlit("error");
    reveal_strlit("unknown");
    assert("end_turn"@.len() == 8 && "stop_sequence"@.len() == 13 && "max_tokens"@.len() == 10);
    assert("length"@.len() == 6 && "tool_use"@.len() == 8 && "tool_calls"@.len() == 10);
    assert("content_filter"@.len() == 14 && "content_filtered"@.len() == 16);
    assert("guardrail_intervened"@.len() == 20 && "error"@.len() == 5 && "unknown"@.len() == 7);
    assert("end_turn"@[0] == 'e' && "tool_use"@[0] == 't');
}

} // verus!
