//! Laws of ConverseStream events: what each event says, and how a whole stream is told.
use vstd::prelude::*;

use super::decode_laws::{
    is_opt_text_at, lacks_count, lacks_object, lacks_string, law_usage_report_reads,
};
use super::fields::reported_usage;
use super::stream::{
    block_stop_event, converse_stop_name, decoded_event, encoded_event, final_usage,
    finished_stream, has_room, reasoning_event, text_event, tool_at, Emitted,
};
use super::stream_laws::{
    decoded_events, encoded_chunks, law_input_event_decodes, law_reasoning_event_decodes,
    law_text_event_decodes, law_tool_start_event_decodes, open_blocks,
};
use crate::accumulate::{chunk_error, or_empty};
use crate::json::{first_with_suffix, object_field, Json, JsonNumber};
use crate::llm::{no_usage, Usage};
use crate::stream::ChunkView;
use crate::stream_state::{fresh_state, StateView, ToolStateView};

verus! {

/// The block that an event speaks of: its `contentBlockIndex`, or the first without one.
pub open spec fn is_block_at(index: usize, fields: Map<Seq<char>, Json>) -> bool {
    if lacks_count(fields, "contentBlockIndex"@) {
        index == 0
    } else {
        index == fields["contentBlockIndex"@]->Number_0->PosInt_0 as usize
    }
}

/// An event with `messageStart` starts the message, whatever else it holds.
pub proof fn law_message_start_decodes(state: StateView, fields: Map<Seq<char>, Json>)
    requires
        fields.contains_key("messageStart"@),
    ensures
        decoded_event(state, Json::Object(fields)).out == seq![
            ChunkView::MessageStart { id: None, model: None },
        ],
        decoded_event(state, Json::Object(fields)).state == (StateView {
            saw_message_start: true,
            ..state
        }),
{
}

/// An event that starts a block gives the identifier and the name of its tool call, at its block,
/// and nothing for a block of another kind.
pub proof fn law_block_start_decodes(
    state: StateView,
    fields: Map<Seq<char>, Json>,
    start: Map<Seq<char>, Json>,
)
    requires
        !fields.contains_key("messageStart"@),
        fields.contains_pair("contentBlockStart"@, Json::Object(start)),
    ensures
        ({
            let emitted = decoded_event(state, Json::Object(fields));
            &&& emitted.state == state
            &&& if lacks_object(start, "start"@) || lacks_object(
                start["start"@]->Object_0,
                "toolUse"@,
            ) {
                emitted.out.len() == 0
            } else {
                let tool = start["start"@]->Object_0["toolUse"@]->Object_0;
                &&& emitted.out.len() == 1
                &&& emitted.out[0] matches ChunkView::ToolCallDelta {
                    index,
                    id,
                    name,
                    arguments_delta,
                } && {
                    &&& is_block_at(index, start)
                    &&& is_opt_text_at(id, tool, "toolUseId"@)
                    &&& is_opt_text_at(name, tool, "name"@)
                    &&& arguments_delta is None
                }
            }
        }),
{
}

/// An event that adds to a block gives its text; else its tool input; else its reasoning text; else
/// nothing. What it gives is at its block.
pub proof fn law_block_delta_decodes(
    state: StateView,
    fields: Map<Seq<char>, Json>,
    event: Map<Seq<char>, Json>,
    delta: Map<Seq<char>, Json>,
)
    requires
        !fields.contains_key("messageStart"@),
        lacks_object(fields, "contentBlockStart"@),
        fields.contains_pair("contentBlockDelta"@, Json::Object(event)),
        event.contains_pair("delta"@, Json::Object(delta)) || (lacks_object(event, "delta"@)
            && delta == Map::<Seq<char>, Json>::empty()),
    ensures
        ({
            let emitted = decoded_event(state, Json::Object(fields));
            let input = delta["toolUse"@]->Object_0;
            let reasoning = delta["reasoningContent"@]->Object_0;
            let has_input = !lacks_object(delta, "toolUse"@) && !lacks_string(input, "input"@);
            let has_reasoning = !lacks_object(delta, "reasoningContent"@) && !lacks_string(
                reasoning,
                "text"@,
            );
            &&& emitted.state == state
            &&& if !lacks_string(delta, "text"@) {
                &&& emitted.out.len() == 1
                &&& emitted.out[0] matches ChunkView::TextDelta { index, text } && is_block_at(
                    index,
                    event,
                ) && delta["text"@] == Json::String(text)
            } else if has_input {
                &&& emitted.out.len() == 1
                &&& emitted.out[0] matches ChunkView::ToolCallDelta {
                    index,
                    id,
                    name,
                    arguments_delta,
                } && {
                    &&& is_block_at(index, event)
                    &&& id is None && name is None && arguments_delta is Some
                    &&& input["input"@] == Json::String(arguments_delta->0)
                }
            } else if has_reasoning {
                &&& emitted.out.len() == 1
                &&& emitted.out[0] matches ChunkView::ReasoningDelta { index, text }
                    && is_block_at(index, event) && reasoning["text"@] == Json::String(text)
            } else {
                emitted.out.len() == 0
            }
        }),
{
}

/// An event that ends the message gives the stop reason that it names, and the state keeps it.
pub proof fn law_message_stop_decodes(
    state: StateView,
    fields: Map<Seq<char>, Json>,
    stop: Map<Seq<char>, Json>,
)
    requires
        !fields.contains_key("messageStart"@),
        lacks_object(fields, "contentBlockStart"@),
        lacks_object(fields, "contentBlockDelta"@),
        fields.contains_pair("messageStop"@, Json::Object(stop)),
    ensures
        ({
            let emitted = decoded_event(state, Json::Object(fields));
            let reason = emitted.state.stop_reason;
            &&& is_opt_text_at(reason, stop, "stopReason"@)
            &&& emitted.out == seq![ChunkView::MessageStop { reason }]
            &&& emitted.state == (StateView { stop_reason: reason, ..state })
        }),
{
}

/// An event with a usage report gives the usage after the report, and the state keeps it.
pub proof fn law_usage_event_decodes(
    state: StateView,
    fields: Map<Seq<char>, Json>,
    metadata: Map<Seq<char>, Json>,
)
    requires
        !fields.contains_key("messageStart"@),
        lacks_object(fields, "contentBlockStart"@),
        lacks_object(fields, "contentBlockDelta"@),
        lacks_object(fields, "messageStop"@),
        fields.contains_pair("metadata"@, Json::Object(metadata)),
        metadata.contains_key("usage"@),
    ensures
        ({
            let emitted = decoded_event(state, Json::Object(fields));
            let usage = reported_usage(state.usage, Some(metadata["usage"@]));
            &&& emitted.out == seq![ChunkView::Usage(usage)]
            &&& emitted.state == (StateView { usage, saw_backend_usage: true, ..state })
        }),
{
}

/// An event of none of these kinds is a failure where a name in it ends in `Exception`, and nothing
/// elsewhere; an event that is no object cannot be read.
pub proof fn law_other_events_decode(state: StateView, fields: Map<Seq<char>, Json>, value: Json)
    requires
        !fields.contains_key("messageStart"@),
        lacks_object(fields, "contentBlockStart"@),
        lacks_object(fields, "contentBlockDelta"@),
        lacks_object(fields, "messageStop"@),
        lacks_object(fields, "metadata"@) || !fields["metadata"@]->Object_0.contains_key("usage"@),
        !(value is Object),
    ensures
        ({
            let emitted = decoded_event(state, Json::Object(fields));
            &&& emitted.state == state
            &&& match first_with_suffix(fields, "Exception"@) {
                Some(name) => emitted.out == seq![
                    ChunkView::StreamError { message: "Bedrock stream failed with "@ + name },
                ],
                None => emitted.out.len() == 0,
            }
        }),
        decoded_event(state, value) == (Emitted {
            state,
            out: seq![
                ChunkView::DecodeError { message: "Bedrock stream event is not an object"@ },
            ],
        }),
{
}

/// A chunk changes only its own part of the state: usage, stop reason, identity, counters and tool
/// calls are what they were after chunks of other kinds, and nothing but a failure ends the stream.
pub proof fn law_chunks_keep_other_state(state: StateView, chunk: ChunkView)
    ensures
        ({
            let after = encoded_event(state, chunk).state;
            &&& !(chunk is Usage) ==> after.usage == state.usage && after.saw_backend_usage
                == state.saw_backend_usage
            &&& !(chunk is MessageStop) ==> after.stop_reason == state.stop_reason
            &&& !(chunk is MessageStart) ==> after.source_id == state.source_id
                && after.source_model == state.source_model && after.emitted_message_start
                == state.emitted_message_start
            &&& !(chunk is TextDelta) ==> after.output_tokens_seen == state.output_tokens_seen
                && after.text_block_index == state.text_block_index
            &&& !(chunk is ReasoningDelta || chunk is ReasoningDetailsDelta)
                ==> after.reasoning_block_index == state.reasoning_block_index
            &&& !(chunk is ToolCallDelta) ==> after.tool_states == state.tool_states
            &&& chunk matches ChunkView::ToolCallDelta { index, .. } ==> {
                &&& after.tool_states.remove(index) =~= state.tool_states.remove(index)
                &&& forall|other: usize|
                    other != index ==> tool_at(after.tool_states, other) == #[trigger] tool_at(
                        state.tool_states,
                        other,
                    )
            }
            &&& chunk_error(chunk) is None ==> after.errored == state.errored && after.finished
                == state.finished
            &&& after.saw_message_start == state.saw_message_start
        }),
{
}

/// A chunk of a stream that has not failed sets its own part of the state: usage is replaced, a
/// reason, an identifier or a model that is given is kept and one that is not leaves the last, and
/// each text fragment is counted.
pub proof fn law_chunks_set_their_state(
    state: StateView,
    usage: Usage,
    reason: Option<Seq<char>>,
    id: Option<Seq<char>>,
    model: Option<Seq<char>>,
    index: usize,
    text: Seq<char>,
)
    requires
        !state.errored,
        state.output_tokens_seen < u64::MAX,
    ensures
        encoded_event(state, ChunkView::Usage(usage)).state == (StateView {
            usage,
            saw_backend_usage: true,
            ..state
        }),
        encoded_event(state, ChunkView::MessageStop { reason }).state.stop_reason == (match reason {
            Some(_) => reason,
            None => state.stop_reason,
        }),
        ({
            let after = encoded_event(state, ChunkView::MessageStart { id, model }).state;
            &&& after.source_id == if id is Some {
                id
            } else {
                state.source_id
            }
            &&& after.source_model == if model is Some {
                model
            } else {
                state.source_model
            }
            &&& after.emitted_message_start
        }),
        encoded_event(state, ChunkView::TextDelta { index, text }).state.output_tokens_seen
            == state.output_tokens_seen + 1,
{
}

/// The kinds of chunk that give no event while the stream goes on.
pub open spec fn is_silent(chunk: ChunkView) -> bool {
    match chunk {
        ChunkView::MessageStart { .. } => false,
        ChunkView::TextDelta { .. } => false,
        ChunkView::ReasoningDelta { index, text } => text.len() == 0,
        ChunkView::ReasoningDetailsDelta { index, details, text } => text.len() == 0,
        ChunkView::ToolCallDelta { .. } => false,
        ChunkView::StreamError { .. } => false,
        ChunkView::DecodeError { .. } => false,
        _ => true,
    }
}

/// Usage, stop reasons, empty reasoning and chunks that ConverseStream has no event for give no
/// event; but for usage and stop reasons, they change nothing.
pub proof fn law_silent_chunks_give_no_event(state: StateView, chunk: ChunkView)
    requires
        is_silent(chunk),
    ensures
        encoded_event(state, chunk).out.len() == 0,
        !(chunk is Usage) && !(chunk is MessageStop) ==> encoded_event(state, chunk).state == state,
{
}

/// The first message start of a stream gives the event that starts the assistant's message.
pub proof fn law_message_start_is_the_assistants(
    state: StateView,
    id: Option<Seq<char>>,
    model: Option<Seq<char>>,
)
    requires
        !state.errored,
        !state.emitted_message_start,
    ensures
        ({
            let events = encoded_event(state, ChunkView::MessageStart { id, model }).out;
            &&& events.len() == 1
            &&& events[0] is Object
            &&& events[0]->Object_0.contains_key("messageStart"@)
            &&& events[0]->Object_0["messageStart"@] is Object
            &&& events[0]->Object_0["messageStart"@]->Object_0.contains_pair(
                "role"@,
                Json::String("assistant"@),
            )
        }),
{
}

/// Open text and reasoning blocks stay where they are while the stream goes on.
proof fn lemma_open_blocks_stay(state: StateView, chunk: ChunkView)
    requires
        !state.errored,
        chunk_error(chunk) is None,
    ensures
        ({
            let after = encoded_event(state, chunk).state;
            &&& !after.errored
            &&& state.text_block_index is Some ==> after.text_block_index == state.text_block_index
            &&& state.reasoning_block_index is Some ==> after.reasoning_block_index
                == state.reasoning_block_index
        }),
{
}

/// A text fragment gives one event, which decodes to the fragment: in the open text block, or in
/// the next free block where none is open. Text that follows stays in that block, whatever comes
/// between.
pub proof fn law_text_stays_in_its_block(
    state: StateView,
    decoder: StateView,
    between: ChunkView,
    first: Seq<char>,
    second: Seq<char>,
    i: usize,
    j: usize,
)
    requires
        !state.errored,
        chunk_error(between) is None,
    ensures
        ({
            let block = match state.text_block_index {
                Some(block) => block,
                None => state.next_content_index,
            };
            let one = encoded_event(state, ChunkView::TextDelta { index: i, text: first });
            let middle = encoded_event(one.state, between);
            let two = encoded_event(middle.state, ChunkView::TextDelta { index: j, text: second });
            &&& one.out.len() == 1
            &&& decoded_event(decoder, one.out[0]).out == seq![
                ChunkView::TextDelta { index: block, text: first },
            ]
            &&& one.state.text_block_index == Some(block)
            &&& two.out.len() == 1
            &&& decoded_event(decoder, two.out[0]).out == seq![
                ChunkView::TextDelta { index: block, text: second },
            ]
        }),
{
    let block = match state.text_block_index {
        Some(block) => block,
        None => state.next_content_index,
    };
    let one = encoded_event(state, ChunkView::TextDelta { index: i, text: first });
    let middle = encoded_event(one.state, between).state;
    let two = encoded_event(middle, ChunkView::TextDelta { index: j, text: second });
    assert(one.out == seq![text_event(block, first)]);
    lemma_open_blocks_stay(one.state, between);
    assert(two.out == seq![text_event(block, second)]);
    law_text_event_decodes(decoder, block, first);
    law_text_event_decodes(decoder, block, second);
}

/// A reasoning fragment that is not empty gives one event, which decodes to the fragment: in the
/// open reasoning block, or in the next free block where none is open. Reasoning that follows stays
/// in that block. The text beside opaque details is reasoning like any other.
pub proof fn law_reasoning_stays_in_its_block(
    state: StateView,
    decoder: StateView,
    between: ChunkView,
    first: Seq<char>,
    second: Seq<char>,
    i: usize,
    j: usize,
    details: Seq<Json>,
)
    requires
        !state.errored,
        chunk_error(between) is None,
        first.len() > 0,
        second.len() > 0,
    ensures
        ({
            let block = match state.reasoning_block_index {
                Some(block) => block,
                None => state.next_content_index,
            };
            let one = encoded_event(state, ChunkView::ReasoningDelta { index: i, text: first });
            let middle = encoded_event(one.state, between);
            let two = encoded_event(
                middle.state,
                ChunkView::ReasoningDetailsDelta { index: j, details, text: second },
            );
            &&& one.out.len() == 1
            &&& decoded_event(decoder, one.out[0]).out == seq![
                ChunkView::ReasoningDelta { index: block, text: first },
            ]
            &&& one.state.reasoning_block_index == Some(block)
            &&& two.out.len() == 1
            &&& decoded_event(decoder, two.out[0]).out == seq![
                ChunkView::ReasoningDelta { index: block, text: second },
            ]
            &&& encoded_event(
                state,
                ChunkView::ReasoningDetailsDelta { index: j, details, text: first },
            ) == one
        }),
{
    let block = match state.reasoning_block_index {
        Some(block) => block,
        None => state.next_content_index,
    };
    let one = encoded_event(state, ChunkView::ReasoningDelta { index: i, text: first });
    let middle = encoded_event(one.state, between).state;
    let two = encoded_event(
        middle,
        ChunkView::ReasoningDetailsDelta { index: j, details, text: second },
    );
    assert(one.out == seq![reasoning_event(block, first)]);
    lemma_open_blocks_stay(one.state, between);
    assert(two.out == seq![reasoning_event(block, second)]);
    law_reasoning_event_decodes(decoder, block, first);
    law_reasoning_event_decodes(decoder, block, second);
}

/// The chunk adds to the tool call at an index.
pub open spec fn adds_to_call(chunk: ChunkView, index: usize) -> bool {
    chunk matches ChunkView::ToolCallDelta { index: at, .. } && at == index
}

/// The arguments that a chunk adds.
pub open spec fn fragment(chunk: ChunkView) -> Seq<char> {
    match chunk {
        ChunkView::ToolCallDelta { index, id, name, arguments_delta: Some(delta) } => delta,
        _ => Seq::empty(),
    }
}

/// The arguments that chunks add, put together in order.
pub open spec fn fragments(chunks: Seq<ChunkView>) -> Seq<char>
    decreases chunks.len(),
{
    if chunks.len() == 0 {
        Seq::empty()
    } else {
        fragments(chunks.drop_last()) + fragment(chunks.last())
    }
}

/// A tool call whose block is open at an index.
pub open spec fn is_open_call(state: StateView, index: usize, block: usize) -> bool {
    &&& state.tool_states.contains_key(index)
    &&& state.tool_states[index].started
    &&& state.tool_states[index].content_index == Some(block)
}

/// An argument fragment of an open tool call gives exactly one event, which decodes to that
/// fragment in the block of the call. A delta without arguments gives none. The block stays open,
/// and the state keeps the arguments put together.
pub proof fn law_open_call_streams_its_arguments(
    state: StateView,
    decoder: StateView,
    index: usize,
    block: usize,
    id: Option<Seq<char>>,
    name: Option<Seq<char>>,
    arguments: Option<Seq<char>>,
)
    requires
        !state.errored,
        is_open_call(state, index, block),
    ensures
        ({
            let emitted = encoded_event(
                state,
                ChunkView::ToolCallDelta { index, id, name, arguments_delta: arguments },
            );
            &&& match arguments {
                Some(input) => emitted.out.len() == 1 && decoded_event(
                    decoder,
                    emitted.out[0],
                ).out == seq![
                    ChunkView::ToolCallDelta {
                        index: block,
                        id: None,
                        name: None,
                        arguments_delta: Some(input),
                    },
                ] && decoded_event(decoder, emitted.out[0]).state == decoder,
                None => emitted.out.len() == 0,
            }
            &&& is_open_call(emitted.state, index, block)
            &&& emitted.state.tool_states[index].arguments == state.tool_states[index].arguments
                + or_empty(arguments)
            &&& emitted.state.next_content_index == state.next_content_index
            &&& !emitted.state.errored
        }),
{
    if let Some(input) = arguments {
        law_input_event_decodes(decoder, block, input);
    } else {
        assert(state.tool_states[index].arguments + Seq::<char>::empty()
            =~= state.tool_states[index].arguments);
    }
}

/// Over any list of deltas of an open tool call, the events decode to deltas in the block of the
/// call whose arguments, put together, are the arguments that came in: no fragment is lost,
/// repeated or moved.
pub proof fn law_call_arguments_arrive_whole(
    state: StateView,
    decoder: StateView,
    index: usize,
    block: usize,
    chunks: Seq<ChunkView>,
)
    requires
        !state.errored,
        is_open_call(state, index, block),
        forall|i: int| 0 <= i < chunks.len() ==> adds_to_call(#[trigger] chunks[i], index),
    ensures
        ({
            let encoded = encoded_chunks(state, chunks);
            let back = decoded_events(decoder, encoded.out);
            &&& fragments(back.out) == fragments(chunks)
            &&& forall|i: int|
                0 <= i < back.out.len() ==> adds_to_call(#[trigger] back.out[i], block)
            &&& back.state == decoder
            &&& is_open_call(encoded.state, index, block)
            &&& !encoded.state.errored
        }),
    decreases chunks.len(),
{
    if chunks.len() > 0 {
        let rest = chunks.drop_last();
        assert forall|i: int| 0 <= i < rest.len() implies adds_to_call(
            #[trigger] rest[i],
            index,
        ) by {
            assert(rest[i] == chunks[i]);
        }
        law_call_arguments_arrive_whole(state, decoder, index, block, rest);
        let before = encoded_chunks(state, rest);
        let so_far = decoded_events(decoder, before.out);
        assert(adds_to_call(chunks[chunks.len() - 1], index));
        if let ChunkView::ToolCallDelta { index: at, id, name, arguments_delta } = chunks.last() {
            law_open_call_streams_its_arguments(
                before.state,
                decoder,
                index,
                block,
                id,
                name,
                arguments_delta,
            );
            let step = encoded_event(before.state, chunks.last());
            let events = before.out + step.out;
            if arguments_delta is None {
                assert(events =~= before.out);
                assert(fragments(rest) + Seq::<char>::empty() =~= fragments(rest));
            } else {
                assert(events.drop_last() =~= before.out);
                assert(events.last() == step.out[0]);
                let more = decoded_event(decoder, step.out[0]).out;
                let all = so_far.out + more;
                assert(all.drop_last() =~= so_far.out);
                assert(all.last() == more[0]);
                assert forall|i: int| 0 <= i < all.len() implies adds_to_call(
                    #[trigger] all[i],
                    block,
                ) by {
                    if i < so_far.out.len() {
                        assert(adds_to_call(so_far.out[i], block));
                    }
                }
            }
        }
    }
}

/// A delta that names a tool call whose block is not open opens the next free block: the first
/// event decodes to the newest identifier and the name, and the second, where the delta has
/// arguments, to those arguments, both in that block.
pub proof fn law_named_call_opens_its_block(
    state: StateView,
    decoder: StateView,
    index: usize,
    id: Option<Seq<char>>,
    name: Option<Seq<char>>,
    arguments: Option<Seq<char>>,
)
    requires
        !state.errored,
        !tool_at(state.tool_states, index).started,
        name is Some || tool_at(state.tool_states, index).name is Some,
        state.next_content_index < usize::MAX,
    ensures
        ({
            let known = tool_at(state.tool_states, index);
            let emitted = encoded_event(
                state,
                ChunkView::ToolCallDelta { index, id, name, arguments_delta: arguments },
            );
            let block = state.next_content_index;
            &&& emitted.out.len() == if arguments is Some {
                2int
            } else {
                1int
            }
            &&& decoded_event(decoder, emitted.out[0]).out == seq![
                ChunkView::ToolCallDelta {
                    index: block,
                    id: Some(
                        or_empty(
                            if id is Some {
                                id
                            } else {
                                known.id
                            },
                        ),
                    ),
                    name: if name is Some {
                        name
                    } else {
                        known.name
                    },
                    arguments_delta: None,
                },
            ]
            &&& arguments is Some ==> decoded_event(decoder, emitted.out[1]).out == seq![
                ChunkView::ToolCallDelta {
                    index: block,
                    id: None,
                    name: None,
                    arguments_delta: arguments,
                },
            ]
            &&& is_open_call(emitted.state, index, block)
            &&& emitted.state.next_content_index == block + 1
        }),
{
    let known = tool_at(state.tool_states, index);
    let newest_id = if id is Some {
        id
    } else {
        known.id
    };
    let newest_name = if name is Some {
        name
    } else {
        known.name
    };
    law_tool_start_event_decodes(
        decoder,
        state.next_content_index,
        or_empty(newest_id),
        newest_name->0,
    );
    if let Some(input) = arguments {
        law_input_event_decodes(decoder, state.next_content_index, input);
    }
}

/// A delta of a tool call that is not named yet gives no event and opens no block; what it says of
/// the call is kept, and its arguments are set aside after those before.
pub proof fn law_unnamed_call_waits(
    state: StateView,
    index: usize,
    id: Option<Seq<char>>,
    arguments: Option<Seq<char>>,
)
    requires
        !state.errored,
        !tool_at(state.tool_states, index).started,
        tool_at(state.tool_states, index).name is None,
    ensures
        ({
            let known = tool_at(state.tool_states, index);
            let emitted = encoded_event(
                state,
                ChunkView::ToolCallDelta { index, id, name: None, arguments_delta: arguments },
            );
            let call = tool_at(emitted.state.tool_states, index);
            &&& emitted.out.len() == 0
            &&& emitted.state.next_content_index == state.next_content_index
            &&& !call.started && call.name is None
            &&& call.id == if id is Some {
                id
            } else {
                known.id
            }
            &&& call.pending_arguments == known.pending_arguments + or_empty(arguments)
            &&& call.arguments == known.arguments
        }),
{
}

/// A failure gives one event that carries its message.
pub proof fn law_failure_event_carries_message(state: StateView, message: Seq<char>)
    requires
        !state.errored,
    ensures
        ({
            let failed = encoded_event(state, ChunkView::StreamError { message });
            &&& failed == encoded_event(state, ChunkView::DecodeError { message })
            &&& failed.out.len() == 1
            &&& failed.out[0] is Object
            &&& failed.out[0]->Object_0.contains_key("modelStreamErrorException"@)
            &&& failed.out[0]->Object_0["modelStreamErrorException"@] is Object
            &&& failed.out[0]->Object_0["modelStreamErrorException"@]->Object_0.contains_pair(
                "message"@,
                Json::String(message),
            )
            &&& failed.state.errored && failed.state.finished
        }),
{
}

/// Every spelling of a stop reason has one Converse name, and every other reason, or none, is the
/// end of the turn.
pub proof fn law_stop_spellings(reason: Option<Seq<char>>)
    ensures
        ({
            let name = converse_stop_name(reason);
            &&& name == "max_tokens"@ <==> reason == Some("max_tokens"@) || reason == Some(
                "length"@,
            )
            &&& name == "tool_use"@ <==> reason == Some("tool_use"@) || reason == Some(
                "tool_calls"@,
            )
            &&& name == "content_filtered"@ <==> reason == Some("content_filter"@) || reason
                == Some("content_filtered"@) || reason == Some("guardrail_intervened"@)
            &&& name == "max_tokens"@ || name == "tool_use"@ || name == "content_filtered"@ || name
                == "end_turn"@
        }),
{
    reveal_strlit("end_turn");
    reveal_strlit("max_tokens");
    reveal_strlit("length");
    reveal_strlit("tool_use");
    reveal_strlit("tool_calls");
    reveal_strlit("content_filter");
    reveal_strlit("content_filtered");
    reveal_strlit("guardrail_intervened");
    assert("end_turn"@.len() == 8 && "max_tokens"@.len() == 10 && "length"@.len() == 6);
    assert("tool_use"@.len() == 8 && "tool_calls"@.len() == 10);
    assert("content_filter"@.len() == 14 && "content_filtered"@.len() == 16);
    assert("guardrail_intervened"@.len() == 20);
    assert("end_turn"@[0] == 'e' && "tool_use"@[0] == 't' && "tool_calls"@[0] == 't');
    assert("max_tokens"@[0] == 'm');
}

/// The end of a stream reports its stop reason: the event before the last decodes to the Converse
/// name of the reason that was kept.
pub proof fn law_end_reports_the_stop_reason(state: StateView, decoder: StateView)
    requires
        !state.finished,
    ensures
        ({
            let out = finished_stream(state).out;
            &&& out.len() >= 2
            &&& decoded_event(decoder, out[out.len() - 2]).out == seq![
                ChunkView::MessageStop { reason: Some(converse_stop_name(state.stop_reason)) },
            ]
        }),
{
    lemma_end_names();
    let out = finished_stream(state).out;
    let fields = out[out.len() - 2]->Object_0;
    let stop = object_field(fields, "messageStop"@)->0;
    assert(object_field(fields, "messageStop"@) == Some(stop));
}

proof fn lemma_end_names()
    ensures
        "messageStop"@ != "messageStart"@,
        "messageStop"@ != "contentBlockStart"@,
        "messageStop"@ != "contentBlockDelta"@,
        "metadata"@ != "messageStart"@,
        "metadata"@ != "contentBlockStart"@,
        "metadata"@ != "contentBlockDelta"@,
        "metadata"@ != "messageStop"@,
        "inputTokens"@ != "outputTokens"@,
        "inputTokens"@ != "totalTokens"@,
        "inputTokens"@ != "cacheReadInputTokens"@,
        "inputTokens"@ != "cacheWriteInputTokens"@,
        "outputTokens"@ != "totalTokens"@,
        "outputTokens"@ != "cacheReadInputTokens"@,
        "outputTokens"@ != "cacheWriteInputTokens"@,
        "totalTokens"@ != "cacheReadInputTokens"@,
        "totalTokens"@ != "cacheWriteInputTokens"@,
        "cacheReadInputTokens"@ != "cacheWriteInputTokens"@,
{
    reveal_strlit("messageStart");
    reveal_strlit("contentBlockStart");
    reveal_strlit("contentBlockDelta");
    reveal_strlit("messageStop");
    reveal_strlit("metadata");
    reveal_strlit("inputTokens");
    reveal_strlit("outputTokens");
    reveal_strlit("totalTokens");
    reveal_strlit("cacheReadInputTokens");
    reveal_strlit("cacheWriteInputTokens");
    assert("messageStart"@.len() == 12 && "contentBlockStart"@.len() == 17);
    assert("contentBlockDelta"@.len() == 17 && "messageStop"@.len() == 11);
    assert("metadata"@.len() == 8);
    assert("inputTokens"@.len() == 11 && "outputTokens"@.len() == 12);
    assert("totalTokens"@.len() == 11 && "cacheReadInputTokens"@.len() == 20);
    assert("cacheWriteInputTokens"@.len() == 21);
    assert("inputTokens"@[0] == 'i' && "totalTokens"@[0] == 't');
}

/// The end of a stream reports its usage: the last event decodes, for a fresh decoder, to the
/// counts that were reported. Only a missing input count is read as zero, a missing output count as
/// the number of text fragments, and a missing total as the sum, or the largest count where the sum
/// does not fit.
pub proof fn law_end_reports_the_usage(state: StateView)
    requires
        !state.finished,
    ensures
        ({
            let out = finished_stream(state).out;
            let chunks = decoded_event(fresh_state(), out[out.len() - 1]).out;
            let known = state.usage;
            &&& out.len() >= 2
            &&& chunks.len() == 1
            &&& chunks[0] matches ChunkView::Usage(usage) && {
                let input = usage.input_tokens->0;
                let output = usage.output_tokens->0;
                let total = usage.total_tokens->0;
                &&& usage.input_tokens is Some && usage.output_tokens is Some && usage.total_tokens
                    is Some
                &&& known.input_tokens is Some ==> usage.input_tokens == known.input_tokens
                &&& known.input_tokens is None ==> input == 0
                &&& known.output_tokens is Some ==> usage.output_tokens == known.output_tokens
                &&& known.output_tokens is None ==> output == state.output_tokens_seen
                &&& known.total_tokens is Some ==> usage.total_tokens == known.total_tokens
                &&& known.total_tokens is None ==> total == if input + output <= u64::MAX {
                    input + output
                } else {
                    u64::MAX as int
                }
                &&& usage.cache_read() == known.cache_read()
                &&& usage.cache_creation() == known.cache_creation()
                &&& usage.reasoning_tokens is None
            }
        }),
{
    lemma_end_names();
    let out = finished_stream(state).out;
    let fields = out[out.len() - 1]->Object_0;
    let metadata = object_field(fields, "metadata"@)->0;
    assert(object_field(fields, "metadata"@) == Some(metadata));
    assert(metadata.contains_pair("usage"@, final_usage(state)));
    let report = final_usage(state)->Object_0;
    law_usage_event_decodes(fresh_state(), fields, metadata);
    law_usage_report_reads(no_usage(), report);
    assert(report.contains_key("inputTokens"@) && report.contains_key("outputTokens"@));
    assert(report.contains_key("totalTokens"@));
}

/// After the chunks of a stream that does not fail, the end reports the usage of the last usage
/// chunk: chunks after it do not change what it said.
pub proof fn law_last_usage_is_reported(state: StateView, usage: Usage, later: Seq<ChunkView>)
    requires
        !state.errored,
        forall|i: int|
            0 <= i < later.len() ==> chunk_error(#[trigger] later[i]) is None && !(later[i]
                is Usage),
    ensures
        ({
            let told = encoded_event(state, ChunkView::Usage(usage)).state;
            let after = encoded_chunks(told, later).state;
            &&& after.usage == usage
            &&& !after.errored
            &&& after.finished == state.finished
        }),
    decreases later.len(),
{
    if later.len() > 0 {
        let rest = later.drop_last();
        assert forall|i: int| 0 <= i < rest.len() implies chunk_error(#[trigger] rest[i]) is None
            && !(rest[i] is Usage) by {
            assert(rest[i] == later[i]);
        }
        law_last_usage_is_reported(state, usage, rest);
        let told = encoded_event(state, ChunkView::Usage(usage)).state;
        law_chunks_keep_other_state(encoded_chunks(told, rest).state, later.last());
        assert(chunk_error(later[later.len() - 1]) is None);
    }
}

/// The end of a stream closes each open block by an event that names it: text first, then
/// reasoning, then tool calls, and opens nothing. After it no block is open and nothing is owed.
pub proof fn law_end_names_the_blocks_it_closes(state: StateView, index: usize)
    ensures
        block_stop_event(index) is Object,
        ({
            let fields = block_stop_event(index)->Object_0;
            &&& fields.contains_key("contentBlockStop"@)
            &&& fields["contentBlockStop"@] is Object
            &&& fields["contentBlockStop"@]->Object_0.contains_pair(
                "contentBlockIndex"@,
                Json::Number(JsonNumber::PosInt(index as u64)),
            )
        }),
        !state.finished ==> {
            let after = finished_stream(state).state;
            &&& after.finished
            &&& after.emitted_message_start
            &&& after.text_block_index is None
            &&& after.reasoning_block_index is None
            &&& after.errored == state.errored
            &&& after.usage == state.usage
            &&& after.stop_reason == state.stop_reason
            &&& after.tool_states.dom() == state.tool_states.dom()
            &&& forall|key: usize|
                #![trigger after.tool_states[key]]
                state.tool_states.contains_key(key) ==> after.tool_states[key] == (ToolStateView {
                    started: false,
                    ..state.tool_states[key]
                })
        },
{
    if !state.finished {
        let after = finished_stream(state).state;
        assert(after.tool_states.dom() =~= state.tool_states.dom());
    }
}

/// A stream starts with nothing sent, nothing known and nothing open.
pub proof fn law_streams_start_fresh(state: StateView)
    requires
        state == fresh_state(),
    ensures
        !state.emitted_message_start && !state.finished && !state.errored,
        state.next_content_index == 0 && state.output_tokens_seen == 0,
        state.text_block_index is None && state.reasoning_block_index is None,
        state.stop_reason is None && state.source_id is None && state.source_model is None,
        state.usage == no_usage(),
        state.tool_states.dom() == Set::<usize>::empty(),
        open_blocks(state).len() == 0,
        forall|index: usize|
            !(#[trigger] tool_at(state.tool_states, index)).started && tool_at(
                state.tool_states,
                index,
            ).name is None && tool_at(state.tool_states, index).pending_arguments.len() == 0,
{
    assert(state.tool_states.dom() =~= Set::<usize>::empty());
    crate::order::lemma_in_order_empty();
    assert(crate::order::values_in_order(state.tool_states) =~= Seq::empty());
}

/// A chunk can be encoded wherever the counters are not used up, and whatever they are where it
/// opens no block and counts nothing.
pub proof fn law_room_lasts_to_the_limit(state: StateView, chunk: ChunkView)
    requires
        state.next_content_index == usize::MAX || state.output_tokens_seen == u64::MAX
            ==> state.errored || is_silent(chunk) || chunk is MessageStart || chunk_error(chunk)
            is Some,
    ensures
        has_room(state, chunk),
{
}

/// The events of two lists of chunks are those of the first and then those of the second.
pub proof fn law_streams_go_on(state: StateView, first: Seq<ChunkView>, second: Seq<ChunkView>)
    ensures
        ({
            let one = encoded_chunks(state, first);
            let two = encoded_chunks(one.state, second);
            encoded_chunks(state, first + second) == (Emitted {
                state: two.state,
                out: one.out + two.out,
            })
        }),
    decreases second.len(),
{
    let one = encoded_chunks(state, first);
    if second.len() == 0 {
        assert(first + second =~= first);
        assert(one.out + Seq::<Json>::empty() =~= one.out);
    } else {
        let rest = second.drop_last();
        law_streams_go_on(state, first, rest);
        assert((first + second).drop_last() =~= first + rest);
        assert((first + second).last() == second.last());
        let two = encoded_chunks(one.state, rest);
        let last = encoded_event(two.state, second.last());
        assert(one.out + two.out + last.out =~= one.out + (two.out + last.out));
    }
}

/// The call at an index is the one that was kept there, or one of which nothing is known.
pub proof fn law_calls_are_kept_by_index(
    tools: Map<usize, ToolStateView>,
    index: usize,
    call: ToolStateView,
)
    ensures
        tools.contains_pair(index, call) ==> tool_at(tools, index) == call,
        !tools.contains_key(index) ==> {
            let unknown = tool_at(tools, index);
            &&& unknown.id is None && unknown.name is None && unknown.content_index is None
            &&& !unknown.started
            &&& unknown.arguments.len() == 0 && unknown.pending_arguments.len() == 0
        },
{
}

} // verus!
