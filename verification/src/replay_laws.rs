//! Laws of delivering a buffered response as a stream: which chunks tell it, and in which order.
use vstd::prelude::*;

use crate::accumulate::{aggregated, finished_content, or_empty, with_details, AccumulatorView};
use crate::json::printed;
use crate::llm::{OpaqueState, Role, StopReason};
use crate::model::{ContentView, OutputView, ResponseView};
use crate::replay::{
    all_content, block_chunks, calls_after, collapsed, content_chunks, details_of, holding,
    items_of, law_stop_reason_replays, law_stream_keeps_response, outputs_calls_after,
    outputs_chunks, reasoning_of, refusal_of, response_chunks, response_items, states_of, stop_name,
    text_of,
};
use crate::stream::ChunkView;

verus! {

/// A response is told from its identity to its usage: the first chunk starts the message with its
/// identifier and model, the last is its usage, and before the usage stand its metadata and its
/// terminal state, each where there is any. Between them stand its outputs.
pub proof fn law_response_is_told_whole(response: ResponseView)
    ensures
        ({
            let chunks = response_chunks(response);
            let told = outputs_chunks(response.outputs);
            let has_metadata = response.metadata.model_etag is Some || response.metadata.turn_state
                is Some;
            let end = 1 + told.len();
            let terminal = end + if has_metadata {
                1int
            } else {
                0int
            };
            let usage = terminal + if response.terminal is Some {
                1int
            } else {
                0int
            };
            &&& chunks.len() == usage + 1
            &&& chunks[0] == (ChunkView::MessageStart { id: response.id, model: response.model })
            &&& chunks.subrange(1, end as int) == told
            &&& has_metadata ==> chunks[end as int] == ChunkView::ResponseMetadata(response.metadata)
            &&& response.terminal matches Some(state) ==> chunks[terminal]
                == ChunkView::ResponseTerminal(state)
            &&& chunks[usage] == ChunkView::Usage(response.usage)
        }),
{
    let chunks = response_chunks(response);
    let told = outputs_chunks(response.outputs);
    assert(chunks.subrange(1, (1 + told.len()) as int) =~= told);
}

/// A stream delivers one chunk with each item, and no preserved provider event.
pub proof fn law_items_carry_one_chunk(response: ResponseView)
    ensures
        response_items(response).len() == response_chunks(response).len(),
        forall|i: int|
            0 <= i < response_chunks(response).len() ==> {
                let item = #[trigger] response_items(response)[i];
                &&& item is Ok
                &&& item->Ok_0.preservation is None
                &&& item->Ok_0.normalized == seq![response_chunks(response)[i]]
            },
{
}

/// Outputs are told in turn: each by its content, at its own index and with calls numbered on from
/// those before it, and then by the end of its message with its stop reason.
pub proof fn law_outputs_are_told_in_turn(outputs: Seq<OutputView>, last: OutputView)
    ensures
        outputs_chunks(Seq::empty()).len() == 0,
        outputs_chunks(outputs.push(last)) == outputs_chunks(outputs) + content_chunks(
            last.content,
            outputs.len() as usize,
            outputs_calls_after(outputs),
        ) + seq![
            ChunkView::MessageStop {
                reason: match last.stop_reason {
                    Some(reason) => Some(stop_name(reason)),
                    None => None,
                },
            },
        ],
        outputs_calls_after(Seq::empty()) == 0,
        outputs_calls_after(outputs.push(last)) == calls_after(
            last.content,
            outputs_calls_after(outputs),
        ),
{
    let all = outputs.push(last);
    assert(all.drop_last() =~= outputs);
    assert(outputs_chunks(all) =~= outputs_chunks(outputs) + content_chunks(
        last.content,
        outputs.len() as usize,
        outputs_calls_after(outputs),
    ) + seq![
        ChunkView::MessageStop {
            reason: match last.stop_reason {
                Some(reason) => Some(stop_name(reason)),
                None => None,
            },
        },
    ]);
}

/// Content is told block by block and in order, with calls numbered on from block to block.
pub proof fn law_content_is_told_in_order(
    first: Seq<ContentView>,
    second: Seq<ContentView>,
    one: ContentView,
    output: usize,
    index: usize,
)
    ensures
        content_chunks(first + second, output, index) == content_chunks(first, output, index)
            + content_chunks(second, output, calls_after(first, index)),
        content_chunks(seq![one], output, index) == block_chunks(one, output, index),
        calls_after(first + second, index) == calls_after(second, calls_after(first, index)),
    decreases second.len(),
{
    let single = seq![one];
    assert(single.drop_last() =~= Seq::empty());
    assert(content_chunks(single.drop_last(), output, index) =~= Seq::empty());
    assert(calls_after(single.drop_last(), index) == index);
    assert(content_chunks(single, output, index) =~= block_chunks(one, output, index));
    if second.len() == 0 {
        assert(first + second =~= first);
        assert(content_chunks(first, output, index) + content_chunks(
            second,
            output,
            calls_after(first, index),
        ) =~= content_chunks(first, output, index));
    } else {
        law_content_is_told_in_order(first, second.drop_last(), one, output, index);
        assert((first + second).drop_last() =~= first + second.drop_last());
        assert((first + second).last() == second.last());
        assert(content_chunks(first + second, output, index) =~= content_chunks(
            first,
            output,
            index,
        ) + content_chunks(second, output, calls_after(first, index)));
    }
}

/// The number of calls among blocks.
pub open spec fn call_count(content: Seq<ContentView>) -> nat
    decreases content.len(),
{
    if content.len() == 0 {
        0
    } else {
        call_count(content.drop_first()) + match content[0] {
            ContentView::ToolCall(_) => 1nat,
            ContentView::CustomToolCall(_) => 1nat,
            ContentView::ComputerToolCall(_) => 1nat,
            ContentView::HostedToolCall(_) => 1nat,
            _ => 0nat,
        }
    }
}

/// Calls are numbered one after the other, whatever their kind, and nothing else takes a number.
pub proof fn law_calls_are_numbered_in_order(content: Seq<ContentView>, index: usize)
    requires
        index + call_count(content) <= usize::MAX,
    ensures
        calls_after(content, index) == index + call_count(content),
    decreases content.len(),
{
    if content.len() > 0 {
        let first = seq![content[0]];
        let rest = content.drop_first();
        assert(first + rest =~= content);
        law_content_is_told_in_order(first, rest, content[0], 0, index);
        assert(first.drop_last() =~= Seq::empty());
        assert(calls_after(first.drop_last(), index) == index);
        assert(calls_after(first, index) == index + (call_count(content) - call_count(rest)));
        law_calls_are_numbered_in_order(rest, calls_after(first, index));
    }
}

/// A block is told by chunks of its kind: text, reasoning and refusals by what they say, at the
/// index of their output; calls at their own number, first as they would arrive and then as
/// finished; other items as finished. A refusal is said and then finished. Blocks that responses
/// do not stream are not told.
pub proof fn law_blocks_are_told_by_kind(block: ContentView, output: usize, index: usize)
    ensures
        ({
            let chunks = block_chunks(block, output, index);
            match block {
                ContentView::Text { text } => chunks == seq![
                    ChunkView::TextDelta { index: output, text },
                ],
                ContentView::Reasoning { text, signature, details, openai_chat_field } => {
                    &&& chunks.len() == 1
                    &&& details.len() == 0 ==> chunks[0] == (ChunkView::ReasoningDelta {
                        index: output,
                        text,
                    })
                    &&& details.len() > 0 ==> chunks[0] == (ChunkView::ReasoningDetailsDelta {
                        index: output,
                        details,
                        text,
                    })
                },
                ContentView::Refusal { text } => chunks == seq![
                    ChunkView::RefusalDelta { index: output, text },
                    ChunkView::RefusalDone { index: output, text },
                ],
                ContentView::ToolCall(call) => chunks == seq![
                    ChunkView::ToolCallDelta {
                        index,
                        id: Some(call.id),
                        name: Some(call.name),
                        arguments_delta: Some(printed(call.arguments)),
                    },
                    ChunkView::ToolCallDone { index, call },
                ],
                ContentView::CustomToolCall(call) => chunks == seq![
                    ChunkView::CustomToolCallDelta {
                        index,
                        id: Some(call.id),
                        item_id: call.item_id,
                        name: Some(call.name),
                        input_delta: call.input,
                    },
                    ChunkView::CustomToolCallDone { index, call },
                ],
                ContentView::ComputerToolCall(call) => chunks == seq![
                    ChunkView::ComputerToolCallDone { index, call },
                ],
                ContentView::HostedToolCall(call) => chunks == seq![
                    ChunkView::HostedToolCallDone { index, call },
                ],
                ContentView::OpaqueState(state) => chunks == seq![ChunkView::OpaqueState(state)],
                ContentView::Compaction(item) => chunks == seq![ChunkView::CompactionDone(item)],
                ContentView::GeneratedImage(image) => chunks == seq![
                    ChunkView::GeneratedImageDone(image),
                ],
                ContentView::PauseTurn(pause) => chunks == seq![ChunkView::PauseTurn(pause)],
                _ => chunks.len() == 0,
            }
        }),
{
}

/// Each stop reason has a name of its own in a stream.
pub proof fn law_stop_reasons_are_told_apart(reason: StopReason)
    ensures
        stop_name(reason) == "end_turn"@ <==> reason == StopReason::EndTurn,
        stop_name(reason) == "max_tokens"@ <==> reason == StopReason::MaxTokens,
        stop_name(reason) == "tool_use"@ <==> reason == StopReason::ToolUse,
        stop_name(reason) == "content_filter"@ <==> reason == StopReason::ContentFilter,
        stop_name(reason) == "error"@ <==> reason == StopReason::Error,
        stop_name(reason) == "unknown"@ <==> reason == StopReason::Unknown,
{
    reveal_strlit("end_turn");
    reveal_strlit("max_tokens");
    reveal_strlit("tool_use");
    reveal_strlit("content_filter");
    reveal_strlit("error");
    reveal_strlit("unknown");
    assert("end_turn"@.len() == 8 && "max_tokens"@.len() == 10 && "tool_use"@.len() == 8);
    assert("content_filter"@.len() == 14 && "error"@.len() == 5 && "unknown"@.len() == 7);
    assert("end_turn"@[0] == 'e' && "tool_use"@[0] == 't');
}

/// What a folded stream holds of content, it holds of all of it and in order: texts and states are
/// put together, details are taken in one after the other, and finished items follow each other.
pub proof fn law_folded_parts_join(first: Seq<ContentView>, second: Seq<ContentView>)
    ensures
        text_of(first + second) == text_of(first) + text_of(second),
        states_of(first + second) == states_of(first) + states_of(second),
        items_of(first + second) == items_of(first) + items_of(second),
        refusal_of(first + second) == (if refusal_of(second) is Some {
            refusal_of(second)
        } else {
            refusal_of(first)
        }),
        or_empty(reasoning_of(first + second)) == or_empty(reasoning_of(first)) + or_empty(
            reasoning_of(second),
        ),
        reasoning_of(first + second) is Some <==> reasoning_of(first) is Some || reasoning_of(
            second,
        ) is Some,
    decreases second.len(),
{
    if second.len() == 0 {
        assert(first + second =~= first);
        assert(text_of(first) + text_of(second) =~= text_of(first));
        assert(states_of(first) + states_of(second) =~= states_of(first));
        assert(items_of(first) + items_of(second) =~= items_of(first));
        assert(or_empty(reasoning_of(first)) + or_empty(reasoning_of(second)) =~= or_empty(
            reasoning_of(first),
        ));
    } else {
        let rest = second.drop_last();
        law_folded_parts_join(first, rest);
        assert((first + second).drop_last() =~= first + rest);
        assert((first + second).last() == second.last());
        assert(text_of(first + second) =~= text_of(first) + text_of(second));
        assert(states_of(first + second) =~= states_of(first) + states_of(second));
        assert(items_of(first + second) =~= items_of(first) + items_of(second));
        assert(or_empty(reasoning_of(first + second)) =~= or_empty(reasoning_of(first)) + or_empty(
            reasoning_of(second),
        ));
    }
}

/// What a folded stream holds of one block: its text, its reasoning and details, its refusal, its
/// state, or the finished item that it is, and nothing of the other parts.
pub proof fn law_folded_parts_of_a_block(block: ContentView)
    ensures
        ({
            let one = seq![block];
            &&& text_of(one) == if block is Text {
                block->Text_text
            } else {
                Seq::empty()
            }
            &&& match block {
                ContentView::Reasoning { text, signature, details, openai_chat_field } => {
                    &&& or_empty(reasoning_of(one)) == text
                    &&& reasoning_of(one) is None <==> text.len() == 0 && details.len() > 0
                    &&& details_of(one) == with_details(Seq::empty(), details)
                },
                _ => reasoning_of(one) is None && details_of(one).len() == 0,
            }
            &&& refusal_of(one) == if block is Refusal {
                Some(block->Refusal_text)
            } else {
                None
            }
            &&& states_of(one) == match block {
                ContentView::OpaqueState(state) => seq![state],
                _ => Seq::empty(),
            }
            &&& items_of(one) == match block {
                ContentView::ToolCall(_) => one,
                ContentView::CustomToolCall(_) => one,
                ContentView::ComputerToolCall(_) => one,
                ContentView::HostedToolCall(_) => one,
                ContentView::Compaction(_) => one,
                ContentView::GeneratedImage(_) => one,
                ContentView::PauseTurn(_) => one,
                _ => Seq::empty(),
            }
        }),
{
    let one = seq![block];
    assert(one.drop_last() =~= Seq::empty());
    assert(text_of(one.drop_last()) =~= Seq::empty());
    assert(states_of(one.drop_last()) =~= Seq::empty());
    assert(items_of(one.drop_last()) =~= Seq::empty());
    assert(details_of(one.drop_last()) =~= Seq::empty());
    assert(reasoning_of(one.drop_last()) is None);
    assert(refusal_of(one.drop_last()) is None);
    match block {
        ContentView::Text { text } => {
            assert(Seq::<char>::empty() + text =~= text);
        },
        ContentView::OpaqueState(state) => {
            assert(Seq::<OpaqueState>::empty().push(state) =~= seq![state]);
        },
        _ => {
            assert(Seq::<ContentView>::empty().push(block) =~= one);
        },
    }
}

/// The content of all outputs is that of each, in order.
pub proof fn law_all_outputs_count(outputs: Seq<OutputView>, last: OutputView)
    ensures
        all_content(outputs.push(last)) == all_content(outputs) + last.content,
        all_content(Seq::empty()).len() == 0,
{
    assert(outputs.push(last).drop_last() =~= outputs);
}

/// A response that is told and folded again keeps its identity, usage, metadata and terminal state,
/// and holds in one output of the assistant the parts of all its outputs. Its stop reason is that
/// of its last output, and none where it has no output.
pub proof fn law_told_response_comes_back(response: ResponseView)
    ensures
        ({
            let back = aggregated(response_items(response));
            let content = all_content(response.outputs);
            &&& back is Ok
            &&& back->Ok_0.id == response.id
            &&& back->Ok_0.model == response.model
            &&& back->Ok_0.usage == response.usage
            &&& back->Ok_0.metadata == response.metadata
            &&& back->Ok_0.terminal == response.terminal
            &&& back->Ok_0.outputs.len() == 1
            &&& back->Ok_0.outputs[0].role == Role::Assistant
            &&& response.outputs.len() == 0 ==> back->Ok_0.outputs[0].stop_reason is None
            &&& response.outputs.len() > 0 ==> {
                let reason = response.outputs.last().stop_reason;
                back->Ok_0.outputs[0].stop_reason == Some(
                    match reason {
                        Some(StopReason::Error) => StopReason::Unknown,
                        Some(reason) => reason,
                        None => StopReason::EndTurn,
                    },
                )
            }
            &&& forall|acc: AccumulatorView|
                acc.text == text_of(content) && acc.reasoning == reasoning_of(content)
                    && acc.reasoning_details == details_of(content) && acc.refusal == refusal_of(
                    content,
                ) && acc.opaque_state == states_of(content) && acc.finalized_blocks == items_of(
                    content,
                ) && acc.tool_calls == Map::<
                    usize,
                    crate::accumulate::PartialCallView,
                >::empty() && acc.custom_tool_calls == Map::<
                    usize,
                    crate::accumulate::PartialCustomCallView,
                >::empty() ==> back->Ok_0.outputs[0].content == #[trigger] finished_content(acc)
        }),
{
    law_stream_keeps_response(response);
    if response.outputs.len() > 0 {
        if let Some(reason) = response.outputs.last().stop_reason {
            law_stop_reason_replays(reason);
        } else {
            law_stop_reason_replays(StopReason::EndTurn);
        }
    }
    let content = all_content(response.outputs);
    let held = holding(content, crate::replay::collapsed_base(response));
    assert forall|acc: AccumulatorView|
        acc.text == text_of(content) && acc.reasoning == reasoning_of(content)
            && acc.reasoning_details == details_of(content) && acc.refusal == refusal_of(content)
            && acc.opaque_state == states_of(content) && acc.finalized_blocks == items_of(content)
            && acc.tool_calls == Map::<usize, crate::accumulate::PartialCallView>::empty()
            && acc.custom_tool_calls == Map::<
            usize,
            crate::accumulate::PartialCustomCallView,
        >::empty() implies collapsed(response).outputs[0].content == #[trigger] finished_content(
        acc,
    ) by {
        assert(crate::accumulate::partial_indices(acc) =~= crate::accumulate::partial_indices(
            held,
        ));
        let keys = crate::order::in_order(crate::accumulate::partial_indices(acc));
        let a = keys.map_values(|key: usize| crate::accumulate::partial_blocks_at(acc, key));
        let b = keys.map_values(|key: usize| crate::accumulate::partial_blocks_at(held, key));
        assert(a =~= b);
    }
}

} // verus!
