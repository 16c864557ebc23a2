//! Laws of folding a stream: what each chunk adds to a response, and what the folded response says.
use vstd::prelude::*;

use crate::accumulate::{
    accumulate, after_chunks, after_items, aggregated, arguments_from, chunk_error, finished,
    finished_content, first_announcing, fresh, is_announcement, is_encrypted, is_first_announcing,
    law_items_after_error, law_items_in_turn, normalized_stop, or_empty, partial_blocks,
    partial_blocks_at, partial_indices, payloads, reasoning_blocks, tool_arguments, with_detail,
    with_details, AccumulatorView, PartialCallView, PartialCustomCallView, Progress,
};
use crate::client::ClientErrorView;
use crate::json::{parsed, string_of, Json};
use crate::llm::{
    empty_response, no_usage, OpaqueState, OpenAiChatReasoningField, ResponseMetadata,
    ResponseTerminal, Role, StopReason, Usage,
};
use crate::model::{ContentView, CustomToolCallView, ResponseView, ToolCallView};
use crate::order::{in_order, lemma_in_order_lists};
use crate::stream::{ChunkView, ItemView};

verus! {

/// The newest of two optional values: the new one where it is given, else the one before.
pub open spec fn is_newest<T>(after: Option<T>, new: Option<T>, before: Option<T>) -> bool {
    &&& new is Some ==> after == new
    &&& new is None ==> after == before
}

/// Text fragments are put together in order, after the text before; final text counts only where no
/// fragment came before it.
pub proof fn law_text_folds(acc: AccumulatorView, index: usize, text: Seq<char>)
    ensures
        ({
            let after = accumulate(acc, ChunkView::TextDelta { index, text });
            &&& after.text == acc.text + text
            &&& after == (AccumulatorView { text: after.text, ..acc })
        }),
        ({
            let after = accumulate(acc, ChunkView::TextDone { index, text });
            &&& acc.text.len() > 0 ==> after == acc
            &&& acc.text.len() == 0 ==> after == (AccumulatorView { text, ..acc })
        }),
{
}

/// Reasoning fragments are put together in order; reasoning once seen stays, even where it is
/// empty. Final reasoning counts only where no fragment came before it, and its states are kept in
/// order.
pub proof fn law_reasoning_folds(
    acc: AccumulatorView,
    index: usize,
    text: Seq<char>,
    last: Option<Seq<char>>,
    states: Seq<OpaqueState>,
)
    ensures
        ({
            let after = accumulate(acc, ChunkView::ReasoningDelta { index, text });
            &&& after.reasoning == Some(or_empty(acc.reasoning) + text)
            &&& after == (AccumulatorView { reasoning: after.reasoning, ..acc })
        }),
        ({
            let done = ChunkView::ReasoningDone { index, text: last, state: states };
            let after = accumulate(acc, done);
            &&& or_empty(acc.reasoning).len() > 0 ==> after.reasoning == acc.reasoning
            &&& or_empty(acc.reasoning).len() == 0 ==> is_newest(
                after.reasoning,
                last,
                acc.reasoning,
            )
            &&& after.opaque_state == acc.opaque_state + states
            &&& after == (AccumulatorView {
                reasoning: after.reasoning,
                opaque_state: after.opaque_state,
                ..acc
            })
        }),
        accumulate(acc, ChunkView::ReasoningStarted { index }) == acc,
{
    assert(Seq::<char>::empty() + text =~= text);
}

/// Opaque details are taken in one by one, and the text beside them is reasoning like any other,
/// unless it is empty.
pub proof fn law_details_fold(
    acc: AccumulatorView,
    index: usize,
    text: Seq<char>,
    first: Seq<Json>,
    second: Seq<Json>,
    detail: Json,
)
    ensures
        ({
            let after = accumulate(
                acc,
                ChunkView::ReasoningDetailsDelta { index, details: first, text },
            );
            &&& after.reasoning_details == with_details(acc.reasoning_details, first)
            &&& text.len() == 0 ==> after.reasoning == acc.reasoning
            &&& text.len() > 0 ==> after.reasoning == Some(or_empty(acc.reasoning) + text)
            &&& after == (AccumulatorView {
                reasoning: after.reasoning,
                reasoning_details: after.reasoning_details,
                ..acc
            })
        }),
        with_details(acc.reasoning_details, first + second) == with_details(
            with_details(acc.reasoning_details, first),
            second,
        ),
        with_details(acc.reasoning_details, seq![detail]) == with_detail(
            acc.reasoning_details,
            detail,
        ),
        with_details(acc.reasoning_details, Seq::empty()) == acc.reasoning_details,
    decreases second.len(),
{
    assert(Seq::<char>::empty() + text =~= text);
    let one = seq![detail];
    assert(one.drop_last() =~= Seq::empty());
    assert(with_details(acc.reasoning_details, one.drop_last()) == acc.reasoning_details);
    if second.len() == 0 {
        assert(first + second =~= first);
    } else {
        law_details_fold(acc, index, text, first, second.drop_last(), detail);
        assert((first + second).drop_last() =~= first + second.drop_last());
        assert((first + second).last() == second.last());
    }
}

/// A detail announces an identifier: it is encrypted reasoning of that identifier without data.
pub open spec fn announces(detail: Json, id: Seq<char>) -> bool {
    &&& detail is Object
    &&& detail->Object_0.contains_pair("type"@, Json::String("reasoning.encrypted"@))
    &&& detail->Object_0.contains_pair("id"@, Json::String(id))
    &&& !detail->Object_0.contains_key("data"@)
}

/// An encrypted detail takes the place of the first announcement of its identifier; every other
/// detail is added at the end, and no other detail changes.
pub proof fn law_detail_is_placed(details: Seq<Json>, detail: Json, id: Seq<char>, at: int)
    ensures
        !(detail is Object && detail->Object_0.contains_pair(
            "type"@,
            Json::String("reasoning.encrypted"@),
        )) ==> with_detail(details, detail) == details.push(detail),
        detail is Object && !(detail->Object_0.contains_key("id"@) && detail->Object_0["id"@]
            is String) ==> with_detail(details, detail) == details.push(detail),
        detail is Object && detail->Object_0.contains_pair(
            "type"@,
            Json::String("reasoning.encrypted"@),
        ) && detail->Object_0.contains_pair("id"@, Json::String(id)) ==> {
            &&& (forall|i: int| 0 <= i < details.len() ==> !announces(#[trigger] details[i], id))
                ==> with_detail(details, detail) == details.push(detail)
            &&& 0 <= at < details.len() && announces(details[at], id) && (forall|i: int|
                0 <= i < at ==> !announces(#[trigger] details[i], id)) ==> with_detail(
                details,
                detail,
            ) == details.update(at, detail)
        },
{
    assert forall|i: int| 0 <= i < details.len() implies announces(#[trigger] details[i], id) == (
    is_announcement(details[i]) && string_of(details[i], "id"@) == Some(id)) by {
    }
    if detail is Object && detail->Object_0.contains_pair(
        "type"@,
        Json::String("reasoning.encrypted"@),
    ) && detail->Object_0.contains_pair("id"@, Json::String(id)) {
        assert(is_encrypted(detail) && string_of(detail, "id"@) == Some(id));
        if forall|i: int| 0 <= i < details.len() ==> !announces(#[trigger] details[i], id) {
            assert(first_announcing(details, id) is None) by {
                if exists|k: int| is_first_announcing(details, id, k) {
                    let k = choose|k: int| is_first_announcing(details, id, k);
                    assert(announces(details[k], id));
                }
            }
        }
        if 0 <= at < details.len() && announces(details[at], id) && (forall|i: int|
            0 <= i < at ==> !announces(#[trigger] details[i], id)) {
            assert forall|i: int| 0 <= i < at implies !(is_announcement(#[trigger] details[i])
                && string_of(details[i], "id"@) == Some(id)) by {
                assert(!announces(details[i], id));
            }
            assert(is_first_announcing(details, id, at));
            let k = first_announcing(details, id)->0;
            assert(is_first_announcing(details, id, k));
            if k < at {
                assert(announces(details[k], id));
            } else if at < k {
                assert(!(is_announcement(details[at]) && string_of(details[at], "id"@) == Some(
                    id,
                )));
            }
        }
    }
}

/// Refusal fragments are put together in order; a final refusal replaces them.
pub proof fn law_refusal_folds(acc: AccumulatorView, index: usize, text: Seq<char>)
    ensures
        accumulate(acc, ChunkView::RefusalDelta { index, text }) == (AccumulatorView {
            refusal: Some(or_empty(acc.refusal) + text),
            ..acc
        }),
        accumulate(acc, ChunkView::RefusalDone { index, text }) == (AccumulatorView {
            refusal: Some(text),
            ..acc
        }),
{
    assert(Seq::<char>::empty() + text =~= text);
}

/// The unfinished call at an index, or one of which nothing is known.
pub open spec fn call_at(acc: AccumulatorView, index: usize) -> PartialCallView {
    if acc.tool_calls.contains_key(index) {
        acc.tool_calls[index]
    } else {
        PartialCallView { id: None, name: None, arguments: Seq::empty() }
    }
}

/// The unfinished free-form call at an index, or one of which nothing is known.
pub open spec fn custom_call_at(acc: AccumulatorView, index: usize) -> PartialCustomCallView {
    if acc.custom_tool_calls.contains_key(index) {
        acc.custom_tool_calls[index]
    } else {
        PartialCustomCallView { id: None, item_id: None, name: None, input: Seq::empty() }
    }
}

/// A delta of a tool call adds to the call at its index alone: the newest identifier and name
/// count, and the arguments are put together in order.
pub proof fn law_call_delta_folds(
    acc: AccumulatorView,
    index: usize,
    other: usize,
    id: Option<Seq<char>>,
    item_id: Option<Seq<char>>,
    name: Option<Seq<char>>,
    arguments: Option<Seq<char>>,
    input: Seq<char>,
)
    requires
        other != index,
    ensures
        ({
            let after = accumulate(
                acc,
                ChunkView::ToolCallDelta { index, id, name, arguments_delta: arguments },
            );
            let call = call_at(after, index);
            &&& after.tool_calls.contains_key(index)
            &&& is_newest(call.id, id, call_at(acc, index).id)
            &&& is_newest(call.name, name, call_at(acc, index).name)
            &&& call.arguments == call_at(acc, index).arguments + or_empty(arguments)
            &&& after.tool_calls.contains_key(other) == acc.tool_calls.contains_key(other)
            &&& call_at(after, other) == call_at(acc, other)
            &&& after == (AccumulatorView { tool_calls: after.tool_calls, ..acc })
        }),
        ({
            let after = accumulate(
                acc,
                ChunkView::CustomToolCallDelta { index, id, item_id, name, input_delta: input },
            );
            let call = custom_call_at(after, index);
            &&& after.custom_tool_calls.contains_key(index)
            &&& is_newest(call.id, id, custom_call_at(acc, index).id)
            &&& is_newest(call.item_id, item_id, custom_call_at(acc, index).item_id)
            &&& is_newest(call.name, name, custom_call_at(acc, index).name)
            &&& call.input == custom_call_at(acc, index).input + input
            &&& after.custom_tool_calls.contains_key(other) == acc.custom_tool_calls.contains_key(
                other,
            )
            &&& custom_call_at(after, other) == custom_call_at(acc, other)
            &&& after == (AccumulatorView { custom_tool_calls: after.custom_tool_calls, ..acc })
        }),
{
    assert(call_at(acc, index).arguments + Seq::<char>::empty() =~= call_at(acc, index).arguments);
}

/// The block that a chunk finishes, if it finishes one.
pub open spec fn finished_block(chunk: ChunkView) -> Option<ContentView> {
    match chunk {
        ChunkView::ToolCallDone { index, call } => Some(ContentView::ToolCall(call)),
        ChunkView::CustomToolCallDone { index, call } => Some(ContentView::CustomToolCall(call)),
        ChunkView::ComputerToolCallDone { index, call } => Some(
            ContentView::ComputerToolCall(call),
        ),
        ChunkView::HostedToolCallDone { index, call } => Some(ContentView::HostedToolCall(call)),
        ChunkView::GeneratedImageDone(image) => Some(ContentView::GeneratedImage(image)),
        ChunkView::CompactionDone(item) => Some(ContentView::Compaction(item)),
        ChunkView::PauseTurn(pause) => Some(ContentView::PauseTurn(pause)),
        _ => None,
    }
}

/// A finished block is kept after those before it, as it is; a finished call is unfinished no more,
/// and no other call changes. No other chunk adds a finished block.
pub proof fn law_finished_blocks_are_kept(acc: AccumulatorView, chunk: ChunkView, other: usize)
    ensures
        ({
            let after = accumulate(acc, chunk);
            match finished_block(chunk) {
                Some(block) => {
                    &&& after.finalized_blocks == acc.finalized_blocks.push(block)
                    &&& after == (AccumulatorView {
                        finalized_blocks: after.finalized_blocks,
                        tool_calls: after.tool_calls,
                        custom_tool_calls: after.custom_tool_calls,
                        ..acc
                    })
                    &&& after.tool_calls.contains_key(other) <==> acc.tool_calls.contains_key(other)
                        && !(chunk matches ChunkView::ToolCallDone { index, .. } && index == other)
                    &&& after.tool_calls.contains_key(other) ==> after.tool_calls[other]
                        == acc.tool_calls[other]
                    &&& after.custom_tool_calls.contains_key(other)
                        <==> acc.custom_tool_calls.contains_key(other) && !(
                    chunk matches ChunkView::CustomToolCallDone { index, .. } && index == other)
                    &&& after.custom_tool_calls.contains_key(other)
                        ==> after.custom_tool_calls[other] == acc.custom_tool_calls[other]
                },
                None => after.finalized_blocks == acc.finalized_blocks,
            }
        }),
{
}

/// Opaque state is kept in order; identity and metadata are the newest that were given; usage, the
/// terminal state and the stop reason are the last.
pub proof fn law_facts_fold(
    acc: AccumulatorView,
    id: Option<Seq<char>>,
    model: Option<Seq<char>>,
    state: OpaqueState,
    metadata: ResponseMetadata,
    terminal: ResponseTerminal,
    usage: Usage,
    reason: Option<Seq<char>>,
)
    ensures
        ({
            let after = accumulate(acc, ChunkView::MessageStart { id, model });
            &&& is_newest(after.id, id, acc.id)
            &&& is_newest(after.model, model, acc.model)
            &&& after == (AccumulatorView { id: after.id, model: after.model, ..acc })
        }),
        accumulate(acc, ChunkView::OpaqueState(state)) == (AccumulatorView {
            opaque_state: acc.opaque_state.push(state),
            ..acc
        }),
        ({
            let after = accumulate(acc, ChunkView::ResponseMetadata(metadata));
            &&& is_newest(after.metadata.model_etag, metadata.model_etag, acc.metadata.model_etag)
            &&& is_newest(after.metadata.turn_state, metadata.turn_state, acc.metadata.turn_state)
            &&& after == (AccumulatorView { metadata: after.metadata, ..acc })
        }),
        accumulate(acc, ChunkView::ResponseTerminal(terminal)) == (AccumulatorView {
            terminal: Some(terminal),
            ..acc
        }),
        accumulate(acc, ChunkView::Usage(usage)) == (AccumulatorView { usage, ..acc }),
        ({
            let after = accumulate(acc, ChunkView::MessageStop { reason });
            &&& after.stop_reason == Some(normalized_stop(reason))
            &&& after == (AccumulatorView { stop_reason: after.stop_reason, ..acc })
        }),
{
}

/// Every spelling of a stop reason stands for one normalized reason; none given is the end of the
/// turn, and any other spelling is unknown.
pub proof fn law_stop_spellings_normalize(reason: Option<Seq<char>>)
    ensures
        ({
            let stop = normalized_stop(reason);
            &&& stop == StopReason::EndTurn <==> reason is None || reason == Some("stop"@) || reason
                == Some("end_turn"@) || reason == Some("stop_sequence"@)
            &&& stop == StopReason::MaxTokens <==> reason == Some("length"@) || reason == Some(
                "max_tokens"@,
            )
            &&& stop == StopReason::ToolUse <==> reason == Some("tool_calls"@) || reason == Some(
                "function_call"@,
            ) || reason == Some("tool_use"@)
            &&& stop == StopReason::ContentFilter <==> reason == Some("content_filter"@)
            &&& stop != StopReason::Error
        }),
{
    reveal_strlit("stop");
    reveal_strlit("end_turn");
    reveal_strlit("stop_sequence");
    reveal_strlit("length");
    reveal_strlit("max_tokens");
    reveal_strlit("tool_calls");
    reveal_strlit("function_call");
    reveal_strlit("tool_use");
    reveal_strlit("content_filter");
    assert("stop"@.len() == 4 && "end_turn"@.len() == 8 && "stop_sequence"@.len() == 13);
    assert("length"@.len() == 6 && "max_tokens"@.len() == 10 && "tool_calls"@.len() == 10);
    assert("function_call"@.len() == 13 && "tool_use"@.len() == 8);
    assert("content_filter"@.len() == 14);
    assert("end_turn"@[0] == 'e' && "tool_use"@[0] == 't' && "tool_calls"@[0] == 't');
    assert("max_tokens"@[0] == 'm' && "function_call"@[0] == 'f' && "stop_sequence"@[0] == 's');
}

/// The arguments of a call are the document that its text parses as; a text that does not parse is
/// kept as a string, and no text is an empty object.
pub proof fn law_arguments_are_parsed(text: Seq<char>)
    ensures
        text.len() == 0 ==> tool_arguments(text) == Json::Object(Map::empty()),
        text.len() > 0 ==> match parsed(text) {
            Some(document) => tool_arguments(text) == document,
            None => tool_arguments(text) == Json::String(text),
        },
        forall|outcome: Option<Json>| #[trigger]
            arguments_from(text, outcome) == (match outcome {
                Some(document) => document,
                None => Json::String(text),
            }),
{
}

/// A fold that has seen nothing holds nothing, and the response of it is one empty output of the
/// assistant.
pub proof fn law_fresh_fold_is_empty(acc: AccumulatorView)
    requires
        acc == fresh(),
    ensures
        acc.id is None && acc.model is None && acc.text.len() == 0 && acc.reasoning is None,
        acc.reasoning_details.len() == 0 && acc.refusal is None && acc.opaque_state.len() == 0,
        acc.tool_calls.dom() == Set::<usize>::empty(),
        acc.custom_tool_calls.dom() == Set::<usize>::empty(),
        acc.usage == no_usage() && acc.stop_reason is None && acc.terminal is None,
        acc.finalized_blocks.len() == 0,
{
    assert(acc.tool_calls.dom() =~= Set::<usize>::empty());
    assert(acc.custom_tool_calls.dom() =~= Set::<usize>::empty());
}

/// A folded response is one output of the assistant, with the identity, usage, stop reason,
/// metadata and terminal state that were seen, and nothing else.
pub proof fn law_folded_response_says(acc: AccumulatorView)
    ensures
        ({
            let response = finished(acc);
            &&& response.outputs.len() == 1
            &&& response.outputs[0].role == Role::Assistant
            &&& response.outputs[0].content == finished_content(acc)
            &&& response.outputs[0].stop_reason == acc.stop_reason
            &&& response.id == acc.id
            &&& response.model == acc.model
            &&& response.usage == acc.usage
            &&& response.metadata == acc.metadata
            &&& response.terminal == acc.terminal
            &&& response.extensions == empty_response().extensions
            &&& response.preservation == empty_response().preservation
        }),
{
}

/// The position in folded content at which text stands: after reasoning, where there is any.
pub open spec fn text_position(acc: AccumulatorView) -> int {
    if acc.reasoning is Some || acc.reasoning_details.len() > 0 {
        1
    } else {
        0
    }
}

/// The position in folded content at which a refusal stands: after text, where there is any.
pub open spec fn refusal_position(acc: AccumulatorView) -> int {
    text_position(acc) + if acc.text.len() > 0 {
        1int
    } else {
        0int
    }
}

/// The position in folded content at which unfinished calls stand: after the refusal, if any.
pub open spec fn calls_position(acc: AccumulatorView) -> int {
    refusal_position(acc) + if acc.refusal is Some {
        1int
    } else {
        0int
    }
}

/// Folded content is, in this order: one block of all reasoning, one of all text and the refusal,
/// each where there is any; the unfinished calls; every opaque state; and every finished block.
pub proof fn law_folded_content_in_order(acc: AccumulatorView)
    ensures
        ({
            let content = finished_content(acc);
            let calls = partial_blocks(acc);
            let states = calls_position(acc) + calls.len();
            let items = states + acc.opaque_state.len();
            &&& content.len() == items + acc.finalized_blocks.len()
            &&& text_position(acc) == 1 ==> content[0] == (ContentView::Reasoning {
                text: or_empty(acc.reasoning),
                signature: None,
                details: payloads(acc.reasoning_details),
                openai_chat_field: OpenAiChatReasoningField::Reasoning,
            })
            &&& acc.text.len() > 0 ==> content[text_position(acc)] == (ContentView::Text {
                text: acc.text,
            })
            &&& acc.refusal matches Some(text) ==> content[refusal_position(acc)] == (
            ContentView::Refusal { text })
            &&& content.subrange(calls_position(acc), states) == calls
            &&& forall|i: int|
                0 <= i < acc.opaque_state.len() ==> content[states + i] == ContentView::OpaqueState(
                    #[trigger] acc.opaque_state[i],
                )
            &&& content.subrange(items, content.len() as int) == acc.finalized_blocks
        }),
{
    let content = finished_content(acc);
    let calls = partial_blocks(acc);
    let states = calls_position(acc) + calls.len();
    let items = states + acc.opaque_state.len();
    assert(reasoning_blocks(acc).len() == text_position(acc));
    assert(content.subrange(calls_position(acc), states) =~= calls);
    assert(content.subrange(items, content.len() as int) =~= acc.finalized_blocks);
    assert forall|i: int| 0 <= i < acc.opaque_state.len() implies content[states + i]
        == ContentView::OpaqueState(#[trigger] acc.opaque_state[i]) by {
    }
}

/// An unfinished call becomes a block with what is known of it: a missing identifier or name is
/// empty, and the arguments are those of the text that arrived.
pub proof fn law_unfinished_call_becomes_a_block(
    acc: AccumulatorView,
    index: usize,
)
    ensures
        ({
            let blocks = partial_blocks_at(acc, index);
            let call = acc.tool_calls[index];
            let custom = acc.custom_tool_calls[index];
            let has_call = acc.tool_calls.contains_key(index);
            let has_custom = acc.custom_tool_calls.contains_key(index);
            &&& blocks.len() == (if has_call {
                1int
            } else {
                0
            }) + (if has_custom {
                1int
            } else {
                0
            })
            &&& has_call ==> blocks[0] == ContentView::ToolCall(
                ToolCallView {
                    id: or_empty(call.id),
                    name: or_empty(call.name),
                    arguments: tool_arguments(call.arguments),
                },
            )
            &&& has_custom ==> blocks.last() == ContentView::CustomToolCall(
                CustomToolCallView {
                    id: or_empty(custom.id),
                    item_id: custom.item_id,
                    name: or_empty(custom.name),
                    input: custom.input,
                },
            )
        }),
{
}

/// A block is that of an unfinished call.
pub open spec fn is_unfinished(acc: AccumulatorView, block: ContentView) -> bool {
    exists|key: usize|
        (acc.tool_calls.contains_key(key) || acc.custom_tool_calls.contains_key(key))
            && #[trigger] partial_blocks_at(acc, key).contains(block)
}

/// Every unfinished call stands among the unfinished blocks, and every such block is of an
/// unfinished call.
pub proof fn law_unfinished_calls_are_all_kept(acc: AccumulatorView, index: usize)
    ensures
        forall|i: int|
            0 <= i < partial_blocks_at(acc, index).len() ==> partial_blocks(acc).contains(
                #[trigger] partial_blocks_at(acc, index)[i],
            ),
        forall|i: int|
            0 <= i < partial_blocks(acc).len() ==> is_unfinished(
                acc,
                #[trigger] partial_blocks(acc)[i],
            ),
{
    let keys = in_order(partial_indices(acc));
    lemma_in_order_lists(partial_indices(acc));
    let lists = keys.map_values(|key: usize| partial_blocks_at(acc, key));
    if partial_indices(acc).contains(index) {
        assert(keys.to_set().contains(index));
        let k = choose|k: int| 0 <= k < keys.len() && keys[k] == index;
        assert forall|i: int| 0 <= i < partial_blocks_at(acc, index).len() implies partial_blocks(
            acc,
        ).contains(#[trigger] partial_blocks_at(acc, index)[i]) by {
            assert(lists[k] == partial_blocks_at(acc, index));
            lemma_flatten_keeps(lists, k, i);
        }
    }
    assert forall|i: int| 0 <= i < partial_blocks(acc).len() implies is_unfinished(
        acc,
        #[trigger] partial_blocks(acc)[i],
    ) by {
        let k = lemma_flatten_owned(lists, i);
        assert(keys.to_set().contains(keys[k]));
        assert(partial_blocks_at(acc, keys[k]).contains(partial_blocks(acc)[i]));
    }
}

proof fn lemma_flatten_keeps<T>(lists: Seq<Seq<T>>, k: int, i: int)
    requires
        0 <= k < lists.len(),
        0 <= i < lists[k].len(),
    ensures
        lists.flatten().contains(lists[k][i]),
    decreases lists.len(),
{
    let rest = lists.drop_first().flatten();
    assert(lists.flatten() == lists.first() + rest);
    if k == 0 {
        assert((lists.first() + rest)[i] == lists[k][i]);
    } else {
        lemma_flatten_keeps(lists.drop_first(), k - 1, i);
        let j = choose|j: int| 0 <= j < rest.len() && rest[j] == lists[k][i];
        assert((lists.first() + rest)[lists.first().len() + j] == lists[k][i]);
    }
}

proof fn lemma_flatten_owned<T>(lists: Seq<Seq<T>>, i: int) -> (k: int)
    requires
        0 <= i < lists.flatten().len(),
    ensures
        0 <= k < lists.len(),
        lists[k].contains(lists.flatten()[i]),
    decreases lists.len(),
{
    let first = lists.first();
    let rest = lists.drop_first().flatten();
    assert(lists.flatten() == first + rest);
    if i < first.len() {
        assert(first[i] == lists.flatten()[i]);
        0
    } else {
        let k = lemma_flatten_owned(lists.drop_first(), i - first.len());
        assert(lists.drop_first()[k] == lists[k + 1]);
        k + 1
    }
}

/// A failure chunk is the error of the stream: one that could not be decoded is a translation
/// failure, and one of the upstream is a bad gateway with the message as its body. No other chunk
/// is an error.
pub proof fn law_failure_chunks_are_errors(chunk: ChunkView)
    ensures
        match chunk {
            ChunkView::DecodeError { message } => chunk_error(chunk) == Some(
                ClientErrorView::ResponseTranslation(message),
            ),
            ChunkView::StreamError { message } => chunk_error(chunk) == Some(
                ClientErrorView::UpstreamHttp { status: 502, body: message },
            ),
            _ => chunk_error(chunk) is None,
        },
{
}

/// A stream whose items all arrive and hold no failure gives the response that its chunks fold to.
pub proof fn law_good_streams_fold(items: Seq<ItemView>)
    requires
        forall|i: int|
            0 <= i < items.len() ==> (#[trigger] items[i]) is Ok && forall|j: int|
                0 <= j < items[i]->Ok_0.normalized.len() ==> chunk_error(
                    #[trigger] items[i]->Ok_0.normalized[j],
                ) is None,
    ensures
        aggregated(items) == Ok::<ResponseView, ClientErrorView>(finished(folded(items))),
{
    lemma_good_items(items);
}

/// What the chunks of items fold to, one after the other.
pub open spec fn folded(items: Seq<ItemView>) -> AccumulatorView
    decreases items.len(),
{
    if items.len() == 0 {
        fresh()
    } else {
        folded_chunks(folded(items.drop_last()), items.last()->Ok_0.normalized)
    }
}

/// What chunks add, one after the other.
pub open spec fn folded_chunks(acc: AccumulatorView, chunks: Seq<ChunkView>) -> AccumulatorView
    decreases chunks.len(),
{
    if chunks.len() == 0 {
        acc
    } else {
        accumulate(folded_chunks(acc, chunks.drop_last()), chunks.last())
    }
}

proof fn lemma_good_items(items: Seq<ItemView>)
    requires
        forall|i: int|
            0 <= i < items.len() ==> (#[trigger] items[i]) is Ok && forall|j: int|
                0 <= j < items[i]->Ok_0.normalized.len() ==> chunk_error(
                    #[trigger] items[i]->Ok_0.normalized[j],
                ) is None,
    ensures
        after_items(Progress { acc: fresh(), error: None }, items) == (Progress {
            acc: folded(items),
            error: None,
        }),
    decreases items.len(),
{
    if items.len() > 0 {
        let rest = items.drop_last();
        assert forall|i: int| 0 <= i < rest.len() implies (#[trigger] rest[i]) is Ok && forall|
            j: int,
        |
            0 <= j < rest[i]->Ok_0.normalized.len() ==> chunk_error(
                #[trigger] rest[i]->Ok_0.normalized[j],
            ) is None by {
            assert(rest[i] == items[i]);
        }
        lemma_good_items(rest);
        let last = items[items.len() - 1];
        assert(last is Ok);
        lemma_good_chunks(folded(rest), last->Ok_0.normalized);
    }
}

proof fn lemma_good_chunks(acc: AccumulatorView, chunks: Seq<ChunkView>)
    requires
        forall|j: int| 0 <= j < chunks.len() ==> chunk_error(#[trigger] chunks[j]) is None,
    ensures
        after_chunks(Progress { acc, error: None }, chunks) == (Progress {
            acc: folded_chunks(acc, chunks),
            error: None,
        }),
    decreases chunks.len(),
{
    if chunks.len() > 0 {
        let rest = chunks.drop_last();
        assert forall|j: int| 0 <= j < rest.len() implies chunk_error(#[trigger] rest[j])
            is None by {
            assert(rest[j] == chunks[j]);
        }
        lemma_good_chunks(acc, rest);
        assert(chunk_error(chunks[chunks.len() - 1]) is None);
    }
}

/// The first item that fails gives the error of the stream, whatever follows it.
pub proof fn law_first_failed_item_is_the_error(
    good: Seq<ItemView>,
    error: ClientErrorView,
    later: Seq<ItemView>,
)
    requires
        forall|i: int|
            0 <= i < good.len() ==> (#[trigger] good[i]) is Ok && forall|j: int|
                0 <= j < good[i]->Ok_0.normalized.len() ==> chunk_error(
                    #[trigger] good[i]->Ok_0.normalized[j],
                ) is None,
    ensures
        aggregated(good.push(Err(error)) + later) == Err::<ResponseView, ClientErrorView>(error),
{
    lemma_good_items(good);
    let start = Progress { acc: fresh(), error: None };
    let head = good.push(Err(error));
    assert(head.drop_last() =~= good);
    law_items_in_turn(start, head, later);
    law_items_after_error(after_items(start, head), later);
}

/// The first failure chunk gives the error of the stream, whatever follows it.
pub proof fn law_first_failure_chunk_is_the_error(
    good: Seq<ItemView>,
    bad: ItemView,
    n: int,
    later: Seq<ItemView>,
)
    requires
        forall|i: int|
            0 <= i < good.len() ==> (#[trigger] good[i]) is Ok && forall|j: int|
                0 <= j < good[i]->Ok_0.normalized.len() ==> chunk_error(
                    #[trigger] good[i]->Ok_0.normalized[j],
                ) is None,
        bad is Ok,
        0 <= n < bad->Ok_0.normalized.len(),
        chunk_error(bad->Ok_0.normalized[n]) is Some,
        forall|j: int| 0 <= j < n ==> chunk_error(#[trigger] bad->Ok_0.normalized[j]) is None,
    ensures
        aggregated(good.push(bad) + later) == Err::<ResponseView, ClientErrorView>(
            chunk_error(bad->Ok_0.normalized[n])->0,
        ),
{
    lemma_good_items(good);
    let start = Progress { acc: fresh(), error: None };
    let head = good.push(bad);
    assert(head.drop_last() =~= good);
    let chunks = bad->Ok_0.normalized;
    let before = chunks.take(n);
    assert forall|j: int| 0 <= j < before.len() implies chunk_error(#[trigger] before[j])
        is None by {
        assert(before[j] == chunks[j]);
    }
    lemma_good_chunks(folded(good), before);
    let going = Progress { acc: folded(good), error: None };
    let upto = chunks.take(n + 1);
    assert(upto.drop_last() =~= before);
    assert(upto.last() == chunks[n]);
    let rest = chunks.skip(n + 1);
    assert(upto + rest =~= chunks);
    crate::accumulate::law_chunks_in_turn(going, upto, rest);
    crate::accumulate::law_chunks_after_error(after_chunks(going, upto), rest);
    law_items_in_turn(start, head, later);
    law_items_after_error(after_items(start, head), later);
}

/// A chunk commits a response to what it says exactly where it shows something to the reader: text
/// or reasoning that is not empty, a refusal or a finished item, or the end of the message.
pub proof fn law_chunks_commit_what_they_show(chunk: ChunkView)
    ensures
        match chunk {
            ChunkView::TextDelta { index, text } => chunk.commits() <==> text.len() > 0,
            ChunkView::TextDone { index, text } => chunk.commits() <==> text.len() > 0,
            ChunkView::ReasoningDelta { index, text } => chunk.commits() <==> text.len() > 0,
            ChunkView::ReasoningDetailsDelta { index, details, text } => chunk.commits()
                <==> text.len() > 0,
            ChunkView::ReasoningDone { index, text, state } => chunk.commits() <==> or_empty(
                text,
            ).len() > 0,
            ChunkView::RefusalDelta { index, text } => chunk.commits() <==> text.len() > 0,
            ChunkView::RefusalDone { .. } => chunk.commits(),
            ChunkView::MessageStop { .. } => chunk.commits(),
            ChunkView::ResponseTerminal(terminal) => chunk.commits() <==> terminal is Completed
                || terminal is Paused,
            _ => chunk.commits() <==> finished_block(chunk) is Some,
        },
{
}

/// A detail announces a payload exactly where it is encrypted reasoning without data.
pub proof fn law_announcements_lack_data(detail: Json)
    ensures
        is_announcement(detail) <==> detail is Object && detail->Object_0.contains_pair(
            "type"@,
            Json::String("reasoning.encrypted"@),
        ) && !detail->Object_0.contains_key("data"@),
{
}

/// The details of a folded response are those that were taken in, in order, without announcements
/// whose payload never came.
pub proof fn law_payloads_in_order(first: Seq<Json>, second: Seq<Json>, detail: Json)
    ensures
        payloads(first + second) == payloads(first) + payloads(second),
        payloads(seq![detail]) == if is_announcement(detail) {
            Seq::empty()
        } else {
            seq![detail]
        },
        payloads(Seq::empty()).len() == 0,
{
    let keep = |detail: Json| !is_announcement(detail);
    Seq::filter_distributes_over_add(first, second, keep);
    reveal_with_fuel(Seq::filter, 2);
    assert(seq![detail].drop_last() =~= Seq::empty());
    assert(payloads(seq![detail]) =~= if is_announcement(detail) {
        Seq::empty()
    } else {
        seq![detail]
    });
}

/// A text that is missing is empty, and one that is there is itself.
pub proof fn law_missing_text_is_empty(text: Option<Seq<char>>)
    ensures
        text is None ==> or_empty(text).len() == 0,
        text is Some ==> Some(or_empty(text)) == text,
{
}

} // verus!
