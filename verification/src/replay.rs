//! Conversion of a buffered response into the stream that folds back to it.
use vstd::prelude::*;
use vstd::string::*;

use crate::accumulate::{
    after_chunk, after_chunks, after_items, aggregated, appended, finished, finished_content, fresh,
    is_announcement, law_chunks_in_turn, normalized_stop, or_empty, partial_blocks, partial_indices,
    payloads, reasoning_blocks, state_blocks, with_detail, with_details, AccumulatorView, Progress,
};
use crate::client::ClientErrorView;
use crate::json::{print_json, printed, Json};
use crate::llm::{
    AggLlmResponse, ContentBlock, OpaqueState, OpenAiChatReasoningField, ResponseMetadata, Role,
    StopReason,
};
use crate::model::{
    contents, lemma_content_view, nothing_preserved, output_views, ContentView, OutputView,
    ResponseView,
};
use crate::order::lemma_in_order_empty;
use crate::stream::{
    item_views, ChunkView, ItemView, LlmResponseChunk, LlmResponseStream, LlmResponseStreamEvent,
    StreamEventView,
};

verus! {

broadcast use lemma_content_view;

/// Name of a stop reason.
pub open spec fn stop_name(reason: StopReason) -> Seq<char> {
    match reason {
        StopReason::EndTurn => "end_turn"@,
        StopReason::MaxTokens => "max_tokens"@,
        StopReason::ToolUse => "tool_use"@,
        StopReason::ContentFilter => "content_filter"@,
        StopReason::Error => "error"@,
        StopReason::Unknown => "unknown"@,
    }
}

impl StopReason {
    /// Name of the stop reason.
    pub fn as_str(self) -> (name: &'static str)
        ensures
            name@ == stop_name(self),
    {
        match self {
            StopReason::EndTurn => "end_turn",
            StopReason::MaxTokens => "max_tokens",
            StopReason::ToolUse => "tool_use",
            StopReason::ContentFilter => "content_filter",
            StopReason::Error => "error",
            StopReason::Unknown => "unknown",
        }
    }
}

/// The block takes a tool-call index of its own.
pub open spec fn is_call(block: ContentView) -> bool {
    block is ToolCall || block is CustomToolCall || block is ComputerToolCall
        || block is HostedToolCall
}

/// The tool-call index after a block. It counts up, and round past the largest index.
pub open spec fn next_call(index: usize, block: ContentView) -> usize {
    if is_call(block) {
        vstd::wrapping::usize_specs::wrapping_add(index, 1)
    } else {
        index
    }
}

/// Chunks that deliver a block. Tool results, input media, files and unknown blocks have none:
/// they do not appear in assistant output streams.
pub open spec fn block_chunks(block: ContentView, output: usize, index: usize) -> Seq<ChunkView> {
    match block {
        ContentView::Text { text } => seq![ChunkView::TextDelta { index: output, text }],
        ContentView::Reasoning { text, signature, details, openai_chat_field } => if details.len()
            > 0 {
            seq![ChunkView::ReasoningDetailsDelta { index: output, details, text }]
        } else {
            seq![ChunkView::ReasoningDelta { index: output, text }]
        },
        ContentView::ToolCall(call) => seq![
            ChunkView::ToolCallDelta {
                index,
                id: Some(call.id),
                name: Some(call.name),
                arguments_delta: Some(printed(call.arguments)),
            },
            ChunkView::ToolCallDone { index, call },
        ],
        ContentView::CustomToolCall(call) => seq![
            ChunkView::CustomToolCallDelta {
                index,
                id: Some(call.id),
                item_id: call.item_id,
                name: Some(call.name),
                input_delta: call.input,
            },
            ChunkView::CustomToolCallDone { index, call },
        ],
        ContentView::ComputerToolCall(call) => seq![ChunkView::ComputerToolCallDone { index, call }],
        ContentView::HostedToolCall(call) => seq![ChunkView::HostedToolCallDone { index, call }],
        ContentView::Refusal { text } => seq![
            ChunkView::RefusalDelta { index: output, text },
            ChunkView::RefusalDone { index: output, text },
        ],
        ContentView::OpaqueState(state) => seq![ChunkView::OpaqueState(state)],
        ContentView::Compaction(item) => seq![ChunkView::CompactionDone(item)],
        ContentView::GeneratedImage(image) => seq![ChunkView::GeneratedImageDone(image)],
        ContentView::PauseTurn(pause) => seq![ChunkView::PauseTurn(pause)],
        _ => Seq::empty(),
    }
}

/// The tool-call index after a list of blocks.
pub open spec fn calls_after(content: Seq<ContentView>, index: usize) -> usize
    decreases content.len(),
{
    if content.len() == 0 {
        index
    } else {
        next_call(calls_after(content.drop_last(), index), content.last())
    }
}

/// Chunks that deliver a list of blocks.
pub open spec fn content_chunks(content: Seq<ContentView>, output: usize, index: usize) -> Seq<
    ChunkView,
>
    decreases content.len(),
{
    if content.len() == 0 {
        Seq::empty()
    } else {
        content_chunks(content.drop_last(), output, index) + block_chunks(
            content.last(),
            output,
            calls_after(content.drop_last(), index),
        )
    }
}

/// The chunk that ends an output.
pub open spec fn stop_chunk(reason: Option<StopReason>) -> ChunkView {
    ChunkView::MessageStop {
        reason: match reason {
            Some(reason) => Some(stop_name(reason)),
            None => None,
        },
    }
}

/// The tool-call index after a list of outputs.
pub open spec fn outputs_calls_after(outputs: Seq<OutputView>) -> usize
    decreases outputs.len(),
{
    if outputs.len() == 0 {
        0
    } else {
        calls_after(outputs.last().content, outputs_calls_after(outputs.drop_last()))
    }
}

/// Chunks that deliver a list of outputs: the blocks of each, then its stop reason.
pub open spec fn outputs_chunks(outputs: Seq<OutputView>) -> Seq<ChunkView>
    decreases outputs.len(),
{
    if outputs.len() == 0 {
        Seq::empty()
    } else {
        let last = outputs.last();
        outputs_chunks(outputs.drop_last()) + content_chunks(
            last.content,
            (outputs.len() - 1) as usize,
            outputs_calls_after(outputs.drop_last()),
        ).push(stop_chunk(last.stop_reason))
    }
}

/// Chunks that end a response: its metadata and terminal state where present, then its usage.
pub open spec fn ending_chunks(response: ResponseView) -> Seq<ChunkView> {
    let metadata = if response.metadata.model_etag is None && response.metadata.turn_state is None {
        Seq::empty()
    } else {
        seq![ChunkView::ResponseMetadata(response.metadata)]
    };
    let terminal = match response.terminal {
        Some(terminal) => seq![ChunkView::ResponseTerminal(terminal)],
        None => Seq::empty(),
    };
    metadata + terminal + seq![ChunkView::Usage(response.usage)]
}

/// Chunks that deliver a response.
pub open spec fn response_chunks(response: ResponseView) -> Seq<ChunkView> {
    seq![ChunkView::MessageStart { id: response.id, model: response.model }] + outputs_chunks(
        response.outputs,
    ) + ending_chunks(response)
}

/// The stream item that carries one chunk and no preserved provider event.
pub open spec fn chunk_item(chunk: ChunkView) -> ItemView {
    Ok(StreamEventView { preservation: None, normalized: seq![chunk] })
}

/// Stream items that carry chunks.
pub open spec fn chunk_items(chunks: Seq<ChunkView>) -> Seq<ItemView> {
    chunks.map_values(|chunk: ChunkView| chunk_item(chunk))
}

/// The stream that delivers a response, one chunk per item.
pub open spec fn response_items(response: ResponseView) -> Seq<ItemView> {
    chunk_items(response_chunks(response))
}

/// Adds an item that carries one chunk.
fn push_chunk(items: &mut LlmResponseStream, chunk: LlmResponseChunk)
    ensures
        item_views(final(items)@) == item_views(old(items)@).push(chunk_item(chunk@)),
{
    let event = LlmResponseStreamEvent::from(chunk);
    items.push(Ok(event));
    assert(item_views(items@) =~= item_views(old(items)@).push(chunk_item(chunk@)));
}

/// Adds the items that deliver a block and returns the next tool-call index.
fn push_block(items: &mut LlmResponseStream, block: ContentBlock, output: usize, index: usize) -> (
    next: usize)
    ensures
        item_views(final(items)@) == item_views(old(items)@) + chunk_items(
            block_chunks(block@, output, index),
        ),
        next == next_call(index, block@),
{
    let ghost start = item_views(items@);
    let ghost chunks = block_chunks(block@, output, index);
    let next = match &block {
        ContentBlock::ToolCall(_) => index.wrapping_add(1),
        ContentBlock::CustomToolCall(_) => index.wrapping_add(1),
        ContentBlock::ComputerToolCall(_) => index.wrapping_add(1),
        ContentBlock::HostedToolCall(_) => index.wrapping_add(1),
        _ => index,
    };
    match block {
        ContentBlock::Text { text } => {
            push_chunk(items, LlmResponseChunk::TextDelta { index: output, text });
        },
        ContentBlock::Reasoning { text, details, .. } => {
            if details.len() > 0 {
                push_chunk(
                    items,
                    LlmResponseChunk::ReasoningDetailsDelta { index: output, details, text },
                );
            } else {
                push_chunk(items, LlmResponseChunk::ReasoningDelta { index: output, text });
            }
        },
        ContentBlock::ToolCall(call) => {
            push_chunk(
                items,
                LlmResponseChunk::ToolCallDelta {
                    index,
                    id: Some(call.id.clone()),
                    name: Some(call.name.clone()),
                    arguments_delta: Some(print_json(&call.arguments)),
                },
            );
            push_chunk(items, LlmResponseChunk::ToolCallDone { index, call });
        },
        ContentBlock::CustomToolCall(call) => {
            push_chunk(
                items,
                LlmResponseChunk::CustomToolCallDelta {
                    index,
                    id: Some(call.id.clone()),
                    item_id: call.item_id.clone(),
                    name: Some(call.name.clone()),
                    input_delta: call.input.clone(),
                },
            );
            push_chunk(items, LlmResponseChunk::CustomToolCallDone { index, call });
        },
        ContentBlock::ComputerToolCall(call) => {
            push_chunk(items, LlmResponseChunk::ComputerToolCallDone { index, call });
        },
        ContentBlock::HostedToolCall(call) => {
            push_chunk(items, LlmResponseChunk::HostedToolCallDone { index, call });
        },
        ContentBlock::Refusal { text } => {
            push_chunk(
                items,
                LlmResponseChunk::RefusalDelta { index: output, text: text.clone() },
            );
            push_chunk(items, LlmResponseChunk::RefusalDone { index: output, text });
        },
        ContentBlock::OpaqueState(state) => {
            push_chunk(items, LlmResponseChunk::OpaqueState(state));
        },
        ContentBlock::Compaction(item) => {
            push_chunk(items, LlmResponseChunk::CompactionDone(item));
        },
        ContentBlock::GeneratedImage(image) => {
            push_chunk(items, LlmResponseChunk::GeneratedImageDone(image));
        },
        ContentBlock::PauseTurn(pause) => {
            push_chunk(items, LlmResponseChunk::PauseTurn(pause));
        },
        _ => {},
    }
    assert(item_views(items@) =~= start + chunk_items(chunks));
    next
}

/// Adds the items that deliver a list of blocks and returns the next tool-call index.
fn push_content(
    items: &mut LlmResponseStream,
    content: Vec<ContentBlock>,
    output: usize,
    index: usize,
) -> (next: usize)
    ensures
        item_views(final(items)@) == item_views(old(items)@) + chunk_items(
            content_chunks(contents(content@), output, index),
        ),
        next == calls_after(contents(content@), index),
{
    let ghost start = item_views(items@);
    let ghost all = contents(content@);
    let mut next = index;
    assert(start =~= start + chunk_items(content_chunks(all.take(0), output, index)));
    for block in it: content
        invariant
            it.seq() == content@,
            all == contents(content@),
            item_views(items@) == start + chunk_items(
                content_chunks(all.take(it.index()), output, index),
            ),
            next == calls_after(all.take(it.index()), index),
    {
        let ghost view = block@;
        let ghost before = content_chunks(all.take(it.index()), output, index);
        let ghost added = block_chunks(view, output, next);
        next = push_block(items, block, output, next);
        proof {
            let i = it.index();
            assert(all.take(i + 1).drop_last() =~= all.take(i));
            assert(all.take(i + 1).last() == view);
            assert(start + chunk_items(before) + chunk_items(added) =~= start + chunk_items(
                before + added,
            ));
        }
    }
    assert(all.take(all.len() as int) =~= all);
    next
}

impl AggLlmResponse {
    /// Converts a fully-buffered response into a synthetic chunk stream.
    ///
    /// Useful when a caller had to buffer the response (e.g. to judge it) but the
    /// downstream expects `LlmResponse::Stream`, for instance when `stream: true` was
    /// requested and the algorithm had to aggregate before it could return.
    ///
    /// This conversion retains semantic output, typed continuation state,
    /// response metadata, and explicit terminal state. Tool results, input media,
    /// files, unknown blocks, response extensions, and preservation metadata are omitted.
    pub fn into_stream(self) -> (items: LlmResponseStream)
        ensures
            item_views(items@) == response_items(self@),
    {
        let ghost view = self@;
        let ghost all = view.outputs;
        let outputs = self.outputs;
        let count = outputs.len();
        let mut items: LlmResponseStream = Vec::new();
        push_chunk(&mut items, LlmResponseChunk::MessageStart { id: self.id, model: self.model });
        let ghost first = seq![ChunkView::MessageStart { id: view.id, model: view.model }];
        assert(item_views(items@) =~= chunk_items(first + outputs_chunks(all.take(0))));
        let mut output_index: usize = 0;
        let mut call_index: usize = 0;
        for output in it: outputs
            invariant
                it.seq() == outputs@,
                all == output_views(outputs@),
                output_index == it.index(),
                outputs@.len() == count,
                item_views(items@) == chunk_items(first + outputs_chunks(all.take(it.index()))),
                call_index == outputs_calls_after(all.take(it.index())),
        {
            let ghost i = it.index();
            let ghost content = contents(output.content@);
            let ghost before = first + outputs_chunks(all.take(i));
            let ghost delivered = content_chunks(content, output_index, call_index);
            call_index = push_content(&mut items, output.content, output_index, call_index);
            let reason: Option<String> = match output.stop_reason {
                Some(reason) => Some(reason.as_str().to_owned()),
                None => None,
            };
            push_chunk(&mut items, LlmResponseChunk::MessageStop { reason });
            proof {
                assert(all.take(i + 1).drop_last() =~= all.take(i));
                assert(all.take(i + 1).last() == output@);
                let added = delivered.push(stop_chunk(output.stop_reason));
                assert(item_views(items@) =~= chunk_items(before + added));
                assert(before + added =~= first + outputs_chunks(all.take(i + 1)));
            }
            output_index += 1;
        }
        assert(all.take(all.len() as int) =~= all);
        let ghost before = first + outputs_chunks(all);
        if !self.metadata.is_empty() {
            push_chunk(&mut items, LlmResponseChunk::ResponseMetadata(self.metadata));
        }
        if let Some(terminal) = self.terminal {
            push_chunk(&mut items, LlmResponseChunk::ResponseTerminal(terminal));
        }
        push_chunk(&mut items, LlmResponseChunk::Usage(self.usage));
        assert(item_views(items@) =~= chunk_items(before + ending_chunks(view)));
        items
    }
}

/// All text of a list of blocks.
pub open spec fn text_of(content: Seq<ContentView>) -> Seq<char>
    decreases content.len(),
{
    if content.len() == 0 {
        Seq::empty()
    } else {
        match content.last() {
            ContentView::Text { text } => text_of(content.drop_last()) + text,
            _ => text_of(content.drop_last()),
        }
    }
}

/// All reasoning text of a list of blocks. A block with details and no text adds none.
pub open spec fn reasoning_of(content: Seq<ContentView>) -> Option<Seq<char>>
    decreases content.len(),
{
    if content.len() == 0 {
        None
    } else {
        let before = reasoning_of(content.drop_last());
        match content.last() {
            ContentView::Reasoning { text, signature, details, openai_chat_field } => if details.len()
                > 0 && text.len() == 0 {
                before
            } else {
                appended(before, text)
            },
            _ => before,
        }
    }
}

/// All reasoning details of a list of blocks.
pub open spec fn details_of(content: Seq<ContentView>) -> Seq<Json>
    decreases content.len(),
{
    if content.len() == 0 {
        Seq::empty()
    } else {
        match content.last() {
            ContentView::Reasoning { text, signature, details, openai_chat_field } => with_details(
                details_of(content.drop_last()),
                details,
            ),
            _ => details_of(content.drop_last()),
        }
    }
}

/// The last refusal of a list of blocks.
pub open spec fn refusal_of(content: Seq<ContentView>) -> Option<Seq<char>>
    decreases content.len(),
{
    if content.len() == 0 {
        None
    } else {
        match content.last() {
            ContentView::Refusal { text } => Some(text),
            _ => refusal_of(content.drop_last()),
        }
    }
}

/// The opaque states of a list of blocks.
pub open spec fn states_of(content: Seq<ContentView>) -> Seq<OpaqueState>
    decreases content.len(),
{
    if content.len() == 0 {
        Seq::empty()
    } else {
        match content.last() {
            ContentView::OpaqueState(state) => states_of(content.drop_last()).push(state),
            _ => states_of(content.drop_last()),
        }
    }
}

/// The block is a finished item: a call, a compaction, a generated image or a pause.
pub open spec fn is_item(block: ContentView) -> bool {
    is_call(block) || block is Compaction || block is GeneratedImage || block is PauseTurn
}

/// The finished items of a list of blocks.
pub open spec fn items_of(content: Seq<ContentView>) -> Seq<ContentView>
    decreases content.len(),
{
    if content.len() == 0 {
        Seq::empty()
    } else if is_item(content.last()) {
        items_of(content.drop_last()).push(content.last())
    } else {
        items_of(content.drop_last())
    }
}

/// The content of all outputs in turn.
pub open spec fn all_content(outputs: Seq<OutputView>) -> Seq<ContentView>
    decreases outputs.len(),
{
    if outputs.len() == 0 {
        Seq::empty()
    } else {
        all_content(outputs.drop_last()) + outputs.last().content
    }
}

/// The accumulator that holds what a list of blocks delivers, with the other fields of `base`.
pub open spec fn holding(content: Seq<ContentView>, base: AccumulatorView) -> AccumulatorView {
    AccumulatorView {
        text: text_of(content),
        reasoning: reasoning_of(content),
        reasoning_details: details_of(content),
        tool_calls: Map::empty(),
        custom_tool_calls: Map::empty(),
        refusal: refusal_of(content),
        opaque_state: states_of(content),
        finalized_blocks: items_of(content),
        ..base
    }
}

/// The stop reason that a replayed stop reason is read as.
pub open spec fn replayed_stop(reason: Option<StopReason>) -> StopReason {
    normalized_stop(
        match reason {
            Some(reason) => Some(stop_name(reason)),
            None => None,
        },
    )
}

/// The fields of a response outside its content, as folding its stream collects them.
pub open spec fn collapsed_base(response: ResponseView) -> AccumulatorView {
    AccumulatorView {
        id: response.id,
        model: response.model,
        usage: response.usage,
        stop_reason: if response.outputs.len() == 0 {
            None
        } else {
            Some(replayed_stop(response.outputs.last().stop_reason))
        },
        metadata: response.metadata,
        terminal: response.terminal,
        ..fresh()
    }
}

/// What a response keeps when it is streamed and folded again: one assistant output with all
/// reasoning, text, the last refusal, the opaque states and the finished items of its outputs.
pub open spec fn collapsed(response: ResponseView) -> ResponseView {
    finished(holding(all_content(response.outputs), collapsed_base(response)))
}

/// Folding of chunks that has met no error.
pub open spec fn going(acc: AccumulatorView) -> Progress {
    Progress { acc, error: None }
}

proof fn lemma_one_chunk(progress: Progress, chunk: ChunkView)
    ensures
        after_chunks(progress, seq![chunk]) == after_chunk(progress, chunk),
{
    let one = seq![chunk];
    assert(one.drop_last() =~= Seq::empty());
    assert(after_chunks(progress, Seq::empty()) == progress);
    assert(one.last() == chunk);
}

proof fn lemma_two_chunks(progress: Progress, first: ChunkView, second: ChunkView)
    ensures
        after_chunks(progress, seq![first, second]) == after_chunk(
            after_chunk(progress, first),
            second,
        ),
{
    let two = seq![first, second];
    assert(two.drop_last() =~= seq![first]);
    lemma_one_chunk(progress, first);
    assert(two.last() == second);
}

proof fn lemma_with_details_none(details: Seq<Json>)
    ensures
        with_details(details, Seq::empty()) == details,
{
}

proof fn lemma_block(
    done: Seq<ContentView>,
    base: AccumulatorView,
    block: ContentView,
    output: usize,
    index: usize,
)
    ensures
        after_chunks(going(holding(done, base)), block_chunks(block, output, index)) == going(
            holding(done.push(block), base),
        ),
{
    let start = going(holding(done, base));
    let chunks = block_chunks(block, output, index);
    let end = holding(done.push(block), base);
    assert(done.push(block).drop_last() =~= done);
    assert(done.push(block).last() == block);
    if chunks.len() == 0 {
        assert(after_chunks(start, chunks) == start);
    } else if chunks.len() == 1 {
        assert(chunks =~= seq![chunks[0]]);
        lemma_one_chunk(start, chunks[0]);
        if let ContentView::Reasoning { details, .. } = block {
            if details.len() == 0 {
                assert(details =~= Seq::empty());
                lemma_with_details_none(details_of(done));
            }
        }
    } else {
        assert(chunks =~= seq![chunks[0], chunks[1]]);
        lemma_two_chunks(start, chunks[0], chunks[1]);
    }
    let got = after_chunks(start, chunks);
    assert(got.error is None);
    assert(got.acc.tool_calls =~= Map::empty());
    assert(got.acc.custom_tool_calls =~= Map::empty());
    assert(got.acc =~= end);
}

proof fn lemma_content(
    done: Seq<ContentView>,
    base: AccumulatorView,
    content: Seq<ContentView>,
    output: usize,
    index: usize,
)
    ensures
        after_chunks(going(holding(done, base)), content_chunks(content, output, index)) == going(
            holding(done + content, base),
        ),
    decreases content.len(),
{
    let start = going(holding(done, base));
    if content.len() == 0 {
        assert(done + content =~= done);
    } else {
        let rest = content.drop_last();
        let at = calls_after(rest, index);
        lemma_content(done, base, rest, output, index);
        law_chunks_in_turn(
            start,
            content_chunks(rest, output, index),
            block_chunks(content.last(), output, at),
        );
        lemma_block(done + rest, base, content.last(), output, at);
        assert((done + rest).push(content.last()) =~= done + content);
    }
}

proof fn lemma_outputs(base: AccumulatorView, outputs: Seq<OutputView>)
    ensures
        after_chunks(going(holding(Seq::empty(), base)), outputs_chunks(outputs)) == going(
            holding(
                all_content(outputs),
                AccumulatorView {
                    stop_reason: if outputs.len() == 0 {
                        base.stop_reason
                    } else {
                        Some(replayed_stop(outputs.last().stop_reason))
                    },
                    ..base
                },
            ),
        ),
    decreases outputs.len(),
{
    let start = going(holding(Seq::empty(), base));
    if outputs.len() > 0 {
        let rest = outputs.drop_last();
        let last = outputs.last();
        let output = (outputs.len() - 1) as usize;
        let index = outputs_calls_after(rest);
        let middle = AccumulatorView {
            stop_reason: if rest.len() == 0 {
                base.stop_reason
            } else {
                Some(replayed_stop(rest.last().stop_reason))
            },
            ..base
        };
        let delivered = content_chunks(last.content, output, index);
        let stop = seq![stop_chunk(last.stop_reason)];
        lemma_outputs(base, rest);
        lemma_content(all_content(rest), middle, last.content, output, index);
        law_chunks_in_turn(going(holding(all_content(rest), middle)), delivered, stop);
        lemma_one_chunk(
            going(holding(all_content(outputs), middle)),
            stop_chunk(last.stop_reason),
        );
        assert(delivered + stop =~= delivered.push(stop_chunk(last.stop_reason)));
        law_chunks_in_turn(start, outputs_chunks(rest), delivered + stop);
    }
}

proof fn lemma_items_of_chunks(progress: Progress, chunks: Seq<ChunkView>)
    ensures
        after_items(progress, chunk_items(chunks)) == after_chunks(progress, chunks),
    decreases chunks.len(),
{
    let items = chunk_items(chunks);
    if chunks.len() > 0 {
        let before = after_chunks(progress, chunks.drop_last());
        lemma_items_of_chunks(progress, chunks.drop_last());
        assert(items.drop_last() =~= chunk_items(chunks.drop_last()));
        assert(items.last() == chunk_item(chunks.last()));
        lemma_one_chunk(before, chunks.last());
    }
}

proof fn lemma_ending(acc: AccumulatorView, response: ResponseView)
    requires
        acc.metadata == (ResponseMetadata { model_etag: None, turn_state: None }),
        acc.terminal is None,
    ensures
        after_chunks(going(acc), ending_chunks(response)) == going(
            AccumulatorView {
                usage: response.usage,
                metadata: response.metadata,
                terminal: response.terminal,
                ..acc
            },
        ),
{
    let start = going(acc);
    let metadata = if response.metadata.model_etag is None && response.metadata.turn_state is None {
        Seq::<ChunkView>::empty()
    } else {
        seq![ChunkView::ResponseMetadata(response.metadata)]
    };
    let terminal = match response.terminal {
        Some(terminal) => seq![ChunkView::ResponseTerminal(terminal)],
        None => Seq::<ChunkView>::empty(),
    };
    let usage = seq![ChunkView::Usage(response.usage)];
    let first = AccumulatorView { metadata: response.metadata, ..acc };
    assert(after_chunks(start, metadata) == going(first)) by {
        lemma_one_chunk(start, ChunkView::ResponseMetadata(response.metadata));
        assert(after_chunks(start, Seq::empty()) == start);
    }
    let second = AccumulatorView { terminal: response.terminal, ..first };
    assert(after_chunks(going(first), terminal) == going(second)) by {
        if let Some(terminal) = response.terminal {
            lemma_one_chunk(going(first), ChunkView::ResponseTerminal(terminal));
        }
        assert(after_chunks(going(first), Seq::empty()) == going(first));
    }
    lemma_one_chunk(going(second), ChunkView::Usage(response.usage));
    law_chunks_in_turn(start, metadata, terminal);
    law_chunks_in_turn(start, metadata + terminal, usage);
}

/// Streaming a response and folding the stream succeeds, and keeps the identifier, model, usage,
/// metadata and terminal state, all text and reasoning, the last refusal, every opaque state and
/// every finished item of the response, in one assistant output.
pub proof fn law_stream_keeps_response(response: ResponseView)
    ensures
        aggregated(response_items(response)) == Ok::<ResponseView, ClientErrorView>(
            collapsed(response),
        ),
{
    let chunks = response_chunks(response);
    let begin = seq![ChunkView::MessageStart { id: response.id, model: response.model }];
    let outputs = outputs_chunks(response.outputs);
    let ending = ending_chunks(response);
    let start = going(fresh());
    let base = AccumulatorView { id: response.id, model: response.model, ..fresh() };
    lemma_items_of_chunks(start, chunks);
    lemma_one_chunk(start, begin[0]);
    assert(begin =~= seq![begin[0]]);
    assert(holding(Seq::empty(), base) =~= base);
    lemma_outputs(base, response.outputs);
    law_chunks_in_turn(start, begin, outputs);
    law_chunks_in_turn(start, begin + outputs, ending);
    let middle = after_chunks(start, begin + outputs).acc;
    lemma_ending(middle, response);
}

/// A stop reason survives streaming and folding; only `Error` has no spelling that is read back,
/// and comes out as `Unknown`. An output without a reason comes out as `EndTurn`.
pub proof fn law_stop_reason_replays(reason: StopReason)
    ensures
        replayed_stop(Some(reason)) == (if reason == StopReason::Error {
            StopReason::Unknown
        } else {
            reason
        }),
        replayed_stop(None) == StopReason::EndTurn,
{
    reveal_strlit("length");
    reveal_strlit("max_tokens");
    reveal_strlit("tool_calls");
    reveal_strlit("function_call");
    reveal_strlit("tool_use");
    reveal_strlit("content_filter");
    reveal_strlit("stop");
    reveal_strlit("end_turn");
    reveal_strlit("stop_sequence");
    reveal_strlit("error");
    reveal_strlit("unknown");
    let name = stop_name(reason);
    assert("length"@.len() == 6 && "max_tokens"@.len() == 10 && "tool_calls"@.len() == 10);
    assert("function_call"@.len() == 13 && "tool_use"@.len() == 8);
    assert("content_filter"@.len() == 14 && "stop"@.len() == 4 && "end_turn"@.len() == 8);
    assert("stop_sequence"@.len() == 13 && "error"@.len() == 5 && "unknown"@.len() == 7);
    assert("tool_use"@[0] == 't' && "end_turn"@[0] == 'e');
}

/// Content in the order in which folding leaves it: reasoning with its details, text, refusal,
/// opaque states, finished items.
pub open spec fn ordered_content(
    reasoning: Option<(Seq<char>, Seq<Json>)>,
    text: Seq<char>,
    refusal: Option<Seq<char>>,
    states: Seq<OpaqueState>,
    items: Seq<ContentView>,
) -> Seq<ContentView> {
    (match reasoning {
        Some((text, details)) => seq![
            ContentView::Reasoning {
                text,
                signature: None,
                details,
                openai_chat_field: OpenAiChatReasoningField::Reasoning,
            },
        ],
        None => Seq::empty(),
    }) + (if text.len() > 0 {
        seq![ContentView::Text { text }]
    } else {
        Seq::empty()
    }) + (match refusal {
        Some(text) => seq![ContentView::Refusal { text }],
        None => Seq::empty(),
    }) + state_blocks(states) + items
}

proof fn lemma_holding_states(
    content: Seq<ContentView>,
    base: AccumulatorView,
    states: Seq<OpaqueState>,
)
    ensures
        holding(content + state_blocks(states), base) == (AccumulatorView {
            opaque_state: states_of(content) + states,
            ..holding(content, base)
        }),
    decreases states.len(),
{
    let all = content + state_blocks(states);
    if states.len() == 0 {
        assert(all =~= content);
        assert(states_of(content) + states =~= states_of(content));
    } else {
        lemma_holding_states(content, base, states.drop_last());
        assert(all.drop_last() =~= content + state_blocks(states.drop_last()));
        assert(all.last() == ContentView::OpaqueState(states.last()));
        assert((states_of(content) + states.drop_last()).push(states.last()) =~= states_of(content)
            + states);
    }
}

proof fn lemma_holding_items(
    content: Seq<ContentView>,
    base: AccumulatorView,
    items: Seq<ContentView>,
)
    requires
        forall|i: int| 0 <= i < items.len() ==> is_item(#[trigger] items[i]),
    ensures
        holding(content + items, base) == (AccumulatorView {
            finalized_blocks: items_of(content) + items,
            ..holding(content, base)
        }),
    decreases items.len(),
{
    let all = content + items;
    if items.len() == 0 {
        assert(all =~= content);
        assert(items_of(content) + items =~= items_of(content));
    } else {
        let rest = items.drop_last();
        assert forall|i: int| 0 <= i < rest.len() implies is_item(#[trigger] rest[i]) by {
            assert(rest[i] == items[i]);
        }
        lemma_holding_items(content, base, rest);
        assert(is_item(items[items.len() - 1]));
        assert(all.drop_last() =~= content + rest);
        assert(all.last() == items.last());
        assert((items_of(content) + rest).push(items.last()) =~= items_of(content) + items);
    }
}

/// Details without announcements are collected and kept as they are.
proof fn lemma_payloads(details: Seq<Json>)
    requires
        forall|i: int| 0 <= i < details.len() ==> !is_announcement(#[trigger] details[i]),
    ensures
        with_details(Seq::empty(), details) == details,
        payloads(details) == details,
    decreases details.len(),
{
    reveal(Seq::filter);
    if details.len() == 0 {
        assert(details =~= Seq::empty());
    } else {
        let rest = details.drop_last();
        assert forall|i: int| 0 <= i < rest.len() implies !is_announcement(#[trigger] rest[i]) by {
            assert(rest[i] == details[i]);
        }
        lemma_payloads(rest);
        assert(!is_announcement(details[details.len() - 1]));
        assert(with_detail(rest, details.last()) == rest.push(details.last()));
        assert(rest.push(details.last()) =~= details);
    }
}

/// A response with one assistant output, its content in folding order and nothing that streaming
/// omits, comes back unchanged from streaming and folding.
pub proof fn law_ordered_response_round_trips(
    response: ResponseView,
    reasoning: Option<(Seq<char>, Seq<Json>)>,
    text: Seq<char>,
    refusal: Option<Seq<char>>,
    states: Seq<OpaqueState>,
    items: Seq<ContentView>,
    reason: StopReason,
)
    requires
        response.outputs == seq![
            OutputView {
                role: Role::Assistant,
                content: ordered_content(reasoning, text, refusal, states, items),
                stop_reason: Some(reason),
            },
        ],
        response.extensions == Map::<Seq<char>, Json>::empty(),
        response.preservation == nothing_preserved(),
        reason != StopReason::Error,
        forall|i: int| 0 <= i < items.len() ==> is_item(#[trigger] items[i]),
        match reasoning {
            Some((_, details)) => forall|i: int|
                0 <= i < details.len() ==> !is_announcement(#[trigger] details[i]),
            None => true,
        },
    ensures
        aggregated(response_items(response)) == Ok::<ResponseView, ClientErrorView>(response),
{
    law_stream_keeps_response(response);
    law_stop_reason_replays(reason);
    let outputs = response.outputs;
    let content = ordered_content(reasoning, text, refusal, states, items);
    assert(outputs.drop_last() =~= Seq::empty());
    assert(all_content(outputs) =~= content) by {
        assert(all_content(outputs.drop_last()) == Seq::<ContentView>::empty());
    }
    let c0 = Seq::<ContentView>::empty();
    let c1 = match reasoning {
        Some((text, details)) => c0.push(
            ContentView::Reasoning {
                text,
                signature: None,
                details,
                openai_chat_field: OpenAiChatReasoningField::Reasoning,
            },
        ),
        None => c0,
    };
    let c2 = if text.len() > 0 {
        c1.push(ContentView::Text { text })
    } else {
        c1
    };
    let c3 = match refusal {
        Some(text) => c2.push(ContentView::Refusal { text }),
        None => c2,
    };
    assert(content =~= c3 + state_blocks(states) + items);
    if let Some((_, details)) = reasoning {
        lemma_payloads(details);
    }
    assert(c1.len() > 0 ==> c1.drop_last() =~= c0);
    assert(text.len() > 0 ==> c2.drop_last() =~= c1);
    assert(refusal is Some ==> c3.drop_last() =~= c2);
    assert(text_of(c0) =~= Seq::empty() && states_of(c0) =~= Seq::empty());
    assert(items_of(c0) =~= Seq::empty() && details_of(c0) =~= Seq::empty());
    assert(refusal_of(c0) is None && reasoning_of(c0) is None);
    assert(text_of(c1) =~= Seq::empty() && states_of(c1) =~= Seq::empty());
    assert(items_of(c1) =~= Seq::empty() && refusal_of(c1) is None);
    assert(text_of(c2) =~= text && states_of(c2) =~= Seq::empty());
    assert(items_of(c2) =~= Seq::empty() && refusal_of(c2) is None);
    assert(reasoning_of(c2) == reasoning_of(c1) && details_of(c2) == details_of(c1));
    let middle = collapsed_base(response);
    lemma_holding_states(c3, middle, states);
    lemma_holding_items(c3 + state_blocks(states), middle, items);
    let acc = holding(content, middle);
    assert(acc.text =~= text);
    assert(acc.refusal == refusal);
    assert(acc.opaque_state =~= states);
    assert(acc.finalized_blocks =~= items);
    assert(acc.reasoning == reasoning_of(c1) && acc.reasoning_details == details_of(c1));
    if let Some((said, details)) = reasoning {
        assert(details_of(c1) =~= details);
        assert(or_empty(reasoning_of(c1)) =~= said);
    }
    assert(reasoning_blocks(acc) =~= c1);
    lemma_in_order_empty();
    assert(partial_indices(acc) =~= Set::empty());
    assert(partial_blocks(acc) =~= Seq::empty());
    assert(finished_content(acc) =~= content);
    assert(collapsed(response).outputs =~= outputs);
    assert(collapsed(response) == response);
}

} // verus!
