//! State that a stream codec carries from event to event.
use std::collections::BTreeMap;
use vstd::prelude::*;
use vstd::string::*;

use crate::accumulate::newer;
use crate::llm::{no_usage, Usage};
use crate::text::opt_text;

verus! {

/// Contents of a [`ToolStreamState`].
#[verifier::ext_equal]
pub struct ToolStateView {
    /// Provider tool-call identifier.
    pub id: Option<Seq<char>>,
    /// Tool name.
    pub name: Option<Seq<char>>,
    /// Arguments that were emitted.
    pub arguments: Seq<char>,
    /// Arguments that arrived before the tool was named.
    pub pending_arguments: Seq<char>,
    /// Whether the block of the call is open.
    pub started: bool,
    /// Index of the block of the call.
    pub content_index: Option<usize>,
}

/// One tool call in an encoded stream.
#[derive(Debug)]
pub struct ToolStreamState {
    /// Provider tool-call identifier.
    pub id: Option<String>,
    /// Tool name.
    pub name: Option<String>,
    /// Arguments that were emitted.
    pub arguments: String,
    /// Arguments that arrived before the tool was named.
    pub pending_arguments: String,
    /// Whether the block of the call is open.
    pub started: bool,
    /// Index of the block of the call.
    pub content_index: Option<usize>,
}

impl View for ToolStreamState {
    type V = ToolStateView;

    open spec fn view(&self) -> ToolStateView {
        ToolStateView {
            id: opt_text(self.id),
            name: opt_text(self.name),
            arguments: self.arguments@,
            pending_arguments: self.pending_arguments@,
            started: self.started,
            content_index: self.content_index,
        }
    }
}

/// The call of which nothing arrived.
pub open spec fn fresh_tool() -> ToolStateView {
    ToolStateView {
        id: None,
        name: None,
        arguments: Seq::empty(),
        pending_arguments: Seq::empty(),
        started: false,
        content_index: None,
    }
}

impl Default for ToolStreamState {
    /// The call of which nothing arrived.
    fn default() -> (tool: Self)
        ensures
            tool@ == fresh_tool(),
    {
        let tool = ToolStreamState {
            id: None,
            name: None,
            arguments: String::new(),
            pending_arguments: String::new(),
            started: false,
            content_index: None,
        };
        assert(tool@ =~= fresh_tool());
        tool
    }
}

/// Contents of a [`StreamTranslationState`].
#[verifier::ext_equal]
pub struct StateView {
    /// Response identifier that the source reported.
    pub source_id: Option<Seq<char>>,
    /// Model that the source reported.
    pub source_model: Option<Seq<char>>,
    /// Whether the source started a message.
    pub saw_message_start: bool,
    /// Whether a message start was emitted.
    pub emitted_message_start: bool,
    /// Whether a content block was emitted.
    pub emitted_content_block: bool,
    /// Index of the next content block.
    pub next_content_index: usize,
    /// Index of the open text block.
    pub text_block_index: Option<usize>,
    /// Whether a text block was started.
    pub text_block_started: bool,
    /// Index of the open reasoning block.
    pub reasoning_block_index: Option<usize>,
    /// Whether a reasoning block was started.
    pub reasoning_block_started: bool,
    /// Tool calls by their index in the response.
    pub tool_states: Map<usize, ToolStateView>,
    /// Stop reason that the source reported.
    pub stop_reason: Option<Seq<char>>,
    /// Token usage.
    pub usage: Usage,
    /// Whether the source reported usage.
    pub saw_backend_usage: bool,
    /// Text fragments that were emitted.
    pub output_tokens_seen: u64,
    /// Whether the stream has ended.
    pub finished: bool,
    /// Whether the stream has failed.
    pub errored: bool,
}

/// State that a stream codec carries from event to event.
#[derive(Debug)]
pub struct StreamTranslationState {
    /// Response identifier that the source reported.
    pub source_id: Option<String>,
    /// Model that the source reported.
    pub source_model: Option<String>,
    /// Whether the source started a message.
    pub saw_message_start: bool,
    /// Whether a message start was emitted.
    pub emitted_message_start: bool,
    /// Whether a content block was emitted.
    pub emitted_content_block: bool,
    /// Index of the next content block.
    pub next_content_index: usize,
    /// Index of the open text block.
    pub text_block_index: Option<usize>,
    /// Whether a text block was started.
    pub text_block_started: bool,
    /// Index of the open reasoning block.
    pub reasoning_block_index: Option<usize>,
    /// Whether a reasoning block was started.
    pub reasoning_block_started: bool,
    /// Tool calls by their index in the response.
    pub tool_states: BTreeMap<usize, ToolStreamState>,
    /// Stop reason that the source reported.
    pub stop_reason: Option<String>,
    /// Token usage.
    pub usage: Usage,
    /// Whether the source reported usage.
    pub saw_backend_usage: bool,
    /// Text fragments that were emitted.
    pub output_tokens_seen: u64,
    /// Whether the stream has ended.
    pub finished: bool,
    /// Whether the stream has failed.
    pub errored: bool,
}

/// Contents of tool calls by index.
pub open spec fn tool_state_views(tools: Map<usize, ToolStreamState>) -> Map<usize, ToolStateView> {
    tools.map_values(|tool: ToolStreamState| tool@)
}

impl View for StreamTranslationState {
    type V = StateView;

    open spec fn view(&self) -> StateView {
        StateView {
            source_id: opt_text(self.source_id),
            source_model: opt_text(self.source_model),
            saw_message_start: self.saw_message_start,
            emitted_message_start: self.emitted_message_start,
            emitted_content_block: self.emitted_content_block,
            next_content_index: self.next_content_index,
            text_block_index: self.text_block_index,
            text_block_started: self.text_block_started,
            reasoning_block_index: self.reasoning_block_index,
            reasoning_block_started: self.reasoning_block_started,
            tool_states: tool_state_views(self.tool_states@),
            stop_reason: opt_text(self.stop_reason),
            usage: self.usage,
            saw_backend_usage: self.saw_backend_usage,
            output_tokens_seen: self.output_tokens_seen,
            finished: self.finished,
            errored: self.errored,
        }
    }
}

/// The state before the first event.
pub open spec fn fresh_state() -> StateView {
    StateView {
        source_id: None,
        source_model: None,
        saw_message_start: false,
        emitted_message_start: false,
        emitted_content_block: false,
        next_content_index: 0,
        text_block_index: None,
        text_block_started: false,
        reasoning_block_index: None,
        reasoning_block_started: false,
        tool_states: Map::empty(),
        stop_reason: None,
        usage: no_usage(),
        saw_backend_usage: false,
        output_tokens_seen: 0,
        finished: false,
        errored: false,
    }
}

impl Default for StreamTranslationState {
    /// The state before the first event.
    fn default() -> (state: Self)
        ensures
            state@ == fresh_state(),
    {
        let state = StreamTranslationState {
            source_id: None,
            source_model: None,
            saw_message_start: false,
            emitted_message_start: false,
            emitted_content_block: false,
            next_content_index: 0,
            text_block_index: None,
            text_block_started: false,
            reasoning_block_index: None,
            reasoning_block_started: false,
            tool_states: BTreeMap::new(),
            stop_reason: None,
            usage: Usage::default(),
            saw_backend_usage: false,
            output_tokens_seen: 0,
            finished: false,
            errored: false,
        };
        assert(state@ =~= fresh_state());
        state
    }
}

/// Records the identifier and model that the source reports; what it does not report stays.
pub fn record_source_identity(
    state: &mut StreamTranslationState,
    id: Option<String>,
    model: Option<String>,
)
    ensures
        final(state)@ == (StateView {
            source_id: newer(opt_text(id), old(state)@.source_id),
            source_model: newer(opt_text(model), old(state)@.source_model),
            ..old(state)@
        }),
{
    if id.is_some() {
        state.source_id = id;
    }
    if model.is_some() {
        state.source_model = model;
    }
}

} // verus!
