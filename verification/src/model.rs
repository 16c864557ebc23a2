//! Mathematical contents of the conversation types.
//!
//! Each type that holds text, documents or lists has a view with the characters, JSON values and
//! sequences it holds. Types that are only carried around whole are their own contents.
use vstd::prelude::*;
use vstd::string::*;

use crate::json::{clone_values, jsons, opt_float, opt_json, FloatView, Json};
use crate::llm::{
    AggLlmResponse, CompactionItem, ComputerAction, ComputerMouseButton, ComputerPoint,
    ComputerSafetyCheck, ComputerToolCall, ComputerToolResult, ContentBlock, CustomToolCall,
    CustomToolResult, FileSource, GeneratedImage, HostedTool, HostedToolCall, HostedToolResult,
    ImageSource, InstructionBlock, LlmRequest, MediaSource, Message, OpaqueState,
    OpenAiChatReasoningField, OutputParams, PauseTurn, PreservationMetadata, ReasoningParams,
    ResponseMetadata, ResponseOutput, ResponseTerminal, Role, SamplingParams,
    SpecializedToolDefinition, StopReason, ToolCall, ToolChoice, ToolDefinition, ToolResult,
    TurnInputItem, Usage,
};
use crate::text::{opt_text, texts};

verus! {

/// Contents of an [`ImageSource`].
pub enum ImageView {
    /// Image fetched from a URL.
    Url { url: Seq<char>, detail: Option<Seq<char>> },
    /// Base64-encoded image bytes.
    Base64 { media_type: Option<Seq<char>>, data: Seq<char> },
    /// Provider image source with no normalized representation.
    Raw(Json),
}

impl View for ImageSource {
    type V = ImageView;

    open spec fn view(&self) -> ImageView {
        match self {
            ImageSource::Url { url, detail } => ImageView::Url {
                url: url@,
                detail: opt_text(*detail),
            },
            ImageSource::Base64 { media_type, data } => ImageView::Base64 {
                media_type: opt_text(*media_type),
                data: data@,
            },
            ImageSource::Raw(value) => ImageView::Raw(value@),
        }
    }
}

impl Clone for ImageSource {
    /// Copies the source.
    fn clone(&self) -> (copy: Self)
        ensures
            copy@ == self@,
    {
        match self {
            ImageSource::Url { url, detail } => ImageSource::Url {
                url: url.clone(),
                detail: detail.clone(),
            },
            ImageSource::Base64 { media_type, data } => ImageSource::Base64 {
                media_type: media_type.clone(),
                data: data.clone(),
            },
            ImageSource::Raw(value) => ImageSource::Raw(value.clone()),
        }
    }
}

/// Contents of a [`FileSource`].
pub enum FileView {
    /// Provider-managed file identifier.
    FileId(Seq<char>),
    /// Inline file payload.
    FileData { data: Seq<char>, filename: Option<Seq<char>> },
    /// Provider file source with no normalized representation.
    Raw(Json),
}

impl View for FileSource {
    type V = FileView;

    open spec fn view(&self) -> FileView {
        match self {
            FileSource::FileId(id) => FileView::FileId(id@),
            FileSource::FileData { data, filename } => FileView::FileData {
                data: data@,
                filename: opt_text(*filename),
            },
            FileSource::Raw(value) => FileView::Raw(value@),
        }
    }
}

impl Clone for FileSource {
    /// Copies the source.
    fn clone(&self) -> (copy: Self)
        ensures
            copy@ == self@,
    {
        match self {
            FileSource::FileId(id) => FileSource::FileId(id.clone()),
            FileSource::FileData { data, filename } => FileSource::FileData {
                data: data.clone(),
                filename: filename.clone(),
            },
            FileSource::Raw(value) => FileSource::Raw(value.clone()),
        }
    }
}

/// Contents of a [`MediaSource`].
pub enum MediaView {
    /// Media fetched from a URL.
    Url { url: Seq<char>, media_type: Option<Seq<char>> },
    /// Base64-encoded media bytes.
    Base64 { media_type: Option<Seq<char>>, data: Seq<char> },
    /// Provider media source with no normalized representation.
    Raw(Json),
}

impl View for MediaSource {
    type V = MediaView;

    open spec fn view(&self) -> MediaView {
        match self {
            MediaSource::Url { url, media_type } => MediaView::Url {
                url: url@,
                media_type: opt_text(*media_type),
            },
            MediaSource::Base64 { media_type, data } => MediaView::Base64 {
                media_type: opt_text(*media_type),
                data: data@,
            },
            MediaSource::Raw(value) => MediaView::Raw(value@),
        }
    }
}

impl Clone for MediaSource {
    /// Copies the source.
    fn clone(&self) -> (copy: Self)
        ensures
            copy@ == self@,
    {
        match self {
            MediaSource::Url { url, media_type } => MediaSource::Url {
                url: url.clone(),
                media_type: media_type.clone(),
            },
            MediaSource::Base64 { media_type, data } => MediaSource::Base64 {
                media_type: media_type.clone(),
                data: data.clone(),
            },
            MediaSource::Raw(value) => MediaSource::Raw(value.clone()),
        }
    }
}

/// Contents of a [`ToolCall`].
pub struct ToolCallView {
    /// Provider tool-call identifier.
    pub id: Seq<char>,
    /// Tool name.
    pub name: Seq<char>,
    /// Parsed tool arguments.
    pub arguments: Json,
}

impl View for ToolCall {
    type V = ToolCallView;

    open spec fn view(&self) -> ToolCallView {
        ToolCallView { id: self.id@, name: self.name@, arguments: self.arguments@ }
    }
}

impl Clone for ToolCall {
    /// Copies the call.
    fn clone(&self) -> (copy: Self)
        ensures
            copy@ == self@,
    {
        ToolCall {
            id: self.id.clone(),
            name: self.name.clone(),
            arguments: self.arguments.clone(),
        }
    }
}

/// Contents of a [`CustomToolCall`].
pub struct CustomToolCallView {
    /// Provider tool-call identifier.
    pub id: Seq<char>,
    /// Provider item identifier.
    pub item_id: Option<Seq<char>>,
    /// Tool name.
    pub name: Seq<char>,
    /// Unparsed text input supplied to the tool.
    pub input: Seq<char>,
}

impl View for CustomToolCall {
    type V = CustomToolCallView;

    open spec fn view(&self) -> CustomToolCallView {
        CustomToolCallView {
            id: self.id@,
            item_id: opt_text(self.item_id),
            name: self.name@,
            input: self.input@,
        }
    }
}

impl Clone for CustomToolCall {
    /// Copies the call.
    fn clone(&self) -> (copy: Self)
        ensures
            copy@ == self@,
    {
        CustomToolCall {
            id: self.id.clone(),
            item_id: self.item_id.clone(),
            name: self.name.clone(),
            input: self.input.clone(),
        }
    }
}

impl Clone for CustomToolResult {
    /// Copies the result.
    fn clone(&self) -> (copy: Self)
        ensures
            copy == *self,
    {
        CustomToolResult {
            tool_call_id: self.tool_call_id.clone(),
            output: self.output.clone(),
            is_error: self.is_error,
        }
    }
}

impl Clone for ComputerSafetyCheck {
    /// Copies the check.
    fn clone(&self) -> (copy: Self)
        ensures
            copy == *self,
    {
        ComputerSafetyCheck { id: self.id.clone(), description: self.description.clone() }
    }
}

/// Contents of a [`ComputerAction`].
pub enum ComputerActionView {
    /// Click one point.
    Click { point: ComputerPoint, button: ComputerMouseButton },
    /// Double-click one point.
    DoubleClick { point: ComputerPoint, button: ComputerMouseButton },
    /// Drag through an ordered path.
    Drag { path: Seq<ComputerPoint> },
    /// Press one or more keys together.
    KeyPress { keys: Seq<Seq<char>> },
    /// Move the pointer without clicking.
    Move { point: ComputerPoint },
    /// Request a screenshot.
    Screenshot,
    /// Scroll at a point.
    Scroll { point: ComputerPoint, delta_x: i64, delta_y: i64 },
    /// Enter literal text.
    Type { text: Seq<char> },
    /// Wait for the remote surface.
    Wait,
}

impl View for ComputerAction {
    type V = ComputerActionView;

    open spec fn view(&self) -> ComputerActionView {
        match self {
            ComputerAction::Click { point, button } => ComputerActionView::Click {
                point: *point,
                button: *button,
            },
            ComputerAction::DoubleClick { point, button } => ComputerActionView::DoubleClick {
                point: *point,
                button: *button,
            },
            ComputerAction::Drag { path } => ComputerActionView::Drag { path: path@ },
            ComputerAction::KeyPress { keys } => ComputerActionView::KeyPress { keys: texts(keys@) },
            ComputerAction::Move { point } => ComputerActionView::Move { point: *point },
            ComputerAction::Screenshot => ComputerActionView::Screenshot,
            ComputerAction::Scroll { point, delta_x, delta_y } => ComputerActionView::Scroll {
                point: *point,
                delta_x: *delta_x,
                delta_y: *delta_y,
            },
            ComputerAction::Type { text } => ComputerActionView::Type { text: text@ },
            ComputerAction::Wait => ComputerActionView::Wait,
        }
    }
}

/// Copies a list of strings.
fn clone_texts(items: &Vec<String>) -> (copies: Vec<String>)
    ensures
        texts(copies@) == texts(items@),
{
    let copies = items.clone();
    assert(copies@ =~= items@);
    copies
}

impl Clone for ComputerAction {
    /// Copies the action.
    fn clone(&self) -> (copy: Self)
        ensures
            copy@ == self@,
    {
        match self {
            ComputerAction::Click { point, button } => ComputerAction::Click {
                point: *point,
                button: *button,
            },
            ComputerAction::DoubleClick { point, button } => ComputerAction::DoubleClick {
                point: *point,
                button: *button,
            },
            ComputerAction::Drag { path } => {
                let copies = path.clone();
                assert(copies@ =~= path@);
                ComputerAction::Drag { path: copies }
            },
            ComputerAction::KeyPress { keys } => ComputerAction::KeyPress {
                keys: clone_texts(keys),
            },
            ComputerAction::Move { point } => ComputerAction::Move { point: *point },
            ComputerAction::Screenshot => ComputerAction::Screenshot,
            ComputerAction::Scroll { point, delta_x, delta_y } => ComputerAction::Scroll {
                point: *point,
                delta_x: *delta_x,
                delta_y: *delta_y,
            },
            ComputerAction::Type { text } => ComputerAction::Type { text: text.clone() },
            ComputerAction::Wait => ComputerAction::Wait,
        }
    }
}

/// Contents of a [`ComputerToolCall`].
pub struct ComputerToolCallView {
    /// Provider tool-call identifier.
    pub id: Seq<char>,
    /// Provider item identifier.
    pub item_id: Option<Seq<char>>,
    /// Ordered actions to perform.
    pub actions: Seq<ComputerActionView>,
    /// Checks that must be acknowledged before executing the actions.
    pub pending_safety_checks: Seq<ComputerSafetyCheck>,
}

impl View for ComputerToolCall {
    type V = ComputerToolCallView;

    open spec fn view(&self) -> ComputerToolCallView {
        ComputerToolCallView {
            id: self.id@,
            item_id: opt_text(self.item_id),
            actions: self.actions@.map_values(|action: ComputerAction| action@),
            pending_safety_checks: self.pending_safety_checks@,
        }
    }
}

impl Clone for ComputerToolCall {
    /// Copies the call.
    fn clone(&self) -> (copy: Self)
        ensures
            copy@ == self@,
    {
        let mut actions: Vec<ComputerAction> = Vec::new();
        let n = self.actions.len();
        let mut i: usize = 0;
        while i < n
            invariant
                n == self.actions@.len(),
                i <= n,
                actions@.len() == i,
                forall|j: int| 0 <= j < i ==> (#[trigger] actions@[j])@ == self.actions@[j]@,
            decreases n - i,
        {
            actions.push(self.actions[i].clone());
            i += 1;
        }
        let pending_safety_checks = self.pending_safety_checks.clone();
        assert(pending_safety_checks@ =~= self.pending_safety_checks@);
        let copy = ComputerToolCall {
            id: self.id.clone(),
            item_id: self.item_id.clone(),
            actions,
            pending_safety_checks,
        };
        assert(copy@.actions =~= self@.actions);
        copy
    }
}

/// Contents of a [`ComputerToolResult`].
pub struct ComputerToolResultView {
    /// Identifier of the computer tool call this result answers.
    pub tool_call_id: Seq<char>,
    /// Image returned after executing the action.
    pub output: ImageView,
    /// Safety checks acknowledged by the executor.
    pub acknowledged_safety_checks: Seq<Seq<char>>,
}

impl View for ComputerToolResult {
    type V = ComputerToolResultView;

    open spec fn view(&self) -> ComputerToolResultView {
        ComputerToolResultView {
            tool_call_id: self.tool_call_id@,
            output: self.output@,
            acknowledged_safety_checks: texts(self.acknowledged_safety_checks@),
        }
    }
}

impl Clone for ComputerToolResult {
    /// Copies the result.
    fn clone(&self) -> (copy: Self)
        ensures
            copy@ == self@,
    {
        ComputerToolResult {
            tool_call_id: self.tool_call_id.clone(),
            output: self.output.clone(),
            acknowledged_safety_checks: clone_texts(&self.acknowledged_safety_checks),
        }
    }
}

/// Contents of a [`HostedTool`].
pub enum HostedToolView {
    /// Search public web content.
    WebSearch { allowed_domains: Seq<Seq<char>> },
    /// Search provider-managed files.
    FileSearch { vector_store_ids: Seq<Seq<char>>, max_results: Option<u32> },
    /// Execute code in a provider-managed container.
    CodeInterpreter { container_id: Option<Seq<char>> },
    /// Generate an image.
    ImageGeneration,
}

impl View for HostedTool {
    type V = HostedToolView;

    open spec fn view(&self) -> HostedToolView {
        match self {
            HostedTool::WebSearch { allowed_domains } => HostedToolView::WebSearch {
                allowed_domains: texts(allowed_domains@),
            },
            HostedTool::FileSearch { vector_store_ids, max_results } =>
                HostedToolView::FileSearch {
                vector_store_ids: texts(vector_store_ids@),
                max_results: *max_results,
            },
            HostedTool::CodeInterpreter { container_id } => HostedToolView::CodeInterpreter {
                container_id: opt_text(*container_id),
            },
            HostedTool::ImageGeneration => HostedToolView::ImageGeneration,
        }
    }
}

impl Clone for HostedTool {
    /// Copies the tool.
    fn clone(&self) -> (copy: Self)
        ensures
            copy@ == self@,
    {
        match self {
            HostedTool::WebSearch { allowed_domains } => HostedTool::WebSearch {
                allowed_domains: clone_texts(allowed_domains),
            },
            HostedTool::FileSearch { vector_store_ids, max_results } => HostedTool::FileSearch {
                vector_store_ids: clone_texts(vector_store_ids),
                max_results: *max_results,
            },
            HostedTool::CodeInterpreter { container_id } => HostedTool::CodeInterpreter {
                container_id: container_id.clone(),
            },
            HostedTool::ImageGeneration => HostedTool::ImageGeneration,
        }
    }
}

/// Contents of a [`HostedToolCall`].
pub struct HostedToolCallView {
    /// Provider call identifier.
    pub id: Seq<char>,
    /// Provider item identifier.
    pub item_id: Option<Seq<char>>,
    /// Hosted capability being invoked.
    pub tool: HostedToolView,
    /// Capability arguments.
    pub arguments: Json,
}

impl View for HostedToolCall {
    type V = HostedToolCallView;

    open spec fn view(&self) -> HostedToolCallView {
        HostedToolCallView {
            id: self.id@,
            item_id: opt_text(self.item_id),
            tool: self.tool@,
            arguments: self.arguments@,
        }
    }
}

impl Clone for HostedToolCall {
    /// Copies the call.
    fn clone(&self) -> (copy: Self)
        ensures
            copy@ == self@,
    {
        HostedToolCall {
            id: self.id.clone(),
            item_id: self.item_id.clone(),
            tool: self.tool.clone(),
            arguments: self.arguments.clone(),
        }
    }
}

impl Clone for CompactionItem {
    /// Copies the item.
    fn clone(&self) -> (copy: Self)
        ensures
            copy == *self,
    {
        CompactionItem {
            id: self.id.clone(),
            summary: self.summary.clone(),
            state: self.state.clone(),
        }
    }
}

impl Clone for PauseTurn {
    /// Copies the pause.
    fn clone(&self) -> (copy: Self)
        ensures
            copy == *self,
    {
        PauseTurn { continuation_id: self.continuation_id.clone(), reason: self.reason.clone() }
    }
}

/// Contents of a [`GeneratedImage`].
pub struct GeneratedImageView {
    /// Provider item identifier.
    pub id: Option<Seq<char>>,
    /// Generated image location or inline payload.
    pub source: ImageView,
}

impl View for GeneratedImage {
    type V = GeneratedImageView;

    open spec fn view(&self) -> GeneratedImageView {
        GeneratedImageView { id: opt_text(self.id), source: self.source@ }
    }
}

impl Clone for GeneratedImage {
    /// Copies the image.
    fn clone(&self) -> (copy: Self)
        ensures
            copy@ == self@,
    {
        GeneratedImage { id: self.id.clone(), source: self.source.clone() }
    }
}

/// Contents of a [`ToolResult`] or a [`HostedToolResult`].
pub struct ToolResultView {
    /// Identifier of the call this result answers.
    pub tool_call_id: Seq<char>,
    /// Ordered output content.
    pub content: Seq<ContentView>,
    /// Whether execution failed.
    pub is_error: Option<bool>,
}

/// Contents of a [`ContentBlock`].
pub enum ContentView {
    /// Plain text content.
    Text { text: Seq<char> },
    /// Model reasoning or thinking content.
    Reasoning {
        text: Seq<char>,
        signature: Option<Seq<char>>,
        details: Seq<Json>,
        openai_chat_field: OpenAiChatReasoningField,
    },
    /// Image content.
    Image { source: ImageView },
    /// Audio content.
    Audio { source: MediaView },
    /// Video content.
    Video { source: MediaView },
    /// File content.
    File { source: FileView },
    /// Tool invocation requested by the assistant.
    ToolCall(ToolCallView),
    /// Result of an earlier tool invocation.
    ToolResult(ToolResultView),
    /// Free-form input tool invocation requested by the assistant.
    CustomToolCall(CustomToolCallView),
    /// Result of an earlier free-form input tool invocation.
    CustomToolResult(CustomToolResult),
    /// Computer interaction requested by the assistant.
    ComputerToolCall(ComputerToolCallView),
    /// Result of a computer interaction.
    ComputerToolResult(ComputerToolResultView),
    /// Provider-hosted tool invocation requested by the assistant.
    HostedToolCall(HostedToolCallView),
    /// Result produced by a provider-hosted tool.
    HostedToolResult(ToolResultView),
    /// Bounded opaque state.
    OpaqueState(OpaqueState),
    /// Provider-created conversation compaction state.
    Compaction(CompactionItem),
    /// A provider-native generated image.
    GeneratedImage(GeneratedImageView),
    /// A provider pause.
    PauseTurn(PauseTurn),
    /// Provider refusal content.
    Refusal { text: Seq<char> },
    /// Provider block that has no normalized representation.
    Unknown { provider: Seq<char>, raw: Json },
}

/// Contents of a block.
pub closed spec fn content_view(block: ContentBlock) -> ContentView
    decreases block,
{
    match block {
        ContentBlock::Text { text } => ContentView::Text { text: text@ },
        ContentBlock::Reasoning { text, signature, details, openai_chat_field } =>
            ContentView::Reasoning {
            text: text@,
            signature: opt_text(signature),
            details: jsons(details@),
            openai_chat_field,
        },
        ContentBlock::Image { source } => ContentView::Image { source: source@ },
        ContentBlock::Audio { source } => ContentView::Audio { source: source@ },
        ContentBlock::Video { source } => ContentView::Video { source: source@ },
        ContentBlock::File { source } => ContentView::File { source: source@ },
        ContentBlock::ToolCall(call) => ContentView::ToolCall(call@),
        ContentBlock::ToolResult(result) => ContentView::ToolResult(
            ToolResultView {
                tool_call_id: result.tool_call_id@,
                content: content_views(result.content@),
                is_error: result.is_error,
            },
        ),
        ContentBlock::CustomToolCall(call) => ContentView::CustomToolCall(call@),
        ContentBlock::CustomToolResult(result) => ContentView::CustomToolResult(result),
        ContentBlock::ComputerToolCall(call) => ContentView::ComputerToolCall(call@),
        ContentBlock::ComputerToolResult(result) => ContentView::ComputerToolResult(result@),
        ContentBlock::HostedToolCall(call) => ContentView::HostedToolCall(call@),
        ContentBlock::HostedToolResult(result) => ContentView::HostedToolResult(
            ToolResultView {
                tool_call_id: result.tool_call_id@,
                content: content_views(result.content@),
                is_error: result.is_error,
            },
        ),
        ContentBlock::OpaqueState(state) => ContentView::OpaqueState(state),
        ContentBlock::Compaction(item) => ContentView::Compaction(item),
        ContentBlock::GeneratedImage(image) => ContentView::GeneratedImage(image@),
        ContentBlock::PauseTurn(pause) => ContentView::PauseTurn(pause),
        ContentBlock::Refusal { text } => ContentView::Refusal { text: text@ },
        ContentBlock::Unknown { provider, raw } => ContentView::Unknown {
            provider: provider@,
            raw: raw@,
        },
    }
}

spec fn content_views(blocks: Seq<ContentBlock>) -> Seq<ContentView>
    decreases blocks,
{
    Seq::new(
        blocks.len(),
        |i: int|
            if 0 <= i < blocks.len() {
                content_view(blocks[i])
            } else {
                arbitrary()
            },
    )
}

impl View for ContentBlock {
    type V = ContentView;

    open spec fn view(&self) -> ContentView {
        content_view(*self)
    }
}

/// Contents of a list of blocks.
pub open spec fn contents(blocks: Seq<ContentBlock>) -> Seq<ContentView> {
    blocks.map_values(|block: ContentBlock| block@)
}

impl View for ToolResult {
    type V = ToolResultView;

    open spec fn view(&self) -> ToolResultView {
        ToolResultView {
            tool_call_id: self.tool_call_id@,
            content: contents(self.content@),
            is_error: self.is_error,
        }
    }
}

impl View for HostedToolResult {
    type V = ToolResultView;

    open spec fn view(&self) -> ToolResultView {
        ToolResultView {
            tool_call_id: self.tool_call_id@,
            content: contents(self.content@),
            is_error: self.is_error,
        }
    }
}

/// The contents of a block, kind by kind.
pub broadcast proof fn lemma_content_view(block: ContentBlock)
    ensures
        (#[trigger] content_view(block)) == (match block {
            ContentBlock::Text { text } => ContentView::Text { text: text@ },
            ContentBlock::Reasoning { text, signature, details, openai_chat_field } =>
                ContentView::Reasoning {
                text: text@,
                signature: opt_text(signature),
                details: jsons(details@),
                openai_chat_field,
            },
            ContentBlock::Image { source } => ContentView::Image { source: source@ },
            ContentBlock::Audio { source } => ContentView::Audio { source: source@ },
            ContentBlock::Video { source } => ContentView::Video { source: source@ },
            ContentBlock::File { source } => ContentView::File { source: source@ },
            ContentBlock::ToolCall(call) => ContentView::ToolCall(call@),
            ContentBlock::ToolResult(result) => ContentView::ToolResult(result@),
            ContentBlock::CustomToolCall(call) => ContentView::CustomToolCall(call@),
            ContentBlock::CustomToolResult(result) => ContentView::CustomToolResult(result),
            ContentBlock::ComputerToolCall(call) => ContentView::ComputerToolCall(call@),
            ContentBlock::ComputerToolResult(result) => ContentView::ComputerToolResult(result@),
            ContentBlock::HostedToolCall(call) => ContentView::HostedToolCall(call@),
            ContentBlock::HostedToolResult(result) => ContentView::HostedToolResult(result@),
            ContentBlock::OpaqueState(state) => ContentView::OpaqueState(state),
            ContentBlock::Compaction(item) => ContentView::Compaction(item),
            ContentBlock::GeneratedImage(image) => ContentView::GeneratedImage(image@),
            ContentBlock::PauseTurn(pause) => ContentView::PauseTurn(pause),
            ContentBlock::Refusal { text } => ContentView::Refusal { text: text@ },
            ContentBlock::Unknown { provider, raw } => ContentView::Unknown {
                provider: provider@,
                raw: raw@,
            },
        }),
{
    match block {
        ContentBlock::ToolResult(result) => {
            assert(content_views(result.content@) =~= contents(result.content@));
        },
        ContentBlock::HostedToolResult(result) => {
            assert(content_views(result.content@) =~= contents(result.content@));
        },
        _ => {},
    }
}

/// Copies a list of blocks.
fn clone_blocks(blocks: &Vec<ContentBlock>) -> (copies: Vec<ContentBlock>)
    ensures
        contents(copies@) == contents(blocks@),
    decreases blocks,
{
    let mut copies: Vec<ContentBlock> = Vec::new();
    let n = blocks.len();
    let mut i: usize = 0;
    while i < n
        invariant
            n == blocks@.len(),
            i <= n,
            copies@.len() == i,
            forall|j: int| 0 <= j < i ==> (#[trigger] copies@[j])@ == blocks@[j]@,
        decreases n - i,
    {
        copies.push(blocks[i].clone());
        i += 1;
    }
    assert(contents(copies@) =~= contents(blocks@));
    copies
}

impl Clone for ToolResult {
    /// Copies the result.
    fn clone(&self) -> (copy: Self)
        ensures
            copy@ == self@,
        decreases self,
    {
        ToolResult {
            tool_call_id: self.tool_call_id.clone(),
            content: clone_blocks(&self.content),
            is_error: self.is_error,
        }
    }
}

impl Clone for HostedToolResult {
    /// Copies the result.
    fn clone(&self) -> (copy: Self)
        ensures
            copy@ == self@,
        decreases self,
    {
        HostedToolResult {
            tool_call_id: self.tool_call_id.clone(),
            content: clone_blocks(&self.content),
            is_error: self.is_error,
        }
    }
}

impl Clone for ContentBlock {
    /// Copies the block.
    fn clone(&self) -> (copy: Self)
        ensures
            copy@ == self@,
        decreases self,
    {
        broadcast use lemma_content_view;

        match self {
            ContentBlock::Text { text } => ContentBlock::Text { text: text.clone() },
            ContentBlock::Reasoning { text, signature, details, openai_chat_field } =>
                ContentBlock::Reasoning {
                text: text.clone(),
                signature: signature.clone(),
                details: clone_values(details),
                openai_chat_field: *openai_chat_field,
            },
            ContentBlock::Image { source } => ContentBlock::Image { source: source.clone() },
            ContentBlock::Audio { source } => ContentBlock::Audio { source: source.clone() },
            ContentBlock::Video { source } => ContentBlock::Video { source: source.clone() },
            ContentBlock::File { source } => ContentBlock::File { source: source.clone() },
            ContentBlock::ToolCall(call) => ContentBlock::ToolCall(call.clone()),
            ContentBlock::ToolResult(result) => ContentBlock::ToolResult(result.clone()),
            ContentBlock::CustomToolCall(call) => ContentBlock::CustomToolCall(call.clone()),
            ContentBlock::CustomToolResult(result) => ContentBlock::CustomToolResult(
                result.clone(),
            ),
            ContentBlock::ComputerToolCall(call) => ContentBlock::ComputerToolCall(call.clone()),
            ContentBlock::ComputerToolResult(result) => ContentBlock::ComputerToolResult(
                result.clone(),
            ),
            ContentBlock::HostedToolCall(call) => ContentBlock::HostedToolCall(call.clone()),
            ContentBlock::HostedToolResult(result) => ContentBlock::HostedToolResult(
                result.clone(),
            ),
            ContentBlock::OpaqueState(state) => ContentBlock::OpaqueState(state.clone()),
            ContentBlock::Compaction(item) => ContentBlock::Compaction(item.clone()),
            ContentBlock::GeneratedImage(image) => ContentBlock::GeneratedImage(image.clone()),
            ContentBlock::PauseTurn(pause) => ContentBlock::PauseTurn(pause.clone()),
            ContentBlock::Refusal { text } => ContentBlock::Refusal { text: text.clone() },
            ContentBlock::Unknown { provider, raw } => ContentBlock::Unknown {
                provider: provider.clone(),
                raw: raw.clone(),
            },
        }
    }
}

/// Contents of a [`Message`] or an [`InstructionBlock`].
pub struct MessageView {
    /// Actor that produced the message.
    pub role: Role,
    /// Ordered content.
    pub content: Seq<ContentView>,
}

impl View for Message {
    type V = MessageView;

    open spec fn view(&self) -> MessageView {
        MessageView { role: self.role, content: contents(self.content@) }
    }
}

impl View for InstructionBlock {
    type V = MessageView;

    open spec fn view(&self) -> MessageView {
        MessageView { role: self.role, content: contents(self.content@) }
    }
}

/// Contents of a [`ToolDefinition`].
pub struct ToolDefinitionView {
    /// Tool name exposed to the model.
    pub name: Seq<char>,
    /// Human-readable tool description.
    pub description: Option<Seq<char>>,
    /// JSON Schema describing accepted arguments.
    pub parameters: Json,
    /// Whether the provider should enforce the schema strictly.
    pub strict: Option<bool>,
}

impl View for ToolDefinition {
    type V = ToolDefinitionView;

    open spec fn view(&self) -> ToolDefinitionView {
        ToolDefinitionView {
            name: self.name@,
            description: opt_text(self.description),
            parameters: self.parameters@,
            strict: self.strict,
        }
    }
}

/// Contents of a list of tool definitions.
pub open spec fn tool_views(tools: Seq<ToolDefinition>) -> Seq<ToolDefinitionView> {
    tools.map_values(|tool: ToolDefinition| tool@)
}

/// Contents of a [`ToolChoice`].
pub enum ToolChoiceView {
    /// Let the model decide whether to call a tool.
    Auto,
    /// Require at least one tool call.
    Required,
    /// Disallow tool calls.
    Disallow,
    /// Require a specific tool.
    Tool { name: Seq<char> },
    /// Provider tool-choice value with no normalized representation.
    Raw(Json),
}

impl View for ToolChoice {
    type V = ToolChoiceView;

    open spec fn view(&self) -> ToolChoiceView {
        match self {
            ToolChoice::Auto => ToolChoiceView::Auto,
            ToolChoice::Required => ToolChoiceView::Required,
            ToolChoice::Disallow => ToolChoiceView::Disallow,
            ToolChoice::Tool { name } => ToolChoiceView::Tool { name: name@ },
            ToolChoice::Raw(value) => ToolChoiceView::Raw(value@),
        }
    }
}

/// Contents of [`SamplingParams`].
pub struct SamplingView {
    /// Sampling temperature.
    pub temperature: Option<FloatView>,
    /// Nucleus-sampling probability mass.
    pub top_p: Option<FloatView>,
    /// Maximum number of candidate tokens considered at each step.
    pub top_k: Option<i64>,
}

impl View for SamplingParams {
    type V = SamplingView;

    open spec fn view(&self) -> SamplingView {
        SamplingView {
            temperature: opt_float(self.temperature),
            top_p: opt_float(self.top_p),
            top_k: self.top_k,
        }
    }
}

/// Contents of [`OutputParams`].
pub struct OutputParamsView {
    /// Maximum tokens the model may generate.
    pub max_output_tokens: Option<u64>,
    /// Structured-output configuration.
    pub response_format: Option<Json>,
}

impl View for OutputParams {
    type V = OutputParamsView;

    open spec fn view(&self) -> OutputParamsView {
        OutputParamsView {
            max_output_tokens: self.max_output_tokens,
            response_format: opt_json(self.response_format),
        }
    }
}

/// Contents of [`ReasoningParams`].
pub struct ReasoningParamsView {
    /// Requested reasoning effort or level.
    pub effort: Option<Seq<char>>,
    /// Provider reasoning controls without a normalized field.
    pub raw: Option<Json>,
}

impl View for ReasoningParams {
    type V = ReasoningParamsView;

    open spec fn view(&self) -> ReasoningParamsView {
        ReasoningParamsView { effort: opt_text(self.effort), raw: opt_json(self.raw) }
    }
}

/// Contents of [`PreservationMetadata`].
pub struct PreservationView {
    /// Original request bodies keyed by source format.
    pub requests: Map<Seq<char>, Json>,
    /// Original response bodies keyed by source format.
    pub responses: Map<Seq<char>, Json>,
}

impl View for PreservationMetadata {
    type V = PreservationView;

    open spec fn view(&self) -> PreservationView {
        PreservationView { requests: self.requests@, responses: self.responses@ }
    }
}

/// Contents without any preserved body.
pub open spec fn nothing_preserved() -> PreservationView {
    PreservationView { requests: Map::empty(), responses: Map::empty() }
}

/// Contents of an [`LlmRequest`].
pub struct RequestView {
    /// Model currently addressed by the request.
    pub model: Option<Seq<char>>,
    /// System and developer instructions.
    pub instructions: Seq<MessageView>,
    /// Ordered conversation messages.
    pub messages: Seq<MessageView>,
    /// Ordered non-message items appended after the conversation.
    pub trailing_items: Seq<TurnInputItem>,
    /// Tools available to the model.
    pub tools: Seq<ToolDefinitionView>,
    /// Non-function tools available to the model.
    pub specialized_tools: Seq<SpecializedToolDefinition>,
    /// Policy controlling model tool selection.
    pub tool_choice: Option<ToolChoiceView>,
    /// Common sampling controls.
    pub sampling: SamplingView,
    /// Output budget and shape controls.
    pub output: OutputParamsView,
    /// Reasoning controls.
    pub reasoning: ReasoningParamsView,
    /// Whether the caller requested a streamed response.
    pub stream: bool,
    /// Provider fields without first-class normalized equivalents.
    pub extensions: Map<Seq<char>, Json>,
    /// Exact provider bodies.
    pub preservation: PreservationView,
}

/// Contents of a list of messages.
pub open spec fn message_views(messages: Seq<Message>) -> Seq<MessageView> {
    messages.map_values(|message: Message| message@)
}

/// Contents of a list of instruction blocks.
pub open spec fn instruction_views(instructions: Seq<InstructionBlock>) -> Seq<MessageView> {
    instructions.map_values(|instruction: InstructionBlock| instruction@)
}

/// Contents of an optional tool choice.
pub open spec fn opt_tool_choice(choice: Option<ToolChoice>) -> Option<ToolChoiceView> {
    match choice {
        Some(choice) => Some(choice@),
        None => None,
    }
}

impl View for LlmRequest {
    type V = RequestView;

    open spec fn view(&self) -> RequestView {
        RequestView {
            model: opt_text(self.model),
            instructions: instruction_views(self.instructions@),
            messages: message_views(self.messages@),
            trailing_items: self.trailing_items@,
            tools: tool_views(self.tools@),
            specialized_tools: self.specialized_tools@,
            tool_choice: opt_tool_choice(self.tool_choice),
            sampling: self.sampling@,
            output: self.output@,
            reasoning: self.reasoning@,
            stream: self.stream,
            extensions: self.extensions.fields@,
            preservation: self.preservation@,
        }
    }
}

/// Contents of the request that sets nothing.
pub open spec fn empty_request() -> RequestView {
    RequestView {
        model: None,
        instructions: Seq::empty(),
        messages: Seq::empty(),
        trailing_items: Seq::empty(),
        tools: Seq::empty(),
        specialized_tools: Seq::empty(),
        tool_choice: None,
        sampling: SamplingView { temperature: None, top_p: None, top_k: None },
        output: OutputParamsView { max_output_tokens: None, response_format: None },
        reasoning: ReasoningParamsView { effort: None, raw: None },
        stream: false,
        extensions: Map::empty(),
        preservation: nothing_preserved(),
    }
}

/// Contents of a [`ResponseOutput`].
pub struct OutputView {
    /// Actor that produced the output.
    pub role: Role,
    /// Ordered output content.
    pub content: Seq<ContentView>,
    /// Why this output stopped.
    pub stop_reason: Option<StopReason>,
}

impl View for ResponseOutput {
    type V = OutputView;

    open spec fn view(&self) -> OutputView {
        OutputView {
            role: self.role,
            content: contents(self.content@),
            stop_reason: self.stop_reason,
        }
    }
}

/// Contents of a list of output items.
pub open spec fn output_views(outputs: Seq<ResponseOutput>) -> Seq<OutputView> {
    outputs.map_values(|output: ResponseOutput| output@)
}

/// Contents of an [`AggLlmResponse`].
pub struct ResponseView {
    /// Provider response identifier.
    pub id: Option<Seq<char>>,
    /// Model reported by the provider.
    pub model: Option<Seq<char>>,
    /// Ordered response output items.
    pub outputs: Seq<OutputView>,
    /// Normalized token usage.
    pub usage: Usage,
    /// Nonsemantic response metadata.
    pub metadata: ResponseMetadata,
    /// Provider-neutral terminal state.
    pub terminal: Option<ResponseTerminal>,
    /// Provider response fields without normalized equivalents.
    pub extensions: Map<Seq<char>, Json>,
    /// Exact provider bodies.
    pub preservation: PreservationView,
}

impl View for AggLlmResponse {
    type V = ResponseView;

    open spec fn view(&self) -> ResponseView {
        ResponseView {
            id: opt_text(self.id),
            model: opt_text(self.model),
            outputs: output_views(self.outputs@),
            usage: self.usage,
            metadata: self.metadata,
            terminal: self.terminal,
            extensions: self.extensions.fields@,
            preservation: self.preservation@,
        }
    }
}

} // verus!
