//! Descriptions of content blocks in messages to people: the names, fields and values of a block,
//! as a `Debug` derive of Rust writes them.
use vstd::prelude::*;
use vstd::string::*;

use crate::json::{debug_json, json_debug, jsons, lemma_value_view, Json, Value};
use crate::llm::{
    CompactionItem, ComputerAction, ComputerMouseButton, ComputerPoint, ComputerSafetyCheck,
    ComputerToolCall, ComputerToolResult, ContentBlock, CustomToolCall, CustomToolResult,
    FileSource, GeneratedImage, HostedTool, HostedToolCall, ImageSource, MediaSource, OpaqueState,
    OpaqueStatePurpose, OpenAiChatReasoningField, PauseTurn, ToolCall,
};
use crate::model::{
    contents, lemma_content_view, ComputerActionView, ComputerToolCallView, ComputerToolResultView,
    ContentView, CustomToolCallView, FileView, GeneratedImageView, HostedToolCallView,
    HostedToolView, ImageView, MediaView, ToolCallView,
};
use crate::text::{decimal, decimal_text, joined, opt_text, texts};

verus! {

broadcast use {lemma_value_view, lemma_content_view};

/// Text that `format!` prints for a string with the debug placeholder: the string in quotes, with
/// escapes.
pub uninterp spec fn quoted(text: Seq<char>) -> Seq<char>;

/// Calls `format!` with the debug placeholder on a string. The result is named [`quoted`]: it
/// depends on the characters alone.
#[verifier::external_body]
fn quote(text: &str) -> (quotation: String)
    ensures
        quotation@ == quoted(text@),
{
    format!("{text:?}")
}

/// Description of an optional string.
pub open spec fn opt_quoted(text: Option<Seq<char>>) -> Seq<char> {
    match text {
        Some(text) => "Some("@ + quoted(text) + ")"@,
        None => "None"@,
    }
}

/// Describes an optional string.
fn quote_optional(text: &Option<String>) -> (description: String)
    ensures
        description@ == opt_quoted(opt_text(*text)),
{
    match text {
        Some(text) => "Some(".to_owned().concat(quote(text.as_str()).as_str()).concat(")"),
        None => "None".to_owned(),
    }
}

/// Description of an optional flag.
pub open spec fn opt_flag(flag: Option<bool>) -> Seq<char> {
    match flag {
        Some(true) => "Some(true)"@,
        Some(false) => "Some(false)"@,
        None => "None"@,
    }
}

/// Describes an optional flag.
fn flag_text(flag: Option<bool>) -> (description: &'static str)
    ensures
        description@ == opt_flag(flag),
{
    match flag {
        Some(true) => "Some(true)",
        Some(false) => "Some(false)",
        None => "None",
    }
}

/// Decimal rendering of an integer.
pub open spec fn signed(n: int) -> Seq<char> {
    if n < 0 {
        "-"@ + decimal((-n) as nat)
    } else {
        decimal(n as nat)
    }
}

/// Renders an integer in decimal.
fn signed_text(n: i64) -> (text: String)
    ensures
        text@ == signed(n as int),
{
    if n >= 0 {
        decimal_text(n as u64)
    } else {
        let magnitude: u64 = if n == i64::MIN {
            0x8000_0000_0000_0000
        } else {
            (-n) as u64
        };
        "-".to_owned().concat(decimal_text(magnitude).as_str())
    }
}

/// Description of an optional count.
pub open spec fn opt_number(n: Option<u32>) -> Seq<char> {
    match n {
        Some(n) => "Some("@ + decimal(n as nat) + ")"@,
        None => "None"@,
    }
}

/// Describes an optional count.
fn number_text(n: Option<u32>) -> (description: String)
    ensures
        description@ == opt_number(n),
{
    match n {
        Some(n) => "Some(".to_owned().concat(decimal_text(n as u64).as_str()).concat(")"),
        None => "None".to_owned(),
    }
}

/// Description of a list, given those of its items.
pub open spec fn listed(items: Seq<Seq<char>>) -> Seq<char> {
    "["@ + joined(items, ", "@) + "]"@
}

/// Describes a list, given the descriptions of its items.
fn list(items: &Vec<String>) -> (description: String)
    ensures
        description@ == listed(texts(items@)),
{
    let ghost all = texts(items@);
    let mut inside = String::new();
    assert(inside@ =~= joined(all.take(0), ", "@));
    let n = items.len();
    let mut i: usize = 0;
    while i < n
        invariant
            n == items@.len(),
            i <= n,
            all == texts(items@),
            inside@ == joined(all.take(i as int), ", "@),
        decreases n - i,
    {
        proof {
            assert(all.take(i + 1).drop_last() =~= all.take(i as int));
            assert(all.take(i + 1).last() == items@[i as int]@);
        }
        if i == 0 {
            inside = items[i].clone();
        } else {
            inside.append(", ");
            inside.append(items[i].as_str());
        }
        i += 1;
    }
    assert(all.take(n as int) =~= all);
    "[".to_owned().concat(inside.as_str()).concat("]")
}

/// Description of a list of strings.
pub open spec fn all_quoted(items: Seq<Seq<char>>) -> Seq<char> {
    listed(items.map_values(|item: Seq<char>| quoted(item)))
}

/// Describes a list of strings.
fn quote_all(items: &Vec<String>) -> (text: String)
    ensures
        text@ == all_quoted(texts(items@)),
{
    let mut parts: Vec<String> = Vec::new();
    let n = items.len();
    let mut i: usize = 0;
    while i < n
        invariant
            n == items@.len(),
            i <= n,
            parts@.len() == i,
            forall|j: int| 0 <= j < i ==> (#[trigger] parts@[j])@ == quoted(items@[j]@),
        decreases n - i,
    {
        parts.push(quote(items[i].as_str()));
        i += 1;
    }
    assert(texts(parts@) =~= texts(items@).map_values(|item: Seq<char>| quoted(item)));
    list(&parts)
}

/// Description of a list of documents.
pub open spec fn documents_text(items: Seq<Json>) -> Seq<char> {
    listed(items.map_values(|item: Json| json_debug(item)))
}

/// Describes a list of documents.
fn describe_documents(items: &Vec<Value>) -> (text: String)
    ensures
        text@ == documents_text(jsons(items@)),
{
    let mut parts: Vec<String> = Vec::new();
    let n = items.len();
    let mut i: usize = 0;
    while i < n
        invariant
            n == items@.len(),
            i <= n,
            parts@.len() == i,
            forall|j: int| 0 <= j < i ==> (#[trigger] parts@[j])@ == json_debug(items@[j]@),
        decreases n - i,
    {
        parts.push(debug_json(&items[i]));
        i += 1;
    }
    assert(texts(parts@) =~= jsons(items@).map_values(|item: Json| json_debug(item)));
    list(&parts)
}

/// Description of a point.
pub open spec fn point_text(point: ComputerPoint) -> Seq<char> {
    "ComputerPoint { x: "@ + signed(point.x as int) + ", y: "@ + signed(point.y as int) + " }"@
}

/// Describes a point.
fn describe_point(point: &ComputerPoint) -> (text: String)
    ensures
        text@ == point_text(*point),
{
    "ComputerPoint { x: ".to_owned().concat(signed_text(point.x).as_str()).concat(", y: ")
        .concat(signed_text(point.y).as_str()).concat(" }")
}

/// Description of a path.
pub open spec fn path_text(items: Seq<ComputerPoint>) -> Seq<char> {
    listed(items.map_values(|item: ComputerPoint| point_text(item)))
}

/// Describes a path.
fn describe_path(items: &Vec<ComputerPoint>) -> (text: String)
    ensures
        text@ == path_text(items@),
{
    let mut parts: Vec<String> = Vec::new();
    let n = items.len();
    let mut i: usize = 0;
    while i < n
        invariant
            n == items@.len(),
            i <= n,
            parts@.len() == i,
            forall|j: int| 0 <= j < i ==> (#[trigger] parts@[j])@ == point_text(items@[j]),
        decreases n - i,
    {
        parts.push(describe_point(&items[i]));
        i += 1;
    }
    assert(texts(parts@) =~= items@.map_values(|item: ComputerPoint| point_text(item)));
    list(&parts)
}

/// Name of a mouse button.
pub open spec fn button_name(button: ComputerMouseButton) -> Seq<char> {
    match button {
        ComputerMouseButton::Left => "Left"@,
        ComputerMouseButton::Middle => "Middle"@,
        ComputerMouseButton::Right => "Right"@,
    }
}

/// Name of a mouse button.
fn button_label(button: ComputerMouseButton) -> (name: &'static str)
    ensures
        name@ == button_name(button),
{
    match button {
        ComputerMouseButton::Left => "Left",
        ComputerMouseButton::Middle => "Middle",
        ComputerMouseButton::Right => "Right",
    }
}

/// Description of a computer interaction.
pub open spec fn action_text(action: ComputerActionView) -> Seq<char> {
    match action {
        ComputerActionView::Click { point, button } => {
            "Click { point: "@ + point_text(point) + ", button: "@ + button_name(button) + " }"@
        },
        ComputerActionView::DoubleClick { point, button } => {
            "DoubleClick { point: "@ + point_text(point) + ", button: "@ + button_name(button)
                + " }"@
        },
        ComputerActionView::Drag { path } => "Drag { path: "@ + path_text(path) + " }"@,
        ComputerActionView::KeyPress { keys } => "KeyPress { keys: "@ + all_quoted(keys) + " }"@,
        ComputerActionView::Move { point } => "Move { point: "@ + point_text(point) + " }"@,
        ComputerActionView::Screenshot => "Screenshot"@,
        ComputerActionView::Scroll { point, delta_x, delta_y } => {
            "Scroll { point: "@ + point_text(point) + ", delta_x: "@ + signed(delta_x as int)
                + ", delta_y: "@ + signed(delta_y as int) + " }"@
        },
        ComputerActionView::Type { text } => "Type { text: "@ + quoted(text) + " }"@,
        ComputerActionView::Wait => "Wait"@,
    }
}

/// Describes a computer interaction.
fn describe_action(action: &ComputerAction) -> (text: String)
    ensures
        text@ == action_text(action@),
{
    match action {
        ComputerAction::Click { point, button } => {
            "Click { point: ".to_owned().concat(describe_point(point).as_str())
                .concat(", button: ").concat(button_label(*button)).concat(" }")
        },
        ComputerAction::DoubleClick { point, button } => {
            "DoubleClick { point: ".to_owned().concat(describe_point(point).as_str())
                .concat(", button: ").concat(button_label(*button)).concat(" }")
        },
        ComputerAction::Drag { path } => {
            "Drag { path: ".to_owned().concat(describe_path(path).as_str()).concat(" }")
        },
        ComputerAction::KeyPress { keys } => {
            "KeyPress { keys: ".to_owned().concat(quote_all(keys).as_str()).concat(" }")
        },
        ComputerAction::Move { point } => {
            "Move { point: ".to_owned().concat(describe_point(point).as_str()).concat(" }")
        },
        ComputerAction::Screenshot => "Screenshot".to_owned(),
        ComputerAction::Scroll { point, delta_x, delta_y } => {
            "Scroll { point: ".to_owned().concat(describe_point(point).as_str())
                .concat(", delta_x: ").concat(signed_text(*delta_x).as_str())
                .concat(", delta_y: ").concat(signed_text(*delta_y).as_str()).concat(" }")
        },
        ComputerAction::Type { text } => {
            "Type { text: ".to_owned().concat(quote(text.as_str()).as_str()).concat(" }")
        },
        ComputerAction::Wait => "Wait".to_owned(),
    }
}

/// Description of a list of computer interactions.
pub open spec fn actions_text(items: Seq<ComputerActionView>) -> Seq<char> {
    listed(items.map_values(|item: ComputerActionView| action_text(item)))
}

/// Describes a list of computer interactions.
fn describe_actions(items: &Vec<ComputerAction>) -> (text: String)
    ensures
        text@ == actions_text(items@.map_values(|item: ComputerAction| item@)),
{
    let mut parts: Vec<String> = Vec::new();
    let n = items.len();
    let mut i: usize = 0;
    while i < n
        invariant
            n == items@.len(),
            i <= n,
            parts@.len() == i,
            forall|j: int| 0 <= j < i ==> (#[trigger] parts@[j])@ == action_text(items@[j]@),
        decreases n - i,
    {
        parts.push(describe_action(&items[i]));
        i += 1;
    }
    let ghost views = items@.map_values(|item: ComputerAction| item@);
    assert(texts(parts@) =~= views.map_values(|item: ComputerActionView| action_text(item)));
    list(&parts)
}

/// Description of a safety check.
pub open spec fn check_text(check: ComputerSafetyCheck) -> Seq<char> {
    "ComputerSafetyCheck { id: "@ + quoted(check.id@) + ", description: "@
        + quoted(check.description@) + " }"@
}

/// Describes a safety check.
fn describe_check(check: &ComputerSafetyCheck) -> (text: String)
    ensures
        text@ == check_text(*check),
{
    "ComputerSafetyCheck { id: ".to_owned().concat(quote(check.id.as_str()).as_str())
        .concat(", description: ").concat(quote(check.description.as_str()).as_str())
        .concat(" }")
}

/// Description of a list of safety checks.
pub open spec fn checks_text(items: Seq<ComputerSafetyCheck>) -> Seq<char> {
    listed(items.map_values(|item: ComputerSafetyCheck| check_text(item)))
}

/// Describes a list of safety checks.
fn describe_checks(items: &Vec<ComputerSafetyCheck>) -> (text: String)
    ensures
        text@ == checks_text(items@),
{
    let mut parts: Vec<String> = Vec::new();
    let n = items.len();
    let mut i: usize = 0;
    while i < n
        invariant
            n == items@.len(),
            i <= n,
            parts@.len() == i,
            forall|j: int| 0 <= j < i ==> (#[trigger] parts@[j])@ == check_text(items@[j]),
        decreases n - i,
    {
        parts.push(describe_check(&items[i]));
        i += 1;
    }
    assert(texts(parts@) =~= items@.map_values(|item: ComputerSafetyCheck| check_text(item)));
    list(&parts)
}

/// Description of an image source.
pub open spec fn image_text(source: ImageView) -> Seq<char> {
    match source {
        ImageView::Url { url, detail } => {
            "Url { url: "@ + quoted(url) + ", detail: "@ + opt_quoted(detail) + " }"@
        },
        ImageView::Base64 { media_type, data } => {
            "Base64 { media_type: "@ + opt_quoted(media_type) + ", data: "@ + quoted(data)
                + " }"@
        },
        ImageView::Raw(value) => "Raw("@ + json_debug(value) + ")"@,
    }
}

/// Describes an image source.
fn describe_image(source: &ImageSource) -> (text: String)
    ensures
        text@ == image_text(source@),
{
    match source {
        ImageSource::Url { url, detail } => {
            "Url { url: ".to_owned().concat(quote(url.as_str()).as_str()).concat(", detail: ")
                .concat(quote_optional(detail).as_str()).concat(" }")
        },
        ImageSource::Base64 { media_type, data } => {
            "Base64 { media_type: ".to_owned().concat(quote_optional(media_type).as_str())
                .concat(", data: ").concat(quote(data.as_str()).as_str()).concat(" }")
        },
        ImageSource::Raw(value) => "Raw(".to_owned().concat(debug_json(value).as_str()).concat(")"),
    }
}

/// Description of an audio or video source.
pub open spec fn media_text(source: MediaView) -> Seq<char> {
    match source {
        MediaView::Url { url, media_type } => {
            "Url { url: "@ + quoted(url) + ", media_type: "@ + opt_quoted(media_type) + " }"@
        },
        MediaView::Base64 { media_type, data } => {
            "Base64 { media_type: "@ + opt_quoted(media_type) + ", data: "@ + quoted(data)
                + " }"@
        },
        MediaView::Raw(value) => "Raw("@ + json_debug(value) + ")"@,
    }
}

/// Describes an audio or video source.
fn describe_media(source: &MediaSource) -> (text: String)
    ensures
        text@ == media_text(source@),
{
    match source {
        MediaSource::Url { url, media_type } => {
            "Url { url: ".to_owned().concat(quote(url.as_str()).as_str())
                .concat(", media_type: ").concat(quote_optional(media_type).as_str())
                .concat(" }")
        },
        MediaSource::Base64 { media_type, data } => {
            "Base64 { media_type: ".to_owned().concat(quote_optional(media_type).as_str())
                .concat(", data: ").concat(quote(data.as_str()).as_str()).concat(" }")
        },
        MediaSource::Raw(value) => "Raw(".to_owned().concat(debug_json(value).as_str()).concat(")"),
    }
}

/// Description of a file source.
pub open spec fn file_text(source: FileView) -> Seq<char> {
    match source {
        FileView::FileId(id) => "FileId("@ + quoted(id) + ")"@,
        FileView::FileData { data, filename } => {
            "FileData { data: "@ + quoted(data) + ", filename: "@ + opt_quoted(filename) + " }"@
        },
        FileView::Raw(value) => "Raw("@ + json_debug(value) + ")"@,
    }
}

/// Describes a file source.
fn describe_file(source: &FileSource) -> (text: String)
    ensures
        text@ == file_text(source@),
{
    match source {
        FileSource::FileId(id) => {
            "FileId(".to_owned().concat(quote(id.as_str()).as_str()).concat(")")
        },
        FileSource::FileData { data, filename } => {
            "FileData { data: ".to_owned().concat(quote(data.as_str()).as_str())
                .concat(", filename: ").concat(quote_optional(filename).as_str()).concat(" }")
        },
        FileSource::Raw(value) => "Raw(".to_owned().concat(debug_json(value).as_str()).concat(")"),
    }
}

/// Description of a tool call.
pub open spec fn call_text(call: ToolCallView) -> Seq<char> {
    "ToolCall { id: "@ + quoted(call.id) + ", name: "@ + quoted(call.name) + ", arguments: "@
        + json_debug(call.arguments) + " }"@
}

/// Describes a tool call.
fn describe_call(call: &ToolCall) -> (text: String)
    ensures
        text@ == call_text(call@),
{
    "ToolCall { id: ".to_owned().concat(quote(call.id.as_str()).as_str()).concat(", name: ")
        .concat(quote(call.name.as_str()).as_str()).concat(", arguments: ")
        .concat(debug_json(&call.arguments).as_str()).concat(" }")
}

/// Description of a free-form tool call.
pub open spec fn custom_call_text(call: CustomToolCallView) -> Seq<char> {
    "CustomToolCall { id: "@ + quoted(call.id) + ", item_id: "@ + opt_quoted(call.item_id)
        + ", name: "@ + quoted(call.name) + ", input: "@ + quoted(call.input) + " }"@
}

/// Describes a free-form tool call.
fn describe_custom_call(call: &CustomToolCall) -> (text: String)
    ensures
        text@ == custom_call_text(call@),
{
    "CustomToolCall { id: ".to_owned().concat(quote(call.id.as_str()).as_str())
        .concat(", item_id: ").concat(quote_optional(&call.item_id).as_str()).concat(", name: ")
        .concat(quote(call.name.as_str()).as_str()).concat(", input: ")
        .concat(quote(call.input.as_str()).as_str()).concat(" }")
}

/// Description of the result of a free-form tool call.
pub open spec fn custom_result_text(result: CustomToolResult) -> Seq<char> {
    "CustomToolResult { tool_call_id: "@ + quoted(result.tool_call_id@) + ", output: "@
        + quoted(result.output@) + ", is_error: "@ + opt_flag(result.is_error) + " }"@
}

/// Describes the result of a free-form tool call.
fn describe_custom_result(result: &CustomToolResult) -> (text: String)
    ensures
        text@ == custom_result_text(*result),
{
    "CustomToolResult { tool_call_id: ".to_owned()
        .concat(quote(result.tool_call_id.as_str()).as_str()).concat(", output: ")
        .concat(quote(result.output.as_str()).as_str()).concat(", is_error: ")
        .concat(flag_text(result.is_error)).concat(" }")
}

/// Description of a computer call.
pub open spec fn computer_call_text(call: ComputerToolCallView) -> Seq<char> {
    "ComputerToolCall { id: "@ + quoted(call.id) + ", item_id: "@ + opt_quoted(call.item_id)
        + ", actions: "@ + actions_text(call.actions) + ", pending_safety_checks: "@
        + checks_text(call.pending_safety_checks) + " }"@
}

/// Describes a computer call.
fn describe_computer_call(call: &ComputerToolCall) -> (text: String)
    ensures
        text@ == computer_call_text(call@),
{
    "ComputerToolCall { id: ".to_owned().concat(quote(call.id.as_str()).as_str())
        .concat(", item_id: ").concat(quote_optional(&call.item_id).as_str())
        .concat(", actions: ").concat(describe_actions(&call.actions).as_str())
        .concat(", pending_safety_checks: ")
        .concat(describe_checks(&call.pending_safety_checks).as_str()).concat(" }")
}

/// Description of the result of a computer call.
pub open spec fn computer_result_text(result: ComputerToolResultView) -> Seq<char> {
    "ComputerToolResult { tool_call_id: "@ + quoted(result.tool_call_id) + ", output: "@
        + image_text(result.output) + ", acknowledged_safety_checks: "@
        + all_quoted(result.acknowledged_safety_checks) + " }"@
}

/// Describes the result of a computer call.
fn describe_computer_result(result: &ComputerToolResult) -> (text: String)
    ensures
        text@ == computer_result_text(result@),
{
    "ComputerToolResult { tool_call_id: ".to_owned()
        .concat(quote(result.tool_call_id.as_str()).as_str()).concat(", output: ")
        .concat(describe_image(&result.output).as_str())
        .concat(", acknowledged_safety_checks: ")
        .concat(quote_all(&result.acknowledged_safety_checks).as_str()).concat(" }")
}

/// Description of a hosted tool.
pub open spec fn hosted_tool_text(tool: HostedToolView) -> Seq<char> {
    match tool {
        HostedToolView::WebSearch { allowed_domains } => {
            "WebSearch { allowed_domains: "@ + all_quoted(allowed_domains) + " }"@
        },
        HostedToolView::FileSearch { vector_store_ids, max_results } => {
            "FileSearch { vector_store_ids: "@ + all_quoted(vector_store_ids)
                + ", max_results: "@ + opt_number(max_results) + " }"@
        },
        HostedToolView::CodeInterpreter { container_id } => {
            "CodeInterpreter { container_id: "@ + opt_quoted(container_id) + " }"@
        },
        HostedToolView::ImageGeneration => "ImageGeneration"@,
    }
}

/// Describes a hosted tool.
fn describe_hosted_tool(tool: &HostedTool) -> (text: String)
    ensures
        text@ == hosted_tool_text(tool@),
{
    match tool {
        HostedTool::WebSearch { allowed_domains } => {
            "WebSearch { allowed_domains: ".to_owned()
                .concat(quote_all(allowed_domains).as_str()).concat(" }")
        },
        HostedTool::FileSearch { vector_store_ids, max_results } => {
            "FileSearch { vector_store_ids: ".to_owned()
                .concat(quote_all(vector_store_ids).as_str()).concat(", max_results: ")
                .concat(number_text(*max_results).as_str()).concat(" }")
        },
        HostedTool::CodeInterpreter { container_id } => {
            "CodeInterpreter { container_id: ".to_owned()
                .concat(quote_optional(container_id).as_str()).concat(" }")
        },
        HostedTool::ImageGeneration => "ImageGeneration".to_owned(),
    }
}

/// Description of a hosted call.
pub open spec fn hosted_call_text(call: HostedToolCallView) -> Seq<char> {
    "HostedToolCall { id: "@ + quoted(call.id) + ", item_id: "@ + opt_quoted(call.item_id)
        + ", tool: "@ + hosted_tool_text(call.tool) + ", arguments: "@
        + json_debug(call.arguments) + " }"@
}

/// Describes a hosted call.
fn describe_hosted_call(call: &HostedToolCall) -> (text: String)
    ensures
        text@ == hosted_call_text(call@),
{
    "HostedToolCall { id: ".to_owned().concat(quote(call.id.as_str()).as_str())
        .concat(", item_id: ").concat(quote_optional(&call.item_id).as_str()).concat(", tool: ")
        .concat(describe_hosted_tool(&call.tool).as_str()).concat(", arguments: ")
        .concat(debug_json(&call.arguments).as_str()).concat(" }")
}

/// Name of the purpose of opaque state.
pub open spec fn purpose_name(purpose: OpaqueStatePurpose) -> Seq<char> {
    match purpose {
        OpaqueStatePurpose::Reasoning => "Reasoning"@,
        OpaqueStatePurpose::Conversation => "Conversation"@,
        OpaqueStatePurpose::Compaction => "Compaction"@,
        OpaqueStatePurpose::TurnRouting => "TurnRouting"@,
    }
}

/// Name of the purpose of opaque state.
fn purpose_label(purpose: OpaqueStatePurpose) -> (name: &'static str)
    ensures
        name@ == purpose_name(purpose),
{
    match purpose {
        OpaqueStatePurpose::Reasoning => "Reasoning",
        OpaqueStatePurpose::Conversation => "Conversation",
        OpaqueStatePurpose::Compaction => "Compaction",
        OpaqueStatePurpose::TurnRouting => "TurnRouting",
    }
}

/// Description of opaque state.
pub open spec fn state_text(state: OpaqueState) -> Seq<char> {
    "OpaqueState { purpose: "@ + purpose_name(state.spec_purpose()) + ", data: "@
        + quoted(state.spec_data()) + " }"@
}

/// Describes opaque state.
fn describe_state(state: &OpaqueState) -> (text: String)
    ensures
        text@ == state_text(*state),
{
    "OpaqueState { purpose: ".to_owned().concat(purpose_label(state.purpose()))
        .concat(", data: ").concat(quote(state.data()).as_str()).concat(" }")
}

/// Description of optional opaque state.
pub open spec fn opt_state_text(state: Option<OpaqueState>) -> Seq<char> {
    match state {
        Some(state) => "Some("@ + state_text(state) + ")"@,
        None => "None"@,
    }
}

/// Describes optional opaque state.
fn describe_optional_state(state: &Option<OpaqueState>) -> (text: String)
    ensures
        text@ == opt_state_text(*state),
{
    match state {
        Some(state) => "Some(".to_owned().concat(describe_state(state).as_str()).concat(")"),
        None => "None".to_owned(),
    }
}

/// Description of a compaction.
pub open spec fn compaction_text(item: CompactionItem) -> Seq<char> {
    "CompactionItem { id: "@ + opt_quoted(opt_text(item.id)) + ", summary: "@
        + opt_quoted(opt_text(item.summary)) + ", state: "@ + opt_state_text(item.state) + " }"@
}

/// Describes a compaction.
fn describe_compaction(item: &CompactionItem) -> (text: String)
    ensures
        text@ == compaction_text(*item),
{
    "CompactionItem { id: ".to_owned().concat(quote_optional(&item.id).as_str())
        .concat(", summary: ").concat(quote_optional(&item.summary).as_str())
        .concat(", state: ").concat(describe_optional_state(&item.state).as_str()).concat(" }")
}

/// Description of a generated image.
pub open spec fn generated_text(image: GeneratedImageView) -> Seq<char> {
    "GeneratedImage { id: "@ + opt_quoted(image.id) + ", source: "@ + image_text(image.source)
        + " }"@
}

/// Describes a generated image.
fn describe_generated(image: &GeneratedImage) -> (text: String)
    ensures
        text@ == generated_text(image@),
{
    "GeneratedImage { id: ".to_owned().concat(quote_optional(&image.id).as_str())
        .concat(", source: ").concat(describe_image(&image.source).as_str()).concat(" }")
}

/// Description of a pause.
pub open spec fn pause_text(pause: PauseTurn) -> Seq<char> {
    "PauseTurn { continuation_id: "@ + opt_quoted(opt_text(pause.continuation_id))
        + ", reason: "@ + opt_quoted(opt_text(pause.reason)) + " }"@
}

/// Describes a pause.
fn describe_pause(pause: &PauseTurn) -> (text: String)
    ensures
        text@ == pause_text(*pause),
{
    "PauseTurn { continuation_id: ".to_owned()
        .concat(quote_optional(&pause.continuation_id).as_str()).concat(", reason: ")
        .concat(quote_optional(&pause.reason).as_str()).concat(" }")
}

/// Name of a reasoning field.
pub open spec fn field_name(field: OpenAiChatReasoningField) -> Seq<char> {
    match field {
        OpenAiChatReasoningField::Reasoning => "Reasoning"@,
        OpenAiChatReasoningField::ReasoningContent => "ReasoningContent"@,
    }
}

/// Name of a reasoning field.
fn field_label(field: OpenAiChatReasoningField) -> (name: &'static str)
    ensures
        name@ == field_name(field),
{
    match field {
        OpenAiChatReasoningField::Reasoning => "Reasoning",
        OpenAiChatReasoningField::ReasoningContent => "ReasoningContent",
    }
}

/// Descriptions of blocks.
pub open spec fn block_texts(content: Seq<ContentView>) -> Seq<Seq<char>>
    decreases content,
{
    Seq::new(
        content.len(),
        |i: int|
            if 0 <= i < content.len() {
                block_text(content[i])
            } else {
                arbitrary()
            },
    )
}

/// Describes a list of blocks.
fn describe_blocks(blocks: &Vec<ContentBlock>) -> (text: String)
    ensures
        text@ == listed(block_texts(contents(blocks@))),
    decreases blocks,
{
    let mut parts: Vec<String> = Vec::new();
    let n = blocks.len();
    let mut i: usize = 0;
    while i < n
        invariant
            n == blocks@.len(),
            i <= n,
            parts@.len() == i,
            forall|j: int| 0 <= j < i ==> (#[trigger] parts@[j])@ == block_text(blocks@[j]@),
        decreases n - i,
    {
        parts.push(describe_block(&blocks[i]));
        i += 1;
    }
    assert(texts(parts@) =~= block_texts(contents(blocks@)));
    list(&parts)
}

/// Description of a content block.
pub open spec fn block_text(block: ContentView) -> Seq<char>
    decreases block,
{
    match block {
        ContentView::Text { text } => "Text { text: "@ + quoted(text) + " }"@,
        ContentView::Reasoning { text, signature, details, openai_chat_field } => {
            "Reasoning { text: "@ + quoted(text) + ", signature: "@ + opt_quoted(signature)
                + ", details: "@ + documents_text(details) + ", openai_chat_field: "@
                + field_name(openai_chat_field) + " }"@
        },
        ContentView::Image { source } => "Image { source: "@ + image_text(source) + " }"@,
        ContentView::Audio { source } => "Audio { source: "@ + media_text(source) + " }"@,
        ContentView::Video { source } => "Video { source: "@ + media_text(source) + " }"@,
        ContentView::File { source } => "File { source: "@ + file_text(source) + " }"@,
        ContentView::ToolCall(call) => "ToolCall("@ + call_text(call) + ")"@,
        ContentView::ToolResult(result) => {
            "ToolResult(ToolResult { tool_call_id: "@ + quoted(result.tool_call_id)
                + ", content: "@ + listed(block_texts(result.content)) + ", is_error: "@
                + opt_flag(result.is_error) + " })"@
        },
        ContentView::CustomToolCall(call) => "CustomToolCall("@ + custom_call_text(call) + ")"@,
        ContentView::CustomToolResult(result) => {
            "CustomToolResult("@ + custom_result_text(result) + ")"@
        },
        ContentView::ComputerToolCall(call) => {
            "ComputerToolCall("@ + computer_call_text(call) + ")"@
        },
        ContentView::ComputerToolResult(result) => {
            "ComputerToolResult("@ + computer_result_text(result) + ")"@
        },
        ContentView::HostedToolCall(call) => "HostedToolCall("@ + hosted_call_text(call) + ")"@,
        ContentView::HostedToolResult(result) => {
            "HostedToolResult(HostedToolResult { tool_call_id: "@ + quoted(result.tool_call_id)
                + ", content: "@ + listed(block_texts(result.content)) + ", is_error: "@
                + opt_flag(result.is_error) + " })"@
        },
        ContentView::OpaqueState(state) => "OpaqueState("@ + state_text(state) + ")"@,
        ContentView::Compaction(item) => "Compaction("@ + compaction_text(item) + ")"@,
        ContentView::GeneratedImage(image) => "GeneratedImage("@ + generated_text(image) + ")"@,
        ContentView::PauseTurn(pause) => "PauseTurn("@ + pause_text(pause) + ")"@,
        ContentView::Refusal { text } => "Refusal { text: "@ + quoted(text) + " }"@,
        ContentView::Unknown { provider, raw } => {
            "Unknown { provider: FormatId("@ + quoted(provider) + "), raw: "@ + json_debug(raw)
                + " }"@
        },
    }
}

/// Describes a content block.
pub fn describe_block(block: &ContentBlock) -> (text: String)
    ensures
        text@ == block_text(block@),
    decreases block,
{
    match block {
        ContentBlock::Text { text } => {
            "Text { text: ".to_owned().concat(quote(text.as_str()).as_str()).concat(" }")
        },
        ContentBlock::Reasoning { text, signature, details, openai_chat_field } => {
            "Reasoning { text: ".to_owned().concat(quote(text.as_str()).as_str())
                .concat(", signature: ").concat(quote_optional(signature).as_str())
                .concat(", details: ").concat(describe_documents(details).as_str())
                .concat(", openai_chat_field: ").concat(field_label(*openai_chat_field))
                .concat(" }")
        },
        ContentBlock::Image { source } => {
            "Image { source: ".to_owned().concat(describe_image(source).as_str()).concat(" }")
        },
        ContentBlock::Audio { source } => {
            "Audio { source: ".to_owned().concat(describe_media(source).as_str()).concat(" }")
        },
        ContentBlock::Video { source } => {
            "Video { source: ".to_owned().concat(describe_media(source).as_str()).concat(" }")
        },
        ContentBlock::File { source } => {
            "File { source: ".to_owned().concat(describe_file(source).as_str()).concat(" }")
        },
        ContentBlock::ToolCall(call) => {
            "ToolCall(".to_owned().concat(describe_call(call).as_str()).concat(")")
        },
        ContentBlock::ToolResult(result) => {
            "ToolResult(ToolResult { tool_call_id: ".to_owned()
                .concat(quote(result.tool_call_id.as_str()).as_str()).concat(", content: ")
                .concat(describe_blocks(&result.content).as_str()).concat(", is_error: ")
                .concat(flag_text(result.is_error)).concat(" })")
        },
        ContentBlock::CustomToolCall(call) => {
            "CustomToolCall(".to_owned().concat(describe_custom_call(call).as_str()).concat(")")
        },
        ContentBlock::CustomToolResult(result) => {
            "CustomToolResult(".to_owned().concat(describe_custom_result(result).as_str())
                .concat(")")
        },
        ContentBlock::ComputerToolCall(call) => {
            "ComputerToolCall(".to_owned().concat(describe_computer_call(call).as_str())
                .concat(")")
        },
        ContentBlock::ComputerToolResult(result) => {
            "ComputerToolResult(".to_owned().concat(describe_computer_result(result).as_str())
                .concat(")")
        },
        ContentBlock::HostedToolCall(call) => {
            "HostedToolCall(".to_owned().concat(describe_hosted_call(call).as_str()).concat(")")
        },
        ContentBlock::HostedToolResult(result) => {
            "HostedToolResult(HostedToolResult { tool_call_id: ".to_owned()
                .concat(quote(result.tool_call_id.as_str()).as_str()).concat(", content: ")
                .concat(describe_blocks(&result.content).as_str()).concat(", is_error: ")
                .concat(flag_text(result.is_error)).concat(" })")
        },
        ContentBlock::OpaqueState(state) => {
            "OpaqueState(".to_owned().concat(describe_state(state).as_str()).concat(")")
        },
        ContentBlock::Compaction(item) => {
            "Compaction(".to_owned().concat(describe_compaction(item).as_str()).concat(")")
        },
        ContentBlock::GeneratedImage(image) => {
            "GeneratedImage(".to_owned().concat(describe_generated(image).as_str()).concat(")")
        },
        ContentBlock::PauseTurn(pause) => {
            "PauseTurn(".to_owned().concat(describe_pause(pause).as_str()).concat(")")
        },
        ContentBlock::Refusal { text } => {
            "Refusal { text: ".to_owned().concat(quote(text.as_str()).as_str()).concat(" }")
        },
        ContentBlock::Unknown { provider, raw } => {
            "Unknown { provider: FormatId(".to_owned().concat(quote(provider.as_str()).as_str())
                .concat("), raw: ").concat(debug_json(raw).as_str()).concat(" }")
        },
    }
}

} // verus!
