//! Content blocks of Converse documents.
use vstd::prelude::*;
use vstd::string::*;

use super::fields::{
    copied_or_object, encode_role, encoded_role, nullable, object_of, or_object, owned, single,
    text_or_null,
};
use crate::accumulate::or_empty;
use crate::describe::{block_text, describe_block};
use crate::format::WireFormat;
use crate::json::{
    array_field, field, jsons, lemma_value_view, object_field, print_json, printed, str_field,
    string_field, string_of, Json, JsonMap, Value,
};
use crate::llm::{
    ContentBlock, ImageSource, Message, OpenAiChatReasoningField, Role, ToolCall, ToolResult,
};
use crate::model::{
    contents, lemma_content_view, ContentView, ImageView, MessageView, ToolCallView, ToolResultView,
};
use crate::text::{after_prefix, decimal, decimal_text, strip_prefix, text_eq};
use crate::translation::{
    done, each, failed, law_first_failure_decides, lemma_take_next, lossy, mapped, messages,
    not_an_object, object_expected, push_lossy, Step, TranslationDiagnostic, TranslationError,
    TranslationErrorView, TranslationPolicy,
};

verus! {

broadcast use {lemma_value_view, lemma_content_view};

/// Name of a role in messages to people.
pub open spec fn role_name(role: Role) -> Seq<char> {
    match role {
        Role::System => "System"@,
        Role::Developer => "Developer"@,
        Role::User => "User"@,
        Role::Assistant => "Assistant"@,
        Role::Tool => "Tool"@,
    }
}

/// Name of a role in messages to people.
fn role_label(role: Role) -> (name: &'static str)
    ensures
        name@ == role_name(role),
{
    match role {
        Role::System => "System",
        Role::Developer => "Developer",
        Role::User => "User",
        Role::Assistant => "Assistant",
        Role::Tool => "Tool",
    }
}

/// String field of an object; the empty text where there is none.
pub open spec fn text_field(fields: Map<Seq<char>, Json>, key: Seq<char>) -> Seq<char> {
    or_empty(str_field(fields, key))
}

/// String field of an object; the empty text where there is none.
fn text_or_empty(map: &JsonMap, key: &str) -> (text: String)
    ensures
        text@ == text_field(map@, key@),
{
    match map.str_field(key) {
        Some(text) => text.to_owned(),
        None => {
            let empty = String::new();
            assert(empty@ =~= Seq::empty());
            empty
        },
    }
}

/// Block of tool-result content: text, a JSON document as text, or an unknown block.
pub open spec fn decoded_result_block(block: Json) -> ContentView {
    match string_of(block, "text"@) {
        Some(text) => ContentView::Text { text },
        None => match block.get("json"@) {
            Some(value) => ContentView::Text { text: printed(value) },
            None => ContentView::Unknown {
                provider: WireFormat::BedrockConverse.name(),
                raw: block,
            },
        },
    }
}

/// Decodes one block of tool-result content.
fn decode_result_block(block: &Value) -> (content: ContentBlock)
    ensures
        content@ == decoded_result_block(block@),
{
    match string_field(block, "text") {
        Some(text) => ContentBlock::Text { text: text.to_owned() },
        None => match block.get("json") {
            Some(value) => ContentBlock::Text { text: print_json(value) },
            None => ContentBlock::Unknown {
                provider: WireFormat::BedrockConverse.id(),
                raw: block.clone(),
            },
        },
    }
}

/// Blocks of tool-result content.
pub open spec fn decoded_result_content(blocks: Seq<Json>) -> Seq<ContentView> {
    blocks.map_values(|block: Json| decoded_result_block(block))
}

/// Decodes tool-result content.
pub fn decode_tool_result_content(blocks: &Vec<Value>) -> (content: Vec<ContentBlock>)
    ensures
        contents(content@) == decoded_result_content(jsons(blocks@)),
{
    let mut content: Vec<ContentBlock> = Vec::new();
    let n = blocks.len();
    let mut i: usize = 0;
    while i < n
        invariant
            n == blocks@.len(),
            i <= n,
            content@.len() == i,
            forall|j: int|
                0 <= j < i ==> (#[trigger] content@[j])@ == decoded_result_block(blocks@[j]@),
        decreases n - i,
    {
        content.push(decode_result_block(&blocks[i]));
        i += 1;
    }
    assert(contents(content@) =~= decoded_result_content(jsons(blocks@)));
    content
}

/// The call of a `toolUse` object.
pub open spec fn decoded_tool_use(tool: Map<Seq<char>, Json>) -> ContentView {
    ContentView::ToolCall(
        ToolCallView {
            id: text_field(tool, "toolUseId"@),
            name: text_field(tool, "name"@),
            arguments: or_object(field(tool, "input"@)),
        },
    )
}

/// The result of a `toolResult` object.
pub open spec fn decoded_tool_result(tool: Map<Seq<char>, Json>) -> ContentView {
    ContentView::ToolResult(
        ToolResultView {
            tool_call_id: text_field(tool, "toolUseId"@),
            content: match array_field(tool, "content"@) {
                Some(blocks) => decoded_result_content(blocks),
                None => Seq::empty(),
            },
            is_error: match str_field(tool, "status"@) {
                Some(status) => Some(status == "error"@),
                None => None,
            },
        },
    )
}

/// The reasoning of a `reasoningContent` object. Its text stands in `reasoningText` or, where
/// there is no such object, in the object itself.
pub open spec fn decoded_reasoning(reasoning: Map<Seq<char>, Json>) -> ContentView {
    let inner = match object_field(reasoning, "reasoningText"@) {
        Some(inner) => inner,
        None => reasoning,
    };
    ContentView::Reasoning {
        text: text_field(inner, "text"@),
        signature: str_field(inner, "signature"@),
        details: Seq::empty(),
        openai_chat_field: OpenAiChatReasoningField::Reasoning,
    }
}

/// The image of an `image` object, if it holds inline bytes.
pub open spec fn decoded_image(image: Map<Seq<char>, Json>) -> Option<ContentView> {
    match object_field(image, "source"@) {
        Some(source) => match str_field(source, "bytes"@) {
            Some(data) => Some(
                ContentView::Image {
                    source: ImageView::Base64 {
                        media_type: match str_field(image, "format"@) {
                            Some(format) => Some("image/"@ + format),
                            None => None,
                        },
                        data,
                    },
                },
            ),
            None => None,
        },
        None => None,
    }
}

/// The normalized block of a content object, if there is one. Text comes before tool use, tool
/// results, reasoning and images.
pub open spec fn recognized(fields: Map<Seq<char>, Json>) -> Option<ContentView> {
    if let Some(text) = str_field(fields, "text"@) {
        Some(ContentView::Text { text })
    } else if let Some(tool) = object_field(fields, "toolUse"@) {
        Some(decoded_tool_use(tool))
    } else if let Some(tool) = object_field(fields, "toolResult"@) {
        Some(decoded_tool_result(tool))
    } else if let Some(reasoning) = object_field(fields, "reasoningContent"@) {
        Some(decoded_reasoning(reasoning))
    } else if let Some(image) = object_field(fields, "image"@) {
        decoded_image(image)
    } else {
        None
    }
}

/// Decoding of one content block. A block that is not recognized is kept as it is and reported.
pub open spec fn decoded_block(
    block: Json,
    role: Role,
    index: int,
    policy: TranslationPolicy,
) -> Step<ContentView> {
    match block {
        Json::Object(fields) => match recognized(fields) {
            Some(content) => done(content),
            None => lossy(
                policy,
                "unsupported Bedrock Converse content block for "@ + role_name(role),
                ContentView::Unknown { provider: WireFormat::BedrockConverse.name(), raw: block },
            ),
        },
        _ => failed(not_an_object("$.content["@ + decimal(index as nat) + "]"@)),
    }
}

/// Decodes the fields of a content object, where they are recognized.
fn recognize(object: &JsonMap) -> (content: Option<ContentBlock>)
    ensures
        match content {
            Some(content) => recognized(object@) == Some(content@),
            None => recognized(object@) is None,
        },
{
    if let Some(text) = object.str_field("text") {
        return Some(ContentBlock::Text { text: text.to_owned() });
    }
    if let Some(tool) = object.object_field("toolUse") {
        return Some(
            ContentBlock::ToolCall(
                ToolCall {
                    id: text_or_empty(tool, "toolUseId"),
                    name: text_or_empty(tool, "name"),
                    arguments: copied_or_object(tool.get("input")),
                },
            ),
        );
    }
    if let Some(tool) = object.object_field("toolResult") {
        let content = match tool.array_field("content") {
            Some(blocks) => decode_tool_result_content(blocks),
            None => {
                let none: Vec<ContentBlock> = Vec::new();
                assert(contents(none@) =~= Seq::empty());
                none
            },
        };
        return Some(
            ContentBlock::ToolResult(
                ToolResult {
                    tool_call_id: text_or_empty(tool, "toolUseId"),
                    content,
                    is_error: match tool.str_field("status") {
                        Some(status) => Some(text_eq(status, "error")),
                        None => None,
                    },
                },
            ),
        );
    }
    if let Some(reasoning) = object.object_field("reasoningContent") {
        let inner = match reasoning.object_field("reasoningText") {
            Some(inner) => inner,
            None => reasoning,
        };
        let details: Vec<Value> = Vec::new();
        assert(jsons(details@) =~= Seq::empty());
        return Some(
            ContentBlock::Reasoning {
                text: text_or_empty(inner, "text"),
                signature: owned(inner.str_field("signature")),
                details,
                openai_chat_field: OpenAiChatReasoningField::default(),
            },
        );
    }
    if let Some(image) = object.object_field("image") {
        if let Some(source) = image.object_field("source") {
            if let Some(data) = source.str_field("bytes") {
                return Some(
                    ContentBlock::Image {
                        source: ImageSource::Base64 {
                            media_type: match image.str_field("format") {
                                Some(format) => Some("image/".to_owned().concat(format)),
                                None => None,
                            },
                            data: data.to_owned(),
                        },
                    },
                );
            }
        }
    }
    None
}

/// Contents of the outcome of decoding a block.
pub open spec fn block_outcome(outcome: Result<ContentBlock, TranslationError>) -> Result<
    ContentView,
    TranslationErrorView,
> {
    match outcome {
        Ok(block) => Ok(block@),
        Err(error) => Err(error@),
    }
}

/// Decodes one content block.
pub fn decode_content_block(
    block: &Value,
    role: Role,
    index: usize,
    diagnostics: &mut Vec<TranslationDiagnostic>,
    policy: &TranslationPolicy,
) -> (outcome: Result<ContentBlock, TranslationError>)
    ensures
        block_outcome(outcome) == decoded_block(block@, role, index as int, *policy).outcome,
        messages(final(diagnostics)@) == messages(old(diagnostics)@) + decoded_block(
            block@,
            role,
            index as int,
            *policy,
        ).diagnostics,
{
    let ghost before = messages(diagnostics@);
    let object = match block.as_object() {
        Some(object) => object,
        None => {
            assert(before + Seq::empty() =~= before);
            return Err(
                object_expected(
                    "$.content[".to_owned().concat(decimal_text(index as u64).as_str()).concat("]"),
                ),
            );
        },
    };
    if let Some(content) = recognize(object) {
        assert(before + Seq::empty() =~= before);
        return Ok(content);
    }
    let message = "unsupported Bedrock Converse content block for ".to_owned().concat(
        role_label(role),
    );
    let ghost said = message@;
    if let Err(error) = push_lossy(diagnostics, policy, message) {
        assert(before + Seq::empty() =~= before);
        return Err(error);
    }
    assert(messages(diagnostics@) =~= before + seq![said]);
    Ok(ContentBlock::Unknown { provider: WireFormat::BedrockConverse.id(), raw: block.clone() })
}

/// Decoding of a list of content blocks.
pub open spec fn decoded_content(
    blocks: Seq<Json>,
    role: Role,
    policy: TranslationPolicy,
) -> Step<Seq<ContentView>> {
    each(blocks, |index: int, block: Json| decoded_block(block, role, index, policy))
}

/// Contents of the outcome of decoding a list of blocks.
pub open spec fn content_outcome(outcome: Result<Vec<ContentBlock>, TranslationError>) -> Result<
    Seq<ContentView>,
    TranslationErrorView,
> {
    match outcome {
        Ok(content) => Ok(contents(content@)),
        Err(error) => Err(error@),
    }
}

/// Decodes a list of content blocks.
pub fn decode_content(
    blocks: &Vec<Value>,
    role: Role,
    diagnostics: &mut Vec<TranslationDiagnostic>,
    policy: &TranslationPolicy,
) -> (outcome: Result<Vec<ContentBlock>, TranslationError>)
    ensures
        content_outcome(outcome) == decoded_content(jsons(blocks@), role, *policy).outcome,
        messages(final(diagnostics)@) == messages(old(diagnostics)@) + decoded_content(
            jsons(blocks@),
            role,
            *policy,
        ).diagnostics,
{
    let ghost before = messages(diagnostics@);
    let ghost all = jsons(blocks@);
    let ghost step = |index: int, block: Json| decoded_block(block, role, index, *policy);
    let mut content: Vec<ContentBlock> = Vec::new();
    let n = blocks.len();
    let mut i: usize = 0;
    proof {
        assert(all.take(0) =~= Seq::empty());
        assert(contents(content@) =~= Seq::empty());
        assert(before =~= before + each(all.take(0), step).diagnostics);
    }
    while i < n
        invariant
            n == blocks@.len(),
            i <= n,
            all == jsons(blocks@),
            step == (|index: int, block: Json| decoded_block(block, role, index, *policy)),
            before == messages(old(diagnostics)@),
            each(all.take(i as int), step).outcome == Ok::<Seq<ContentView>, TranslationErrorView>(
                contents(content@),
            ),
            messages(diagnostics@) == before + each(all.take(i as int), step).diagnostics,
        decreases n - i,
    {
        let ghost so_far = contents(content@);
        let ghost reported = each(all.take(i as int), step).diagnostics;
        let ghost last = decoded_block(blocks@[i as int]@, role, i as int, *policy);
        proof {
            lemma_take_next(all, i as int);
            assert(all[i as int] == blocks@[i as int]@);
            assert(before + reported + last.diagnostics =~= before + (reported
                + last.diagnostics));
        }
        match decode_content_block(&blocks[i], role, i, diagnostics, policy) {
            Ok(block) => {
                let ghost view = block@;
                content.push(block);
                assert(contents(content@) =~= so_far.push(view));
            },
            Err(error) => {
                proof {
                    law_first_failure_decides(all, i + 1, step);
                }
                return Err(error);
            },
        }
        i += 1;
    }
    assert(all.take(n as int) =~= all);
    Ok(content)
}

/// Text that stands for a block that Converse has no form for.
pub open spec fn placeholder(block: ContentView) -> Seq<char> {
    match block {
        ContentView::Audio { .. } => "[audio]"@,
        ContentView::Video { .. } => "[video]"@,
        ContentView::File { .. } => "[file]"@,
        ContentView::Image { .. } => "[image]"@,
        _ => "[unsupported content]"@,
    }
}

/// Text that stands for a block that Converse has no form for.
pub fn unsupported_text(block: &ContentBlock) -> (text: String)
    ensures
        text@ == placeholder(block@),
{
    match block {
        ContentBlock::Audio { .. } => "[audio]".to_owned(),
        ContentBlock::Video { .. } => "[video]".to_owned(),
        ContentBlock::File { .. } => "[file]".to_owned(),
        ContentBlock::Image { .. } => "[image]".to_owned(),
        _ => "[unsupported content]".to_owned(),
    }
}

/// Converse form of a block of tool-result content.
pub open spec fn encoded_result_block(block: ContentView) -> Json {
    match block {
        ContentView::Text { text } => object_of("text"@, Json::String(text)),
        ContentView::Refusal { text } => object_of("text"@, Json::String(text)),
        ContentView::Unknown { provider, raw } => object_of("json"@, raw),
        _ => object_of("text"@, Json::String(placeholder(block))),
    }
}

/// Encodes one block of tool-result content.
pub fn encode_tool_result_block(block: &ContentBlock) -> (value: Value)
    ensures
        value@ == encoded_result_block(block@),
{
    match block {
        ContentBlock::Text { text } => single("text", Value::text(text.as_str())),
        ContentBlock::Refusal { text } => single("text", Value::text(text.as_str())),
        ContentBlock::Unknown { raw, .. } => single("json", raw.clone()),
        other => single("text", Value::String(unsupported_text(other))),
    }
}

/// Converse form of tool-result content.
pub open spec fn encoded_result_content(content: Seq<ContentView>) -> Seq<Json> {
    content.map_values(|block: ContentView| encoded_result_block(block))
}

/// Encodes tool-result content.
fn encode_tool_result_content(content: &Vec<ContentBlock>) -> (blocks: Vec<Value>)
    ensures
        jsons(blocks@) == encoded_result_content(contents(content@)),
{
    let mut blocks: Vec<Value> = Vec::new();
    let n = content.len();
    let mut i: usize = 0;
    while i < n
        invariant
            n == content@.len(),
            i <= n,
            blocks@.len() == i,
            forall|j: int|
                0 <= j < i ==> (#[trigger] blocks@[j])@ == encoded_result_block(content@[j]@),
        decreases n - i,
    {
        blocks.push(encode_tool_result_block(&content[i]));
        i += 1;
    }
    assert(jsons(blocks@) =~= encoded_result_content(contents(content@)));
    blocks
}

/// Format name of an image: what follows `image/` in its media type, else `png`.
pub open spec fn image_format(media_type: Option<Seq<char>>) -> Seq<char> {
    match media_type {
        Some(media_type) => match after_prefix(media_type, "image/"@) {
            Some(format) => format,
            None => "png"@,
        },
        None => "png"@,
    }
}

/// Converse form of a block, where Converse has one.
pub open spec fn supported(block: ContentView) -> Option<Json> {
    match block {
        ContentView::Text { text } => Some(object_of("text"@, Json::String(text))),
        ContentView::Refusal { text } => Some(object_of("text"@, Json::String(text))),
        ContentView::Reasoning { text, signature, details, openai_chat_field } => Some(
            object_of(
                "reasoningContent"@,
                object_of(
                    "reasoningText"@,
                    Json::Object(
                        Map::empty().insert("text"@, Json::String(text)).insert(
                            "signature"@,
                            text_or_null(signature),
                        ),
                    ),
                ),
            ),
        ),
        ContentView::ToolCall(call) => Some(
            object_of(
                "toolUse"@,
                Json::Object(
                    Map::empty().insert("toolUseId"@, Json::String(call.id)).insert(
                        "name"@,
                        Json::String(call.name),
                    ).insert("input"@, call.arguments),
                ),
            ),
        ),
        ContentView::ToolResult(result) => Some(
            object_of(
                "toolResult"@,
                Json::Object(
                    Map::empty().insert("toolUseId"@, Json::String(result.tool_call_id)).insert(
                        "content"@,
                        Json::Array(encoded_result_content(result.content)),
                    ).insert(
                        "status"@,
                        Json::String(
                            if result.is_error == Some(true) {
                                "error"@
                            } else {
                                "success"@
                            },
                        ),
                    ),
                ),
            ),
        ),
        ContentView::Image { source: ImageView::Base64 { media_type, data } } => Some(
            object_of(
                "image"@,
                Json::Object(
                    Map::empty().insert("format"@, Json::String(image_format(media_type))).insert(
                        "source"@,
                        object_of("bytes"@, Json::String(data)),
                    ),
                ),
            ),
        ),
        ContentView::Unknown { provider, raw } => if provider
            == WireFormat::BedrockConverse.name() {
            Some(raw)
        } else {
            None
        },
        _ => None,
    }
}

/// Encoding of a block that Converse has no form for, given its description: a placeholder text,
/// reported as a loss.
pub open spec fn encoded_unsupported(
    block: ContentView,
    description: Seq<char>,
    policy: TranslationPolicy,
) -> Step<Json> {
    lossy(
        policy,
        "unsupported content block encoded for Bedrock Converse: "@ + description,
        object_of("text"@, Json::String(placeholder(block))),
    )
}

/// Encoding of one content block.
pub open spec fn encoded_block(block: ContentView, policy: TranslationPolicy) -> Step<Json> {
    match supported(block) {
        Some(value) => done(value),
        None => encoded_unsupported(block, block_text(block), policy),
    }
}

/// Contents of the outcome of encoding.
pub open spec fn value_outcome(outcome: Result<Value, TranslationError>) -> Result<
    Json,
    TranslationErrorView,
> {
    match outcome {
        Ok(value) => Ok(value@),
        Err(error) => Err(error@),
    }
}

/// Encodes a block that Converse has no form for, given its description.
pub fn encode_unsupported(
    block: &ContentBlock,
    description: &str,
    diagnostics: &mut Vec<TranslationDiagnostic>,
    policy: &TranslationPolicy,
) -> (outcome: Result<Value, TranslationError>)
    ensures
        value_outcome(outcome) == encoded_unsupported(block@, description@, *policy).outcome,
        messages(final(diagnostics)@) == messages(old(diagnostics)@) + encoded_unsupported(
            block@,
            description@,
            *policy,
        ).diagnostics,
{
    let ghost before = messages(diagnostics@);
    let message = "unsupported content block encoded for Bedrock Converse: ".to_owned().concat(
        description,
    );
    let ghost said = message@;
    if let Err(error) = push_lossy(diagnostics, policy, message) {
        assert(before + Seq::empty() =~= before);
        return Err(error);
    }
    assert(messages(diagnostics@) =~= before + seq![said]);
    Ok(single("text", Value::String(unsupported_text(block))))
}

/// Encodes a block that Converse has a form for.
fn encode_supported(block: &ContentBlock) -> (value: Option<Value>)
    ensures
        match value {
            Some(value) => supported(block@) == Some(value@),
            None => supported(block@) is None,
        },
{
    match block {
        ContentBlock::Text { text } => Some(single("text", Value::text(text.as_str()))),
        ContentBlock::Refusal { text } => Some(single("text", Value::text(text.as_str()))),
        ContentBlock::Reasoning { text, signature, .. } => Some(
            single(
                "reasoningContent",
                single(
                    "reasoningText",
                    Value::Object(
                        JsonMap::new().with("text", Value::text(text.as_str())).with(
                            "signature",
                            nullable(signature),
                        ),
                    ),
                ),
            ),
        ),
        ContentBlock::ToolCall(call) => Some(
            single(
                "toolUse",
                Value::Object(
                    JsonMap::new().with("toolUseId", Value::text(call.id.as_str())).with(
                        "name",
                        Value::text(call.name.as_str()),
                    ).with("input", call.arguments.clone()),
                ),
            ),
        ),
        ContentBlock::ToolResult(result) => {
            let status = match result.is_error {
                Some(true) => "error",
                _ => "success",
            };
            Some(
                single(
                    "toolResult",
                    Value::Object(
                        JsonMap::new().with(
                            "toolUseId",
                            Value::text(result.tool_call_id.as_str()),
                        ).with(
                            "content",
                            Value::Array(encode_tool_result_content(&result.content)),
                        ).with("status", Value::text(status)),
                    ),
                ),
            )
        },
        ContentBlock::Image { source: ImageSource::Base64 { media_type, data } } => {
            let format: &str = match media_type {
                Some(media_type) => match strip_prefix(media_type.as_str(), "image/") {
                    Some(format) => format,
                    None => "png",
                },
                None => "png",
            };
            Some(
                single(
                    "image",
                    Value::Object(
                        JsonMap::new().with("format", Value::text(format)).with(
                            "source",
                            single("bytes", Value::text(data.as_str())),
                        ),
                    ),
                ),
            )
        },
        ContentBlock::Unknown { provider, raw } => {
            if text_eq(provider.as_str(), WireFormat::BedrockConverse.as_str()) {
                Some(raw.clone())
            } else {
                None
            }
        },
        _ => None,
    }
}

/// Encodes one content block.
pub fn encode_content_block(
    block: &ContentBlock,
    diagnostics: &mut Vec<TranslationDiagnostic>,
    policy: &TranslationPolicy,
) -> (outcome: Result<Value, TranslationError>)
    ensures
        value_outcome(outcome) == encoded_block(block@, *policy).outcome,
        messages(final(diagnostics)@) == messages(old(diagnostics)@) + encoded_block(
            block@,
            *policy,
        ).diagnostics,
{
    match encode_supported(block) {
        Some(value) => {
            assert(messages(diagnostics@) + Seq::empty() =~= messages(diagnostics@));
            Ok(value)
        },
        None => {
            let description = describe_block(block);
            encode_unsupported(block, description.as_str(), diagnostics, policy)
        },
    }
}

/// Encoding of a list of content blocks.
pub open spec fn encoded_content(content: Seq<ContentView>, policy: TranslationPolicy) -> Step<
    Seq<Json>,
> {
    each(content, |index: int, block: ContentView| encoded_block(block, policy))
}

/// Contents of the outcome of encoding a list.
pub open spec fn values_outcome(outcome: Result<Vec<Value>, TranslationError>) -> Result<
    Seq<Json>,
    TranslationErrorView,
> {
    match outcome {
        Ok(values) => Ok(jsons(values@)),
        Err(error) => Err(error@),
    }
}

/// Encodes a list of content blocks.
pub fn encode_content(
    content: &Vec<ContentBlock>,
    diagnostics: &mut Vec<TranslationDiagnostic>,
    policy: &TranslationPolicy,
) -> (outcome: Result<Vec<Value>, TranslationError>)
    ensures
        values_outcome(outcome) == encoded_content(contents(content@), *policy).outcome,
        messages(final(diagnostics)@) == messages(old(diagnostics)@) + encoded_content(
            contents(content@),
            *policy,
        ).diagnostics,
{
    let ghost before = messages(diagnostics@);
    let ghost all = contents(content@);
    let ghost step = |index: int, block: ContentView| encoded_block(block, *policy);
    let mut values: Vec<Value> = Vec::new();
    let n = content.len();
    let mut i: usize = 0;
    proof {
        assert(all.take(0) =~= Seq::empty());
        assert(jsons(values@) =~= Seq::empty());
        assert(before =~= before + each(all.take(0), step).diagnostics);
    }
    while i < n
        invariant
            n == content@.len(),
            i <= n,
            all == contents(content@),
            step == (|index: int, block: ContentView| encoded_block(block, *policy)),
            before == messages(old(diagnostics)@),
            each(all.take(i as int), step).outcome == Ok::<Seq<Json>, TranslationErrorView>(
                jsons(values@),
            ),
            messages(diagnostics@) == before + each(all.take(i as int), step).diagnostics,
        decreases n - i,
    {
        let ghost so_far = jsons(values@);
        let ghost reported = each(all.take(i as int), step).diagnostics;
        let ghost last = encoded_block(content@[i as int]@, *policy);
        proof {
            lemma_take_next(all, i as int);
            assert(all[i as int] == content@[i as int]@);
            assert(before + reported + last.diagnostics =~= before + (reported
                + last.diagnostics));
        }
        match encode_content_block(&content[i], diagnostics, policy) {
            Ok(value) => {
                let ghost view = value@;
                values.push(value);
                assert(jsons(values@) =~= so_far.push(view));
            },
            Err(error) => {
                proof {
                    law_first_failure_decides(all, i + 1, step);
                }
                return Err(error);
            },
        }
        i += 1;
    }
    assert(all.take(n as int) =~= all);
    Ok(values)
}

/// Message object of a role and content.
pub open spec fn message_object(role: Role, content: Seq<Json>) -> Json {
    Json::Object(
        Map::empty().insert("role"@, Json::String(encoded_role(role))).insert(
            "content"@,
            Json::Array(content),
        ),
    )
}

/// Encodes a role and encoded content as a message object.
pub fn message_value(role: Role, content: Vec<Value>) -> (value: Value)
    ensures
        value@ == message_object(role, jsons(content@)),
{
    Value::Object(
        JsonMap::new().with("role", Value::text(encode_role(role))).with(
            "content",
            Value::Array(content),
        ),
    )
}

/// Encoding of a message.
pub open spec fn encoded_message(message: MessageView, policy: TranslationPolicy) -> Step<Json> {
    mapped(
        encoded_content(message.content, policy),
        |content: Seq<Json>| message_object(message.role, content),
    )
}

/// Encodes one message.
pub fn encode_message(
    message: &Message,
    diagnostics: &mut Vec<TranslationDiagnostic>,
    policy: &TranslationPolicy,
) -> (outcome: Result<Value, TranslationError>)
    ensures
        value_outcome(outcome) == encoded_message(message@, *policy).outcome,
        messages(final(diagnostics)@) == messages(old(diagnostics)@) + encoded_message(
            message@,
            *policy,
        ).diagnostics,
{
    match encode_content(&message.content, diagnostics, policy) {
        Ok(content) => Ok(message_value(message.role, content)),
        Err(error) => Err(error),
    }
}

} // verus!
