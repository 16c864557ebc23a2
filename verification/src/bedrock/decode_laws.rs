//! Laws of decoding Converse bodies: what each field of a body says.
use vstd::prelude::*;

use super::buffered::{decoded_message, decoded_messages, decoded_request, decoded_response};
use super::content::{decoded_block, decoded_content, role_name};
use super::fields::{
    decoded_stop_reason, decoded_tool, decoded_tool_choice, decoded_tools, reported_usage,
};
use crate::json::{integer_as_float, printed, FloatView, Json, JsonNumber};
use crate::llm::{empty_response, no_usage, OpenAiChatReasoningField, Role, StopReason, Usage};
use crate::model::{
    empty_request, nothing_preserved, ContentView, ImageView, MessageView, RequestView,
    ResponseView, ToolChoiceView,
};
use crate::text::decimal;
use crate::translation::{
    law_first_failure_is_the_error, law_steps_collect_in_order, reports, Step, TranslationErrorView,
    TranslationPolicy,
};

verus! {

/// The object holds no string under a key.
pub open spec fn lacks_string(fields: Map<Seq<char>, Json>, key: Seq<char>) -> bool {
    !(fields.contains_key(key) && fields[key] is String)
}

/// The object holds no object under a key.
pub open spec fn lacks_object(fields: Map<Seq<char>, Json>, key: Seq<char>) -> bool {
    !(fields.contains_key(key) && fields[key] is Object)
}

/// The object holds no array under a key.
pub open spec fn lacks_array(fields: Map<Seq<char>, Json>, key: Seq<char>) -> bool {
    !(fields.contains_key(key) && fields[key] is Array)
}

/// The object holds no count under a key.
pub open spec fn lacks_count(fields: Map<Seq<char>, Json>, key: Seq<char>) -> bool {
    !(fields.contains_key(key) && fields[key] is Number && fields[key]->Number_0 is PosInt)
}

/// A text is the string under a key, or empty where there is no string.
pub open spec fn is_text_at(text: Seq<char>, fields: Map<Seq<char>, Json>, key: Seq<char>) -> bool {
    ||| fields.contains_pair(key, Json::String(text))
    ||| lacks_string(fields, key) && text.len() == 0
}

/// An optional text is present exactly where there is a string under a key, and is that string.
pub open spec fn is_opt_text_at(
    text: Option<Seq<char>>,
    fields: Map<Seq<char>, Json>,
    key: Seq<char>,
) -> bool {
    match text {
        Some(text) => fields.contains_pair(key, Json::String(text)),
        None => lacks_string(fields, key),
    }
}

/// An optional count is present exactly where there is a count under a key, and is that count.
pub open spec fn is_count_at(
    count: Option<u64>,
    fields: Map<Seq<char>, Json>,
    key: Seq<char>,
) -> bool {
    match count {
        Some(count) => fields.contains_pair(key, Json::Number(JsonNumber::PosInt(count))),
        None => lacks_count(fields, key),
    }
}

/// An optional float is present exactly where there is a number under a key, and is that number.
pub open spec fn is_float_at(
    float: Option<FloatView>,
    fields: Map<Seq<char>, Json>,
    key: Seq<char>,
) -> bool {
    if fields.contains_key(key) && fields[key] is Number {
        float == Some(
            FloatView::Finite(
                match fields[key]->Number_0 {
                    JsonNumber::PosInt(n) => integer_as_float(n as i128),
                    JsonNumber::NegInt(n) => integer_as_float(n as i128),
                    JsonNumber::Float(text) => text,
                },
            ),
        )
    } else {
        float is None
    }
}

/// The outcome is a block and nothing was reported.
pub open spec fn gives_block(step: Step<ContentView>, block: ContentView) -> bool {
    step.outcome == Ok::<ContentView, TranslationErrorView>(block) && step.diagnostics.len() == 0
}

/// A content object with a string `text` is that text, whatever else it holds.
pub proof fn law_text_block_decodes(
    fields: Map<Seq<char>, Json>,
    text: Seq<char>,
    role: Role,
    index: int,
    policy: TranslationPolicy,
)
    requires
        fields.contains_pair("text"@, Json::String(text)),
    ensures
        gives_block(
            decoded_block(Json::Object(fields), role, index, policy),
            ContentView::Text { text },
        ),
{
}

/// A content object without text but with a `toolUse` object is a tool call: its identifier, name
/// and arguments are those of the object, or empty where it has none.
pub proof fn law_tool_call_block_decodes(
    fields: Map<Seq<char>, Json>,
    tool: Map<Seq<char>, Json>,
    role: Role,
    index: int,
    policy: TranslationPolicy,
)
    requires
        lacks_string(fields, "text"@),
        fields.contains_pair("toolUse"@, Json::Object(tool)),
    ensures
        ({
            let step = decoded_block(Json::Object(fields), role, index, policy);
            &&& step.diagnostics.len() == 0
            &&& step.outcome matches Ok(ContentView::ToolCall(call)) && {
                &&& is_text_at(call.id, tool, "toolUseId"@)
                &&& is_text_at(call.name, tool, "name"@)
                &&& tool.contains_key("input"@) ==> call.arguments == tool["input"@]
                &&& !tool.contains_key("input"@) ==> call.arguments == Json::Object(Map::empty())
            }
        }),
{
}

/// A block is what a value of tool-result content says: its string `text`; else its `json`,
/// printed; else the value itself, as an unknown Converse block.
pub open spec fn is_result_block(block: ContentView, value: Json) -> bool {
    match value {
        Json::Object(fields) => if fields.contains_key("text"@) && fields["text"@] is String {
            block == ContentView::Text { text: fields["text"@]->String_0 }
        } else if fields.contains_key("json"@) {
            block == ContentView::Text { text: printed(fields["json"@]) }
        } else {
            block == ContentView::Unknown { provider: "bedrock_converse"@, raw: value }
        },
        _ => block == ContentView::Unknown { provider: "bedrock_converse"@, raw: value },
    }
}

/// A content object with a `toolResult` object, and without text or tool use, is a tool result. It
/// failed exactly where its status is the string `error`, succeeded exactly where its status is
/// another string, and does not say where it has no string status.
pub proof fn law_tool_result_block_decodes(
    fields: Map<Seq<char>, Json>,
    tool: Map<Seq<char>, Json>,
    role: Role,
    index: int,
    policy: TranslationPolicy,
)
    requires
        lacks_string(fields, "text"@),
        lacks_object(fields, "toolUse"@),
        fields.contains_pair("toolResult"@, Json::Object(tool)),
    ensures
        ({
            let step = decoded_block(Json::Object(fields), role, index, policy);
            &&& step.diagnostics.len() == 0
            &&& step.outcome matches Ok(ContentView::ToolResult(result)) && {
                &&& is_text_at(result.tool_call_id, tool, "toolUseId"@)
                &&& result.is_error == Some(true) <==> tool.contains_pair(
                    "status"@,
                    Json::String("error"@),
                )
                &&& result.is_error == Some(false) <==> tool.contains_key("status"@)
                    && tool["status"@] is String && tool["status"@] != Json::String("error"@)
                &&& result.is_error is None <==> lacks_string(tool, "status"@)
                &&& lacks_array(tool, "content"@) ==> result.content.len() == 0
                &&& forall|blocks: Seq<Json>|
                    #[trigger] tool.contains_pair("content"@, Json::Array(blocks)) ==> {
                        &&& result.content.len() == blocks.len()
                        &&& forall|i: int|
                            0 <= i < blocks.len() ==> is_result_block(
                                result.content[i],
                                #[trigger] blocks[i],
                            )
                    }
            }
        }),
{
    let step = decoded_block(Json::Object(fields), role, index, policy);
    let result = step.outcome->Ok_0->ToolResult_0;
    assert forall|blocks: Seq<Json>|
        #[trigger] tool.contains_pair("content"@, Json::Array(blocks)) implies result.content.len()
        == blocks.len() && forall|i: int|
        0 <= i < blocks.len() ==> is_result_block(result.content[i], #[trigger] blocks[i]) by {
        assert(super::content::decoded_result_content(blocks) == result.content);
    }
}

/// A content object with a `reasoningContent` object, and without text, tool use or tool result, is
/// reasoning. Its text and signature stand in `reasoningText`, or in the object itself where it has
/// no such object.
pub proof fn law_reasoning_block_decodes(
    fields: Map<Seq<char>, Json>,
    reasoning: Map<Seq<char>, Json>,
    inner: Map<Seq<char>, Json>,
    role: Role,
    index: int,
    policy: TranslationPolicy,
)
    requires
        lacks_string(fields, "text"@),
        lacks_object(fields, "toolUse"@),
        lacks_object(fields, "toolResult"@),
        fields.contains_pair("reasoningContent"@, Json::Object(reasoning)),
        reasoning.contains_pair("reasoningText"@, Json::Object(inner)) || (lacks_object(
            reasoning,
            "reasoningText"@,
        ) && inner == reasoning),
    ensures
        ({
            let step = decoded_block(Json::Object(fields), role, index, policy);
            &&& step.diagnostics.len() == 0
            &&& step.outcome matches Ok(
                ContentView::Reasoning { text, signature, details, openai_chat_field },
            ) && {
                &&& is_text_at(text, inner, "text"@)
                &&& is_opt_text_at(signature, inner, "signature"@)
                &&& details.len() == 0
                &&& openai_chat_field == OpenAiChatReasoningField::Reasoning
            }
        }),
{
}

/// A content object with an `image` object that holds inline bytes, and none of the kinds before
/// it, is that image. Its media type is `image/` and the format, where there is one.
pub proof fn law_image_block_decodes(
    fields: Map<Seq<char>, Json>,
    image: Map<Seq<char>, Json>,
    source: Map<Seq<char>, Json>,
    bytes: Seq<char>,
    role: Role,
    index: int,
    policy: TranslationPolicy,
)
    requires
        lacks_string(fields, "text"@),
        lacks_object(fields, "toolUse"@),
        lacks_object(fields, "toolResult"@),
        lacks_object(fields, "reasoningContent"@),
        fields.contains_pair("image"@, Json::Object(image)),
        image.contains_pair("source"@, Json::Object(source)),
        source.contains_pair("bytes"@, Json::String(bytes)),
    ensures
        ({
            let step = decoded_block(Json::Object(fields), role, index, policy);
            &&& step.diagnostics.len() == 0
            &&& step.outcome matches Ok(
                ContentView::Image { source: ImageView::Base64 { media_type, data } },
            ) && {
                &&& data == bytes
                &&& match media_type {
                    Some(media_type) => exists|format: Seq<char>|
                        media_type == "image/"@ + format && #[trigger] image.contains_pair(
                            "format"@,
                            Json::String(format),
                        ),
                    None => lacks_string(image, "format"@),
                }
            }
        }),
{
    if image.contains_key("format"@) && image["format"@] is String {
        let format = image["format"@]->String_0;
        assert(image.contains_pair("format"@, Json::String(format)));
    }
}

/// The image holds no inline bytes.
pub open spec fn lacks_bytes(image: Map<Seq<char>, Json>) -> bool {
    lacks_object(image, "source"@) || lacks_string(image["source"@]->Object_0, "bytes"@)
}

/// A content object of no known kind is kept as it is and reported, or rejected where the policy
/// rejects losses.
pub proof fn law_unknown_block_is_reported(
    fields: Map<Seq<char>, Json>,
    role: Role,
    index: int,
    policy: TranslationPolicy,
)
    requires
        lacks_string(fields, "text"@),
        lacks_object(fields, "toolUse"@),
        lacks_object(fields, "toolResult"@),
        lacks_object(fields, "reasoningContent"@),
        lacks_object(fields, "image"@) || lacks_bytes(fields["image"@]->Object_0),
    ensures
        ({
            let step = decoded_block(Json::Object(fields), role, index, policy);
            let message = "unsupported Bedrock Converse content block for "@ + role_name(role);
            if policy.reject_lossy {
                step.outcome == Err::<ContentView, TranslationErrorView>(
                    TranslationErrorView::Lossy { message },
                )
            } else {
                &&& step.outcome == Ok::<ContentView, TranslationErrorView>(
                    ContentView::Unknown { provider: "bedrock_converse"@, raw: Json::Object(fields) },
                )
                &&& step.diagnostics == seq![message]
            }
        }),
{
}

/// Content that is no object is an error that names its place.
pub proof fn law_content_must_be_an_object(
    value: Json,
    role: Role,
    index: int,
    policy: TranslationPolicy,
)
    requires
        !(value is Object),
    ensures
        decoded_block(value, role, index, policy).outcome == Err::<
            ContentView,
            TranslationErrorView,
        >(
            TranslationErrorView::InvalidValue {
                path: "$.content["@ + decimal(index as nat) + "]"@,
                message: "expected an object"@,
            },
        ),
{
}

/// Content decodes block by block: one block for each value, in order, each decoded at its index,
/// and the losses of all of them.
pub proof fn law_content_decodes_in_order(blocks: Seq<Json>, role: Role, policy: TranslationPolicy)
    requires
        forall|i: int|
            0 <= i < blocks.len() ==> decoded_block(#[trigger] blocks[i], role, i, policy).outcome
                is Ok,
    ensures
        decoded_content(blocks, role, policy).outcome matches Ok(content) && {
            &&& content.len() == blocks.len()
            &&& forall|i: int|
                0 <= i < blocks.len() ==> decoded_block(
                    #[trigger] blocks[i],
                    role,
                    i,
                    policy,
                ).outcome == Ok::<ContentView, TranslationErrorView>(content[i])
        },
        decoded_content(blocks, role, policy).diagnostics == reports(
            blocks,
            |i: int, block: Json| decoded_block(block, role, i, policy),
            blocks.len(),
        ),
{
    let step = |i: int, block: Json| decoded_block(block, role, i, policy);
    assert forall|i: int| 0 <= i < blocks.len() implies (#[trigger] step(i, blocks[i])).outcome
        is Ok by {
        assert(decoded_block(blocks[i], role, i, policy).outcome is Ok);
    }
    law_steps_collect_in_order(blocks, step);
    assert(decoded_content(blocks, role, policy) == crate::translation::each(blocks, step));
    let content = decoded_content(blocks, role, policy).outcome->Ok_0;
    assert forall|i: int| 0 <= i < blocks.len() implies decoded_block(
        #[trigger] blocks[i],
        role,
        i,
        policy,
    ).outcome == Ok::<ContentView, TranslationErrorView>(content[i]) by {
        assert(step(i, blocks[i]).outcome == Ok::<ContentView, TranslationErrorView>(content[i]));
    }
}

/// The first block that fails to decode fails the content, with its error.
pub proof fn law_first_bad_block_fails_content(
    blocks: Seq<Json>,
    n: int,
    role: Role,
    policy: TranslationPolicy,
)
    requires
        0 <= n < blocks.len(),
        forall|i: int|
            0 <= i < n ==> decoded_block(#[trigger] blocks[i], role, i, policy).outcome is Ok,
        decoded_block(blocks[n], role, n, policy).outcome is Err,
    ensures
        decoded_content(blocks, role, policy).outcome == Err::<
            Seq<ContentView>,
            TranslationErrorView,
        >(decoded_block(blocks[n], role, n, policy).outcome->Err_0),
{
    let step = |i: int, block: Json| decoded_block(block, role, i, policy);
    assert forall|i: int| 0 <= i < n implies (#[trigger] step(i, blocks[i])).outcome is Ok by {
        assert(decoded_block(blocks[i], role, i, policy).outcome is Ok);
    }
    law_first_failure_is_the_error(blocks, step, n);
    assert(decoded_content(blocks, role, policy) == crate::translation::each(blocks, step));
}

/// The role that a message object says: the assistant's for `assistant`, the user's for `user` or
/// without a string role, and none for other names.
pub open spec fn says_role(fields: Map<Seq<char>, Json>, role: Role) -> bool {
    ||| role == Role::Assistant && fields.contains_pair("role"@, Json::String("assistant"@))
    ||| role == Role::User && (lacks_string(fields, "role"@) || fields.contains_pair(
        "role"@,
        Json::String("user"@),
    ))
}

/// A message is of the role that it says, and its content is its `content` array decoded for that
/// role, or nothing without one.
pub proof fn law_message_decodes(
    fields: Map<Seq<char>, Json>,
    role: Role,
    index: int,
    policy: TranslationPolicy,
)
    requires
        says_role(fields, role),
    ensures
        ({
            let step = decoded_message(Json::Object(fields), index, policy);
            &&& lacks_array(fields, "content"@) ==> step.diagnostics.len() == 0 && (
            step.outcome matches Ok(message) && message.role == role && message.content.len() == 0)
            &&& forall|blocks: Seq<Json>|
                #[trigger] fields.contains_pair("content"@, Json::Array(blocks)) ==> {
                    let content = decoded_content(blocks, role, policy);
                    &&& step.diagnostics == content.diagnostics
                    &&& match content.outcome {
                        Ok(content) => step.outcome == Ok::<MessageView, TranslationErrorView>(
                            MessageView { role, content },
                        ),
                        Err(error) => step.outcome == Err::<MessageView, TranslationErrorView>(
                            error,
                        ),
                    }
                }
        }),
{
    lemma_role_names();
}

proof fn lemma_role_names()
    ensures
        "user"@ != "assistant"@,
{
    reveal_strlit("user");
    reveal_strlit("assistant");
    assert("user"@.len() == 4 && "assistant"@.len() == 9);
}

/// A message of another role is an error that names the role and its place, and so is a message
/// that is no object.
pub proof fn law_other_roles_are_rejected(
    fields: Map<Seq<char>, Json>,
    role: Seq<char>,
    value: Json,
    index: int,
    policy: TranslationPolicy,
)
    requires
        fields.contains_pair("role"@, Json::String(role)),
        role != "user"@,
        role != "assistant"@,
        !(value is Object),
    ensures
        decoded_message(Json::Object(fields), index, policy).outcome == Err::<
            MessageView,
            TranslationErrorView,
        >(
            TranslationErrorView::UnsupportedRole {
                path: "$.messages["@ + decimal(index as nat) + "].role"@,
                role,
            },
        ),
        decoded_message(value, index, policy).outcome == Err::<MessageView, TranslationErrorView>(
            TranslationErrorView::InvalidValue {
                path: "$.messages["@ + decimal(index as nat) + "]"@,
                message: "expected an object"@,
            },
        ),
{
}

/// A `toolSpec` entry with a string name is the tool of that name, with its description, and with
/// the schema under `json` in its `inputSchema`, or an empty one.
pub proof fn law_tool_entry_decodes(
    entry: Map<Seq<char>, Json>,
    spec: Map<Seq<char>, Json>,
    name: Seq<char>,
)
    requires
        entry.contains_pair("toolSpec"@, Json::Object(spec)),
        spec.contains_pair("name"@, Json::String(name)),
    ensures
        decoded_tool(Json::Object(entry)) matches Some(tool) && {
            &&& tool.name == name
            &&& is_opt_text_at(tool.description, spec, "description"@)
            &&& tool.strict is None
            &&& if spec.contains_key("inputSchema"@) && spec["inputSchema"@] is Object
                && spec["inputSchema"@]->Object_0.contains_key("json"@) {
                tool.parameters == spec["inputSchema"@]->Object_0["json"@]
            } else {
                tool.parameters == Json::Object(Map::empty())
            }
        },
{
}

/// An entry that names no tool gives none.
pub proof fn law_entry_without_tool_name(entry: Json)
    requires
        entry matches Json::Object(fields) ==> lacks_object(fields, "toolSpec"@) || lacks_string(
            fields["toolSpec"@]->Object_0,
            "name"@,
        ),
    ensures
        decoded_tool(entry) is None,
{
}

/// Tools decode entry by entry and in order: those of two lists are those of the first and then
/// those of the second, and one entry gives the tool that it names or nothing.
pub proof fn law_tools_decode_in_order(first: Seq<Json>, second: Seq<Json>, entry: Json)
    ensures
        decoded_tools(first + second) == decoded_tools(first) + decoded_tools(second),
        match decoded_tool(entry) {
            Some(tool) => decoded_tools(seq![entry]) == seq![tool],
            None => decoded_tools(seq![entry]).len() == 0,
        },
    decreases second.len(),
{
    let one = seq![entry];
    assert(one.drop_last() =~= Seq::empty());
    assert(decoded_tools(one.drop_last()) =~= Seq::empty());
    if second.len() == 0 {
        assert(first + second =~= first);
        assert(decoded_tools(first) + decoded_tools(second) =~= decoded_tools(first));
    } else {
        law_tools_decode_in_order(first, second.drop_last(), entry);
        assert((first + second).drop_last() =~= first + second.drop_last());
        assert((first + second).last() == second.last());
        assert(decoded_tools(first + second) =~= decoded_tools(first) + decoded_tools(second));
    }
}

/// A tool choice object with `auto` leaves the choice to the model; else one with `any` requires a
/// tool; else one with a `tool` that has a string name requires that tool; every other value is
/// kept as it is.
pub proof fn law_tool_choice_decodes(value: Json)
    ensures
        ({
            let choice = decoded_tool_choice(value);
            match value {
                Json::Object(fields) => {
                    let auto = fields.contains_key("auto"@);
                    let any = fields.contains_key("any"@);
                    let named = fields.contains_key("tool"@) && fields["tool"@] is Object
                        && !lacks_string(fields["tool"@]->Object_0, "name"@);
                    &&& choice is Auto <==> auto
                    &&& choice is Required <==> !auto && any
                    &&& choice is Tool <==> !auto && !any && named
                    &&& choice matches ToolChoiceView::Tool { name } ==> fields[
                    "tool"@]->Object_0.contains_pair("name"@, Json::String(name))
                    &&& choice is Raw <==> !auto && !any && !named
                    &&& choice is Raw ==> choice == ToolChoiceView::Raw(value)
                },
                _ => choice == ToolChoiceView::Raw(value),
            }
        }),
{
}

/// Each Converse name of a stop reason stands for one normalized reason, and every other name for
/// an unknown one.
pub proof fn law_stop_names_decode(name: Seq<char>)
    ensures
        decoded_stop_reason(name) == StopReason::EndTurn <==> name == "end_turn"@ || name
            == "stop_sequence"@,
        decoded_stop_reason(name) == StopReason::MaxTokens <==> name == "max_tokens"@,
        decoded_stop_reason(name) == StopReason::ToolUse <==> name == "tool_use"@,
        decoded_stop_reason(name) == StopReason::ContentFilter <==> name == "content_filtered"@
            || name == "guardrail_intervened"@,
        decoded_stop_reason(name) != StopReason::Error,
{
    reveal_strlit("end_turn");
    reveal_strlit("stop_sequence");
    reveal_strlit("max_tokens");
    reveal_strlit("tool_use");
    reveal_strlit("content_filtered");
    reveal_strlit("guardrail_intervened");
    assert("end_turn"@.len() == 8 && "stop_sequence"@.len() == 13 && "max_tokens"@.len() == 10);
    assert("tool_use"@.len() == 8 && "content_filtered"@.len() == 16);
    assert("guardrail_intervened"@.len() == 20);
    assert("end_turn"@[0] == 'e' && "tool_use"@[0] == 't');
}

/// A usage report sets the input, output and total counts to those it holds, and the cache counts
/// that it holds; cache counts that it does not hold stay, and so do reasoning tokens.
pub proof fn law_usage_report_reads(usage: Usage, fields: Map<Seq<char>, Json>)
    ensures
        ({
            let after = reported_usage(usage, Some(Json::Object(fields)));
            &&& is_count_at(after.input_tokens, fields, "inputTokens"@)
            &&& is_count_at(after.output_tokens, fields, "outputTokens"@)
            &&& is_count_at(after.total_tokens, fields, "totalTokens"@)
            &&& after.reasoning_tokens == usage.reasoning_tokens
            &&& if lacks_count(fields, "cacheReadInputTokens"@) {
                after.cache_read() == usage.cache_read()
            } else {
                is_count_at(after.cache_read(), fields, "cacheReadInputTokens"@)
            }
            &&& if lacks_count(fields, "cacheWriteInputTokens"@) {
                after.cache_creation() == usage.cache_creation()
            } else {
                is_count_at(after.cache_creation(), fields, "cacheWriteInputTokens"@)
            }
            &&& lacks_count(fields, "cacheReadInputTokens"@) && lacks_count(
                fields,
                "cacheWriteInputTokens"@,
            ) ==> after.cache == usage.cache
        }),
{
}

/// A usage report that is missing or no object holds no count.
pub proof fn law_missing_usage_report(usage: Usage, value: Option<Json>)
    requires
        value matches Some(value) ==> !(value is Object),
    ensures
        reported_usage(usage, value) == (Usage {
            input_tokens: None,
            output_tokens: None,
            total_tokens: None,
            ..usage
        }),
{
}

/// A request body that is no object is an error, and so is a response body.
pub proof fn law_bodies_must_be_objects(body: Json, policy: TranslationPolicy)
    requires
        !(body is Object),
    ensures
        decoded_request(body, policy).outcome == Err::<RequestView, TranslationErrorView>(
            TranslationErrorView::InvalidValue { path: "$"@, message: "expected an object"@ },
        ),
        decoded_response(body, policy).outcome == Err::<ResponseView, TranslationErrorView>(
            TranslationErrorView::InvalidValue { path: "$"@, message: "expected an object"@ },
        ),
{
}

/// The sampling and output settings of a request are those in its `inferenceConfig` object; without
/// one there are none.
pub proof fn law_request_settings_decode(
    fields: Map<Seq<char>, Json>,
    inference: Map<Seq<char>, Json>,
    policy: TranslationPolicy,
)
    requires
        fields.contains_pair("inferenceConfig"@, Json::Object(inference)) || (lacks_object(
            fields,
            "inferenceConfig"@,
        ) && inference == Map::<Seq<char>, Json>::empty()),
    ensures
        decoded_request(Json::Object(fields), policy).outcome matches Ok(request) ==> {
            &&& is_float_at(request.sampling.temperature, inference, "temperature"@)
            &&& is_float_at(request.sampling.top_p, inference, "topP"@)
            &&& request.sampling.top_k is None
            &&& is_count_at(request.output.max_output_tokens, inference, "maxTokens"@)
            &&& request.output.response_format is None
        },
{
}

/// The instructions of a request are the blocks of its `system` array, in one system message; a
/// request without system blocks has none.
pub proof fn law_request_system_decodes(fields: Map<Seq<char>, Json>, policy: TranslationPolicy)
    ensures
        ({
            let step = decoded_request(Json::Object(fields), policy);
            &&& lacks_array(fields, "system"@) ==> (step.outcome matches Ok(request)
                ==> request.instructions.len() == 0)
            &&& forall|blocks: Seq<Json>| #[trigger]
                fields.contains_pair("system"@, Json::Array(blocks)) ==> {
                    let system = decoded_content(blocks, Role::System, policy);
                    match system.outcome {
                        Ok(content) => step.outcome matches Ok(request) ==> {
                            &&& content.len() == 0 ==> request.instructions.len() == 0
                            &&& content.len() > 0 ==> request.instructions == seq![
                                MessageView { role: Role::System, content },
                            ]
                        },
                        Err(error) => {
                            &&& step.outcome == Err::<RequestView, TranslationErrorView>(error)
                            &&& step.diagnostics == system.diagnostics
                        },
                    }
                }
        }),
{
}

/// The messages of a request are its `messages` array decoded in order, one message for each value;
/// a request without such an array has none.
pub proof fn law_request_messages_decode(
    fields: Map<Seq<char>, Json>,
    values: Seq<Json>,
    policy: TranslationPolicy,
)
    ensures
        lacks_array(fields, "messages"@) ==> (decoded_request(
            Json::Object(fields),
            policy,
        ).outcome matches Ok(request) ==> request.messages.len() == 0),
        fields.contains_pair("messages"@, Json::Array(values)) ==> (decoded_request(
            Json::Object(fields),
            policy,
        ).outcome matches Ok(request) ==> {
            &&& request.messages.len() == values.len()
            &&& forall|i: int|
                0 <= i < values.len() ==> decoded_message(#[trigger] values[i], i, policy).outcome
                    == Ok::<MessageView, TranslationErrorView>(request.messages[i])
        }),
{
    if fields.contains_pair("messages"@, Json::Array(values)) && decoded_request(
        Json::Object(fields),
        policy,
    ).outcome is Ok {
        let step = |i: int, message: Json| decoded_message(message, i, policy);
        assert(decoded_messages(fields, policy) == crate::translation::each(values, step));
        lemma_all_decoded(values, step);
        law_steps_collect_in_order(values, step);
        let request = decoded_request(Json::Object(fields), policy).outcome->Ok_0;
        assert forall|i: int| 0 <= i < values.len() implies decoded_message(
            #[trigger] values[i],
            i,
            policy,
        ).outcome == Ok::<MessageView, TranslationErrorView>(request.messages[i]) by {
            assert(step(i, values[i]).outcome == Ok::<MessageView, TranslationErrorView>(
                request.messages[i],
            ));
        }
    }
}

/// Where a list of steps succeeds, each step does.
proof fn lemma_all_decoded<A, B>(items: Seq<A>, step: spec_fn(int, A) -> Step<B>)
    requires
        crate::translation::each(items, step).outcome is Ok,
    ensures
        forall|i: int| 0 <= i < items.len() ==> (#[trigger] step(i, items[i])).outcome is Ok,
    decreases items.len(),
{
    if items.len() > 0 {
        lemma_all_decoded(items.drop_last(), step);
        assert forall|i: int| 0 <= i < items.len() implies (#[trigger] step(i, items[i])).outcome
            is Ok by {
            if i < items.len() - 1 {
                assert(step(i, items.drop_last()[i]).outcome is Ok);
            }
        }
    }
}

/// The system content of a request decodes: its `system` array, where it has one.
pub open spec fn system_decodes(fields: Map<Seq<char>, Json>, policy: TranslationPolicy) -> bool {
    lacks_array(fields, "system"@) || decoded_content(
        fields["system"@]->Array_0,
        Role::System,
        policy,
    ).outcome is Ok
}

/// The first message that fails to decode fails the request with its error, where the system
/// content decodes.
pub proof fn law_first_bad_message_fails_request(
    fields: Map<Seq<char>, Json>,
    values: Seq<Json>,
    n: int,
    policy: TranslationPolicy,
)
    requires
        fields.contains_pair("messages"@, Json::Array(values)),
        system_decodes(fields, policy),
        0 <= n < values.len(),
        forall|i: int|
            0 <= i < n ==> decoded_message(#[trigger] values[i], i, policy).outcome is Ok,
        decoded_message(values[n], n, policy).outcome is Err,
    ensures
        decoded_request(Json::Object(fields), policy).outcome == Err::<
            RequestView,
            TranslationErrorView,
        >(decoded_message(values[n], n, policy).outcome->Err_0),
{
    let step = |i: int, message: Json| decoded_message(message, i, policy);
    assert forall|i: int| 0 <= i < n implies (#[trigger] step(i, values[i])).outcome is Ok by {
        assert(decoded_message(values[i], i, policy).outcome is Ok);
    }
    law_first_failure_is_the_error(values, step, n);
    assert(decoded_messages(fields, policy) == crate::translation::each(values, step));
}

/// A request decodes where its system content and each of its messages do: nothing else fails it.
pub proof fn law_request_decodes_where_its_parts_do(
    fields: Map<Seq<char>, Json>,
    policy: TranslationPolicy,
)
    requires
        system_decodes(fields, policy),
        lacks_array(fields, "messages"@) || forall|i: int|
            0 <= i < fields["messages"@]->Array_0.len() ==> decoded_message(
                #[trigger] fields["messages"@]->Array_0[i],
                i,
                policy,
            ).outcome is Ok,
    ensures
        decoded_request(Json::Object(fields), policy).outcome is Ok,
{
    if !lacks_array(fields, "messages"@) {
        let values = fields["messages"@]->Array_0;
        let step = |i: int, message: Json| decoded_message(message, i, policy);
        assert forall|i: int| 0 <= i < values.len() implies (#[trigger] step(i, values[i])).outcome
            is Ok by {
            assert(decoded_message(values[i], i, policy).outcome is Ok);
        }
        law_steps_collect_in_order(values, step);
        assert(decoded_messages(fields, policy) == crate::translation::each(values, step));
    }
}

/// The losses of a request are those of its system content and then those of its messages.
pub proof fn law_request_losses_in_order(
    fields: Map<Seq<char>, Json>,
    system: Seq<Json>,
    values: Seq<Json>,
    policy: TranslationPolicy,
)
    requires
        fields.contains_pair("system"@, Json::Array(system)),
        fields.contains_pair("messages"@, Json::Array(values)),
        decoded_request(Json::Object(fields), policy).outcome is Ok,
    ensures
        decoded_request(Json::Object(fields), policy).diagnostics == decoded_content(
            system,
            Role::System,
            policy,
        ).diagnostics + reports(
            values,
            |i: int, message: Json| decoded_message(message, i, policy),
            values.len(),
        ),
{
    let step = |i: int, message: Json| decoded_message(message, i, policy);
    assert(decoded_messages(fields, policy) == crate::translation::each(values, step));
    lemma_all_decoded(values, step);
    law_steps_collect_in_order(values, step);
}

/// The tools and the tool choice of a request are those in its `toolConfig` object; without one
/// there are none.
pub proof fn law_request_tools_decode(
    fields: Map<Seq<char>, Json>,
    config: Map<Seq<char>, Json>,
    policy: TranslationPolicy,
)
    requires
        fields.contains_pair("toolConfig"@, Json::Object(config)) || (lacks_object(
            fields,
            "toolConfig"@,
        ) && config == Map::<Seq<char>, Json>::empty()),
    ensures
        decoded_request(Json::Object(fields), policy).outcome matches Ok(request) ==> {
            &&& lacks_array(config, "tools"@) ==> request.tools.len() == 0
            &&& forall|entries: Seq<Json>| #[trigger]
                config.contains_pair("tools"@, Json::Array(entries)) ==> request.tools
                    == decoded_tools(entries)
            &&& request.tool_choice is Some <==> config.contains_key("toolChoice"@)
            &&& request.tool_choice is Some ==> request.tool_choice->0 == decoded_tool_choice(
                config["toolChoice"@],
            )
        },
{
}

/// The fields of a request that have a normalized place.
pub open spec fn is_request_field(key: Seq<char>) -> bool {
    key == "messages"@ || key == "system"@ || key == "inferenceConfig"@ || key == "toolConfig"@
        || key == "additionalModelRequestFields"@
}

/// A request keeps, as they are, its additional model fields and every field without a normalized
/// place; its stop sequences are kept as `stop`, unless it has a field of that name. It keeps
/// nothing else.
pub proof fn law_request_keeps_other_fields(
    fields: Map<Seq<char>, Json>,
    inference: Map<Seq<char>, Json>,
    key: Seq<char>,
    policy: TranslationPolicy,
)
    requires
        fields.contains_pair("inferenceConfig"@, Json::Object(inference)) || (lacks_object(
            fields,
            "inferenceConfig"@,
        ) && inference == Map::<Seq<char>, Json>::empty()),
    ensures
        decoded_request(Json::Object(fields), policy).outcome matches Ok(request) ==> {
            let kept = request.extensions;
            let own = fields.contains_key(key) && (key == "additionalModelRequestFields"@
                || !is_request_field(key));
            let stop = key == "stop"@ && inference.contains_key("stopSequences"@);
            &&& kept.contains_key(key) <==> own || stop
            &&& own ==> kept[key] == fields[key]
            &&& stop && !own ==> kept[key] == inference["stopSequences"@]
        },
{
    reveal_strlit("stop");
    reveal_strlit("messages");
    reveal_strlit("system");
    reveal_strlit("inferenceConfig");
    reveal_strlit("toolConfig");
    reveal_strlit("additionalModelRequestFields");
    assert("stop"@.len() == 4 && "messages"@.len() == 8 && "system"@.len() == 6);
    assert("inferenceConfig"@.len() == 15 && "toolConfig"@.len() == 10);
    assert("additionalModelRequestFields"@.len() == 28);
}

/// A decoded request says nothing else: the rest of it is empty, and a body is kept only where the
/// policy preserves bodies, under the name of the format.
pub proof fn law_request_says_nothing_else(fields: Map<Seq<char>, Json>, policy: TranslationPolicy)
    ensures
        decoded_request(Json::Object(fields), policy).outcome matches Ok(request) ==> {
            &&& request == (RequestView {
                instructions: request.instructions,
                messages: request.messages,
                tools: request.tools,
                tool_choice: request.tool_choice,
                sampling: request.sampling,
                output: request.output,
                extensions: request.extensions,
                preservation: request.preservation,
                ..empty_request()
            })
            &&& !policy.preserve ==> request.preservation == nothing_preserved()
            &&& policy.preserve ==> request.preservation.requests == Map::<
                Seq<char>,
                Json,
            >::empty().insert("bedrock_converse"@, Json::Object(fields))
        },
{
}

/// The message object of a response body.
pub open spec fn is_response_message(
    fields: Map<Seq<char>, Json>,
    message: Map<Seq<char>, Json>,
) -> bool {
    fields.contains_key("output"@) && fields["output"@] is Object && fields[
    "output"@]->Object_0.contains_pair("message"@, Json::Object(message))
}

/// A response with a message has one output: of the assistant unless it says that it is the
/// user's, with the `content` array of the message, and with the stop reason that `stopReason`
/// names, where there is one.
pub proof fn law_response_output_decodes(
    fields: Map<Seq<char>, Json>,
    message: Map<Seq<char>, Json>,
    policy: TranslationPolicy,
)
    requires
        is_response_message(fields, message),
    ensures
        ({
            let step = decoded_response(Json::Object(fields), policy);
            &&& step.outcome matches Ok(response) ==> {
                let output = response.outputs[0];
                &&& response.outputs.len() == 1
                &&& output.role == Role::User <==> message.contains_pair(
                    "role"@,
                    Json::String("user"@),
                )
                &&& output.role == Role::User || output.role == Role::Assistant
                &&& match output.stop_reason {
                    Some(reason) => fields.contains_key("stopReason"@) && fields["stopReason"@]
                        is String && reason == decoded_stop_reason(
                        fields["stopReason"@]->String_0,
                    ),
                    None => lacks_string(fields, "stopReason"@),
                }
                &&& lacks_array(message, "content"@) ==> output.content.len() == 0
            }
            &&& lacks_array(message, "content"@) ==> step.outcome is Ok && step.diagnostics.len()
                == 0
            &&& forall|blocks: Seq<Json>| #[trigger]
                message.contains_pair("content"@, Json::Array(blocks)) ==> {
                    let content = decoded_content(blocks, Role::Assistant, policy);
                    &&& step.diagnostics == content.diagnostics
                    &&& match content.outcome {
                        Ok(content) => step.outcome matches Ok(response)
                            && response.outputs[0].content == content,
                        Err(error) => step.outcome == Err::<ResponseView, TranslationErrorView>(
                            error,
                        ),
                    }
                }
        }),
{
}

/// A response without a message has no output, and decodes without loss.
pub proof fn law_response_without_message(fields: Map<Seq<char>, Json>, policy: TranslationPolicy)
    requires
        lacks_object(fields, "output"@) || lacks_object(fields["output"@]->Object_0, "message"@),
    ensures
        ({
            let step = decoded_response(Json::Object(fields), policy);
            &&& step.diagnostics.len() == 0
            &&& step.outcome matches Ok(response) && response.outputs.len() == 0
        }),
{
}

/// A decoded response holds the usage that its body reports, keeps every field without a normalized
/// place as it is, and says nothing else; its body is kept only where the policy preserves bodies.
pub proof fn law_response_says_nothing_else(
    fields: Map<Seq<char>, Json>,
    key: Seq<char>,
    policy: TranslationPolicy,
)
    ensures
        decoded_response(Json::Object(fields), policy).outcome matches Ok(response) ==> {
            &&& fields.contains_key("usage"@) ==> response.usage == reported_usage(
                no_usage(),
                Some(fields["usage"@]),
            )
            &&& !fields.contains_key("usage"@) ==> response.usage == no_usage()
            &&& response.extensions.contains_key(key) <==> fields.contains_key(key) && key
                != "output"@ && key != "stopReason"@ && key != "usage"@
            &&& response.extensions.contains_key(key) ==> response.extensions[key] == fields[key]
            &&& response == (ResponseView {
                outputs: response.outputs,
                usage: response.usage,
                extensions: response.extensions,
                preservation: response.preservation,
                ..empty_response()
            })
            &&& !policy.preserve ==> response.preservation == nothing_preserved()
            &&& policy.preserve ==> response.preservation.responses == Map::<
                Seq<char>,
                Json,
            >::empty().insert("bedrock_converse"@, Json::Object(fields))
        },
{
}

} // verus!
