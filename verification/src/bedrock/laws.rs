//! Laws of the buffered Converse codec: what decoding gives back of an encoding.
use vstd::prelude::*;

use super::buffered::{
    content_field, decoded_extensions, decoded_message, decoded_messages, decoded_request,
    decoded_response, encoded_messages, encoded_request, encoded_response, encoded_tools, fields_of,
    inference_of, instruction_content, request_body, request_keys, response_body, response_keys,
    response_message, response_role, response_stop, system_instructions, tool_config_of,
    EncodedView,
};
use super::content::{
    decoded_block, decoded_content, decoded_image, decoded_result_block, decoded_result_content,
    decoded_tool_result, encoded_block, encoded_content, encoded_message, encoded_result_content,
    image_format, message_object, recognized, role_name, supported,
};
use super::fields::{
    decoded_stop_reason, decoded_tool, decoded_tool_choice, decoded_tools, encoded_role,
    encoded_stop_reason, encoded_tool, encoded_tool_choice, encoded_usage, reported_usage,
    tools_field, usage_fields,
};
use crate::format::WireFormat;
use crate::json::{
    array_field, field, float_field, object_field, str_field, string_of, u64_field, FloatView, Json,
};
use crate::llm::{empty_response, no_usage, OpenAiChatReasoningField, Role, StopReason, Usage};
use crate::model::{
    empty_request, ContentView, ImageView, MessageView, OutputParamsView, RequestView, ResponseView,
    SamplingView, ToolChoiceView, ToolDefinitionView,
};
use crate::text::has_prefix;
use crate::translation::{
    captured_request, captured_response, done, each, exact_body, lemma_each_done, lossy, Step,
    TranslationPolicy,
};

verus! {

/// A request body that was decoded under a preserving policy is encoded exactly as it was, by any
/// preserving policy and whatever the target supports.
pub proof fn law_preserved_request_is_exact(
    body: Json,
    decoding: TranslationPolicy,
    capabilities: Step<()>,
    encoding: TranslationPolicy,
)
    requires
        decoding.preserve,
        encoding.preserve,
        decoded_request(body, decoding).outcome is Ok,
    ensures
        encoded_request(decoded_request(body, decoding).outcome->Ok_0, capabilities, encoding)
            == done(EncodedView { body, exact: true }),
{
}

/// A response body that was decoded under a preserving policy is encoded exactly as it was, by any
/// preserving policy.
pub proof fn law_preserved_response_is_exact(
    body: Json,
    decoding: TranslationPolicy,
    encoding: TranslationPolicy,
)
    requires
        decoding.preserve,
        encoding.preserve,
        decoded_response(body, decoding).outcome is Ok,
    ensures
        encoded_response(decoded_response(body, decoding).outcome->Ok_0, encoding) == done(
            EncodedView { body, exact: true },
        ),
{
}

/// A tool choice that Converse represents without loss: one that it has a form for, or a raw
/// value that is none of these forms.
pub open spec fn is_faithful_choice(choice: ToolChoiceView) -> bool {
    match choice {
        ToolChoiceView::Auto | ToolChoiceView::Required | ToolChoiceView::Tool { .. } => true,
        ToolChoiceView::Disallow => false,
        ToolChoiceView::Raw(value) => decoded_tool_choice(value) is Raw,
    }
}

/// The tool choices that Converse represents without loss survive encoding and decoding.
pub proof fn law_tool_choice_round_trips(choice: ToolChoiceView)
    requires
        is_faithful_choice(choice),
    ensures
        decoded_tool_choice(encoded_tool_choice(choice)) == choice,
{
    reveal_strlit("auto");
    reveal_strlit("any");
    reveal_strlit("tool");
    assert("auto"@.len() == 4 && "any"@.len() == 3 && "tool"@.len() == 4);
    assert("auto"@[0] == 'a' && "tool"@[0] == 't');
}

/// Every stop reason but `Error` survives encoding and decoding; `Error` is read as `Unknown`.
pub proof fn law_stop_reason_round_trips(reason: StopReason)
    ensures
        decoded_stop_reason(encoded_stop_reason(reason)) == (if reason == StopReason::Error {
            StopReason::Unknown
        } else {
            reason
        }),
{
    reveal_strlit("end_turn");
    reveal_strlit("stop_sequence");
    reveal_strlit("max_tokens");
    reveal_strlit("tool_use");
    reveal_strlit("content_filtered");
    reveal_strlit("guardrail_intervened");
    reveal_strlit("error");
    reveal_strlit("unknown");
    assert("end_turn"@.len() == 8 && "stop_sequence"@.len() == 13 && "max_tokens"@.len() == 10);
    assert("tool_use"@.len() == 8 && "content_filtered"@.len() == 16);
    assert("guardrail_intervened"@.len() == 20 && "error"@.len() == 5 && "unknown"@.len() == 7);
    assert("end_turn"@[0] == 'e' && "tool_use"@[0] == 't');
}

/// The names of usage counts differ.
proof fn lemma_usage_names()
    ensures
        "inputTokens"@ != "outputTokens"@,
        "inputTokens"@ != "totalTokens"@,
        "inputTokens"@ != "cacheReadInputTokens"@,
        "inputTokens"@ != "cacheWriteInputTokens"@,
        "outputTokens"@ != "totalTokens"@,
        "outputTokens"@ != "cacheReadInputTokens"@,
        "outputTokens"@ != "cacheWriteInputTokens"@,
        "totalTokens"@ != "cacheReadInputTokens"@,
        "totalTokens"@ != "cacheWriteInputTokens"@,
        "cacheReadInputTokens"@ != "cacheWriteInputTokens"@,
{
    reveal_strlit("inputTokens");
    reveal_strlit("outputTokens");
    reveal_strlit("totalTokens");
    reveal_strlit("cacheReadInputTokens");
    reveal_strlit("cacheWriteInputTokens");
    assert("inputTokens"@.len() == 11 && "outputTokens"@.len() == 12);
    assert("totalTokens"@.len() == 11 && "cacheReadInputTokens"@.len() == 20);
    assert("cacheWriteInputTokens"@.len() == 21);
    assert("inputTokens"@[0] == 'i' && "totalTokens"@[0] == 't');
}

/// Usage that Converse has a form for: without reasoning tokens, and with cache detail only where
/// it holds a count.
pub open spec fn is_converse_usage(usage: Usage) -> bool {
    &&& usage.reasoning_tokens is None
    &&& usage.cache is Some ==> usage.cache_read() is Some || usage.cache_creation() is Some
}

/// Usage that Converse has a form for survives encoding and decoding.
pub proof fn law_usage_round_trips(usage: Usage)
    requires
        is_converse_usage(usage),
    ensures
        reported_usage(no_usage(), Some(Json::Object(encoded_usage(usage)))) == usage,
{
    lemma_usage_names();
    let fields = encoded_usage(usage);
    assert(u64_field(fields, "inputTokens"@) == usage.input_tokens);
    assert(u64_field(fields, "outputTokens"@) == usage.output_tokens);
    assert(u64_field(fields, "totalTokens"@) == usage.total_tokens);
    assert(u64_field(fields, "cacheReadInputTokens"@) == usage.cache_read());
    assert(u64_field(fields, "cacheWriteInputTokens"@) == usage.cache_creation());
}

/// A tool definition without a strictness flag survives encoding and decoding.
pub proof fn law_tool_round_trips(tool: ToolDefinitionView)
    requires
        tool.strict is None,
    ensures
        decoded_tool(encoded_tool(tool)) == Some(tool),
{
    reveal_strlit("name");
    reveal_strlit("description");
    reveal_strlit("inputSchema");
    assert("name"@.len() == 4 && "description"@.len() == 11 && "inputSchema"@.len() == 11);
    assert("description"@[0] == 'd' && "inputSchema"@[0] == 'i');
}

/// The names of content kinds differ.
proof fn lemma_kind_names()
    ensures
        "text"@ != "toolUse"@,
        "text"@ != "toolResult"@,
        "text"@ != "reasoningContent"@,
        "text"@ != "image"@,
        "toolUse"@ != "toolResult"@,
        "toolUse"@ != "reasoningContent"@,
        "toolUse"@ != "image"@,
        "toolResult"@ != "reasoningContent"@,
        "toolResult"@ != "image"@,
        "reasoningContent"@ != "image"@,
{
    reveal_strlit("text");
    reveal_strlit("toolUse");
    reveal_strlit("toolResult");
    reveal_strlit("reasoningContent");
    reveal_strlit("image");
    assert("text"@.len() == 4 && "toolUse"@.len() == 7 && "toolResult"@.len() == 10);
    assert("reasoningContent"@.len() == 16 && "image"@.len() == 5);
}

/// The names of fields inside content differ.
proof fn lemma_field_names()
    ensures
        "toolUseId"@ != "name"@,
        "toolUseId"@ != "input"@,
        "toolUseId"@ != "content"@,
        "toolUseId"@ != "status"@,
        "name"@ != "input"@,
        "content"@ != "status"@,
        "text"@ != "signature"@,
        "format"@ != "source"@,
        "error"@ != "success"@,
        "text"@ != "json"@,
{
    reveal_strlit("toolUseId");
    reveal_strlit("name");
    reveal_strlit("input");
    reveal_strlit("content");
    reveal_strlit("status");
    reveal_strlit("text");
    reveal_strlit("signature");
    reveal_strlit("format");
    reveal_strlit("source");
    reveal_strlit("error");
    reveal_strlit("success");
    reveal_strlit("json");
    assert("toolUseId"@.len() == 9 && "name"@.len() == 4 && "input"@.len() == 5);
    assert("content"@.len() == 7 && "status"@.len() == 6 && "signature"@.len() == 9);
    assert("error"@.len() == 5 && "success"@.len() == 7);
    assert("format"@[0] == 'f' && "source"@[0] == 's');
    assert("text"@[0] == 't' && "json"@[0] == 'j' && "text"@.len() == 4);
}

/// A block that Converse represents without loss: text, reasoning without opaque details, a tool
/// call, a tool result of texts that says whether it failed, or an inline image with an image
/// media type.
pub open spec fn is_faithful(block: ContentView) -> bool {
    match block {
        ContentView::Text { .. } => true,
        ContentView::Reasoning { text, signature, details, openai_chat_field } => details.len()
            == 0 && openai_chat_field == OpenAiChatReasoningField::Reasoning,
        ContentView::ToolCall(_) => true,
        ContentView::ToolResult(result) => result.is_error is Some && forall|i: int|
            0 <= i < result.content.len() ==> (#[trigger] result.content[i]) is Text,
        ContentView::Image { source: ImageView::Base64 { media_type: Some(media_type), data } } =>
            has_prefix(media_type, "image/"@),
        _ => false,
    }
}

/// A block that Converse represents without loss survives encoding and decoding, in any role and
/// position and under any policy, and no loss is reported.
pub proof fn law_block_round_trips(
    block: ContentView,
    role: Role,
    index: int,
    encoding: TranslationPolicy,
    decoding: TranslationPolicy,
)
    requires
        is_faithful(block),
    ensures
        supported(block) is Some,
        encoded_block(block, encoding) == done(supported(block)->0),
        decoded_block(supported(block)->0, role, index, decoding) == done(block),
{
    lemma_kind_names();
    lemma_field_names();
    let value = supported(block)->0;
    let fields = value->Object_0;
    match block {
        ContentView::Text { text } => {
            assert(str_field(fields, "text"@) == Some(text));
        },
        ContentView::Reasoning { text, signature, details, openai_chat_field } => {
            let reasoning = object_field(fields, "reasoningContent"@)->0;
            let inner = object_field(reasoning, "reasoningText"@)->0;
            assert(str_field(inner, "text"@) == Some(text));
            assert(str_field(inner, "signature"@) == signature);
            assert(details =~= Seq::empty());
            assert(recognized(fields) == Some(block));
        },
        ContentView::ToolCall(call) => {
            let tool = object_field(fields, "toolUse"@)->0;
            assert(str_field(tool, "toolUseId"@) == Some(call.id));
            assert(str_field(tool, "name"@) == Some(call.name));
            assert(recognized(fields) == Some(block));
        },
        ContentView::ToolResult(result) => {
            let tool = object_field(fields, "toolResult"@)->0;
            let encoded = encoded_result_content(result.content);
            assert(str_field(tool, "toolUseId"@) == Some(result.tool_call_id));
            assert(array_field(tool, "content"@) == Some(encoded));
            assert forall|i: int| 0 <= i < result.content.len() implies decoded_result_block(
                #[trigger] encoded[i],
            ) == result.content[i] by {
                assert(result.content[i] is Text);
                assert(string_of(encoded[i], "text"@) == Some(result.content[i]->Text_text));
            }
            assert(decoded_result_content(encoded) =~= result.content);
            assert(str_field(tool, "status"@) == Some(
                if result.is_error == Some(true) {
                    "error"@
                } else {
                    "success"@
                },
            ));
            let back = decoded_tool_result(tool)->ToolResult_0;
            assert(back.tool_call_id == result.tool_call_id);
            assert(back.content == result.content);
            assert(back.is_error == result.is_error);
            assert(recognized(fields) == Some(block));
        },
        ContentView::Image { source } => {
            let image = object_field(fields, "image"@)->0;
            let media_type = source->Base64_media_type->0;
            let format = image_format(Some(media_type));
            assert("image/"@ + format =~= media_type);
            assert(str_field(image, "format"@) == Some(format));
            assert(object_field(image, "source"@) is Some);
            assert(decoded_image(image) == Some(block));
            assert(recognized(fields) == Some(block));
        },
        _ => {},
    }
}

/// A Converse block that has no normalized form is kept as it is: it is encoded without loss, and
/// decoding the encoding gives it back, reported as a loss.
pub proof fn law_unknown_block_is_kept(
    raw: Map<Seq<char>, Json>,
    role: Role,
    index: int,
    encoding: TranslationPolicy,
    decoding: TranslationPolicy,
)
    requires
        recognized(raw) is None,
    ensures
        ({
            let block = ContentView::Unknown {
                provider: WireFormat::BedrockConverse.name(),
                raw: Json::Object(raw),
            };
            &&& encoded_block(block, encoding) == done(Json::Object(raw))
            &&& decoded_block(Json::Object(raw), role, index, decoding) == lossy(
                decoding,
                "unsupported Bedrock Converse content block for "@ + role_name(role),
                block,
            )
        }),
{
}

/// Blocks that Converse represents without loss.
pub open spec fn all_faithful(content: Seq<ContentView>) -> bool {
    forall|i: int| 0 <= i < content.len() ==> is_faithful(#[trigger] content[i])
}

/// The Converse forms of a list of blocks.
pub open spec fn forms(content: Seq<ContentView>) -> Seq<Json> {
    content.map_values(|block: ContentView| supported(block)->0)
}

/// Content that Converse represents without loss survives encoding and decoding.
pub proof fn law_content_round_trips(
    content: Seq<ContentView>,
    role: Role,
    encoding: TranslationPolicy,
    decoding: TranslationPolicy,
)
    requires
        all_faithful(content),
    ensures
        encoded_content(content, encoding) == done(forms(content)),
        decoded_content(forms(content), role, decoding) == done(content),
{
    let encode = |index: int, block: ContentView| encoded_block(block, encoding);
    let decode = |index: int, block: Json| decoded_block(block, role, index, decoding);
    let values = forms(content);
    assert forall|i: int| 0 <= i < content.len() implies #[trigger] encode(i, content[i]) == done(
        values[i],
    ) by {
        law_block_round_trips(content[i], role, i, encoding, decoding);
    }
    lemma_each_done(content, encode, values);
    assert forall|i: int| 0 <= i < values.len() implies #[trigger] decode(i, values[i]) == done(
        content[i],
    ) by {
        law_block_round_trips(content[i], role, i, encoding, decoding);
    }
    lemma_each_done(values, decode, content);
}

/// The names of request fields differ.
proof fn lemma_request_names()
    ensures
        "system"@ != "messages"@,
        "system"@ != "inferenceConfig"@,
        "system"@ != "toolConfig"@,
        "system"@ != "additionalModelRequestFields"@,
        "messages"@ != "inferenceConfig"@,
        "messages"@ != "toolConfig"@,
        "messages"@ != "additionalModelRequestFields"@,
        "inferenceConfig"@ != "toolConfig"@,
        "inferenceConfig"@ != "additionalModelRequestFields"@,
        "toolConfig"@ != "additionalModelRequestFields"@,
        "stop"@ != "additionalModelRequestFields"@,
        "role"@ != "content"@,
        "user"@ != "assistant"@,
        "tools"@ != "toolChoice"@,
{
    reveal_strlit("system");
    reveal_strlit("messages");
    reveal_strlit("inferenceConfig");
    reveal_strlit("toolConfig");
    reveal_strlit("additionalModelRequestFields");
    reveal_strlit("stop");
    reveal_strlit("role");
    reveal_strlit("content");
    reveal_strlit("user");
    reveal_strlit("assistant");
    reveal_strlit("tools");
    reveal_strlit("toolChoice");
    assert("system"@.len() == 6 && "messages"@.len() == 8 && "inferenceConfig"@.len() == 15);
    assert("toolConfig"@.len() == 10 && "additionalModelRequestFields"@.len() == 28);
    assert("stop"@.len() == 4 && "role"@.len() == 4 && "content"@.len() == 7);
    assert("user"@.len() == 4 && "assistant"@.len() == 9);
    assert("tools"@.len() == 5 && "toolChoice"@.len() == 10);
}

/// The names of inference settings differ.
proof fn lemma_inference_names()
    ensures
        "maxTokens"@ != "temperature"@,
        "maxTokens"@ != "topP"@,
        "maxTokens"@ != "stopSequences"@,
        "temperature"@ != "topP"@,
        "temperature"@ != "stopSequences"@,
        "topP"@ != "stopSequences"@,
{
    reveal_strlit("maxTokens");
    reveal_strlit("temperature");
    reveal_strlit("topP");
    reveal_strlit("stopSequences");
    assert("maxTokens"@.len() == 9 && "temperature"@.len() == 11 && "topP"@.len() == 4);
    assert("stopSequences"@.len() == 13);
}

/// A message that Converse represents without loss.
pub open spec fn is_faithful_message(message: MessageView) -> bool {
    (message.role == Role::User || message.role == Role::Assistant) && all_faithful(message.content)
}

/// The Converse forms of a list of messages.
pub open spec fn message_forms(items: Seq<MessageView>) -> Seq<Json> {
    items.map_values(|message: MessageView| message_object(message.role, forms(message.content)))
}

/// Messages that Converse represents without loss survive encoding and decoding.
pub proof fn law_messages_round_trip(
    items: Seq<MessageView>,
    encoding: TranslationPolicy,
    decoding: TranslationPolicy,
)
    requires
        forall|i: int| 0 <= i < items.len() ==> is_faithful_message(#[trigger] items[i]),
    ensures
        encoded_messages(items, encoding) == done(message_forms(items)),
        each(
            message_forms(items),
            |index: int, message: Json| decoded_message(message, index, decoding),
        ) == done(items),
{
    lemma_request_names();
    let encode = |index: int, message: MessageView| encoded_message(message, encoding);
    let decode = |index: int, message: Json| decoded_message(message, index, decoding);
    let values = message_forms(items);
    assert forall|i: int| 0 <= i < items.len() implies #[trigger] encode(i, items[i]) == done(
        values[i],
    ) by {
        assert(is_faithful_message(items[i]));
        law_content_round_trips(items[i].content, items[i].role, encoding, decoding);
    }
    lemma_each_done(items, encode, values);
    assert forall|i: int| 0 <= i < values.len() implies #[trigger] decode(i, values[i]) == done(
        items[i],
    ) by {
        assert(is_faithful_message(items[i]));
        law_content_round_trips(items[i].content, items[i].role, encoding, decoding);
        let fields = values[i]->Object_0;
        assert(str_field(fields, "role"@) == Some(encoded_role(items[i].role)));
        assert(array_field(fields, "content"@) == Some(forms(items[i].content)));
    }
    lemma_each_done(values, decode, items);
}

/// Tool definitions without a strictness flag survive encoding and decoding.
pub proof fn law_tools_round_trip(tools: Seq<ToolDefinitionView>)
    requires
        forall|i: int| 0 <= i < tools.len() ==> (#[trigger] tools[i]).strict is None,
    ensures
        decoded_tools(encoded_tools(tools)) == tools,
    decreases tools.len(),
{
    let entries = encoded_tools(tools);
    if tools.len() == 0 {
        assert(decoded_tools(entries) =~= tools);
    } else {
        let rest = tools.drop_last();
        assert forall|i: int| 0 <= i < rest.len() implies (#[trigger] rest[i]).strict is None by {
            assert(rest[i] == tools[i]);
        }
        law_tools_round_trip(rest);
        assert(tools[tools.len() - 1].strict is None);
        law_tool_round_trips(tools.last());
        assert(entries.drop_last() =~= encoded_tools(rest));
        assert(entries.last() == encoded_tool(tools.last()));
        assert(rest.push(tools.last()) =~= tools);
    }
}

/// A float that JSON has a number for, or none.
pub open spec fn is_json_float(float: Option<FloatView>) -> bool {
    match float {
        Some(float) => float is Finite,
        None => true,
    }
}

/// A request that Converse represents without loss, whatever bodies are kept with it.
pub open spec fn is_faithful_request(request: RequestView) -> bool {
    &&& request == (RequestView {
        instructions: request.instructions,
        messages: request.messages,
        tools: request.tools,
        tool_choice: request.tool_choice,
        sampling: SamplingView { top_k: None, ..request.sampling },
        output: OutputParamsView { response_format: None, ..request.output },
        extensions: request.extensions,
        preservation: request.preservation,
        ..empty_request()
    })
    &&& is_json_float(request.sampling.temperature) && is_json_float(request.sampling.top_p)
    &&& request.instructions.len() == 0 || {
        &&& request.instructions.len() == 1
        &&& request.instructions[0].role == Role::System
        &&& request.instructions[0].content.len() > 0
        &&& all_faithful(request.instructions[0].content)
    }
    &&& forall|i: int|
        0 <= i < request.messages.len() ==> is_faithful_message(#[trigger] request.messages[i])
    &&& forall|i: int| 0 <= i < request.tools.len() ==> (#[trigger] request.tools[i]).strict is None
    &&& match request.tool_choice {
        Some(choice) => is_faithful_choice(choice),
        None => true,
    }
    &&& forall|key: Seq<char>| #[trigger]
        request.extensions.contains_key(key) ==> key == "stop"@ || key
            == "additionalModelRequestFields"@
}

/// The Converse body of a request that Converse represents without loss.
pub open spec fn request_form(request: RequestView) -> Json {
    Json::Object(
        request_body(
            request,
            forms(instruction_content(request.instructions)),
            message_forms(request.messages),
        ),
    )
}

proof fn lemma_request_inference(request: RequestView)
    requires
        is_json_float(request.sampling.temperature),
        is_json_float(request.sampling.top_p),
    ensures
        ({
            let inference = inference_of(request);
            &&& u64_field(inference, "maxTokens"@) == request.output.max_output_tokens
            &&& float_field(inference, "temperature"@) == request.sampling.temperature
            &&& float_field(inference, "topP"@) == request.sampling.top_p
            &&& field(inference, "stopSequences"@) == field(request.extensions, "stop"@)
        }),
{
    lemma_inference_names();
}

proof fn lemma_request_fields(request: RequestView, system: Seq<Json>, items: Seq<Json>)
    ensures
        ({
            let fields = request_body(request, system, items);
            &&& array_field(fields, "system"@) == (if system.len() == 0 {
                None
            } else {
                Some(system)
            })
            &&& array_field(fields, "messages"@) == Some(items)
            &&& fields_of(fields, "inferenceConfig"@) == inference_of(request)
            &&& fields_of(fields, "toolConfig"@) == tool_config_of(request)
            &&& field(fields, "additionalModelRequestFields"@) == field(
                request.extensions,
                "additionalModelRequestFields"@,
            )
            &&& fields.remove_keys(request_keys()) == Map::<Seq<char>, Json>::empty()
        }),
{
    lemma_request_names();
    let fields = request_body(request, system, items);
    assert(fields.remove_keys(request_keys()) =~= Map::empty());
}

/// A request that Converse represents without loss is encoded without loss where no kept body is
/// taken instead, and decoding the body gives the request back, with the body kept where the
/// decoding policy preserves bodies.
pub proof fn law_request_round_trips(
    request: RequestView,
    capabilities: Step<()>,
    encoding: TranslationPolicy,
    decoding: TranslationPolicy,
)
    requires
        is_faithful_request(request),
        exact_body(request.preservation.requests, WireFormat::BedrockConverse, encoding) is None,
        capabilities.outcome is Ok,
    ensures
        encoded_request(request, capabilities, encoding) == (Step {
            diagnostics: capabilities.diagnostics,
            outcome: Ok(EncodedView { body: request_form(request), exact: false }),
        }),
        decoded_request(request_form(request), decoding) == done(
            RequestView {
                preservation: captured_request(
                    WireFormat::BedrockConverse,
                    request_form(request),
                    decoding,
                ),
                ..request
            },
        ),
{
    let system = instruction_content(request.instructions);
    let items = request.messages;
    let fields = request_body(request, forms(system), message_forms(items));
    let none = Seq::<Seq<char>>::empty();
    if request.instructions.len() == 0 {
        assert(system =~= Seq::empty());
    } else {
        assert(request.instructions.drop_last() =~= Seq::empty());
        assert(instruction_content(request.instructions.drop_last()) =~= Seq::empty());
        assert(system =~= request.instructions[0].content);
    }
    law_content_round_trips(system, Role::System, encoding, decoding);
    law_messages_round_trip(items, encoding, decoding);
    law_tools_round_trip(request.tools);
    lemma_request_inference(request);
    lemma_request_fields(request, forms(system), message_forms(items));
    lemma_request_names();
    assert(none + none =~= none);
    assert(capabilities.diagnostics + none =~= capabilities.diagnostics);
    assert(capabilities.diagnostics + (none + none) =~= capabilities.diagnostics);
    if let Some(choice) = request.tool_choice {
        law_tool_choice_round_trips(choice);
    }
    let config = tool_config_of(request);
    assert(tools_field(field(config, "tools"@)) =~= request.tools);
    assert(decoded_extensions(fields) =~= request.extensions);
    assert(content_field(fields, "system"@, Role::System, decoding) == done(system));
    assert(decoded_messages(fields, decoding) == done(items));
    assert(system_instructions(system) =~= request.instructions);
}

/// A response that Converse represents without loss, whatever bodies are kept with it: at most one
/// output, by the assistant or the user, and usage, and nothing else.
pub open spec fn is_faithful_response(response: ResponseView) -> bool {
    &&& response == (ResponseView {
        outputs: response.outputs,
        usage: response.usage,
        preservation: response.preservation,
        ..empty_response()
    })
    &&& response.outputs.len() <= 1
    &&& response.outputs.len() == 1 ==> {
        let output = response.outputs[0];
        &&& output.role == Role::Assistant || output.role == Role::User
        &&& output.stop_reason != Some(StopReason::Error)
        &&& all_faithful(output.content)
    }
    &&& is_converse_usage(response.usage)
}

/// The Converse body of a response that Converse represents without loss.
pub open spec fn response_form(response: ResponseView) -> Json {
    Json::Object(
        response_body(
            response,
            if response.outputs.len() > 0 {
                forms(response.outputs[0].content)
            } else {
                Seq::empty()
            },
        ),
    )
}

/// A response that Converse represents without loss is encoded without loss where no kept body is
/// taken instead, and decoding the body gives the response back, with the body kept where the
/// decoding policy preserves bodies.
pub proof fn law_response_round_trips(
    response: ResponseView,
    encoding: TranslationPolicy,
    decoding: TranslationPolicy,
)
    requires
        is_faithful_response(response),
        exact_body(response.preservation.responses, WireFormat::BedrockConverse, encoding) is None,
    ensures
        encoded_response(response, encoding) == done(
            EncodedView { body: response_form(response), exact: false },
        ),
        decoded_response(response_form(response), decoding) == done(
            ResponseView {
                preservation: captured_response(
                    WireFormat::BedrockConverse,
                    response_form(response),
                    decoding,
                ),
                ..response
            },
        ),
{
    let fields = response_form(response)->Object_0;
    reveal_strlit("output");
    reveal_strlit("stopReason");
    reveal_strlit("usage");
    assert("output"@.len() == 6 && "stopReason"@.len() == 10 && "usage"@.len() == 5);
    lemma_request_names();
    law_usage_round_trips(response.usage);
    let usage = encoded_usage(response.usage);
    assert(usage_fields(field(fields, "usage"@)) =~= usage);
    assert(reported_usage(no_usage(), field(fields, "usage"@)) == response.usage);
    assert(fields.remove_keys(response_keys()) =~= Map::empty());
    if response.outputs.len() == 0 {
        assert(response_message(fields) is None);
        assert(response.outputs =~= Seq::empty());
    } else {
        let output = response.outputs[0];
        let values = forms(output.content);
        law_content_round_trips(output.content, Role::Assistant, encoding, decoding);
        if let Some(reason) = output.stop_reason {
            law_stop_reason_round_trips(reason);
        }
        let message = response_message(fields)->0;
        assert(response_message(fields) is Some);
        assert(Json::Object(message) == message_object(output.role, values));
        assert(str_field(message, "role"@) == Some(encoded_role(output.role)));
        assert(array_field(message, "content"@) == Some(values));
        assert(response_role(message) == output.role);
        assert(response_stop(fields) == output.stop_reason);
        assert(response.outputs =~= seq![output]);
    }
}

} // verus!
