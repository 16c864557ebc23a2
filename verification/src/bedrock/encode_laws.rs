//! Laws of encoding Converse bodies: what an encoded body says of what was encoded.
use vstd::prelude::*;

use super::buffered::{
    capability_step, encoded_messages, encoded_request, encoded_response, inference_of,
    instruction_content, tool_config_of, EncodedView,
};
use super::content::{
    decoded_block, decoded_content, decoded_image, decoded_result_block, decoded_result_content,
    encoded_block, encoded_content, encoded_message, encoded_result_block, encoded_result_content,
    image_format, recognized, role_name, supported,
};
use super::fields::{encoded_role, encoded_stop_reason, encoded_tool, encoded_usage};
use super::laws::{all_faithful, forms, law_content_round_trips};
use crate::describe::block_text;
use crate::format::WireFormat;
use crate::json::{object_field, printed, str_field, FloatView, Json, JsonNumber};
use crate::llm::{OpenAiChatReasoningField, Role, StopReason, Usage};
use crate::model::{
    ContentView, ImageView, MessageView, RequestView, ResponseView, ToolChoiceView,
    ToolDefinitionView,
};
use crate::text::has_prefix;
use crate::translation::{
    each, exact_body, law_first_failure_is_the_error, law_steps_collect_in_order, reports, Step,
    TranslationDiagnostic, TranslationError, TranslationErrorView, TranslationPolicy,
};

verus! {

/// The content of the instructions of two lists is that of the first and then that of the second,
/// and one instruction has its own content: no instruction is left out.
pub proof fn law_instructions_join(
    first: Seq<MessageView>,
    second: Seq<MessageView>,
    one: MessageView,
)
    ensures
        instruction_content(first + second) == instruction_content(first) + instruction_content(
            second,
        ),
        instruction_content(seq![one]) == one.content,
        instruction_content(Seq::empty()).len() == 0,
    decreases second.len(),
{
    let single = seq![one];
    assert(single.drop_last() =~= Seq::empty());
    assert(instruction_content(single.drop_last()) =~= Seq::empty());
    assert(instruction_content(single) =~= one.content);
    if second.len() == 0 {
        assert(first + second =~= first);
        assert(instruction_content(first) + instruction_content(second) =~= instruction_content(
            first,
        ));
    } else {
        law_instructions_join(first, second.drop_last(), one);
        assert((first + second).drop_last() =~= first + second.drop_last());
        assert((first + second).last() == second.last());
        assert(instruction_content(first + second) =~= instruction_content(first)
            + instruction_content(second));
    }
}

/// The length of the content of all instructions.
pub open spec fn instruction_blocks(instructions: Seq<MessageView>) -> nat
    decreases instructions.len(),
{
    if instructions.len() == 0 {
        0
    } else {
        instructions[0].content.len() + instruction_blocks(instructions.drop_first())
    }
}

/// The blocks of every instruction stand in the content of all of them, in order: after the blocks
/// of those before it.
pub proof fn law_every_instruction_is_sent(instructions: Seq<MessageView>, n: int)
    requires
        0 <= n < instructions.len(),
    ensures
        ({
            let content = instruction_content(instructions);
            let start = instruction_blocks(instructions.take(n)) as int;
            let own = instructions[n].content;
            &&& start + own.len() <= content.len()
            &&& content.subrange(start, start + own.len()) == own
            &&& content.len() == instruction_blocks(instructions)
        }),
{
    let head = instructions.take(n);
    let tail = instructions.skip(n + 1);
    let one = instructions[n];
    assert(head + seq![one] + tail =~= instructions);
    law_instructions_join(head + seq![one], tail, one);
    law_instructions_join(head, seq![one], one);
    lemma_instruction_blocks(head);
    lemma_instruction_blocks(instructions);
    let content = instruction_content(instructions);
    let start = instruction_blocks(head) as int;
    assert(content.subrange(start, start + one.content.len()) =~= one.content);
}

proof fn lemma_instruction_blocks(instructions: Seq<MessageView>)
    ensures
        instruction_content(instructions).len() == instruction_blocks(instructions),
    decreases instructions.len(),
{
    if instructions.len() > 0 {
        let first = seq![instructions[0]];
        let rest = instructions.drop_first();
        lemma_instruction_blocks(rest);
        law_instructions_join(first, rest, instructions[0]);
        assert(first + rest =~= instructions);
    }
}

/// The body of a request that was encoded afresh.
pub open spec fn fresh_body(step: Step<EncodedView>) -> Map<Seq<char>, Json> {
    step.outcome->Ok_0.body->Object_0
}

/// A request is encoded afresh: no kept body is taken, and the encoding succeeds.
pub open spec fn encodes_afresh(
    request: RequestView,
    capabilities: Step<()>,
    policy: TranslationPolicy,
) -> bool {
    &&& exact_body(request.preservation.requests, WireFormat::BedrockConverse, policy) is None
    &&& encoded_request(request, capabilities, policy).outcome is Ok
}

proof fn lemma_body_names()
    ensures
        "system"@ != "messages"@,
        "system"@ != "inferenceConfig"@,
        "system"@ != "toolConfig"@,
        "system"@ != "additionalModelRequestFields"@,
        "messages"@ != "inferenceConfig"@,
        "messages"@ != "toolConfig"@,
        "messages"@ != "additionalModelRequestFields"@,
        "inferenceConfig"@ != "toolConfig"@,
        "inferenceConfig"@ != "additionalModelRequestFields"@,
        "toolConfig"@ != "additionalModelRequestFields"@,
        "role"@ != "content"@,
        "user"@ != "assistant"@,
        "tools"@ != "toolChoice"@,
        "maxTokens"@ != "temperature"@,
        "maxTokens"@ != "topP"@,
        "maxTokens"@ != "stopSequences"@,
        "temperature"@ != "topP"@,
        "temperature"@ != "stopSequences"@,
        "topP"@ != "stopSequences"@,
        "name"@ != "description"@,
        "name"@ != "inputSchema"@,
        "description"@ != "inputSchema"@,
        "output"@ != "stopReason"@,
        "output"@ != "usage"@,
        "stopReason"@ != "usage"@,
{
    reveal_strlit("system");
    reveal_strlit("messages");
    reveal_strlit("inferenceConfig");
    reveal_strlit("toolConfig");
    reveal_strlit("additionalModelRequestFields");
    reveal_strlit("role");
    reveal_strlit("content");
    reveal_strlit("user");
    reveal_strlit("assistant");
    reveal_strlit("tools");
    reveal_strlit("toolChoice");
    reveal_strlit("maxTokens");
    reveal_strlit("temperature");
    reveal_strlit("topP");
    reveal_strlit("stopSequences");
    reveal_strlit("name");
    reveal_strlit("description");
    reveal_strlit("inputSchema");
    reveal_strlit("output");
    reveal_strlit("stopReason");
    reveal_strlit("usage");
    assert("system"@.len() == 6 && "messages"@.len() == 8 && "inferenceConfig"@.len() == 15);
    assert("toolConfig"@.len() == 10 && "additionalModelRequestFields"@.len() == 28);
    assert("role"@.len() == 4 && "content"@.len() == 7);
    assert("user"@.len() == 4 && "assistant"@.len() == 9);
    assert("tools"@.len() == 5 && "toolChoice"@.len() == 10);
    assert("maxTokens"@.len() == 9 && "temperature"@.len() == 11 && "topP"@.len() == 4);
    assert("stopSequences"@.len() == 13);
    assert("name"@.len() == 4 && "description"@.len() == 11 && "inputSchema"@.len() == 11);
    assert("description"@[0] == 'd' && "inputSchema"@[0] == 'i');
    assert("output"@.len() == 6 && "stopReason"@.len() == 10 && "usage"@.len() == 5);
}

/// A request that is encoded afresh says its system content under `system`, where there is any: the
/// encoded blocks of all its instructions.
pub proof fn law_request_body_system(
    request: RequestView,
    capabilities: Step<()>,
    policy: TranslationPolicy,
)
    requires
        encodes_afresh(request, capabilities, policy),
    ensures
        ({
            let step = encoded_request(request, capabilities, policy);
            let body = fresh_body(step);
            let content = instruction_content(request.instructions);
            let values = encoded_content(content, policy).outcome;
            &&& !step.outcome->Ok_0.exact
            &&& step.outcome->Ok_0.body is Object
            &&& values is Ok
            &&& values->Ok_0.len() == instruction_blocks(request.instructions)
            &&& body.contains_key("system"@) <==> instruction_blocks(request.instructions) > 0
            &&& body.contains_key("system"@) ==> body["system"@] == Json::Array(values->Ok_0)
        }),
{
    lemma_body_names();
    lemma_instruction_blocks(request.instructions);
    law_content_encodes_in_order(instruction_content(request.instructions), policy);
}

/// Encoded content has one value for each block, in order, and the losses of all of them; where a
/// block fails, the content does.
pub proof fn law_content_encodes_in_order(content: Seq<ContentView>, policy: TranslationPolicy)
    ensures
        ({
            let step = encoded_content(content, policy);
            &&& step.outcome is Ok <==> forall|i: int|
                0 <= i < content.len() ==> encoded_block(#[trigger] content[i], policy).outcome
                    is Ok
            &&& step.outcome matches Ok(values) ==> {
                &&& values.len() == content.len()
                &&& forall|i: int|
                    0 <= i < content.len() ==> encoded_block(
                        #[trigger] content[i],
                        policy,
                    ).outcome == Ok::<Json, TranslationErrorView>(values[i])
                &&& step.diagnostics == reports(
                    content,
                    |i: int, block: ContentView| encoded_block(block, policy),
                    content.len(),
                )
            }
        }),
{
    let step = |i: int, block: ContentView| encoded_block(block, policy);
    assert(encoded_content(content, policy) == each(content, step));
    if forall|i: int|
        0 <= i < content.len() ==> encoded_block(#[trigger] content[i], policy).outcome is Ok {
        assert forall|i: int| 0 <= i < content.len() implies (#[trigger] step(
            i,
            content[i],
        )).outcome is Ok by {
            assert(encoded_block(content[i], policy).outcome is Ok);
        }
        law_steps_collect_in_order(content, step);
        let values = each(content, step).outcome->Ok_0;
        assert forall|i: int| 0 <= i < content.len() implies encoded_block(
            #[trigger] content[i],
            policy,
        ).outcome == Ok::<Json, TranslationErrorView>(values[i]) by {
            assert(step(i, content[i]).outcome == Ok::<Json, TranslationErrorView>(values[i]));
        }
    } else {
        let some = choose|i: int|
            0 <= i < content.len() && !(encoded_block(#[trigger] content[i], policy).outcome
                is Ok);
        let first = lemma_first_failure(content, policy, some);
        assert forall|i: int| 0 <= i < first implies (#[trigger] step(i, content[i])).outcome
            is Ok by {
            assert(encoded_block(content[i], policy).outcome is Ok);
        }
        law_first_failure_is_the_error(content, step, first);
        assert(!(encoded_block(content[first], policy).outcome is Ok));
    }
}

proof fn lemma_first_failure(
    content: Seq<ContentView>,
    policy: TranslationPolicy,
    some: int,
) -> (first: int)
    requires
        0 <= some < content.len(),
        encoded_block(content[some], policy).outcome is Err,
    ensures
        0 <= first <= some,
        encoded_block(content[first], policy).outcome is Err,
        forall|i: int|
            0 <= i < first ==> encoded_block(#[trigger] content[i], policy).outcome is Ok,
    decreases some,
{
    if exists|i: int|
        0 <= i < some && encoded_block(#[trigger] content[i], policy).outcome is Err {
        let earlier = choose|i: int|
            0 <= i < some && encoded_block(#[trigger] content[i], policy).outcome is Err;
        lemma_first_failure(content, policy, earlier)
    } else {
        some
    }
}

/// The first block that fails to encode fails the content, with its error.
pub proof fn law_first_bad_block_fails_encoding(
    content: Seq<ContentView>,
    n: int,
    policy: TranslationPolicy,
)
    requires
        0 <= n < content.len(),
        forall|i: int| 0 <= i < n ==> encoded_block(#[trigger] content[i], policy).outcome is Ok,
        encoded_block(content[n], policy).outcome is Err,
    ensures
        encoded_content(content, policy).outcome == Err::<Seq<Json>, TranslationErrorView>(
            encoded_block(content[n], policy).outcome->Err_0,
        ),
{
    let step = |i: int, block: ContentView| encoded_block(block, policy);
    assert(encoded_content(content, policy) == each(content, step));
    assert forall|i: int| 0 <= i < n implies (#[trigger] step(i, content[i])).outcome is Ok by {
        assert(encoded_block(content[i], policy).outcome is Ok);
    }
    law_first_failure_is_the_error(content, step, n);
}

/// A value says a role and content: the assistant's role for the assistant, the user's for every
/// other role, and the encoded content.
pub open spec fn says_message(
    value: Json,
    role: Role,
    content: Seq<ContentView>,
    policy: TranslationPolicy,
) -> bool {
    &&& value is Object
    &&& value->Object_0.contains_pair(
        "role"@,
        Json::String(
            if role == Role::Assistant {
                "assistant"@
            } else {
                "user"@
            },
        ),
    )
    &&& value->Object_0.contains_key("content"@)
    &&& value->Object_0["content"@] is Array
    &&& encoded_content(content, policy).outcome == Ok::<Seq<Json>, TranslationErrorView>(
        value->Object_0["content"@]->Array_0,
    )
}

/// A request that is encoded afresh says each of its messages under `messages`, in order.
pub proof fn law_request_body_messages(
    request: RequestView,
    capabilities: Step<()>,
    policy: TranslationPolicy,
)
    requires
        encodes_afresh(request, capabilities, policy),
    ensures
        ({
            let body = fresh_body(encoded_request(request, capabilities, policy));
            &&& body.contains_key("messages"@)
            &&& body["messages"@] is Array
            &&& body["messages"@]->Array_0.len() == request.messages.len()
            &&& forall|i: int|
                0 <= i < request.messages.len() ==> says_message(
                    body["messages"@]->Array_0[i],
                    (#[trigger] request.messages[i]).role,
                    request.messages[i].content,
                    policy,
                )
        }),
{
    lemma_body_names();
    let body = fresh_body(encoded_request(request, capabilities, policy));
    let items = request.messages;
    let step = |i: int, message: MessageView| encoded_message(message, policy);
    assert(encoded_messages(items, policy) == each(items, step));
    lemma_each_ok(items, step);
    law_steps_collect_in_order(items, step);
    let values = each(items, step).outcome->Ok_0;
    assert(body["messages"@] == Json::Array(values));
    assert forall|i: int| 0 <= i < items.len() implies says_message(
        values[i],
        (#[trigger] items[i]).role,
        items[i].content,
        policy,
    ) by {
        assert(step(i, items[i]).outcome == Ok::<Json, TranslationErrorView>(values[i]));
    }
}

proof fn lemma_each_ok<A, B>(items: Seq<A>, step: spec_fn(int, A) -> Step<B>)
    requires
        each(items, step).outcome is Ok,
    ensures
        forall|i: int| 0 <= i < items.len() ==> (#[trigger] step(i, items[i])).outcome is Ok,
    decreases items.len(),
{
    if items.len() > 0 {
        lemma_each_ok(items.drop_last(), step);
        assert forall|i: int| 0 <= i < items.len() implies (#[trigger] step(i, items[i])).outcome
            is Ok by {
            if i < items.len() - 1 {
                assert(step(i, items.drop_last()[i]).outcome is Ok);
            }
        }
    }
}

/// An object says an optional value under a key: it holds the key exactly where there is a value,
/// and then that value.
pub open spec fn says_optional(
    fields: Map<Seq<char>, Json>,
    key: Seq<char>,
    value: Option<Json>,
) -> bool {
    match value {
        Some(value) => fields.contains_pair(key, value),
        None => !fields.contains_key(key),
    }
}

/// The JSON number of an optional count.
pub open spec fn number_of_count(count: Option<u64>) -> Option<Json> {
    match count {
        Some(count) => Some(Json::Number(JsonNumber::PosInt(count))),
        None => None,
    }
}

/// The JSON number of an optional float; `null` for one that JSON has no number for.
pub open spec fn number_of_float(float: Option<FloatView>) -> Option<Json> {
    match float {
        Some(FloatView::Finite(text)) => Some(Json::Number(JsonNumber::Float(text))),
        Some(_) => Some(Json::Null),
        None => None,
    }
}

/// The value that a map of fields kept holds under a key.
pub open spec fn kept_at(fields: Map<Seq<char>, Json>, key: Seq<char>) -> Option<Json> {
    if fields.contains_key(key) {
        Some(fields[key])
    } else {
        None
    }
}

/// A request that is encoded afresh says its settings under `inferenceConfig`, where it has any:
/// the token limit, the temperature, the nucleus mass and the stop sequences, each where present.
pub proof fn law_request_body_settings(
    request: RequestView,
    capabilities: Step<()>,
    policy: TranslationPolicy,
)
    requires
        encodes_afresh(request, capabilities, policy),
    ensures
        ({
            let body = fresh_body(encoded_request(request, capabilities, policy));
            let limit = number_of_count(request.output.max_output_tokens);
            let temperature = number_of_float(request.sampling.temperature);
            let top_p = number_of_float(request.sampling.top_p);
            let stop = kept_at(request.extensions, "stop"@);
            &&& body.contains_key("inferenceConfig"@) <==> limit is Some || temperature is Some
                || top_p is Some || stop is Some
            &&& body.contains_key("inferenceConfig"@) ==> {
                let inference = body["inferenceConfig"@]->Object_0;
                &&& body["inferenceConfig"@] is Object
                &&& says_optional(inference, "maxTokens"@, limit)
                &&& says_optional(inference, "temperature"@, temperature)
                &&& says_optional(inference, "topP"@, top_p)
                &&& says_optional(inference, "stopSequences"@, stop)
            }
        }),
{
    lemma_body_names();
    let inference = inference_of(request);
    assert(inference.contains_key("maxTokens"@) || inference.contains_key("temperature"@)
        || inference.contains_key("topP"@) || inference.contains_key("stopSequences"@) || inference
        =~= Map::<Seq<char>, Json>::empty());
}

/// An entry says a tool: its name, its description or `null`, and its schema.
pub open spec fn says_tool(entry: Json, tool: ToolDefinitionView) -> bool {
    &&& entry is Object
    &&& entry->Object_0.contains_key("toolSpec"@)
    &&& entry->Object_0["toolSpec"@] is Object
    &&& ({
        let spec = entry->Object_0["toolSpec"@]->Object_0;
        &&& spec.contains_pair("name"@, Json::String(tool.name))
        &&& spec.contains_pair(
            "description"@,
            match tool.description {
                Some(text) => Json::String(text),
                None => Json::Null,
            },
        )
        &&& spec.contains_key("inputSchema"@)
        &&& spec["inputSchema"@] is Object
        &&& spec["inputSchema"@]->Object_0.contains_pair("json"@, tool.parameters)
    })
}

/// A value says a tool choice: an object with `auto`, `any`, the name of the `tool`, or `none`; a
/// raw choice is its own value.
pub open spec fn says_choice(value: Json, choice: ToolChoiceView) -> bool {
    match choice {
        ToolChoiceView::Raw(raw) => value == raw,
        _ => {
            &&& value is Object
            &&& value->Object_0.contains_key("auto"@) <==> choice is Auto
            &&& value->Object_0.contains_key("any"@) <==> choice is Required
            &&& value->Object_0.contains_key("none"@) <==> choice is Disallow
            &&& value->Object_0.contains_key("tool"@) <==> choice is Tool
            &&& choice matches ToolChoiceView::Tool { name } ==> value->Object_0["tool"@] is Object
                && value->Object_0["tool"@]->Object_0.contains_pair("name"@, Json::String(name))
        },
    }
}

proof fn lemma_choice_names()
    ensures
        "auto"@ != "any"@,
        "auto"@ != "none"@,
        "auto"@ != "tool"@,
        "any"@ != "none"@,
        "any"@ != "tool"@,
        "none"@ != "tool"@,
{
    reveal_strlit("auto");
    reveal_strlit("any");
    reveal_strlit("none");
    reveal_strlit("tool");
    assert("auto"@.len() == 4 && "any"@.len() == 3 && "none"@.len() == 4 && "tool"@.len() == 4);
    assert("auto"@[0] == 'a' && "none"@[0] == 'n' && "tool"@[0] == 't');
}

/// A request that is encoded afresh says its tools and its tool choice under `toolConfig`, where it
/// has any: each tool in order, and the choice.
pub proof fn law_request_body_tools(
    request: RequestView,
    capabilities: Step<()>,
    policy: TranslationPolicy,
)
    requires
        encodes_afresh(request, capabilities, policy),
    ensures
        ({
            let body = fresh_body(encoded_request(request, capabilities, policy));
            &&& body.contains_key("toolConfig"@) <==> request.tools.len() > 0
                || request.tool_choice is Some
            &&& body.contains_key("toolConfig"@) ==> {
                let config = body["toolConfig"@]->Object_0;
                &&& body["toolConfig"@] is Object
                &&& config.contains_key("tools"@) <==> request.tools.len() > 0
                &&& config.contains_key("tools"@) ==> {
                    &&& config["tools"@] is Array
                    &&& config["tools"@]->Array_0.len() == request.tools.len()
                    &&& forall|i: int|
                        0 <= i < request.tools.len() ==> says_tool(
                            config["tools"@]->Array_0[i],
                            #[trigger] request.tools[i],
                        )
                }
                &&& config.contains_key("toolChoice"@) <==> request.tool_choice is Some
                &&& request.tool_choice matches Some(choice) ==> says_choice(
                    config["toolChoice"@],
                    choice,
                )
            }
        }),
{
    lemma_body_names();
    lemma_choice_names();
    let config = tool_config_of(request);
    assert(config.contains_key("tools"@) || config.contains_key("toolChoice"@) || config =~= Map::<
        Seq<char>,
        Json,
    >::empty());
    assert forall|i: int| 0 <= i < request.tools.len() implies says_tool(
        encoded_tool(request.tools[i]),
        #[trigger] request.tools[i],
    ) by {
        let spec = encoded_tool(request.tools[i])->Object_0["toolSpec"@]->Object_0;
        assert(spec["inputSchema"@]->Object_0.contains_key("json"@));
    }
}

/// A request that is encoded afresh says its additional model fields as they are, and nothing
/// beside them, its messages, system content, settings and tools.
pub proof fn law_request_body_says_nothing_else(
    request: RequestView,
    capabilities: Step<()>,
    policy: TranslationPolicy,
    key: Seq<char>,
)
    requires
        encodes_afresh(request, capabilities, policy),
    ensures
        ({
            let body = fresh_body(encoded_request(request, capabilities, policy));
            &&& says_optional(
                body,
                "additionalModelRequestFields"@,
                kept_at(request.extensions, "additionalModelRequestFields"@),
            )
            &&& body.contains_key(key) ==> key == "messages"@ || key == "system"@ || key
                == "inferenceConfig"@ || key == "toolConfig"@ || key
                == "additionalModelRequestFields"@
        }),
{
    lemma_body_names();
}

/// A kept body is encoded as it is, without loss and whatever the capability check says.
pub proof fn law_kept_body_is_encoded(
    request: RequestView,
    response: ResponseView,
    body: Json,
    capabilities: Step<()>,
    policy: TranslationPolicy,
)
    requires
        policy.preserve,
        request.preservation.requests.contains_pair("bedrock_converse"@, body),
        response.preservation.responses.contains_pair("bedrock_converse"@, body),
    ensures
        ({
            let step = encoded_request(request, capabilities, policy);
            &&& step.diagnostics.len() == 0
            &&& step.outcome == Ok::<EncodedView, TranslationErrorView>(
                EncodedView { body, exact: true },
            )
            &&& encoded_response(response, policy) == step
        }),
{
}

/// Without a kept body, a request whose capability check fails is not encoded; where the check
/// succeeds, its losses come first, and the encoding fails only where content does.
pub proof fn law_capabilities_are_checked_first(
    request: RequestView,
    capabilities: Step<()>,
    policy: TranslationPolicy,
)
    requires
        exact_body(request.preservation.requests, WireFormat::BedrockConverse, policy) is None,
    ensures
        ({
            let step = encoded_request(request, capabilities, policy);
            let system = encoded_content(instruction_content(request.instructions), policy);
            let items = encoded_messages(request.messages, policy);
            match capabilities.outcome {
                Err(error) => {
                    &&& step.outcome == Err::<EncodedView, TranslationErrorView>(error)
                    &&& step.diagnostics == capabilities.diagnostics
                },
                Ok(_) => match system.outcome {
                    Err(error) => {
                        &&& step.outcome == Err::<EncodedView, TranslationErrorView>(error)
                        &&& step.diagnostics == capabilities.diagnostics + system.diagnostics
                    },
                    Ok(_) => {
                        &&& step.diagnostics == capabilities.diagnostics + (system.diagnostics
                            + items.diagnostics)
                        &&& step.outcome is Ok <==> items.outcome is Ok
                        &&& items.outcome matches Err(error) ==> step.outcome == Err::<
                            EncodedView,
                            TranslationErrorView,
                        >(error)
                    },
                },
            }
        }),
{
}

/// A response that is encoded afresh says its first output under `output`, with its role, content
/// and stop reason, and its usage where it has a count; a response without outputs says only its
/// usage. It says nothing else.
pub proof fn law_response_body_says(
    response: ResponseView,
    policy: TranslationPolicy,
    key: Seq<char>,
)
    requires
        exact_body(response.preservation.responses, WireFormat::BedrockConverse, policy) is None,
        encoded_response(response, policy).outcome is Ok,
    ensures
        ({
            let step = encoded_response(response, policy);
            let body = fresh_body(step);
            let usage = response.usage;
            &&& !step.outcome->Ok_0.exact
            &&& step.outcome->Ok_0.body is Object
            &&& body.contains_key("output"@) <==> response.outputs.len() > 0
            &&& body.contains_key("output"@) ==> {
                &&& body["output"@] is Object
                &&& body["output"@]->Object_0.contains_key("message"@)
                &&& says_message(
                    body["output"@]->Object_0["message"@],
                    response.outputs[0].role,
                    response.outputs[0].content,
                    policy,
                )
                &&& step.diagnostics == encoded_content(
                    response.outputs[0].content,
                    policy,
                ).diagnostics
            }
            &&& response.outputs.len() == 0 ==> step.diagnostics.len() == 0
            &&& body.contains_key("stopReason"@) <==> response.outputs.len() > 0
                && response.outputs[0].stop_reason is Some
            &&& body.contains_key("stopReason"@) ==> body["stopReason"@] == Json::String(
                encoded_stop_reason(response.outputs[0].stop_reason->0),
            )
            &&& body.contains_key("usage"@) <==> usage.input_tokens is Some
                || usage.output_tokens is Some || usage.total_tokens is Some
                || usage.cache_read() is Some || usage.cache_creation() is Some
            &&& body.contains_key("usage"@) ==> body["usage"@] == Json::Object(
                encoded_usage(usage),
            )
            &&& body.contains_key(key) ==> key == "output"@ || key == "stopReason"@ || key
                == "usage"@
        }),
{
    lemma_body_names();
    law_usage_says_its_counts(response.usage, key);
    let counts = encoded_usage(response.usage);
    assert(counts.contains_key("inputTokens"@) || counts.contains_key("outputTokens"@)
        || counts.contains_key("totalTokens"@) || counts.contains_key("cacheReadInputTokens"@)
        || counts.contains_key("cacheWriteInputTokens"@) || counts =~= Map::<
        Seq<char>,
        Json,
    >::empty()) by {
        lemma_usage_keys(response.usage);
    }
}

/// A response is encoded unless the content of its first output fails.
pub proof fn law_response_encodes_where_content_does(
    response: ResponseView,
    policy: TranslationPolicy,
)
    requires
        exact_body(response.preservation.responses, WireFormat::BedrockConverse, policy) is None,
    ensures
        response.outputs.len() == 0 ==> encoded_response(response, policy).outcome is Ok,
        response.outputs.len() > 0 ==> match encoded_content(
            response.outputs[0].content,
            policy,
        ).outcome {
            Ok(_) => encoded_response(response, policy).outcome is Ok,
            Err(error) => encoded_response(response, policy).outcome == Err::<
                EncodedView,
                TranslationErrorView,
            >(error),
        },
{
}

proof fn lemma_count_names()
    ensures
        "inputTokens"@ != "outputTokens"@,
        "inputTokens"@ != "totalTokens"@,
        "inputTokens"@ != "cacheReadInputTokens"@,
        "inputTokens"@ != "cacheWriteInputTokens"@,
        "outputTokens"@ != "totalTokens"@,
        "outputTokens"@ != "cacheReadInputTokens"@,
        "outputTokens"@ != "cacheWriteInputTokens"@,
        "totalTokens"@ != "cacheReadInputTokens"@,
        "totalTokens"@ != "cacheWriteInputTokens"@,
        "cacheReadInputTokens"@ != "cacheWriteInputTokens"@,
{
    reveal_strlit("inputTokens");
    reveal_strlit("outputTokens");
    reveal_strlit("totalTokens");
    reveal_strlit("cacheReadInputTokens");
    reveal_strlit("cacheWriteInputTokens");
    assert("inputTokens"@.len() == 11 && "outputTokens"@.len() == 12);
    assert("totalTokens"@.len() == 11 && "cacheReadInputTokens"@.len() == 20);
    assert("cacheWriteInputTokens"@.len() == 21);
    assert("inputTokens"@[0] == 'i' && "totalTokens"@[0] == 't');
}

/// Encoded usage says each count that is present, under its name, and nothing else.
pub proof fn law_usage_says_its_counts(usage: Usage, key: Seq<char>)
    ensures
        ({
            let fields = encoded_usage(usage);
            &&& says_optional(fields, "inputTokens"@, number_of_count(usage.input_tokens))
            &&& says_optional(fields, "outputTokens"@, number_of_count(usage.output_tokens))
            &&& says_optional(fields, "totalTokens"@, number_of_count(usage.total_tokens))
            &&& says_optional(fields, "cacheReadInputTokens"@, number_of_count(usage.cache_read()))
            &&& says_optional(
                fields,
                "cacheWriteInputTokens"@,
                number_of_count(usage.cache_creation()),
            )
            &&& fields.contains_key(key) ==> key == "inputTokens"@ || key == "outputTokens"@ || key
                == "totalTokens"@ || key == "cacheReadInputTokens"@ || key
                == "cacheWriteInputTokens"@
        }),
{
    lemma_count_names();
}

proof fn lemma_usage_keys(usage: Usage)
    ensures
        forall|key: Seq<char>| #[trigger]
            encoded_usage(usage).contains_key(key) ==> key == "inputTokens"@ || key
                == "outputTokens"@ || key == "totalTokens"@ || key == "cacheReadInputTokens"@
                || key == "cacheWriteInputTokens"@,
{
    assert forall|key: Seq<char>| #[trigger] encoded_usage(usage).contains_key(key) implies key
        == "inputTokens"@ || key == "outputTokens"@ || key == "totalTokens"@ || key
        == "cacheReadInputTokens"@ || key == "cacheWriteInputTokens"@ by {
        law_usage_says_its_counts(usage, key);
    }
}

/// A stop reason is encoded under the Converse name that stands for it, and is read back from it;
/// the two reasons that Converse has no name for keep their own names.
pub proof fn law_stop_reasons_are_named(reason: StopReason)
    ensures
        encoded_stop_reason(reason) == "end_turn"@ <==> reason == StopReason::EndTurn,
        encoded_stop_reason(reason) == "max_tokens"@ <==> reason == StopReason::MaxTokens,
        encoded_stop_reason(reason) == "tool_use"@ <==> reason == StopReason::ToolUse,
        encoded_stop_reason(reason) == "content_filtered"@ <==> reason == StopReason::ContentFilter,
        encoded_stop_reason(reason) == "error"@ <==> reason == StopReason::Error,
        encoded_stop_reason(reason) == "unknown"@ <==> reason == StopReason::Unknown,
        encoded_role(Role::Assistant) == "assistant"@,
        forall|role: Role| role != Role::Assistant ==> #[trigger] encoded_role(role) == "user"@,
{
    reveal_strlit("end_turn");
    reveal_strlit("max_tokens");
    reveal_strlit("tool_use");
    reveal_strlit("content_filtered");
    reveal_strlit("error");
    reveal_strlit("unknown");
    assert("end_turn"@.len() == 8 && "max_tokens"@.len() == 10 && "tool_use"@.len() == 8);
    assert("content_filtered"@.len() == 16 && "error"@.len() == 5 && "unknown"@.len() == 7);
    assert("end_turn"@[0] == 'e' && "tool_use"@[0] == 't');
}

/// The names of content kinds and of their fields differ.
proof fn lemma_content_names()
    ensures
        "text"@ != "toolUse"@,
        "text"@ != "toolResult"@,
        "text"@ != "reasoningContent"@,
        "text"@ != "image"@,
        "toolUse"@ != "toolResult"@,
        "toolUse"@ != "reasoningContent"@,
        "toolUse"@ != "image"@,
        "toolResult"@ != "reasoningContent"@,
        "toolResult"@ != "image"@,
        "reasoningContent"@ != "image"@,
        "toolUseId"@ != "name"@,
        "toolUseId"@ != "input"@,
        "toolUseId"@ != "content"@,
        "toolUseId"@ != "status"@,
        "name"@ != "input"@,
        "content"@ != "status"@,
        "text"@ != "signature"@,
        "format"@ != "source"@,
        "error"@ != "success"@,
        "text"@ != "json"@,
{
    reveal_strlit("text");
    reveal_strlit("toolUse");
    reveal_strlit("toolResult");
    reveal_strlit("reasoningContent");
    reveal_strlit("image");
    reveal_strlit("toolUseId");
    reveal_strlit("name");
    reveal_strlit("input");
    reveal_strlit("content");
    reveal_strlit("status");
    reveal_strlit("signature");
    reveal_strlit("format");
    reveal_strlit("source");
    reveal_strlit("error");
    reveal_strlit("success");
    reveal_strlit("json");
    assert("text"@.len() == 4 && "toolUse"@.len() == 7 && "toolResult"@.len() == 10);
    assert("reasoningContent"@.len() == 16 && "image"@.len() == 5);
    assert("toolUseId"@.len() == 9 && "name"@.len() == 4 && "input"@.len() == 5);
    assert("content"@.len() == 7 && "status"@.len() == 6 && "signature"@.len() == 9);
    assert("error"@.len() == 5 && "success"@.len() == 7);
    assert("format"@[0] == 'f' && "source"@[0] == 's');
    assert("text"@[0] == 't' && "json"@[0] == 'j' && "name"@[0] == 'n');
}

/// The text that a block of tool-result content is read back as.
pub open spec fn result_text(block: ContentView) -> Seq<char> {
    match block {
        ContentView::Text { text } => text,
        ContentView::Refusal { text } => text,
        ContentView::Unknown { provider, raw } => printed(raw),
        ContentView::Audio { .. } => "[audio]"@,
        ContentView::Video { .. } => "[video]"@,
        ContentView::File { .. } => "[file]"@,
        ContentView::Image { .. } => "[image]"@,
        _ => "[unsupported content]"@,
    }
}

/// What Converse gives back of a block that it has a form for: a refusal comes back as text,
/// reasoning without its details, the content of a tool result as texts and its failure flag set,
/// and an image with a media type of images.
pub open spec fn is_read_back(block: ContentView, back: ContentView) -> bool {
    match block {
        ContentView::Text { .. } => back == block,
        ContentView::Refusal { text } => back == ContentView::Text { text },
        ContentView::Reasoning { text, signature, details, openai_chat_field } => back == (
        ContentView::Reasoning {
            text,
            signature,
            details: Seq::empty(),
            openai_chat_field: OpenAiChatReasoningField::Reasoning,
        }),
        ContentView::ToolCall(_) => back == block,
        ContentView::ToolResult(result) => {
            &&& back is ToolResult
            &&& back->ToolResult_0.tool_call_id == result.tool_call_id
            &&& back->ToolResult_0.is_error == Some(result.is_error == Some(true))
            &&& back->ToolResult_0.content.len() == result.content.len()
            &&& forall|i: int|
                0 <= i < result.content.len() ==> (#[trigger] back->ToolResult_0.content[i])
                    == (ContentView::Text { text: result_text(result.content[i]) })
        },
        ContentView::Image { source: ImageView::Base64 { media_type, data } } => back == (
        ContentView::Image {
            source: ImageView::Base64 {
                media_type: match media_type {
                    Some(media_type) => if has_prefix(media_type, "image/"@) {
                        Some(media_type)
                    } else {
                        Some("image/"@ + "png"@)
                    },
                    None => Some("image/"@ + "png"@),
                },
                data,
            },
        }),
        _ => false,
    }
}

/// Converse has a form for a block.
pub open spec fn has_form(block: ContentView) -> bool {
    match block {
        ContentView::Text { .. } => true,
        ContentView::Refusal { .. } => true,
        ContentView::Reasoning { .. } => true,
        ContentView::ToolCall(_) => true,
        ContentView::ToolResult(_) => true,
        ContentView::Image { source } => source is Base64,
        ContentView::Unknown { provider, raw } => provider == "bedrock_converse"@,
        _ => false,
    }
}

/// A block that Converse has a form for is encoded without loss being reported, and its encoding
/// reads back; an unknown Converse block is encoded as it is.
pub proof fn law_encoded_block_reads_back(
    block: ContentView,
    role: Role,
    index: int,
    encoding: TranslationPolicy,
    decoding: TranslationPolicy,
)
    requires
        has_form(block),
    ensures
        ({
            let step = encoded_block(block, encoding);
            &&& step.diagnostics.len() == 0
            &&& step.outcome is Ok
            &&& match block {
                ContentView::Unknown { provider, raw } => step.outcome->Ok_0 == raw,
                _ => {
                    let back = decoded_block(step.outcome->Ok_0, role, index, decoding);
                    &&& back.diagnostics.len() == 0
                    &&& back.outcome is Ok
                    &&& is_read_back(block, back.outcome->Ok_0)
                },
            }
        }),
{
    lemma_content_names();
    match block {
        ContentView::Unknown { .. } => {},
        _ => {
            let value = supported(block)->0;
            let fields = value->Object_0;
            assert(encoded_block(block, encoding).outcome == Ok::<Json, TranslationErrorView>(
                value,
            ));
            match block {
                ContentView::Reasoning { text, signature, details, openai_chat_field } => {
                    let reasoning = object_field(fields, "reasoningContent"@)->0;
                    let inner = object_field(reasoning, "reasoningText"@)->0;
                    assert(str_field(inner, "text"@) == Some(text));
                    assert(str_field(inner, "signature"@) == signature);
                },
                ContentView::ToolCall(call) => {
                    let tool = object_field(fields, "toolUse"@)->0;
                    assert(str_field(tool, "toolUseId"@) == Some(call.id));
                    assert(str_field(tool, "name"@) == Some(call.name));
                },
                ContentView::ToolResult(result) => {
                    let tool = object_field(fields, "toolResult"@)->0;
                    let encoded = encoded_result_content(result.content);
                    assert(str_field(tool, "toolUseId"@) == Some(result.tool_call_id));
                    assert(tool["content"@] == Json::Array(encoded));
                    assert(str_field(tool, "status"@) == Some(
                        if result.is_error == Some(true) {
                            "error"@
                        } else {
                            "success"@
                        },
                    ));
                    let back = decoded_result_content(encoded);
                    assert forall|i: int| 0 <= i < result.content.len() implies (
                    #[trigger] back[i]) == (ContentView::Text {
                        text: result_text(result.content[i]),
                    }) by {
                        assert(encoded[i] == encoded_result_block(result.content[i]));
                        let inner = encoded[i]->Object_0;
                        if result.content[i] is Unknown {
                            assert(!inner.contains_key("text"@));
                            assert(inner.contains_key("json"@));
                        } else {
                            assert(inner.contains_key("text"@));
                        }
                        assert(back[i] == decoded_result_block(encoded[i]));
                    }
                },
                ContentView::Image { source } => {
                    let image = object_field(fields, "image"@)->0;
                    let format = image_format(source->Base64_media_type);
                    if let Some(media_type) = source->Base64_media_type {
                        if has_prefix(media_type, "image/"@) {
                            assert("image/"@ + format =~= media_type);
                        }
                    }
                    assert(str_field(image, "format"@) == Some(format));
                    assert(object_field(image, "source"@) is Some);
                    assert(decoded_image(image) is Some);
                    assert(recognized(fields) == decoded_image(image));
                },
                _ => {},
            }
        },
    }
}

/// A block that Converse has no form for is a loss that describes the block: an error where the
/// policy rejects losses, and elsewhere a text that names the kind of what is left out.
pub proof fn law_blocks_without_form_are_reported(block: ContentView, policy: TranslationPolicy)
    requires
        !has_form(block),
    ensures
        ({
            let step = encoded_block(block, policy);
            let message = "unsupported content block encoded for Bedrock Converse: "@ + block_text(
                block,
            );
            if policy.reject_lossy {
                step.outcome == Err::<Json, TranslationErrorView>(
                    TranslationErrorView::Lossy { message },
                )
            } else {
                &&& step.diagnostics == seq![message]
                &&& step.outcome matches Ok(value) && value == Json::Object(
                    Map::<Seq<char>, Json>::empty().insert(
                        "text"@,
                        Json::String(
                            match block {
                                ContentView::Audio { .. } => "[audio]"@,
                                ContentView::Video { .. } => "[video]"@,
                                ContentView::File { .. } => "[file]"@,
                                ContentView::Image { .. } => "[image]"@,
                                _ => "[unsupported content]"@,
                            },
                        ),
                    ),
                )
            }
        }),
{
}

/// Roles are named to people by their names.
pub proof fn law_roles_are_named(role: Role)
    ensures
        role == Role::System <==> role_name(role) == "System"@,
        role == Role::Developer <==> role_name(role) == "Developer"@,
        role == Role::User <==> role_name(role) == "User"@,
        role == Role::Assistant <==> role_name(role) == "Assistant"@,
        role == Role::Tool <==> role_name(role) == "Tool"@,
{
    reveal_strlit("System");
    reveal_strlit("Developer");
    reveal_strlit("User");
    reveal_strlit("Assistant");
    reveal_strlit("Tool");
    assert("System"@.len() == 6 && "Developer"@.len() == 9 && "User"@.len() == 4);
    assert("Assistant"@.len() == 9 && "Tool"@.len() == 4);
    assert("User"@[0] == 'U' && "Tool"@[0] == 'T' && "Developer"@[0] == 'D');
    assert("Assistant"@[0] == 'A');
}

/// The instructions of a request that Converse represents without loss, any number of them and of
/// any role, are read back from its body: all their blocks, in order.
pub proof fn law_instructions_read_back(
    request: RequestView,
    capabilities: Step<()>,
    encoding: TranslationPolicy,
    decoding: TranslationPolicy,
)
    requires
        exact_body(request.preservation.requests, WireFormat::BedrockConverse, encoding) is None,
        capabilities.outcome is Ok,
        forall|i: int|
            0 <= i < request.instructions.len() ==> all_faithful(
                (#[trigger] request.instructions[i]).content,
            ),
        encoded_messages(request.messages, encoding).outcome is Ok,
    ensures
        ({
            let body = fresh_body(encoded_request(request, capabilities, encoding));
            let content = instruction_content(request.instructions);
            &&& encodes_afresh(request, capabilities, encoding)
            &&& body.contains_key("system"@) <==> content.len() > 0
            &&& content.len() > 0 ==> body["system"@] is Array && decoded_content(
                body["system"@]->Array_0,
                Role::System,
                decoding,
            ).outcome == Ok::<Seq<ContentView>, TranslationErrorView>(content)
        }),
{
    lemma_body_names();
    let content = instruction_content(request.instructions);
    lemma_faithful_instructions(request.instructions);
    law_content_round_trips(content, Role::System, encoding, decoding);
    assert(forms(content).len() == content.len());
}

proof fn lemma_faithful_instructions(instructions: Seq<MessageView>)
    requires
        forall|i: int|
            0 <= i < instructions.len() ==> all_faithful((#[trigger] instructions[i]).content),
    ensures
        all_faithful(instruction_content(instructions)),
    decreases instructions.len(),
{
    if instructions.len() > 0 {
        let rest = instructions.drop_last();
        assert forall|i: int| 0 <= i < rest.len() implies all_faithful(
            (#[trigger] rest[i]).content,
        ) by {
            assert(rest[i] == instructions[i]);
        }
        lemma_faithful_instructions(rest);
        assert(all_faithful(instructions[instructions.len() - 1].content));
    }
}

/// What a capability check found comes through as it is: its losses in order, or its error.
pub proof fn law_capability_findings_come_through(
    capabilities: Result<Vec<TranslationDiagnostic>, TranslationError>,
)
    ensures
        match capabilities {
            Ok(found) => {
                let step = capability_step(capabilities);
                &&& step.outcome is Ok
                &&& step.diagnostics.len() == found@.len()
                &&& forall|i: int|
                    0 <= i < found@.len() ==> #[trigger] step.diagnostics[i] == found@[i].message@
            },
            Err(error) => capability_step(capabilities).outcome == Err::<(), TranslationErrorView>(
                error@,
            ),
        },
{
}

} // verus!
