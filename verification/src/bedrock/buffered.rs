//! Buffered codec for Amazon Bedrock Converse request and response JSON.
use vstd::prelude::*;
use vstd::string::*;

use super::content::{
    content_outcome, decode_content, decoded_content, encode_content, encode_message, encoded_block,
    encoded_content, encoded_message, message_object, message_value, values_outcome,
};
use super::fields::{
    decode_stop_reason, decode_tool_choice, decode_tools, decode_usage, decoded_stop_reason,
    decoded_tool_choice, encode_stop_reason, encode_tool, encode_tool_choice, encode_usage,
    encoded_stop_reason, encoded_tool, encoded_tool_choice, encoded_usage, object_of, opt_count,
    reported_usage, single, tools_field, with_field,
};
use crate::format::{FormatId, WireFormat};
use crate::json::{
    array_field, field, float_field, jsons, key_set, lemma_value_view, names, object_field,
    str_field, u64_field, FloatView, Json, JsonMap, Value,
};
use crate::llm::{
    empty_response, no_usage, AggLlmResponse, ContentBlock, InstructionBlock, LlmRequest, Message,
    OutputParams, ProviderExtensions, ResponseOutput, Role, SamplingParams, StopReason,
    ToolDefinition,
};
use crate::model::{
    contents, empty_request, instruction_views, lemma_content_view, message_views, output_views,
    tool_views, ContentView, MessageView, OutputParamsView, OutputView, RequestView, ResponseView,
    SamplingView, ToolDefinitionView,
};
use crate::text::{decimal, decimal_text, is_text, text_eq};
use crate::translation::{
    capture_request_preservation, capture_response_preservation, captured_request,
    captured_response, chained, done, each, exact_body, exact_preserved_request,
    exact_preserved_response, failed, law_first_failure_decides, lemma_each_joined, lemma_take_next,
    mapped, messages, not_an_object, object, object_expected, Step, TranslationDiagnostic,
    TranslationError, TranslationErrorView, TranslationPolicy,
};

verus! {

broadcast use {lemma_value_view, lemma_content_view};

/// Format codec for Amazon Bedrock's provider-neutral Converse JSON contract.
pub struct BedrockConverseCodec;

/// A decoded request with the losses of its decoding.
#[derive(Clone, Debug, PartialEq)]
pub struct DecodedRequest {
    /// The normalized request.
    pub request: LlmRequest,
    /// Losses.
    pub diagnostics: Vec<TranslationDiagnostic>,
}

/// A decoded response with the losses of its decoding.
#[derive(Clone, Debug, PartialEq)]
pub struct DecodedResponse {
    /// The normalized response.
    pub response: AggLlmResponse,
    /// Losses.
    pub diagnostics: Vec<TranslationDiagnostic>,
}

/// Role of a message. A message without a role is the user's.
pub open spec fn decoded_role(message: Map<Seq<char>, Json>, index: int) -> Result<
    Role,
    TranslationErrorView,
> {
    match str_field(message, "role"@) {
        None => Ok(Role::User),
        Some(role) => if role == "user"@ {
            Ok(Role::User)
        } else if role == "assistant"@ {
            Ok(Role::Assistant)
        } else {
            Err(
                TranslationErrorView::UnsupportedRole {
                    path: "$.messages["@ + decimal(index as nat) + "].role"@,
                    role,
                },
            )
        },
    }
}

/// Decodes the role of a message.
fn decode_role(message: &JsonMap, index: usize) -> (role: Result<Role, TranslationError>)
    ensures
        match role {
            Ok(role) => decoded_role(message@, index as int) == Ok::<Role, TranslationErrorView>(
                role,
            ),
            Err(error) => decoded_role(message@, index as int) == Err::<
                Role,
                TranslationErrorView,
            >(error@),
        },
{
    match message.str_field("role") {
        None => Ok(Role::User),
        Some(role) => if text_eq(role, "user") {
            Ok(Role::User)
        } else if text_eq(role, "assistant") {
            Ok(Role::Assistant)
        } else {
            Err(
                TranslationError::UnsupportedRole {
                    path: "$.messages[".to_owned().concat(
                        decimal_text(index as u64).as_str(),
                    ).concat("].role"),
                    role: role.to_owned(),
                },
            )
        },
    }
}

/// Decoding of the content array of a message; a message without one has no content.
pub open spec fn content_field(
    fields: Map<Seq<char>, Json>,
    key: Seq<char>,
    role: Role,
    policy: TranslationPolicy,
) -> Step<Seq<ContentView>> {
    match array_field(fields, key) {
        Some(blocks) => decoded_content(blocks, role, policy),
        None => done(Seq::empty()),
    }
}

/// Decodes a content array.
fn decode_content_field(
    map: &JsonMap,
    key: &str,
    role: Role,
    diagnostics: &mut Vec<TranslationDiagnostic>,
    policy: &TranslationPolicy,
) -> (outcome: Result<Vec<ContentBlock>, TranslationError>)
    ensures
        content_outcome(outcome) == content_field(map@, key@, role, *policy).outcome,
        messages(final(diagnostics)@) == messages(old(diagnostics)@) + content_field(
            map@,
            key@,
            role,
            *policy,
        ).diagnostics,
{
    match map.array_field(key) {
        Some(blocks) => decode_content(blocks, role, diagnostics, policy),
        None => {
            let none: Vec<ContentBlock> = Vec::new();
            assert(contents(none@) =~= Seq::empty());
            assert(messages(diagnostics@) + Seq::empty() =~= messages(diagnostics@));
            Ok(none)
        },
    }
}

/// Decoding of one message.
pub open spec fn decoded_message(
    message: Json,
    index: int,
    policy: TranslationPolicy,
) -> Step<MessageView> {
    match message {
        Json::Object(fields) => match decoded_role(fields, index) {
            Ok(role) => mapped(
                content_field(fields, "content"@, role, policy),
                |content: Seq<ContentView>| MessageView { role, content },
            ),
            Err(error) => failed(error),
        },
        _ => failed(not_an_object("$.messages["@ + decimal(index as nat) + "]"@)),
    }
}

/// Contents of the outcome of decoding a message.
pub open spec fn message_outcome(outcome: Result<Message, TranslationError>) -> Result<
    MessageView,
    TranslationErrorView,
> {
    match outcome {
        Ok(message) => Ok(message@),
        Err(error) => Err(error@),
    }
}

/// Decodes one message.
pub fn decode_message(
    message: &Value,
    index: usize,
    diagnostics: &mut Vec<TranslationDiagnostic>,
    policy: &TranslationPolicy,
) -> (outcome: Result<Message, TranslationError>)
    ensures
        message_outcome(outcome) == decoded_message(message@, index as int, *policy).outcome,
        messages(final(diagnostics)@) == messages(old(diagnostics)@) + decoded_message(
            message@,
            index as int,
            *policy,
        ).diagnostics,
{
    assert(messages(diagnostics@) + Seq::empty() =~= messages(diagnostics@));
    let map = match message.as_object() {
        Some(map) => map,
        None => {
            return Err(
                object_expected(
                    "$.messages[".to_owned().concat(decimal_text(index as u64).as_str()).concat(
                        "]",
                    ),
                ),
            );
        },
    };
    let role = match decode_role(map, index) {
        Ok(role) => role,
        Err(error) => {
            return Err(error);
        },
    };
    match decode_content_field(map, "content", role, diagnostics, policy) {
        Ok(content) => Ok(Message { role, content }),
        Err(error) => Err(error),
    }
}

/// Decoding of the `messages` array; a body without one has no messages.
pub open spec fn decoded_messages(
    fields: Map<Seq<char>, Json>,
    policy: TranslationPolicy,
) -> Step<Seq<MessageView>> {
    match array_field(fields, "messages"@) {
        Some(items) => each(
            items,
            |index: int, message: Json| decoded_message(message, index, policy),
        ),
        None => done(Seq::empty()),
    }
}

/// Contents of the outcome of decoding messages.
pub open spec fn messages_outcome(outcome: Result<Vec<Message>, TranslationError>) -> Result<
    Seq<MessageView>,
    TranslationErrorView,
> {
    match outcome {
        Ok(decoded) => Ok(message_views(decoded@)),
        Err(error) => Err(error@),
    }
}

/// Decodes the `messages` array.
fn decode_messages(
    body: &JsonMap,
    diagnostics: &mut Vec<TranslationDiagnostic>,
    policy: &TranslationPolicy,
) -> (outcome: Result<Vec<Message>, TranslationError>)
    ensures
        messages_outcome(outcome) == decoded_messages(body@, *policy).outcome,
        messages(final(diagnostics)@) == messages(old(diagnostics)@) + decoded_messages(
            body@,
            *policy,
        ).diagnostics,
{
    let ghost before = messages(diagnostics@);
    let mut decoded: Vec<Message> = Vec::new();
    assert(message_views(decoded@) =~= Seq::empty());
    assert(before + Seq::empty() =~= before);
    let items = match body.array_field("messages") {
        Some(items) => items,
        None => {
            return Ok(decoded);
        },
    };
    let ghost all = jsons(items@);
    let ghost step = |index: int, message: Json| decoded_message(message, index, *policy);
    let n = items.len();
    let mut i: usize = 0;
    assert(all.take(0) =~= Seq::empty());
    while i < n
        invariant
            n == items@.len(),
            i <= n,
            all == jsons(items@),
            array_field(body@, "messages"@) == Some(all),
            step == (|index: int, message: Json| decoded_message(message, index, *policy)),
            before == messages(old(diagnostics)@),
            each(all.take(i as int), step).outcome == Ok::<Seq<MessageView>, TranslationErrorView>(
                message_views(decoded@),
            ),
            messages(diagnostics@) == before + each(all.take(i as int), step).diagnostics,
        decreases n - i,
    {
        let ghost so_far = message_views(decoded@);
        let ghost reported = each(all.take(i as int), step).diagnostics;
        let ghost last = decoded_message(items@[i as int]@, i as int, *policy);
        proof {
            lemma_take_next(all, i as int);
            assert(all[i as int] == items@[i as int]@);
            assert(before + reported + last.diagnostics =~= before + (reported
                + last.diagnostics));
        }
        match decode_message(&items[i], i, diagnostics, policy) {
            Ok(message) => {
                let ghost view = message@;
                decoded.push(message);
                assert(message_views(decoded@) =~= so_far.push(view));
            },
            Err(error) => {
                proof {
                    law_first_failure_decides(all, i + 1, step);
                }
                return Err(error);
            },
        }
        i += 1;
    }
    assert(all.take(n as int) =~= all);
    Ok(decoded)
}

/// The object in a field; a field that is no object has no fields.
pub open spec fn fields_of(fields: Map<Seq<char>, Json>, key: Seq<char>) -> Map<Seq<char>, Json> {
    match object_field(fields, key) {
        Some(inner) => inner,
        None => Map::empty(),
    }
}

/// Request fields that have a normalized place.
pub open spec fn request_keys() -> Set<Seq<char>> {
    Set::empty().insert("messages"@).insert("system"@).insert("inferenceConfig"@).insert(
        "toolConfig"@,
    ).insert("additionalModelRequestFields"@)
}

/// Fields of a request that are kept beside the normalized ones: the stop sequences as `stop`,
/// the additional model fields, and every field that has no normalized place.
pub open spec fn decoded_extensions(fields: Map<Seq<char>, Json>) -> Map<Seq<char>, Json> {
    with_field(
        with_field(
            Map::empty(),
            "stop"@,
            field(fields_of(fields, "inferenceConfig"@), "stopSequences"@),
        ),
        "additionalModelRequestFields"@,
        field(fields, "additionalModelRequestFields"@),
    ).union_prefer_right(fields.remove_keys(request_keys()))
}

/// The instructions that system content gives.
pub open spec fn system_instructions(content: Seq<ContentView>) -> Seq<MessageView> {
    if content.len() == 0 {
        Seq::empty()
    } else {
        seq![MessageView { role: Role::System, content }]
    }
}

/// The request of a body, given its decoded system content and messages.
pub open spec fn request_of(
    fields: Map<Seq<char>, Json>,
    system: Seq<ContentView>,
    decoded: Seq<MessageView>,
    policy: TranslationPolicy,
) -> RequestView {
    let inference = fields_of(fields, "inferenceConfig"@);
    let tools = fields_of(fields, "toolConfig"@);
    RequestView {
        instructions: system_instructions(system),
        messages: decoded,
        tools: tools_field(field(tools, "tools"@)),
        tool_choice: match field(tools, "toolChoice"@) {
            Some(choice) => Some(decoded_tool_choice(choice)),
            None => None,
        },
        sampling: SamplingView {
            temperature: float_field(inference, "temperature"@),
            top_p: float_field(inference, "topP"@),
            top_k: None,
        },
        output: OutputParamsView {
            max_output_tokens: u64_field(inference, "maxTokens"@),
            response_format: None,
        },
        extensions: decoded_extensions(fields),
        preservation: captured_request(WireFormat::BedrockConverse, Json::Object(fields), policy),
        ..empty_request()
    }
}

/// Decoding of a request body: first the system content, then the messages.
pub open spec fn decoded_request(body: Json, policy: TranslationPolicy) -> Step<RequestView> {
    match body {
        Json::Object(fields) => chained(
            content_field(fields, "system"@, Role::System, policy),
            |system: Seq<ContentView>|
                mapped(
                    decoded_messages(fields, policy),
                    |decoded: Seq<MessageView>| request_of(fields, system, decoded, policy),
                ),
        ),
        _ => failed(not_an_object("$"@)),
    }
}

/// Fields of a request that are kept beside the normalized ones.
fn decode_extensions(body: &JsonMap, inference: &JsonMap) -> (extensions: JsonMap)
    requires
        inference@ == fields_of(body@, "inferenceConfig"@),
    ensures
        extensions@ == decoded_extensions(body@),
{
    let mut extensions = JsonMap::new();
    if let Some(sequences) = inference.get("stopSequences") {
        extensions.insert("stop".to_owned(), sequences.clone());
    }
    if let Some(fields) = body.get("additionalModelRequestFields") {
        extensions.insert("additionalModelRequestFields".to_owned(), fields.clone());
    }
    let known: [&str; 5] = [
        "messages",
        "system",
        "inferenceConfig",
        "toolConfig",
        "additionalModelRequestFields",
    ];
    let rest = body.without(&known);
    proof {
        let keys = known@;
        assert forall|key: Seq<char>| names(keys, key) <==> request_keys().contains(key) by {
            if request_keys().contains(key) {
                let i: int = if key == keys[0]@ {
                    0
                } else if key == keys[1]@ {
                    1
                } else if key == keys[2]@ {
                    2
                } else if key == keys[3]@ {
                    3
                } else {
                    4
                };
                assert(keys[i]@ == key);
            }
        }
        assert(key_set(keys) =~= request_keys());
    }
    extensions.extend(&rest);
    extensions
}

impl BedrockConverseCodec {
    /// Wire format of the codec.
    pub fn format(&self) -> (format: FormatId)
        ensures
            format@ == WireFormat::BedrockConverse.name(),
    {
        WireFormat::BedrockConverse.id()
    }

    /// Decodes a Converse request body.
    pub fn decode_request(&self, body: &Value, policy: &TranslationPolicy) -> (outcome: Result<
        DecodedRequest,
        TranslationError,
    >)
        ensures
            match outcome {
                Ok(decoded) => decoded_request(body@, *policy) == (Step {
                    diagnostics: messages(decoded.diagnostics@),
                    outcome: Ok(decoded.request@),
                }),
                Err(error) => decoded_request(body@, *policy).outcome == Err::<
                    RequestView,
                    TranslationErrorView,
                >(error@),
            },
    {
        let map = match object(body, "$") {
            Ok(map) => map,
            Err(error) => {
                return Err(error);
            },
        };
        let none = JsonMap::new();
        let mut diagnostics: Vec<TranslationDiagnostic> = Vec::new();
        assert(messages(diagnostics@) =~= Seq::empty());
        let inference: &JsonMap = match map.object_field("inferenceConfig") {
            Some(inference) => inference,
            None => &none,
        };
        let system = match decode_content_field(
            map,
            "system",
            Role::System,
            &mut diagnostics,
            policy,
        ) {
            Ok(system) => system,
            Err(error) => {
                return Err(error);
            },
        };
        let ghost system_view = contents(system@);
        let mut instructions: Vec<InstructionBlock> = Vec::new();
        if system.len() > 0 {
            instructions.push(InstructionBlock { role: Role::System, content: system });
        }
        assert(instruction_views(instructions@) =~= system_instructions(system_view));
        let decoded = match decode_messages(map, &mut diagnostics, policy) {
            Ok(decoded) => decoded,
            Err(error) => {
                return Err(error);
            },
        };
        let tool_config: &JsonMap = match map.object_field("toolConfig") {
            Some(config) => config,
            None => &none,
        };
        let mut request = LlmRequest::default();
        request.sampling = SamplingParams {
            temperature: inference.float_field("temperature"),
            top_p: inference.float_field("topP"),
            top_k: None,
        };
        request.output = OutputParams {
            max_output_tokens: inference.u64_field("maxTokens"),
            response_format: None,
        };
        let copy = Value::Object(map.clone());
        request.preservation = capture_request_preservation(
            WireFormat::BedrockConverse,
            &copy,
            policy,
        );
        request.instructions = instructions;
        request.messages = decoded;
        request.tools = decode_tools(tool_config.get("tools"));
        request.tool_choice = match tool_config.get("toolChoice") {
            Some(choice) => Some(decode_tool_choice(choice)),
            None => None,
        };
        request.extensions = ProviderExtensions { fields: decode_extensions(map, inference) };
        Ok(DecodedRequest { request, diagnostics })
    }
}

/// An encoded request body with the losses of its encoding.
#[derive(Clone, Debug, PartialEq)]
pub struct EncodedRequest {
    /// The Converse body.
    pub body: Value,
    /// Losses.
    pub diagnostics: Vec<TranslationDiagnostic>,
    /// Whether the body is a preserved one. Only a rebuilt body may carry preservation data.
    pub exact: bool,
}

/// An encoded response body with the losses of its encoding.
#[derive(Clone, Debug, PartialEq)]
pub struct EncodedResponse {
    /// The Converse body.
    pub body: Value,
    /// Losses.
    pub diagnostics: Vec<TranslationDiagnostic>,
    /// Whether the body is a preserved one. Only a rebuilt body may carry preservation data.
    pub exact: bool,
}

/// An encoded body.
pub struct EncodedView {
    /// The Converse body.
    pub body: Json,
    /// Whether the body is a preserved one.
    pub exact: bool,
}

/// Content of all instructions in turn.
pub open spec fn instruction_content(instructions: Seq<MessageView>) -> Seq<ContentView>
    decreases instructions.len(),
{
    if instructions.len() == 0 {
        Seq::empty()
    } else {
        instruction_content(instructions.drop_last()) + instructions.last().content
    }
}

/// Encoding of the messages of a request.
pub open spec fn encoded_messages(
    items: Seq<MessageView>,
    policy: TranslationPolicy,
) -> Step<Seq<Json>> {
    each(items, |index: int, message: MessageView| encoded_message(message, policy))
}

/// JSON value of an optional float.
pub open spec fn opt_float_json(float: Option<FloatView>) -> Option<Json> {
    match float {
        Some(float) => Some(float.json()),
        None => None,
    }
}

/// The `inferenceConfig` fields of a request.
pub open spec fn inference_of(request: RequestView) -> Map<Seq<char>, Json> {
    with_field(
        with_field(
            with_field(
                with_field(
                    Map::empty(),
                    "maxTokens"@,
                    opt_count(request.output.max_output_tokens),
                ),
                "temperature"@,
                opt_float_json(request.sampling.temperature),
            ),
            "topP"@,
            opt_float_json(request.sampling.top_p),
        ),
        "stopSequences"@,
        field(request.extensions, "stop"@),
    )
}

/// The `tools` entries of a request.
pub open spec fn encoded_tools(tools: Seq<ToolDefinitionView>) -> Seq<Json> {
    tools.map_values(|tool: ToolDefinitionView| encoded_tool(tool))
}

/// The object, unless it has no field.
pub open spec fn unless_empty(fields: Map<Seq<char>, Json>) -> Option<Json> {
    if fields == Map::<Seq<char>, Json>::empty() {
        None
    } else {
        Some(Json::Object(fields))
    }
}

/// The array, unless it has no element.
pub open spec fn unless_none(items: Seq<Json>) -> Option<Json> {
    if items.len() == 0 {
        None
    } else {
        Some(Json::Array(items))
    }
}

/// The `toolConfig` fields of a request.
pub open spec fn tool_config_of(request: RequestView) -> Map<Seq<char>, Json> {
    with_field(
        with_field(Map::empty(), "tools"@, unless_none(encoded_tools(request.tools))),
        "toolChoice"@,
        match request.tool_choice {
            Some(choice) => Some(encoded_tool_choice(choice)),
            None => None,
        },
    )
}

/// The body of a request, given its encoded system content and messages.
pub open spec fn request_body(
    request: RequestView,
    system: Seq<Json>,
    items: Seq<Json>,
) -> Map<Seq<char>, Json> {
    with_field(
        with_field(
            with_field(
                with_field(Map::empty(), "system"@, unless_none(system)).insert(
                    "messages"@,
                    Json::Array(items),
                ),
                "inferenceConfig"@,
                unless_empty(inference_of(request)),
            ),
            "toolConfig"@,
            unless_empty(tool_config_of(request)),
        ),
        "additionalModelRequestFields"@,
        field(request.extensions, "additionalModelRequestFields"@),
    )
}

/// Encoding of a request. A preserved body is taken as it is. Otherwise the capability check comes
/// first, given here by its outcome, then the system content, then the messages.
pub open spec fn encoded_request(
    request: RequestView,
    capabilities: Step<()>,
    policy: TranslationPolicy,
) -> Step<EncodedView> {
    match exact_body(request.preservation.requests, WireFormat::BedrockConverse, policy) {
        Some(body) => done(EncodedView { body, exact: true }),
        None => chained(
            capabilities,
            |checked: ()|
                chained(
                    encoded_content(instruction_content(request.instructions), policy),
                    |system: Seq<Json>|
                        mapped(
                            encoded_messages(request.messages, policy),
                            |items: Seq<Json>|
                                EncodedView {
                                    body: Json::Object(request_body(request, system, items)),
                                    exact: false,
                                },
                        ),
                ),
        ),
    }
}

/// The step that a capability check takes: the losses it found, or why it fails.
pub open spec fn capability_step(
    capabilities: Result<Vec<TranslationDiagnostic>, TranslationError>,
) -> Step<()> {
    match capabilities {
        Ok(diagnostics) => Step { diagnostics: messages(diagnostics@), outcome: Ok(()) },
        Err(error) => failed(error@),
    }
}

/// Adds a field, where there is a value for it.
fn with_value(map: JsonMap, key: &str, value: Option<Value>) -> (result: JsonMap)
    ensures
        result@ == with_field(
            map@,
            key@,
            match value {
                Some(value) => Some(value@),
                None => None,
            },
        ),
{
    match value {
        Some(value) => map.with(key, value),
        None => map,
    }
}

/// A copy of a field, where there is one.
fn copied(map: &JsonMap, key: &str) -> (value: Option<Value>)
    ensures
        match value {
            Some(value) => field(map@, key@) == Some(value@),
            None => field(map@, key@) is None,
        },
{
    match map.get(key) {
        Some(value) => Some(value.clone()),
        None => None,
    }
}

/// The `inferenceConfig` fields of a request.
fn encode_inference(request: &LlmRequest) -> (map: JsonMap)
    ensures
        map@ == inference_of(request@),
{
    let tokens: Option<Value> = match request.output.max_output_tokens {
        Some(tokens) => Some(Value::integer(tokens)),
        None => None,
    };
    let temperature: Option<Value> = match &request.sampling.temperature {
        Some(temperature) => Some(temperature.to_value()),
        None => None,
    };
    let top_p: Option<Value> = match &request.sampling.top_p {
        Some(top_p) => Some(top_p.to_value()),
        None => None,
    };
    let map = with_value(JsonMap::new(), "maxTokens", tokens);
    let map = with_value(map, "temperature", temperature);
    let map = with_value(map, "topP", top_p);
    with_value(map, "stopSequences", copied(&request.extensions.fields, "stop"))
}

/// The `tools` entries of a list of definitions.
fn encode_tools(tools: &Vec<ToolDefinition>) -> (entries: Vec<Value>)
    ensures
        jsons(entries@) == encoded_tools(tool_views(tools@)),
{
    let mut entries: Vec<Value> = Vec::new();
    let n = tools.len();
    let mut i: usize = 0;
    while i < n
        invariant
            n == tools@.len(),
            i <= n,
            entries@.len() == i,
            forall|j: int| 0 <= j < i ==> (#[trigger] entries@[j])@ == encoded_tool(tools@[j]@),
        decreases n - i,
    {
        entries.push(encode_tool(&tools[i]));
        i += 1;
    }
    assert(jsons(entries@) =~= encoded_tools(tool_views(tools@)));
    entries
}

/// The `toolConfig` fields of a request.
fn encode_tool_config(request: &LlmRequest) -> (map: JsonMap)
    ensures
        map@ == tool_config_of(request@),
{
    let entries = encode_tools(&request.tools);
    let tools: Option<Value> = if entries.len() == 0 {
        None
    } else {
        Some(Value::Array(entries))
    };
    let choice: Option<Value> = match &request.tool_choice {
        Some(choice) => Some(encode_tool_choice(choice)),
        None => None,
    };
    let map = with_value(JsonMap::new(), "tools", tools);
    with_value(map, "toolChoice", choice)
}

/// The object, unless it has no field.
fn nonempty(map: JsonMap) -> (value: Option<Value>)
    ensures
        match value {
            Some(value) => unless_empty(map@) == Some(value@),
            None => unless_empty(map@) is None,
        },
{
    if map.is_empty() {
        None
    } else {
        Some(Value::Object(map))
    }
}

/// Encodes the content of all instructions in turn.
fn encode_system(
    instructions: &Vec<InstructionBlock>,
    diagnostics: &mut Vec<TranslationDiagnostic>,
    policy: &TranslationPolicy,
) -> (outcome: Result<Vec<Value>, TranslationError>)
    ensures
        values_outcome(outcome) == encoded_content(
            instruction_content(instruction_views(instructions@)),
            *policy,
        ).outcome,
        messages(final(diagnostics)@) == messages(old(diagnostics)@) + encoded_content(
            instruction_content(instruction_views(instructions@)),
            *policy,
        ).diagnostics,
{
    let ghost before = messages(diagnostics@);
    let ghost all = instruction_views(instructions@);
    let mut system: Vec<Value> = Vec::new();
    let n = instructions.len();
    let mut i: usize = 0;
    proof {
        assert(all.take(0) =~= Seq::empty());
        assert(jsons(system@) =~= Seq::empty());
        assert(before =~= before + Seq::empty());
    }
    while i < n
        invariant
            n == instructions@.len(),
            i <= n,
            all == instruction_views(instructions@),
            before == messages(old(diagnostics)@),
            encoded_content(instruction_content(all.take(i as int)), *policy).outcome == Ok::<
                Seq<Json>,
                TranslationErrorView,
            >(jsons(system@)),
            messages(diagnostics@) == before + encoded_content(
                instruction_content(all.take(i as int)),
                *policy,
            ).diagnostics,
        decreases n - i,
    {
        let ghost head = instruction_content(all.take(i as int));
        let ghost part = contents(instructions@[i as int].content@);
        let ghost so_far = jsons(system@);
        let ghost reported = encoded_content(head, *policy).diagnostics;
        let ghost last = encoded_content(part, *policy);
        proof {
            assert(all.take(i + 1).drop_last() =~= all.take(i as int));
            assert(all.take(i + 1).last().content == part);
            lemma_each_joined(
                head,
                part,
                |index: int, block: ContentView| encoded_block(block, *policy),
            );
            assert(before + reported + last.diagnostics =~= before + (reported
                + last.diagnostics));
        }
        match encode_content(&instructions[i].content, diagnostics, policy) {
            Ok(values) => {
                let mut values = values;
                let ghost added = values@;
                system.append(&mut values);
                assert(jsons(system@) =~= so_far + jsons(added));
            },
            Err(error) => {
                proof {
                    lemma_instructions_fail(all, i + 1, *policy);
                }
                return Err(error);
            },
        }
        i += 1;
    }
    assert(all.take(n as int) =~= all);
    Ok(system)
}

/// A failure in the content of the first instructions is the failure of all.
proof fn lemma_instructions_fail(all: Seq<MessageView>, n: int, policy: TranslationPolicy)
    requires
        0 <= n <= all.len(),
        encoded_content(instruction_content(all.take(n)), policy).outcome is Err,
    ensures
        encoded_content(instruction_content(all), policy) == encoded_content(
            instruction_content(all.take(n)),
            policy,
        ),
    decreases all.len() - n,
{
    if n == all.len() {
        assert(all.take(n) =~= all);
    } else {
        let head = instruction_content(all.take(n));
        assert(all.take(n + 1).drop_last() =~= all.take(n));
        lemma_each_joined(
            head,
            all[n].content,
            |index: int, block: ContentView| encoded_block(block, policy),
        );
        lemma_instructions_fail(all, n + 1, policy);
    }
}

/// Encodes the messages of a request.
fn encode_messages(
    items: &Vec<Message>,
    diagnostics: &mut Vec<TranslationDiagnostic>,
    policy: &TranslationPolicy,
) -> (outcome: Result<Vec<Value>, TranslationError>)
    ensures
        values_outcome(outcome) == encoded_messages(message_views(items@), *policy).outcome,
        messages(final(diagnostics)@) == messages(old(diagnostics)@) + encoded_messages(
            message_views(items@),
            *policy,
        ).diagnostics,
{
    let ghost before = messages(diagnostics@);
    let ghost all = message_views(items@);
    let ghost step = |index: int, message: MessageView| encoded_message(message, *policy);
    let mut values: Vec<Value> = Vec::new();
    let n = items.len();
    let mut i: usize = 0;
    proof {
        assert(all.take(0) =~= Seq::empty());
        assert(jsons(values@) =~= Seq::empty());
        assert(before =~= before + each(all.take(0), step).diagnostics);
    }
    while i < n
        invariant
            n == items@.len(),
            i <= n,
            all == message_views(items@),
            step == (|index: int, message: MessageView| encoded_message(message, *policy)),
            before == messages(old(diagnostics)@),
            each(all.take(i as int), step).outcome == Ok::<Seq<Json>, TranslationErrorView>(
                jsons(values@),
            ),
            messages(diagnostics@) == before + each(all.take(i as int), step).diagnostics,
        decreases n - i,
    {
        let ghost so_far = jsons(values@);
        let ghost reported = each(all.take(i as int), step).diagnostics;
        let ghost last = encoded_message(items@[i as int]@, *policy);
        proof {
            lemma_take_next(all, i as int);
            assert(all[i as int] == items@[i as int]@);
            assert(before + reported + last.diagnostics =~= before + (reported
                + last.diagnostics));
        }
        match encode_message(&items[i], diagnostics, policy) {
            Ok(value) => {
                let ghost view = value@;
                values.push(value);
                assert(jsons(values@) =~= so_far.push(view));
            },
            Err(error) => {
                proof {
                    law_first_failure_decides(all, i + 1, step);
                }
                return Err(error);
            },
        }
        i += 1;
    }
    assert(all.take(n as int) =~= all);
    Ok(values)
}

impl BedrockConverseCodec {
    /// Encodes a request as a Converse body.
    ///
    /// `capabilities` is the outcome of checking the request against what the target supports: the
    /// losses that the check found, or the error on which the encoding fails. It is not consulted
    /// where a preserved body is used.
    pub fn encode_request(
        &self,
        request: &LlmRequest,
        capabilities: Result<Vec<TranslationDiagnostic>, TranslationError>,
        policy: &TranslationPolicy,
    ) -> (outcome: Result<EncodedRequest, TranslationError>)
        ensures
            match outcome {
                Ok(encoded) => encoded_request(request@, capability_step(capabilities), *policy)
                    == (Step {
                    diagnostics: messages(encoded.diagnostics@),
                    outcome: Ok(EncodedView { body: encoded.body@, exact: encoded.exact }),
                }),
                Err(error) => encoded_request(
                    request@,
                    capability_step(capabilities),
                    *policy,
                ).outcome == Err::<EncodedView, TranslationErrorView>(error@),
            },
    {
        if let Some(body) = exact_preserved_request(
            &request.preservation,
            WireFormat::BedrockConverse,
            policy,
        ) {
            let diagnostics: Vec<TranslationDiagnostic> = Vec::new();
            assert(messages(diagnostics@) =~= Seq::empty());
            return Ok(EncodedRequest { body, diagnostics, exact: true });
        }
        let mut diagnostics = match capabilities {
            Ok(diagnostics) => diagnostics,
            Err(error) => {
                return Err(error);
            },
        };
        let ghost checked = messages(diagnostics@);
        let system = match encode_system(&request.instructions, &mut diagnostics, policy) {
            Ok(system) => system,
            Err(error) => {
                return Err(error);
            },
        };
        let ghost after_system = messages(diagnostics@);
        let items = match encode_messages(&request.messages, &mut diagnostics, policy) {
            Ok(items) => items,
            Err(error) => {
                return Err(error);
            },
        };
        let ghost system_view = jsons(system@);
        let ghost items_view = jsons(items@);
        let system: Option<Value> = if system.len() == 0 {
            None
        } else {
            Some(Value::Array(system))
        };
        let map = with_value(JsonMap::new(), "system", system);
        let map = map.with("messages", Value::Array(items));
        let map = with_value(map, "inferenceConfig", nonempty(encode_inference(request)));
        let map = with_value(map, "toolConfig", nonempty(encode_tool_config(request)));
        let map = with_value(
            map,
            "additionalModelRequestFields",
            copied(&request.extensions.fields, "additionalModelRequestFields"),
        );
        proof {
            assert(map@ == request_body(request@, system_view, items_view));
            let a = encoded_content(instruction_content(request@.instructions), *policy);
            let b = encoded_messages(request@.messages, *policy);
            assert(checked + a.diagnostics + b.diagnostics =~= checked + (a.diagnostics
                + b.diagnostics));
        }
        Ok(EncodedRequest { body: Value::Object(map), diagnostics, exact: false })
    }
}

/// The message of a response body, if it has one.
pub open spec fn response_message(fields: Map<Seq<char>, Json>) -> Option<Map<Seq<char>, Json>> {
    object_field(fields_of(fields, "output"@), "message"@)
}

/// Role of a response message: the assistant's, unless it says that it is the user's.
pub open spec fn response_role(message: Map<Seq<char>, Json>) -> Role {
    if str_field(message, "role"@) == Some("user"@) {
        Role::User
    } else {
        Role::Assistant
    }
}

/// The stop reason of a response body.
pub open spec fn response_stop(fields: Map<Seq<char>, Json>) -> Option<StopReason> {
    match str_field(fields, "stopReason"@) {
        Some(reason) => Some(decoded_stop_reason(reason)),
        None => None,
    }
}

/// Response fields that have a normalized place.
pub open spec fn response_keys() -> Set<Seq<char>> {
    Set::empty().insert("output"@).insert("stopReason"@).insert("usage"@)
}

/// Decoding of the output of a response body: one output, or none without a message.
pub open spec fn decoded_outputs(
    fields: Map<Seq<char>, Json>,
    policy: TranslationPolicy,
) -> Step<Seq<OutputView>> {
    match response_message(fields) {
        Some(message) => mapped(
            content_field(message, "content"@, Role::Assistant, policy),
            |content: Seq<ContentView>|
                seq![
                    OutputView {
                        role: response_role(message),
                        content,
                        stop_reason: response_stop(fields),
                    },
                ],
        ),
        None => done(Seq::empty()),
    }
}

/// Decoding of a response body.
pub open spec fn decoded_response(body: Json, policy: TranslationPolicy) -> Step<ResponseView> {
    match body {
        Json::Object(fields) => mapped(
            decoded_outputs(fields, policy),
            |outputs: Seq<OutputView>|
                ResponseView {
                    outputs,
                    usage: reported_usage(no_usage(), field(fields, "usage"@)),
                    extensions: fields.remove_keys(response_keys()),
                    preservation: captured_response(
                        WireFormat::BedrockConverse,
                        Json::Object(fields),
                        policy,
                    ),
                    ..empty_response()
                },
        ),
        _ => failed(not_an_object("$"@)),
    }
}

/// Fields of a response that have no normalized place.
fn response_extensions(body: &JsonMap) -> (extensions: JsonMap)
    ensures
        extensions@ == body@.remove_keys(response_keys()),
{
    let known: [&str; 3] = ["output", "stopReason", "usage"];
    proof {
        let keys = known@;
        assert forall|key: Seq<char>| names(keys, key) <==> response_keys().contains(key) by {
            if response_keys().contains(key) {
                let i: int = if key == keys[0]@ {
                    0
                } else if key == keys[1]@ {
                    1
                } else {
                    2
                };
                assert(keys[i]@ == key);
            }
        }
        assert(key_set(keys) =~= response_keys());
    }
    body.without(&known)
}

/// Decodes the output of a response body.
fn decode_outputs(
    body: &JsonMap,
    diagnostics: &mut Vec<TranslationDiagnostic>,
    policy: &TranslationPolicy,
) -> (outcome: Result<Vec<ResponseOutput>, TranslationError>)
    ensures
        messages(final(diagnostics)@) == messages(old(diagnostics)@) + decoded_outputs(
            body@,
            *policy,
        ).diagnostics,
        match outcome {
            Ok(outputs) => decoded_outputs(body@, *policy).outcome == Ok::<
                Seq<OutputView>,
                TranslationErrorView,
            >(output_views(outputs@)),
            Err(error) => decoded_outputs(body@, *policy).outcome == Err::<
                Seq<OutputView>,
                TranslationErrorView,
            >(error@),
        },
{
    let mut outputs: Vec<ResponseOutput> = Vec::new();
    assert(output_views(outputs@) =~= Seq::empty());
    assert(messages(diagnostics@) + Seq::empty() =~= messages(diagnostics@));
    let output = match body.object_field("output") {
        Some(output) => output,
        None => {
            return Ok(outputs);
        },
    };
    let message = match output.object_field("message") {
        Some(message) => message,
        None => {
            return Ok(outputs);
        },
    };
    let content = match decode_content_field(
        message,
        "content",
        Role::Assistant,
        diagnostics,
        policy,
    ) {
        Ok(content) => content,
        Err(error) => {
            return Err(error);
        },
    };
    let role = if is_text(message.str_field("role"), "user") {
        Role::User
    } else {
        Role::Assistant
    };
    let stop_reason = match body.str_field("stopReason") {
        Some(reason) => Some(decode_stop_reason(reason)),
        None => None,
    };
    let ghost view = OutputView { role, content: contents(content@), stop_reason };
    outputs.push(ResponseOutput { role, content, stop_reason });
    assert(output_views(outputs@) =~= seq![view]);
    Ok(outputs)
}

/// The body of a response, given its encoded content.
pub open spec fn response_body(
    response: ResponseView,
    content: Seq<Json>,
) -> Map<Seq<char>, Json> {
    let first = if response.outputs.len() > 0 {
        Some(response.outputs[0])
    } else {
        None
    };
    with_field(
        with_field(
            with_field(
                Map::empty(),
                "output"@,
                match first {
                    Some(output) => Some(
                        object_of("message"@, message_object(output.role, content)),
                    ),
                    None => None,
                },
            ),
            "stopReason"@,
            match first {
                Some(output) => match output.stop_reason {
                    Some(reason) => Some(Json::String(encoded_stop_reason(reason))),
                    None => None,
                },
                None => None,
            },
        ),
        "usage"@,
        unless_empty(encoded_usage(response.usage)),
    )
}

/// Encoding of a response. A preserved body is taken as it is. Otherwise the body holds the first
/// output.
pub open spec fn encoded_response(response: ResponseView, policy: TranslationPolicy) -> Step<
    EncodedView,
> {
    match exact_body(response.preservation.responses, WireFormat::BedrockConverse, policy) {
        Some(body) => done(EncodedView { body, exact: true }),
        None => mapped(
            if response.outputs.len() > 0 {
                encoded_content(response.outputs[0].content, policy)
            } else {
                done(Seq::empty())
            },
            |content: Seq<Json>|
                EncodedView { body: Json::Object(response_body(response, content)), exact: false },
        ),
    }
}

impl BedrockConverseCodec {
    /// Decodes a Converse response body.
    pub fn decode_response(&self, body: &Value, policy: &TranslationPolicy) -> (outcome: Result<
        DecodedResponse,
        TranslationError,
    >)
        ensures
            match outcome {
                Ok(decoded) => decoded_response(body@, *policy) == (Step {
                    diagnostics: messages(decoded.diagnostics@),
                    outcome: Ok(decoded.response@),
                }),
                Err(error) => decoded_response(body@, *policy).outcome == Err::<
                    ResponseView,
                    TranslationErrorView,
                >(error@),
            },
    {
        let map = match object(body, "$") {
            Ok(map) => map,
            Err(error) => {
                return Err(error);
            },
        };
        let mut diagnostics: Vec<TranslationDiagnostic> = Vec::new();
        assert(messages(diagnostics@) =~= Seq::empty());
        let outputs = match decode_outputs(map, &mut diagnostics, policy) {
            Ok(outputs) => outputs,
            Err(error) => {
                return Err(error);
            },
        };
        assert(messages(diagnostics@) =~= decoded_outputs(map@, *policy).diagnostics);
        let copy = Value::Object(map.clone());
        let mut response = AggLlmResponse::default();
        response.outputs = outputs;
        response.usage = decode_usage(map.get("usage"));
        response.extensions = ProviderExtensions { fields: response_extensions(map) };
        response.preservation = capture_response_preservation(
            WireFormat::BedrockConverse,
            &copy,
            policy,
        );
        Ok(DecodedResponse { response, diagnostics })
    }

    /// Encodes a response as a Converse body.
    pub fn encode_response(&self, response: &AggLlmResponse, policy: &TranslationPolicy) -> (outcome:
        Result<EncodedResponse, TranslationError>)
        ensures
            match outcome {
                Ok(encoded) => encoded_response(response@, *policy) == (Step {
                    diagnostics: messages(encoded.diagnostics@),
                    outcome: Ok(EncodedView { body: encoded.body@, exact: encoded.exact }),
                }),
                Err(error) => encoded_response(response@, *policy).outcome == Err::<
                    EncodedView,
                    TranslationErrorView,
                >(error@),
            },
    {
        let mut diagnostics: Vec<TranslationDiagnostic> = Vec::new();
        assert(messages(diagnostics@) =~= Seq::empty());
        if let Some(body) = exact_preserved_response(
            &response.preservation,
            WireFormat::BedrockConverse,
            policy,
        ) {
            return Ok(EncodedResponse { body, diagnostics, exact: true });
        }
        let mut output: Option<Value> = None;
        let mut reason: Option<Value> = None;
        let ghost mut values: Seq<Json> = Seq::empty();
        if response.outputs.len() > 0 {
            let first = &response.outputs[0];
            let content = match encode_content(&first.content, &mut diagnostics, policy) {
                Ok(content) => content,
                Err(error) => {
                    return Err(error);
                },
            };
            proof {
                values = jsons(content@);
                assert(messages(diagnostics@) =~= encoded_content(
                    contents(first.content@),
                    *policy,
                ).diagnostics);
            }
            output = Some(single("message", message_value(first.role, content)));
            if let Some(stop) = first.stop_reason {
                reason = Some(Value::text(encode_stop_reason(stop)));
            }
        }
        let map = with_value(JsonMap::new(), "output", output);
        let map = with_value(map, "stopReason", reason);
        let map = with_value(map, "usage", nonempty(encode_usage(&response.usage)));
        assert(map@ == response_body(response@, values));
        Ok(EncodedResponse { body: Value::Object(map), diagnostics, exact: false })
    }
}

} // verus!
