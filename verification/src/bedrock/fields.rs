//! Parts of Converse documents outside content: tools, tool choice, stop reasons and usage.
use vstd::prelude::*;
use vstd::string::*;

use crate::json::{
    field, jsons, lemma_value_view, opt_json_ref, str_field, u64_field, Json, JsonMap, JsonNumber,
    Value,
};
use crate::llm::{no_usage, Role, StopReason, ToolChoice, ToolDefinition, Usage};
use crate::model::{tool_views, ToolChoiceView, ToolDefinitionView};
use crate::text::{opt_str, opt_text, text_eq};

verus! {

broadcast use lemma_value_view;

/// The object with one field.
pub open spec fn object_of(key: Seq<char>, value: Json) -> Json {
    Json::Object(Map::empty().insert(key, value))
}

/// An object with one field.
pub fn single(key: &str, value: Value) -> (object: Value)
    ensures
        object@ == object_of(key@, value@),
{
    Value::Object(JsonMap::new().with(key, value))
}

/// The JSON string of a text, or `null` where there is none.
pub open spec fn text_or_null(text: Option<Seq<char>>) -> Json {
    match text {
        Some(text) => Json::String(text),
        None => Json::Null,
    }
}

/// The JSON string of a text, or `null` where there is none.
pub fn nullable(text: &Option<String>) -> (value: Value)
    ensures
        value@ == text_or_null(opt_text(*text)),
{
    match text {
        Some(text) => Value::text(text.as_str()),
        None => Value::Null,
    }
}

/// The field, or the empty object where there is none.
pub open spec fn or_object(value: Option<Json>) -> Json {
    match value {
        Some(value) => value,
        None => Json::Object(Map::empty()),
    }
}

/// A copy of the field, or an empty object where there is none.
pub fn copied_or_object(value: Option<&Value>) -> (copy: Value)
    ensures
        copy@ == or_object(opt_json_ref(value)),
{
    match value {
        Some(value) => value.clone(),
        None => Value::Object(JsonMap::new()),
    }
}

/// A copy of an optional text.
pub fn owned(text: Option<&str>) -> (copy: Option<String>)
    ensures
        opt_text(copy) == opt_str(text),
{
    match text {
        Some(text) => Some(text.to_owned()),
        None => None,
    }
}

/// The tool definition that an entry of `tools` gives, if it names a tool.
pub open spec fn decoded_tool(entry: Json) -> Option<ToolDefinitionView> {
    match entry.get("toolSpec"@) {
        Some(Json::Object(spec)) => match str_field(spec, "name"@) {
            Some(name) => Some(
                ToolDefinitionView {
                    name,
                    description: str_field(spec, "description"@),
                    parameters: or_object(
                        match field(spec, "inputSchema"@) {
                            Some(schema) => schema.get("json"@),
                            None => None,
                        },
                    ),
                    strict: None,
                },
            ),
            None => None,
        },
        _ => None,
    }
}

/// The tool definitions that a list of entries gives. Entries that name no tool are skipped.
pub open spec fn decoded_tools(entries: Seq<Json>) -> Seq<ToolDefinitionView>
    decreases entries.len(),
{
    if entries.len() == 0 {
        Seq::empty()
    } else {
        let before = decoded_tools(entries.drop_last());
        match decoded_tool(entries.last()) {
            Some(tool) => before.push(tool),
            None => before,
        }
    }
}

/// Decodes one entry of `tools`.
fn decode_tool(entry: &Value) -> (tool: Option<ToolDefinition>)
    ensures
        match tool {
            Some(tool) => decoded_tool(entry@) == Some(tool@),
            None => decoded_tool(entry@) is None,
        },
{
    let spec: &JsonMap = match entry.get("toolSpec") {
        Some(Value::Object(spec)) => spec,
        _ => {
            return None;
        },
    };
    let name = match spec.str_field("name") {
        Some(name) => name.to_owned(),
        None => {
            return None;
        },
    };
    let schema = match spec.get("inputSchema") {
        Some(schema) => schema.get("json"),
        None => None,
    };
    Some(
        ToolDefinition {
            name,
            description: owned(spec.str_field("description")),
            parameters: copied_or_object(schema),
            strict: None,
        },
    )
}

/// The tool definitions of the `tools` field. A field that is no array gives none.
pub open spec fn tools_field(value: Option<Json>) -> Seq<ToolDefinitionView> {
    match value {
        Some(Json::Array(entries)) => decoded_tools(entries),
        _ => Seq::empty(),
    }
}

/// Decodes the `tools` field.
pub fn decode_tools(value: Option<&Value>) -> (tools: Vec<ToolDefinition>)
    ensures
        tool_views(tools@) == tools_field(opt_json_ref(value)),
{
    let mut tools: Vec<ToolDefinition> = Vec::new();
    let entries: &Vec<Value> = match value {
        Some(Value::Array(entries)) => entries,
        _ => {
            assert(tool_views(tools@) =~= Seq::empty());
            return tools;
        },
    };
    let ghost all = jsons(entries@);
    let n = entries.len();
    let mut i: usize = 0;
    assert(tool_views(tools@) =~= decoded_tools(all.take(0)));
    while i < n
        invariant
            n == entries@.len(),
            i <= n,
            all == jsons(entries@),
            tool_views(tools@) == decoded_tools(all.take(i as int)),
        decreases n - i,
    {
        let ghost so_far = tool_views(tools@);
        proof {
            assert(all.take(i + 1).drop_last() =~= all.take(i as int));
            assert(all.take(i + 1).last() == entries@[i as int]@);
        }
        if let Some(tool) = decode_tool(&entries[i]) {
            let ghost view = tool@;
            tools.push(tool);
            assert(tool_views(tools@) =~= so_far.push(view));
        }
        i += 1;
    }
    assert(all.take(n as int) =~= all);
    tools
}

/// The entry of `tools` for a definition.
pub open spec fn encoded_tool(tool: ToolDefinitionView) -> Json {
    object_of(
        "toolSpec"@,
        Json::Object(
            Map::empty().insert("name"@, Json::String(tool.name)).insert(
                "description"@,
                text_or_null(tool.description),
            ).insert("inputSchema"@, object_of("json"@, tool.parameters)),
        ),
    )
}

/// Encodes a tool definition.
pub fn encode_tool(tool: &ToolDefinition) -> (value: Value)
    ensures
        value@ == encoded_tool(tool@),
{
    single(
        "toolSpec",
        Value::Object(
            JsonMap::new().with("name", Value::text(tool.name.as_str())).with(
                "description",
                nullable(&tool.description),
            ).with("inputSchema", single("json", tool.parameters.clone())),
        ),
    )
}

/// The name of the tool that a tool choice requires.
pub open spec fn chosen_tool(value: Json) -> Option<Seq<char>> {
    match value.get("tool"@) {
        Some(Json::Object(tool)) => str_field(tool, "name"@),
        _ => None,
    }
}

/// The policy that a `toolChoice` value gives.
pub open spec fn decoded_tool_choice(value: Json) -> ToolChoiceView {
    if value.get("auto"@) is Some {
        ToolChoiceView::Auto
    } else if value.get("any"@) is Some {
        ToolChoiceView::Required
    } else {
        match chosen_tool(value) {
            Some(name) => ToolChoiceView::Tool { name },
            None => ToolChoiceView::Raw(value),
        }
    }
}

/// Decodes a `toolChoice` value.
pub fn decode_tool_choice(value: &Value) -> (choice: ToolChoice)
    ensures
        choice@ == decoded_tool_choice(value@),
{
    if value.get("auto").is_some() {
        return ToolChoice::Auto;
    }
    if value.get("any").is_some() {
        return ToolChoice::Required;
    }
    if let Some(Value::Object(tool)) = value.get("tool") {
        if let Some(name) = tool.str_field("name") {
            return ToolChoice::Tool { name: name.to_owned() };
        }
    }
    ToolChoice::Raw(value.clone())
}

/// The `toolChoice` value of a policy.
pub open spec fn encoded_tool_choice(choice: ToolChoiceView) -> Json {
    match choice {
        ToolChoiceView::Auto => object_of("auto"@, Json::Object(Map::empty())),
        ToolChoiceView::Required => object_of("any"@, Json::Object(Map::empty())),
        ToolChoiceView::Tool { name } => object_of(
            "tool"@,
            object_of("name"@, Json::String(name)),
        ),
        ToolChoiceView::Disallow => object_of("none"@, Json::Object(Map::empty())),
        ToolChoiceView::Raw(value) => value,
    }
}

/// Encodes a tool-choice policy.
pub fn encode_tool_choice(choice: &ToolChoice) -> (value: Value)
    ensures
        value@ == encoded_tool_choice(choice@),
{
    match choice {
        ToolChoice::Auto => single("auto", Value::Object(JsonMap::new())),
        ToolChoice::Required => single("any", Value::Object(JsonMap::new())),
        ToolChoice::Tool { name } => single("tool", single("name", Value::text(name.as_str()))),
        ToolChoice::Disallow => single("none", Value::Object(JsonMap::new())),
        ToolChoice::Raw(value) => value.clone(),
    }
}

/// The stop reason that a Converse name stands for.
pub open spec fn decoded_stop_reason(reason: Seq<char>) -> StopReason {
    if reason == "end_turn"@ || reason == "stop_sequence"@ {
        StopReason::EndTurn
    } else if reason == "max_tokens"@ {
        StopReason::MaxTokens
    } else if reason == "tool_use"@ {
        StopReason::ToolUse
    } else if reason == "content_filtered"@ || reason == "guardrail_intervened"@ {
        StopReason::ContentFilter
    } else {
        StopReason::Unknown
    }
}

/// Decodes a Converse stop reason.
pub fn decode_stop_reason(reason: &str) -> (stop: StopReason)
    ensures
        stop == decoded_stop_reason(reason@),
{
    if text_eq(reason, "end_turn") || text_eq(reason, "stop_sequence") {
        StopReason::EndTurn
    } else if text_eq(reason, "max_tokens") {
        StopReason::MaxTokens
    } else if text_eq(reason, "tool_use") {
        StopReason::ToolUse
    } else if text_eq(reason, "content_filtered") || text_eq(reason, "guardrail_intervened") {
        StopReason::ContentFilter
    } else {
        StopReason::Unknown
    }
}

/// The Converse name of a stop reason.
pub open spec fn encoded_stop_reason(reason: StopReason) -> Seq<char> {
    match reason {
        StopReason::EndTurn => "end_turn"@,
        StopReason::MaxTokens => "max_tokens"@,
        StopReason::ToolUse => "tool_use"@,
        StopReason::ContentFilter => "content_filtered"@,
        StopReason::Error => "error"@,
        StopReason::Unknown => "unknown"@,
    }
}

/// Encodes a stop reason.
pub fn encode_stop_reason(reason: StopReason) -> (name: &'static str)
    ensures
        name@ == encoded_stop_reason(reason),
{
    match reason {
        StopReason::EndTurn => "end_turn",
        StopReason::MaxTokens => "max_tokens",
        StopReason::ToolUse => "tool_use",
        StopReason::ContentFilter => "content_filtered",
        StopReason::Error => "error",
        StopReason::Unknown => "unknown",
    }
}

/// The Converse name of a role. Converse knows only users and assistants.
pub open spec fn encoded_role(role: Role) -> Seq<char> {
    if role == Role::Assistant {
        "assistant"@
    } else {
        "user"@
    }
}

/// Encodes a role.
pub fn encode_role(role: Role) -> (name: &'static str)
    ensures
        name@ == encoded_role(role),
{
    match role {
        Role::Assistant => "assistant",
        Role::User | Role::Tool | Role::System | Role::Developer => "user",
    }
}

/// Cache detail after reports of cache counts; a count that is not reported stays.
pub open spec fn with_cache_counts(usage: Usage, read: Option<u64>, write: Option<u64>) -> Usage {
    let once = match read {
        Some(read) => usage.with_cache(Some(read), usage.cache_creation()),
        None => usage,
    };
    match write {
        Some(write) => once.with_cache(once.cache_read(), Some(write)),
        None => once,
    }
}

/// The fields of a `usage` value; a value that is no object has none.
pub open spec fn usage_fields(value: Option<Json>) -> Map<Seq<char>, Json> {
    match value {
        Some(Json::Object(fields)) => fields,
        _ => Map::empty(),
    }
}

/// Usage after a `usage` report. The report replaces the counts outside the cache detail, and
/// sets the cache counts that it holds.
pub open spec fn reported_usage(usage: Usage, value: Option<Json>) -> Usage {
    let fields = usage_fields(value);
    with_cache_counts(
        Usage {
            input_tokens: u64_field(fields, "inputTokens"@),
            output_tokens: u64_field(fields, "outputTokens"@),
            total_tokens: u64_field(fields, "totalTokens"@),
            ..usage
        },
        u64_field(fields, "cacheReadInputTokens"@),
        u64_field(fields, "cacheWriteInputTokens"@),
    )
}

/// Applies a `usage` report.
pub fn apply_usage(usage: &mut Usage, value: Option<&Value>)
    ensures
        *final(usage) == reported_usage(*old(usage), opt_json_ref(value)),
{
    let none = JsonMap::new();
    let fields: &JsonMap = match value {
        Some(Value::Object(fields)) => fields,
        _ => &none,
    };
    usage.input_tokens = fields.u64_field("inputTokens");
    usage.output_tokens = fields.u64_field("outputTokens");
    usage.total_tokens = fields.u64_field("totalTokens");
    if let Some(tokens) = fields.u64_field("cacheReadInputTokens") {
        usage.set_cached_input_tokens(tokens);
    }
    if let Some(tokens) = fields.u64_field("cacheWriteInputTokens") {
        usage.set_cache_creation_input_tokens(tokens);
    }
}

/// Decodes the `usage` field.
pub fn decode_usage(value: Option<&Value>) -> (usage: Usage)
    ensures
        usage == reported_usage(no_usage(), opt_json_ref(value)),
{
    let mut usage = Usage::default();
    apply_usage(&mut usage, value);
    usage
}

/// The object with one more field, where there is a value for it.
pub open spec fn with_field(
    fields: Map<Seq<char>, Json>,
    key: Seq<char>,
    value: Option<Json>,
) -> Map<Seq<char>, Json> {
    match value {
        Some(value) => fields.insert(key, value),
        None => fields,
    }
}

/// JSON number of an optional count.
pub open spec fn opt_count(count: Option<u64>) -> Option<Json> {
    match count {
        Some(count) => Some(Json::Number(JsonNumber::PosInt(count))),
        None => None,
    }
}

/// Adds a count, where there is one.
fn with_count(map: JsonMap, key: &str, count: Option<u64>) -> (result: JsonMap)
    ensures
        result@ == with_field(map@, key@, opt_count(count)),
{
    match count {
        Some(count) => map.with(key, Value::integer(count)),
        None => map,
    }
}

/// The `usage` object of token counts: the counts that are present.
pub open spec fn encoded_usage(usage: Usage) -> Map<Seq<char>, Json> {
    with_field(
        with_field(
            with_field(
                with_field(
                    with_field(Map::empty(), "inputTokens"@, opt_count(usage.input_tokens)),
                    "outputTokens"@,
                    opt_count(usage.output_tokens),
                ),
                "totalTokens"@,
                opt_count(usage.total_tokens),
            ),
            "cacheReadInputTokens"@,
            opt_count(usage.cache_read()),
        ),
        "cacheWriteInputTokens"@,
        opt_count(usage.cache_creation()),
    )
}

/// Encodes token counts.
pub fn encode_usage(usage: &Usage) -> (map: JsonMap)
    ensures
        map@ == encoded_usage(*usage),
{
    let map = with_count(JsonMap::new(), "inputTokens", usage.input_tokens);
    let map = with_count(map, "outputTokens", usage.output_tokens);
    let map = with_count(map, "totalTokens", usage.total_tokens);
    let map = with_count(map, "cacheReadInputTokens", usage.cached_input_tokens());
    with_count(map, "cacheWriteInputTokens", usage.cache_creation_input_tokens())
}

} // verus!
