//! Conversation types.
use switchyard::json::{Float, JsonMap, Number, Value};
use switchyard::llm::{
    AggLlmResponse, ContentBlock, InputCacheUsage, LlmRequest, Message, OpaqueState,
    OpaqueStatePurpose, OpaqueStateTooLarge, OpenAiChatReasoningField, ResponseMetadata,
    ResponseOutput, Role, Usage, MAX_OPAQUE_STATE_BYTES,
};

#[test]
fn opaque_state_enforces_its_serialized_size_bound() {
    let at_limit = "x".repeat(MAX_OPAQUE_STATE_BYTES);
    let state = OpaqueState::new(OpaqueStatePurpose::Conversation, at_limit.clone())
        .expect("state at the limit is in bounds");
    assert_eq!(state.data(), at_limit);
    assert_eq!(state.purpose(), OpaqueStatePurpose::Conversation);

    let over_limit = "x".repeat(MAX_OPAQUE_STATE_BYTES + 1);
    assert!(OpaqueState::new(OpaqueStatePurpose::Conversation, over_limit.clone()).is_err());
    // The bound counts bytes, not characters.
    let wide = "\u{e9}".repeat(MAX_OPAQUE_STATE_BYTES / 2 + 1);
    assert_eq!(
        OpaqueState::new(OpaqueStatePurpose::Reasoning, wide).err(),
        Some(OpaqueStateTooLarge)
    );
    assert_eq!(
        OpaqueStateTooLarge.to_string(),
        "opaque provider state exceeds 1048576 bytes"
    );
}

#[test]
fn text_content_joins_text_and_refusals() {
    let mut message = Message::text(Role::User, "hello".to_string());
    assert_eq!(message.role, Role::User);
    assert_eq!(message.text_content("-"), Some("hello".to_string()));
    message.content.push(ContentBlock::Unknown {
        provider: switchyard::format::FormatId::new("other".to_string()),
        raw: Value::Null,
    });
    message.content.push(ContentBlock::Refusal {
        text: "no".to_string(),
    });
    assert_eq!(message.text_content("-"), Some("hello-no".to_string()));
    message.content.clear();
    assert_eq!(message.text_content("-"), None);
}

#[test]
fn cache_counts_read_back() {
    let mut usage = Usage {
        input_tokens: Some(1),
        ..Usage::default()
    };
    assert_eq!(usage.cached_input_tokens(), None);
    usage.set_cached_input_tokens(5);
    usage.set_cache_creation_input_tokens(6);
    assert_eq!(usage.cached_input_tokens(), Some(5));
    assert_eq!(usage.cache_creation_input_tokens(), Some(6));
    assert_eq!(usage.input_tokens, Some(1));
    assert_eq!(Usage::cache_details(None, None), None);
    assert_eq!(
        Usage::cache_details(Some(2), None),
        Some(Box::new(InputCacheUsage {
            cached_input_tokens: Some(2),
            cache_creation_input_tokens: None,
        }))
    );
}

#[test]
fn defaults_hold_nothing() {
    assert!(OpenAiChatReasoningField::default().is_default());
    assert!(!OpenAiChatReasoningField::ReasoningContent.is_default());
    assert!(ResponseMetadata::default().is_empty());
    let request = LlmRequest::default();
    assert!(request.messages.is_empty() && request.tools.is_empty() && !request.stream);
    assert!(request.extensions.fields.is_empty());
    let mut response = AggLlmResponse::default();
    assert!(response.first_output().is_none());
    response.outputs.push(ResponseOutput {
        role: Role::Assistant,
        content: Vec::new(),
        stop_reason: None,
    });
    assert_eq!(response.first_output(), Some(&response.outputs[0]));
}

#[test]
fn objects_hold_their_fields_in_key_order() {
    let mut map = JsonMap::new();
    map.insert("b".to_string(), Value::integer(1));
    map.insert("a".to_string(), Value::text("x"));
    map.insert("b".to_string(), Value::integer(2));
    assert_eq!(map.get("b"), Some(&Value::integer(2)));
    assert_eq!(map.str_field("a"), Some("x"));
    assert_eq!(map.u64_field("b"), Some(2));
    assert_eq!(map.u64_field("a"), None);
    assert_eq!(map.get("c"), None);
    assert_eq!(
        map,
        JsonMap::new()
            .with("a", Value::text("x"))
            .with("b", Value::integer(2))
    );
    assert_eq!(
        map.without(&["a", "z"]),
        JsonMap::new().with("b", Value::integer(2))
    );
}

#[test]
fn numbers_read_as_floats() {
    let map = JsonMap::new()
        .with("one", Value::integer(1))
        .with("minus", Value::Number(Number::NegInt(-3)))
        .with("half", Value::Number(Number::Float("0.5".to_string())))
        .with("text", Value::text("1"));
    assert_eq!(map.float_field("one"), Some(Float::Finite("1.0".to_string())));
    assert_eq!(
        map.float_field("minus"),
        Some(Float::Finite("-3.0".to_string()))
    );
    assert_eq!(map.float_field("half"), Some(Float::Finite("0.5".to_string())));
    assert_eq!(map.float_field("text"), None);
    assert_eq!(Float::Infinite { negative: true }.to_value(), Value::Null);
    assert_eq!(Float::NotANumber.to_value(), Value::Null);
}

#[test]
fn floats_compare_as_numbers() {
    let finite = |text: &str| Float::Finite(text.to_string());
    assert_eq!(finite("0.5"), finite("0.5"));
    assert_ne!(finite("0.5"), finite("-0.5"));
    assert_eq!(finite("0.0"), finite("-0.0"));
    assert_ne!(finite("0.0"), finite("1.0"));
    let infinite = |negative: bool| Float::Infinite { negative };
    assert_eq!(infinite(true), infinite(true));
    assert_ne!(infinite(true), infinite(false));
    assert_ne!(infinite(false), finite("1.0"));
    assert_ne!(Float::NotANumber, Float::NotANumber);

    let number = |text: &str| Value::Number(Number::Float(text.to_string()));
    assert_eq!(Value::Array(vec![number("-0.0")]), Value::Array(vec![number("0.0")]));
    assert_ne!(number("2.5"), number("3.5"));
    assert_ne!(number("1.0"), Value::integer(1));
    assert_eq!(Value::integer(1), Value::integer(1));
    assert_ne!(Value::Number(Number::NegInt(-1)), Value::Number(Number::NegInt(-2)));
}
