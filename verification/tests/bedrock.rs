//! Amazon Bedrock Converse codecs.
use switchyard::accumulate::ResponseAccumulator;
use switchyard::bedrock::buffered::BedrockConverseCodec;
use switchyard::bedrock::content::{encode_content_block, encode_unsupported};
use switchyard::bedrock::fields::{
    decode_stop_reason, decode_tool_choice, decode_tools, encode_role, encode_stop_reason,
    encode_tool_choice,
};
use switchyard::bedrock::stream::{
    bedrock_stop_reason, can_encode, BedrockConverseStreamCodec,
};
use switchyard::format::{FormatId, WireFormat};
use switchyard::json::{Float, JsonMap, Number, Value};
use switchyard::llm::{
    AggLlmResponse, ContentBlock, FileSource, ImageSource, InstructionBlock, LlmRequest,
    MediaSource, Message, ResponseOutput, Role, StopReason, ToolCall, ToolChoice, ToolDefinition,
    ToolResult, Usage,
};
use switchyard::stream::LlmResponseChunk;
use switchyard::stream_state::StreamTranslationState;
use switchyard::translation::{TranslationDiagnostic, TranslationError, TranslationPolicy};

const REBUILD: TranslationPolicy = TranslationPolicy {
    preserve: false,
    reject_lossy: false,
};

const STRICT: TranslationPolicy = TranslationPolicy {
    preserve: false,
    reject_lossy: true,
};

fn obj(fields: Vec<(&str, Value)>) -> Value {
    let mut map = JsonMap::new();
    for (key, value) in fields {
        map.insert(key.to_string(), value);
    }
    Value::Object(map)
}

fn arr(items: Vec<Value>) -> Value {
    Value::Array(items)
}

fn txt(text: &str) -> Value {
    Value::text(text)
}

fn num(n: u64) -> Value {
    Value::integer(n)
}

fn block(text: &str) -> ContentBlock {
    ContentBlock::Text {
        text: text.to_string(),
    }
}

fn request_document() -> Value {
    obj(vec![
        ("system", arr(vec![obj(vec![("text", txt("be brief"))])])),
        (
            "messages",
            arr(vec![
                obj(vec![
                    ("role", txt("user")),
                    ("content", arr(vec![obj(vec![("text", txt("hi"))])])),
                ]),
                obj(vec![
                    ("role", txt("assistant")),
                    (
                        "content",
                        arr(vec![obj(vec![(
                            "toolUse",
                            obj(vec![
                                ("toolUseId", txt("t1")),
                                ("name", txt("lookup")),
                                ("input", obj(vec![("q", txt("rust"))])),
                            ]),
                        )])]),
                    ),
                ]),
            ]),
        ),
        (
            "inferenceConfig",
            obj(vec![
                ("maxTokens", num(64)),
                ("temperature", Value::Number(Number::Float("0.25".to_string()))),
                ("topP", num(1)),
                ("stopSequences", arr(vec![txt("END")])),
            ]),
        ),
        (
            "toolConfig",
            obj(vec![
                (
                    "tools",
                    arr(vec![
                        obj(vec![(
                            "toolSpec",
                            obj(vec![
                                ("name", txt("lookup")),
                                ("description", txt("finds")),
                                (
                                    "inputSchema",
                                    obj(vec![("json", obj(vec![("type", txt("object"))]))]),
                                ),
                            ]),
                        )]),
                        obj(vec![("cachePoint", Value::Null)]),
                    ]),
                ),
                ("toolChoice", obj(vec![("any", obj(vec![]))])),
            ]),
        ),
        (
            "additionalModelRequestFields",
            obj(vec![("top_k", num(5))]),
        ),
        ("guardrailConfig", obj(vec![("id", txt("g"))])),
    ])
}

fn lookup_tool() -> ToolDefinition {
    ToolDefinition {
        name: "lookup".to_string(),
        description: Some("finds".to_string()),
        parameters: obj(vec![("type", txt("object"))]),
        strict: None,
    }
}

#[test]
fn decodes_a_request() {
    let codec = BedrockConverseCodec;
    assert_eq!(codec.format().as_str(), "bedrock_converse");
    let decoded = codec
        .decode_request(&request_document(), &REBUILD)
        .expect("decodes");
    assert!(decoded.diagnostics.is_empty());
    let request = decoded.request;
    assert_eq!(
        request.instructions,
        vec![InstructionBlock {
            role: Role::System,
            content: vec![block("be brief")],
        }]
    );
    assert_eq!(
        request.messages,
        vec![
            Message::text(Role::User, "hi".to_string()),
            Message {
                role: Role::Assistant,
                content: vec![ContentBlock::ToolCall(ToolCall {
                    id: "t1".to_string(),
                    name: "lookup".to_string(),
                    arguments: obj(vec![("q", txt("rust"))]),
                })],
            },
        ]
    );
    assert_eq!(request.tools, vec![lookup_tool()]);
    assert_eq!(request.tool_choice, Some(ToolChoice::Required));
    assert_eq!(request.output.max_output_tokens, Some(64));
    assert_eq!(
        request.sampling.temperature,
        Some(Float::Finite("0.25".to_string()))
    );
    assert_eq!(request.sampling.top_p, Some(Float::Finite("1.0".to_string())));
    assert_eq!(
        request.extensions.fields,
        JsonMap::new()
            .with("stop", arr(vec![txt("END")]))
            .with(
                "additionalModelRequestFields",
                obj(vec![("top_k", num(5))])
            )
            .with("guardrailConfig", obj(vec![("id", txt("g"))]))
    );
    assert!(request.preservation.requests.is_empty());
}

#[test]
fn preserved_bodies_are_replayed_exactly() {
    let codec = BedrockConverseCodec;
    let policy = TranslationPolicy::default();
    let body = request_document();
    let decoded = codec.decode_request(&body, &policy).expect("decodes");
    let unsupported = Err(TranslationError::Lossy {
        message: "not consulted".to_string(),
    });
    let encoded = codec
        .encode_request(&decoded.request, unsupported, &policy)
        .expect("encodes");
    assert!(encoded.exact);
    assert_eq!(encoded.body, body);

    let body = obj(vec![("trace", txt("t")), ("stopReason", txt("end_turn"))]);
    let decoded = codec.decode_response(&body, &policy).expect("decodes");
    let encoded = codec
        .encode_response(&decoded.response, &policy)
        .expect("encodes");
    assert!(encoded.exact);
    assert_eq!(encoded.body, body);
}

#[test]
fn rebuilt_request_round_trips() {
    let codec = BedrockConverseCodec;
    let mut request = codec
        .decode_request(&request_document(), &REBUILD)
        .expect("decodes")
        .request;
    request.extensions.fields = request.extensions.fields.without(&["guardrailConfig"]);
    let checked = vec![TranslationDiagnostic {
        message: "checked".to_string(),
    }];
    let encoded = codec
        .encode_request(&request, Ok(checked.clone()), &REBUILD)
        .expect("encodes");
    assert!(!encoded.exact);
    assert_eq!(encoded.diagnostics, checked);
    let body = encoded.body.as_object().expect("object");
    assert_eq!(
        body.object_field("inferenceConfig"),
        Some(
            &JsonMap::new()
                .with("maxTokens", num(64))
                .with(
                    "temperature",
                    Value::Number(Number::Float("0.25".to_string()))
                )
                .with("topP", Value::Number(Number::Float("1.0".to_string())))
                .with("stopSequences", arr(vec![txt("END")]))
        )
    );
    let decoded = codec
        .decode_request(&encoded.body, &REBUILD)
        .expect("decodes");
    assert_eq!(decoded.request, request);
}

#[test]
fn failed_capability_check_fails_the_encoding() {
    let error = TranslationError::InvalidValue {
        path: "$.tools".to_string(),
        message: "unsupported".to_string(),
    };
    let outcome =
        BedrockConverseCodec.encode_request(&LlmRequest::default(), Err(error.clone()), &REBUILD);
    assert_eq!(outcome.err(), Some(error));
    let encoded = BedrockConverseCodec
        .encode_request(&LlmRequest::default(), Ok(Vec::new()), &REBUILD)
        .expect("encodes");
    assert_eq!(encoded.body, obj(vec![("messages", arr(vec![]))]));
}

#[test]
fn malformed_requests_are_located() {
    let codec = BedrockConverseCodec;
    let failure = |body: Value, policy: &TranslationPolicy| {
        codec.decode_request(&body, policy).err().expect("fails")
    };
    let expected = |path: &str| TranslationError::InvalidValue {
        path: path.to_string(),
        message: "expected an object".to_string(),
    };
    assert_eq!(failure(Value::Null, &REBUILD), expected("$"));
    assert_eq!(
        failure(
            obj(vec![("messages", arr(vec![obj(vec![]), num(3)]))]),
            &REBUILD
        ),
        expected("$.messages[1]")
    );
    assert_eq!(
        failure(obj(vec![("system", arr(vec![txt("x")]))]), &REBUILD),
        expected("$.content[0]")
    );
    assert_eq!(
        failure(
            obj(vec![(
                "messages",
                arr(vec![obj(vec![("role", txt("critic"))])])
            )]),
            &REBUILD
        ),
        TranslationError::UnsupportedRole {
            path: "$.messages[0].role".to_string(),
            role: "critic".to_string(),
        }
    );
    let unknown = obj(vec![(
        "messages",
        arr(vec![obj(vec![(
            "content",
            arr(vec![obj(vec![("video", obj(vec![]))])]),
        )])]),
    )]);
    assert_eq!(
        failure(unknown.clone(), &STRICT),
        TranslationError::Lossy {
            message: "unsupported Bedrock Converse content block for User".to_string(),
        }
    );
    let decoded = codec.decode_request(&unknown, &REBUILD).expect("reported");
    assert_eq!(
        decoded.diagnostics,
        vec![TranslationDiagnostic {
            message: "unsupported Bedrock Converse content block for User".to_string(),
        }]
    );
    assert_eq!(
        decoded.request.messages[0].content,
        vec![ContentBlock::Unknown {
            provider: WireFormat::BedrockConverse.id(),
            raw: obj(vec![("video", obj(vec![]))]),
        }]
    );
}

fn rich_content() -> Vec<ContentBlock> {
    vec![
        block("text"),
        ContentBlock::Reasoning {
            text: "why".to_string(),
            signature: Some("sig".to_string()),
            details: Vec::new(),
            openai_chat_field: Default::default(),
        },
        ContentBlock::ToolCall(ToolCall {
            id: "1".to_string(),
            name: "f".to_string(),
            arguments: obj(vec![]),
        }),
        ContentBlock::ToolResult(ToolResult {
            tool_call_id: "1".to_string(),
            content: vec![block("ok")],
            is_error: Some(false),
        }),
        ContentBlock::Image {
            source: ImageSource::Base64 {
                media_type: Some("image/jpeg".to_string()),
                data: "AAAA".to_string(),
            },
        },
    ]
}

#[test]
fn rebuilt_response_round_trips() {
    let codec = BedrockConverseCodec;
    let mut usage = Usage {
        input_tokens: Some(1),
        output_tokens: Some(2),
        total_tokens: Some(3),
        ..Usage::default()
    };
    usage.set_cached_input_tokens(4);
    let response = AggLlmResponse {
        outputs: vec![ResponseOutput {
            role: Role::Assistant,
            content: rich_content(),
            stop_reason: Some(StopReason::ContentFilter),
        }],
        usage,
        ..AggLlmResponse::default()
    };
    let encoded = codec
        .encode_response(&response, &STRICT)
        .expect("nothing is lost");
    assert!(encoded.diagnostics.is_empty());
    let body = encoded.body.as_object().expect("object");
    assert_eq!(body.str_field("stopReason"), Some("content_filtered"));
    assert_eq!(
        body.object_field("usage"),
        Some(
            &JsonMap::new()
                .with("inputTokens", num(1))
                .with("outputTokens", num(2))
                .with("totalTokens", num(3))
                .with("cacheReadInputTokens", num(4))
        )
    );
    let decoded = codec
        .decode_response(&encoded.body, &STRICT)
        .expect("decodes");
    assert_eq!(decoded.response, response);
    // A response without output has neither output nor stop reason.
    let empty = codec
        .encode_response(&AggLlmResponse::default(), &REBUILD)
        .expect("encodes");
    assert_eq!(empty.body, obj(vec![]));
}

#[test]
fn response_role_and_extensions_are_kept() {
    let body = obj(vec![
        (
            "output",
            obj(vec![("message", obj(vec![("role", txt("user"))]))]),
        ),
        ("metrics", obj(vec![("latencyMs", num(9))])),
        ("usage", txt("none")),
    ]);
    let decoded = BedrockConverseCodec
        .decode_response(&body, &REBUILD)
        .expect("decodes");
    assert_eq!(
        decoded.response,
        AggLlmResponse {
            outputs: vec![ResponseOutput {
                role: Role::User,
                content: Vec::new(),
                stop_reason: None,
            }],
            extensions: switchyard::llm::ProviderExtensions {
                fields: JsonMap::new().with("metrics", obj(vec![("latencyMs", num(9))])),
            },
            ..AggLlmResponse::default()
        }
    );
    assert!(BedrockConverseCodec
        .decode_response(&arr(vec![]), &REBUILD)
        .is_err());
}

#[test]
fn tool_results_hold_text_documents_and_unknown_blocks() {
    let body = obj(vec![(
        "messages",
        arr(vec![obj(vec![(
            "content",
            arr(vec![obj(vec![(
                "toolResult",
                obj(vec![
                    ("toolUseId", txt("1")),
                    ("status", txt("error")),
                    (
                        "content",
                        arr(vec![
                            obj(vec![("text", txt("plain"))]),
                            obj(vec![("json", obj(vec![("n", num(1))]))]),
                            obj(vec![("image", Value::Null)]),
                        ]),
                    ),
                ]),
            )])]),
        )])]),
    )]);
    let decoded = BedrockConverseCodec
        .decode_request(&body, &STRICT)
        .expect("decodes");
    assert_eq!(
        decoded.request.messages[0].content,
        vec![ContentBlock::ToolResult(ToolResult {
            tool_call_id: "1".to_string(),
            content: vec![
                block("plain"),
                block("{\"n\":1}"),
                ContentBlock::Unknown {
                    provider: WireFormat::BedrockConverse.id(),
                    raw: obj(vec![("image", Value::Null)]),
                },
            ],
            is_error: Some(true),
        })]
    );
    let mut diagnostics = Vec::new();
    let encoded = encode_content_block(
        &decoded.request.messages[0].content[0],
        &mut diagnostics,
        &STRICT,
    )
    .expect("encodes");
    assert_eq!(
        encoded,
        obj(vec![(
            "toolResult",
            obj(vec![
                ("toolUseId", txt("1")),
                ("status", txt("error")),
                (
                    "content",
                    arr(vec![
                        obj(vec![("text", txt("plain"))]),
                        obj(vec![("text", txt("{\"n\":1}"))]),
                        obj(vec![("json", obj(vec![("image", Value::Null)]))]),
                    ])
                ),
            ])
        )])
    );
}

#[test]
fn unsupported_blocks_become_placeholders() {
    let encode = |block: ContentBlock| {
        let mut diagnostics = Vec::new();
        let value = encode_content_block(&block, &mut diagnostics, &REBUILD).expect("reported");
        (value, diagnostics)
    };
    let (value, diagnostics) = encode(ContentBlock::File {
        source: FileSource::FileId("f1".to_string()),
    });
    assert_eq!(value, obj(vec![("text", txt("[file]"))]));
    assert_eq!(
        diagnostics,
        vec![TranslationDiagnostic {
            message: "unsupported content block encoded for Bedrock Converse: \
                      File { source: FileId(\"f1\") }"
                .to_string(),
        }]
    );
    let audio = ContentBlock::Audio {
        source: MediaSource::Raw(Value::Null),
    };
    assert_eq!(encode(audio.clone()).0, obj(vec![("text", txt("[audio]"))]));
    let video = ContentBlock::Video {
        source: MediaSource::Raw(Value::Null),
    };
    assert_eq!(encode(video).0, obj(vec![("text", txt("[video]"))]));
    let linked = ContentBlock::Image {
        source: ImageSource::Url {
            url: "u".to_string(),
            detail: None,
        },
    };
    assert_eq!(encode(linked).0, obj(vec![("text", txt("[image]"))]));
    let foreign = ContentBlock::Unknown {
        provider: FormatId::new("other".to_string()),
        raw: Value::Null,
    };
    let (value, diagnostics) = encode(foreign);
    assert_eq!(value, obj(vec![("text", txt("[unsupported content]"))]));
    assert_eq!(
        diagnostics,
        vec![TranslationDiagnostic {
            message: "unsupported content block encoded for Bedrock Converse: \
                      Unknown { provider: FormatId(\"other\"), raw: Null }"
                .to_string(),
        }]
    );
    let own = ContentBlock::Unknown {
        provider: WireFormat::BedrockConverse.id(),
        raw: num(1),
    };
    assert_eq!(encode(own), (num(1), Vec::new()));

    let mut diagnostics = Vec::new();
    assert_eq!(
        encode_unsupported(&audio, "a recording", &mut diagnostics, &STRICT).err(),
        Some(TranslationError::Lossy {
            message: "unsupported content block encoded for Bedrock Converse: a recording"
                .to_string(),
        })
    );
    assert!(diagnostics.is_empty());
}

#[test]
fn image_format_falls_back_to_png() {
    for (media_type, format) in [
        (Some("image/webp"), "webp"),
        (Some("application/pdf"), "png"),
        (None, "png"),
    ] {
        let image = ContentBlock::Image {
            source: ImageSource::Base64 {
                media_type: media_type.map(str::to_string),
                data: "AA".to_string(),
            },
        };
        let value = encode_content_block(&image, &mut Vec::new(), &STRICT).expect("encodes");
        assert_eq!(
            value,
            obj(vec![(
                "image",
                obj(vec![
                    ("format", txt(format)),
                    ("source", obj(vec![("bytes", txt("AA"))])),
                ])
            )])
        );
    }
}

#[test]
fn tool_choices_and_stop_reasons_round_trip() {
    for choice in [
        ToolChoice::Auto,
        ToolChoice::Required,
        ToolChoice::Tool {
            name: "f".to_string(),
        },
    ] {
        assert_eq!(decode_tool_choice(&encode_tool_choice(&choice)), choice);
    }
    let disallowed = encode_tool_choice(&ToolChoice::Disallow);
    assert_eq!(disallowed, obj(vec![("none", obj(vec![]))]));
    assert_eq!(
        decode_tool_choice(&disallowed),
        ToolChoice::Raw(disallowed.clone())
    );
    for reason in [
        StopReason::EndTurn,
        StopReason::MaxTokens,
        StopReason::ToolUse,
        StopReason::ContentFilter,
        StopReason::Unknown,
    ] {
        assert_eq!(decode_stop_reason(encode_stop_reason(reason)), reason);
    }
    assert_eq!(encode_stop_reason(StopReason::Error), "error");
    assert_eq!(decode_stop_reason("error"), StopReason::Unknown);
    assert_eq!(
        decode_stop_reason("guardrail_intervened"),
        StopReason::ContentFilter
    );
    assert_eq!(encode_role(Role::Assistant), "assistant");
    assert_eq!(encode_role(Role::Tool), "user");
    assert!(decode_tools(Some(&txt("none"))).is_empty());
    assert!(decode_tools(None).is_empty());
}

fn start_event() -> Value {
    obj(vec![("messageStart", obj(vec![("role", txt("assistant"))]))])
}

fn delta_of(index: u64, delta: Value) -> Value {
    obj(vec![(
        "contentBlockDelta",
        obj(vec![("contentBlockIndex", num(index)), ("delta", delta)]),
    )])
}

fn stop_of(index: u64) -> Value {
    obj(vec![(
        "contentBlockStop",
        obj(vec![("contentBlockIndex", num(index))]),
    )])
}

fn text_delta(text: &str) -> LlmResponseChunk {
    LlmResponseChunk::TextDelta {
        index: 0,
        text: text.to_string(),
    }
}

#[test]
fn encodes_a_stream() {
    let codec = BedrockConverseStreamCodec;
    assert_eq!(codec.format().as_str(), "bedrock_converse");
    let mut state = StreamTranslationState::default();
    let start = || LlmResponseChunk::MessageStart {
        id: Some("id".to_string()),
        model: None,
    };
    assert_eq!(codec.encode_event(&mut state, start()), vec![start_event()]);
    assert!(codec.encode_event(&mut state, start()).is_empty());
    assert_eq!(state.source_id.as_deref(), Some("id"));
    assert_eq!(
        codec.encode_event(&mut state, text_delta("a")),
        vec![delta_of(0, obj(vec![("text", txt("a"))]))]
    );
    assert_eq!(
        codec.encode_event(
            &mut state,
            LlmResponseChunk::ReasoningDelta {
                index: 5,
                text: "r".to_string(),
            }
        ),
        vec![delta_of(
            1,
            obj(vec![("reasoningContent", obj(vec![("text", txt("r"))]))])
        )]
    );
    assert!(codec
        .encode_event(
            &mut state,
            LlmResponseChunk::ReasoningDetailsDelta {
                index: 0,
                details: vec![Value::Null],
                text: String::new(),
            }
        )
        .is_empty());
    // Arguments that arrive before the tool is named give no event.
    assert!(codec
        .encode_event(
            &mut state,
            LlmResponseChunk::ToolCallDelta {
                index: 4,
                id: Some("t".to_string()),
                name: None,
                arguments_delta: Some("early".to_string()),
            }
        )
        .is_empty());
    assert_eq!(
        codec.encode_event(
            &mut state,
            LlmResponseChunk::ToolCallDelta {
                index: 4,
                id: None,
                name: Some("f".to_string()),
                arguments_delta: Some("{}".to_string()),
            }
        ),
        vec![
            obj(vec![(
                "contentBlockStart",
                obj(vec![
                    ("contentBlockIndex", num(2)),
                    (
                        "start",
                        obj(vec![(
                            "toolUse",
                            obj(vec![("toolUseId", txt("t")), ("name", txt("f"))])
                        )])
                    ),
                ])
            )]),
            delta_of(2, obj(vec![("toolUse", obj(vec![("input", txt("{}"))]))])),
        ]
    );
    assert!(codec
        .encode_event(
            &mut state,
            LlmResponseChunk::MessageStop {
                reason: Some("tool_calls".to_string()),
            }
        )
        .is_empty());
    assert!(codec
        .encode_event(
            &mut state,
            LlmResponseChunk::Usage(Usage {
                input_tokens: Some(7),
                ..Usage::default()
            })
        )
        .is_empty());
    assert_eq!(
        codec.finish(&mut state),
        vec![
            stop_of(0),
            stop_of(1),
            stop_of(2),
            obj(vec![(
                "messageStop",
                obj(vec![("stopReason", txt("tool_use"))])
            )]),
            obj(vec![(
                "metadata",
                obj(vec![(
                    "usage",
                    obj(vec![
                        ("inputTokens", num(7)),
                        ("outputTokens", num(1)),
                        ("totalTokens", num(8)),
                        ("cacheReadInputTokens", Value::Null),
                        ("cacheWriteInputTokens", Value::Null),
                    ])
                )])
            )]),
        ]
    );
    assert!(codec.finish(&mut state).is_empty());
}

#[test]
fn totals_saturate() {
    let codec = BedrockConverseStreamCodec;
    let mut state = StreamTranslationState::default();
    codec.encode_event(
        &mut state,
        LlmResponseChunk::Usage(Usage {
            input_tokens: Some(u64::MAX),
            output_tokens: Some(2),
            ..Usage::default()
        }),
    );
    let events = codec.finish(&mut state);
    assert_eq!(events[0], start_event());
    let usage = events[2]
        .get("metadata")
        .and_then(|metadata| metadata.get("usage"))
        .expect("usage");
    assert_eq!(usage.get("totalTokens"), Some(&num(u64::MAX)));
}

#[test]
fn failed_streams_stay_silent() {
    let codec = BedrockConverseStreamCodec;
    let mut state = StreamTranslationState::default();
    let failure = codec.encode_event(
        &mut state,
        LlmResponseChunk::DecodeError {
            message: "bad".to_string(),
        },
    );
    assert_eq!(
        failure,
        vec![obj(vec![(
            "modelStreamErrorException",
            obj(vec![("message", txt("bad"))])
        )])]
    );
    assert!(codec.encode_event(&mut state, text_delta("x")).is_empty());
    assert!(codec.finish(&mut state).is_empty());

    let mut decoder = StreamTranslationState::default();
    assert_eq!(
        codec.decode_event(&mut decoder, &failure[0]),
        vec![LlmResponseChunk::StreamError {
            message: "Bedrock stream failed with modelStreamErrorException".to_string(),
        }]
    );
}

#[test]
fn decodes_a_stream() {
    let codec = BedrockConverseStreamCodec;
    let mut state = StreamTranslationState::default();
    let mut decode = |event: Value| codec.decode_event(&mut state, &event);
    assert_eq!(
        decode(start_event()),
        vec![LlmResponseChunk::MessageStart {
            id: None,
            model: None,
        }]
    );
    assert_eq!(
        decode(obj(vec![(
            "contentBlockStart",
            obj(vec![
                ("contentBlockIndex", num(3)),
                (
                    "start",
                    obj(vec![("toolUse", obj(vec![("name", txt("f"))]))])
                ),
            ])
        )])),
        vec![LlmResponseChunk::ToolCallDelta {
            index: 3,
            id: None,
            name: Some("f".to_string()),
            arguments_delta: None,
        }]
    );
    assert!(decode(obj(vec![("contentBlockStart", obj(vec![]))])).is_empty());
    assert_eq!(
        decode(delta_of(1, obj(vec![("text", txt("a"))]))),
        vec![LlmResponseChunk::TextDelta {
            index: 1,
            text: "a".to_string(),
        }]
    );
    assert_eq!(
        decode(delta_of(
            2,
            obj(vec![("toolUse", obj(vec![("input", txt("{}"))]))])
        )),
        vec![LlmResponseChunk::ToolCallDelta {
            index: 2,
            id: None,
            name: None,
            arguments_delta: Some("{}".to_string()),
        }]
    );
    assert_eq!(
        decode(delta_of(
            4,
            obj(vec![("reasoningContent", obj(vec![("text", txt("r"))]))])
        )),
        vec![LlmResponseChunk::ReasoningDelta {
            index: 4,
            text: "r".to_string(),
        }]
    );
    assert!(decode(delta_of(4, obj(vec![("citation", Value::Null)]))).is_empty());
    assert_eq!(
        decode(obj(vec![(
            "messageStop",
            obj(vec![("stopReason", txt("end_turn"))])
        )])),
        vec![LlmResponseChunk::MessageStop {
            reason: Some("end_turn".to_string()),
        }]
    );
    let mut usage = Usage {
        input_tokens: Some(1),
        ..Usage::default()
    };
    usage.set_cache_creation_input_tokens(8);
    assert_eq!(
        decode(obj(vec![(
            "metadata",
            obj(vec![(
                "usage",
                obj(vec![
                    ("inputTokens", num(1)),
                    ("cacheWriteInputTokens", num(8)),
                ])
            )])
        )])),
        vec![LlmResponseChunk::Usage(usage)]
    );
    assert_eq!(
        decode(obj(vec![
            ("validationException", Value::Null),
            ("throttlingException", Value::Null),
        ])),
        vec![LlmResponseChunk::StreamError {
            message: "Bedrock stream failed with throttlingException".to_string(),
        }]
    );
    assert_eq!(
        decode(Value::Null),
        vec![LlmResponseChunk::DecodeError {
            message: "Bedrock stream event is not an object".to_string(),
        }]
    );
    assert!(decode(obj(vec![("contentBlockStop", obj(vec![]))])).is_empty());
    assert!(state.saw_message_start && state.saw_backend_usage);
    assert_eq!(state.stop_reason.as_deref(), Some("end_turn"));
}

#[test]
fn streamed_stop_reasons_use_converse_names() {
    for (name, expected) in [
        (Some("length"), "max_tokens"),
        (Some("max_tokens"), "max_tokens"),
        (Some("tool_calls"), "tool_use"),
        (Some("content_filter"), "content_filtered"),
        (Some("guardrail_intervened"), "content_filtered"),
        (Some("stop"), "end_turn"),
        (None, "end_turn"),
    ] {
        assert_eq!(bedrock_stop_reason(name), expected);
    }
}

#[test]
fn encoded_stream_folds_alike() {
    let codec = BedrockConverseStreamCodec;
    let chunks = vec![
        text_delta("Hel"),
        LlmResponseChunk::ReasoningDelta {
            index: 3,
            text: "because".to_string(),
        },
        text_delta("lo"),
    ];
    let mut direct = ResponseAccumulator::new();
    let mut through = ResponseAccumulator::new();
    let mut encoder = StreamTranslationState::default();
    let mut decoder = StreamTranslationState::default();
    for chunk in chunks {
        direct.push(chunk.clone());
        for event in codec.encode_event(&mut encoder, chunk) {
            for back in codec.decode_event(&mut decoder, &event) {
                through.push(back);
            }
        }
    }
    assert_eq!(through.finish(), direct.finish());
}

#[test]
fn full_counters_are_seen_before_encoding() {
    let tool = |name: Option<&str>| LlmResponseChunk::ToolCallDelta {
        index: 0,
        id: None,
        name: name.map(str::to_string),
        arguments_delta: None,
    };
    let mut state = StreamTranslationState::default();
    assert!(can_encode(&state, &text_delta("x")));
    state.next_content_index = usize::MAX;
    assert!(!can_encode(&state, &text_delta("x")));
    assert!(can_encode(&state, &tool(None)));
    assert!(!can_encode(&state, &tool(Some("f"))));
    assert!(can_encode(&state, &LlmResponseChunk::MessageStop { reason: None }));
    state.text_block_index = Some(0);
    assert!(can_encode(&state, &text_delta("x")));
    state.output_tokens_seen = u64::MAX;
    assert!(!can_encode(&state, &text_delta("x")));
    state.errored = true;
    assert!(can_encode(&state, &text_delta("x")));
}

#[test]
fn responses_without_output_round_trip() {
    let response = AggLlmResponse {
        usage: Usage {
            input_tokens: Some(3),
            ..Usage::default()
        },
        ..AggLlmResponse::default()
    };
    let encoded = BedrockConverseCodec
        .encode_response(&response, &REBUILD)
        .expect("encodes");
    assert_eq!(
        encoded.body,
        obj(vec![("usage", obj(vec![("inputTokens", num(3))]))])
    );
    let decoded = BedrockConverseCodec
        .decode_response(&encoded.body, &REBUILD)
        .expect("decodes");
    assert_eq!(decoded.response, response);
    assert_eq!(decoded.diagnostics, Vec::new());
}

#[test]
fn raw_tool_choices_round_trip() {
    for raw in [obj(vec![("none", obj(vec![]))]), txt("auto"), obj(vec![("tool", num(1))])] {
        let choice = ToolChoice::Raw(raw);
        assert_eq!(decode_tool_choice(&encode_tool_choice(&choice)), choice);
    }
}

#[test]
fn unknown_converse_blocks_are_kept() {
    let raw = obj(vec![("cachePoint", obj(vec![("type", txt("default"))]))]);
    let body = obj(vec![(
        "messages",
        arr(vec![obj(vec![("content", arr(vec![raw.clone()]))])]),
    )]);
    let decoded = BedrockConverseCodec
        .decode_request(&body, &REBUILD)
        .expect("decodes");
    let block = decoded.request.messages[0].content[0].clone();
    assert_eq!(
        block,
        ContentBlock::Unknown {
            provider: WireFormat::BedrockConverse.id(),
            raw: raw.clone(),
        }
    );
    assert_eq!(
        decoded.diagnostics,
        vec![TranslationDiagnostic {
            message: "unsupported Bedrock Converse content block for User".to_string(),
        }]
    );
    let mut diagnostics = Vec::new();
    assert_eq!(
        encode_content_block(&block, &mut diagnostics, &REBUILD),
        Ok(raw)
    );
    assert_eq!(diagnostics, Vec::new());
}
