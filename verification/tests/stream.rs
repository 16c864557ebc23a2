//! Stream chunks, events and the folding of streams.
use switchyard::accumulate::{
    arguments_or_text, is_reasoning_id_announcement, parse_tool_arguments, push_checked_chunk,
    push_item, push_reasoning_detail, stop_reason_from_str, ResponseAccumulator,
};
use switchyard::client::LlmClientError;
use switchyard::format::WireFormat;
use switchyard::json::{JsonMap, Number, Value};
use switchyard::llm::{
    AggLlmResponse, CompactionItem, ComputerToolCall, ContentBlock, CustomToolCall, FileSource,
    GeneratedImage, HostedTool, HostedToolCall, ImageSource, OpaqueState, OpaqueStatePurpose,
    OpenAiChatReasoningField, PauseTurn, ResponseMetadata, ResponseOutput, ResponseTerminal, Role,
    StopReason, ToolCall, Usage,
};
use switchyard::stream::{
    LlmResponse, LlmResponseChunk, LlmResponseStreamEvent, LlmStreamError, StreamSemanticClass,
    MID_STREAM_UPSTREAM_STATUS,
};

fn fold(chunks: Vec<LlmResponseChunk>) -> AggLlmResponse {
    let mut accumulator = ResponseAccumulator::new();
    for chunk in chunks {
        accumulator.push(chunk);
    }
    accumulator.finish()
}

fn object(fields: Vec<(&str, Value)>) -> Value {
    let mut map = JsonMap::new();
    for (key, value) in fields {
        map.insert(key.to_string(), value);
    }
    Value::Object(map)
}

fn string(text: &str) -> Value {
    Value::String(text.to_string())
}

fn delta_document(content: &str) -> Value {
    let delta = object(vec![("delta", object(vec![("content", string(content))]))]);
    object(vec![("choices", Value::Array(vec![delta]))])
}

fn text_block(text: &str) -> ContentBlock {
    ContentBlock::Text {
        text: text.to_string(),
    }
}

fn single_output(content: Vec<ContentBlock>, stop_reason: Option<StopReason>) -> AggLlmResponse {
    AggLlmResponse {
        outputs: vec![ResponseOutput {
            role: Role::Assistant,
            content,
            stop_reason,
        }],
        ..AggLlmResponse::default()
    }
}

fn replayed(response: AggLlmResponse) -> AggLlmResponse {
    match LlmResponse::Stream(response.into_stream()).into_agg() {
        Ok(agg) => agg,
        Err(error) => panic!("into_agg failed: {}", error.to_string()),
    }
}

#[test]
fn folds_text_usage_and_stop_reason() {
    let agg = fold(vec![
        LlmResponseChunk::MessageStart {
            id: Some("id1".to_string()),
            model: Some("m".to_string()),
        },
        LlmResponseChunk::TextDelta {
            index: 0,
            text: "Hel".to_string(),
        },
        LlmResponseChunk::TextDelta {
            index: 0,
            text: "lo".to_string(),
        },
        LlmResponseChunk::Usage(Usage {
            output_tokens: Some(2),
            ..Usage::default()
        }),
        LlmResponseChunk::MessageStop {
            reason: Some("length".to_string()),
        },
    ]);
    assert_eq!(agg.id.as_deref(), Some("id1"));
    assert_eq!(agg.model.as_deref(), Some("m"));
    assert_eq!(agg.usage.output_tokens, Some(2));
    assert_eq!(agg.outputs[0].stop_reason, Some(StopReason::MaxTokens));
    assert_eq!(
        agg.outputs[0].content,
        vec![ContentBlock::Text {
            text: "Hello".to_string()
        }]
    );
}

#[test]
fn aggregates_normalized_chunks_inside_stream_event() {
    let raw = object(vec![
        (
            "choices",
            Value::Array(vec![object(vec![(
                "delta",
                object(vec![("content", string("hello"))]),
            )])]),
        ),
        ("system_fingerprint", string("fp_exact")),
    ]);
    let response = LlmResponse::Stream(vec![Ok(LlmResponseStreamEvent::preserved(
        WireFormat::OpenAiChat.id(),
        raw,
        vec![LlmResponseChunk::TextDelta {
            index: 0,
            text: "hello".to_string(),
        }],
    ))]);
    let aggregate = response.into_agg().expect("stream event should aggregate");

    assert_eq!(
        aggregate.outputs[0].content,
        vec![ContentBlock::Text {
            text: "hello".to_string()
        }]
    );
}

#[test]
fn replacing_normalized_content_drops_preservation() {
    let event = LlmResponseStreamEvent::preserved(
        WireFormat::OpenAiChat.id(),
        delta_document("old"),
        vec![LlmResponseChunk::TextDelta {
            index: 0,
            text: "old".to_string(),
        }],
    )
    .replace_normalized(vec![LlmResponseChunk::TextDelta {
        index: 0,
        text: "new".to_string(),
    }]);

    assert!(event.preservation().is_none());
    assert_eq!(
        event.normalized(),
        &[LlmResponseChunk::TextDelta {
            index: 0,
            text: "new".to_string(),
        }]
    );
}

#[test]
fn stream_errors_inside_preserved_events_remain_typed() {
    let response = LlmResponse::Stream(vec![Ok(LlmResponseStreamEvent::preserved(
        WireFormat::OpenAiChat.id(),
        object(vec![(
            "error",
            object(vec![("message", string("provider failed"))]),
        )]),
        vec![LlmResponseChunk::StreamError {
            message: "provider failed".to_string(),
        }],
    ))]);

    let error = response.into_agg().err();
    assert!(matches!(
        error,
        Some(LlmClientError::UpstreamHttp {
            status: MID_STREAM_UPSTREAM_STATUS,
            ..
        })
    ));
}

#[test]
fn assembles_tool_calls_by_index() {
    // id/name arrive once, arguments stream across deltas and parse as JSON.
    let agg = fold(vec![
        LlmResponseChunk::ToolCallDelta {
            index: 0,
            id: Some("call_1".to_string()),
            name: Some("lookup".to_string()),
            arguments_delta: Some("{\"q\":".to_string()),
        },
        LlmResponseChunk::ToolCallDelta {
            index: 0,
            id: None,
            name: None,
            arguments_delta: Some("\"rust\"}".to_string()),
        },
        LlmResponseChunk::MessageStop {
            reason: Some("tool_calls".to_string()),
        },
    ]);
    assert_eq!(agg.outputs[0].stop_reason, Some(StopReason::ToolUse));
    assert_eq!(
        agg.outputs[0].content,
        vec![ContentBlock::ToolCall(ToolCall {
            id: "call_1".to_string(),
            name: "lookup".to_string(),
            arguments: object(vec![("q", string("rust"))]),
        })]
    );
}

#[test]
fn reasoning_precedes_text_in_content() {
    let agg = fold(vec![
        LlmResponseChunk::ReasoningDelta {
            index: 0,
            text: "think".to_string(),
        },
        LlmResponseChunk::TextDelta {
            index: 0,
            text: "answer".to_string(),
        },
    ]);
    assert_eq!(
        agg.outputs[0].content,
        vec![
            ContentBlock::Reasoning {
                text: "think".to_string(),
                signature: None,
                details: Vec::new(),
                openai_chat_field: Default::default(),
            },
            ContentBlock::Text {
                text: "answer".to_string(),
            },
        ]
    );
}

#[test]
fn into_stream_round_trips_through_into_agg() {
    let original = AggLlmResponse {
        id: Some("id1".to_string()),
        model: Some("m".to_string()),
        outputs: vec![ResponseOutput {
            role: Role::Assistant,
            content: vec![ContentBlock::Text {
                text: "hello".to_string(),
            }],
            stop_reason: Some(StopReason::EndTurn),
        }],
        usage: Usage {
            output_tokens: Some(3),
            ..Usage::default()
        },
        ..AggLlmResponse::default()
    };
    let stream = LlmResponse::Stream(original.clone().into_stream());
    let recovered = stream.into_agg().expect("into_agg failed");
    assert_eq!(recovered.id, original.id);
    assert_eq!(recovered.model, original.model);
    assert_eq!(recovered.usage.output_tokens, original.usage.output_tokens);
    assert_eq!(
        recovered.outputs[0].stop_reason,
        original.outputs[0].stop_reason
    );
    assert_eq!(recovered.outputs[0].content, original.outputs[0].content);
}

#[test]
fn into_stream_retains_encrypted_reasoning_and_text() {
    let details = vec![object(vec![
        ("type", string("reasoning.encrypted")),
        ("data", string("opaque-encrypted-reasoning")),
    ])];
    let original = AggLlmResponse {
        outputs: vec![ResponseOutput {
            role: Role::Assistant,
            content: vec![ContentBlock::Reasoning {
                text: "fallback reasoning".to_string(),
                signature: None,
                details: details.clone(),
                openai_chat_field: Default::default(),
            }],
            stop_reason: Some(StopReason::EndTurn),
        }],
        ..AggLlmResponse::default()
    };

    let recovered = LlmResponse::Stream(original.into_stream())
        .into_agg()
        .expect("into_agg failed");
    let ContentBlock::Reasoning {
        text,
        details: recovered_details,
        ..
    } = &recovered.outputs[0].content[0]
    else {
        panic!("expected reasoning block");
    };
    assert_eq!(text, "fallback reasoning");
    assert_eq!(recovered_details, &details);
}

#[test]
fn into_agg_preserves_stream_item_error() {
    let response = LlmResponse::Stream(vec![Err(LlmClientError::Timeout {
        source: "timed out".to_string(),
    })]);

    let Err(error) = response.into_agg() else {
        panic!("expected stream aggregation to fail");
    };
    assert!(matches!(error, LlmClientError::Timeout { .. }));
}

#[test]
fn buffered_response_is_its_own_aggregate() {
    let agg = AggLlmResponse {
        model: Some("m".to_string()),
        ..single_output(vec![text_block("hi")], None)
    };
    let response = LlmResponse::Agg(agg.clone());
    assert_eq!(response.as_agg(), Some(&agg));
    assert_eq!(response.selected_model(), Some("m"));
    assert_eq!(response.into_agg().expect("buffered"), agg);

    let stream = LlmResponse::Stream(Vec::new());
    assert!(stream.as_agg().is_none());
    assert_eq!(stream.selected_model(), None);
}

#[test]
fn mid_stream_status_is_bad_gateway() {
    assert_eq!(
        MID_STREAM_UPSTREAM_STATUS,
        http::StatusCode::BAD_GATEWAY.as_u16()
    );
}

#[test]
fn first_error_of_a_stream_decides() {
    let text = |text: &str| {
        Ok(LlmResponseStreamEvent::from(
            LlmResponseChunk::TextDelta {
                index: 0,
                text: text.to_string(),
            },
        ))
    };
    let response = LlmResponse::Stream(vec![
        text("a"),
        Ok(LlmResponseStreamEvent::new(vec![
            LlmResponseChunk::DecodeError {
                message: "bad event".to_string(),
            },
            LlmResponseChunk::StreamError {
                message: "later".to_string(),
            },
        ])),
        Err(LlmClientError::General("last".to_string())),
    ]);
    match response.into_agg() {
        Err(LlmClientError::ResponseTranslation(message)) => assert_eq!(message, "bad event"),
        _ => panic!("expected the decode error"),
    }
}

#[test]
fn checked_chunk_reports_errors_and_leaves_the_accumulator() {
    let mut accumulator = ResponseAccumulator::default();
    let outcome = push_checked_chunk(
        &mut accumulator,
        LlmResponseChunk::StreamError {
            message: "down".to_string(),
        },
    );
    match outcome {
        Err(LlmClientError::UpstreamHttp { status, body }) => {
            assert_eq!(status, 502);
            assert_eq!(body, "down");
        }
        _ => panic!("expected an upstream error"),
    }
    // Pushed unchecked, error chunks are ignored.
    accumulator.push(LlmResponseChunk::DecodeError {
        message: "bad".to_string(),
    });
    assert!(push_item(
        &mut accumulator,
        Ok(LlmResponseStreamEvent::from(
            LlmResponseChunk::TextDelta {
                index: 7,
                text: "kept".to_string(),
            }
        ))
    )
    .is_ok());
    assert_eq!(
        accumulator.finish().outputs[0].content,
        vec![text_block("kept")]
    );
}

#[test]
fn payload_takes_the_place_of_its_announcement() {
    let announcement = object(vec![
        ("type", string("reasoning.encrypted")),
        ("id", string("rs_1")),
    ]);
    let other = object(vec![
        ("type", string("reasoning.encrypted")),
        ("id", string("rs_2")),
    ]);
    let payload = object(vec![
        ("type", string("reasoning.encrypted")),
        ("id", string("rs_1")),
        ("data", string("secret")),
    ]);
    assert!(is_reasoning_id_announcement(&announcement));
    assert!(!is_reasoning_id_announcement(&payload));

    let mut details = vec![announcement.clone(), other.clone()];
    push_reasoning_detail(&mut details, payload.clone());
    assert_eq!(details, vec![payload.clone(), other.clone()]);

    // An announcement whose payload never arrives is not part of the response.
    let agg = fold(vec![
        LlmResponseChunk::ReasoningDetailsDelta {
            index: 0,
            details: vec![announcement, other],
            text: String::new(),
        },
        LlmResponseChunk::ReasoningDetailsDelta {
            index: 0,
            details: vec![payload.clone()],
            text: "because".to_string(),
        },
    ]);
    assert_eq!(
        agg.outputs[0].content,
        vec![ContentBlock::Reasoning {
            text: "because".to_string(),
            signature: None,
            details: vec![payload],
            openai_chat_field: OpenAiChatReasoningField::Reasoning,
        }]
    );
}

#[test]
fn tool_arguments_are_parsed_or_kept_as_text() {
    assert_eq!(parse_tool_arguments(""), Value::Object(JsonMap::new()));
    assert_eq!(
        parse_tool_arguments("{\"b\": [1, -2, 1.5, true, null], \"a\": \"x\"}"),
        object(vec![
            ("a", string("x")),
            (
                "b",
                Value::Array(vec![
                    Value::Number(Number::PosInt(1)),
                    Value::Number(Number::NegInt(-2)),
                    Value::Number(Number::Float("1.5".to_string())),
                    Value::Bool(true),
                    Value::Null,
                ])
            ),
        ])
    );
    assert_eq!(parse_tool_arguments("{oops"), string("{oops"));
    assert_eq!(arguments_or_text("raw", None), string("raw"));
    assert_eq!(arguments_or_text("raw", Some(Value::Null)), Value::Null);
}

#[test]
fn stop_reasons_cover_the_common_spellings() {
    for (name, reason) in [
        ("length", StopReason::MaxTokens),
        ("max_tokens", StopReason::MaxTokens),
        ("tool_calls", StopReason::ToolUse),
        ("function_call", StopReason::ToolUse),
        ("tool_use", StopReason::ToolUse),
        ("content_filter", StopReason::ContentFilter),
        ("stop", StopReason::EndTurn),
        ("end_turn", StopReason::EndTurn),
        ("stop_sequence", StopReason::EndTurn),
        ("error", StopReason::Unknown),
        ("other", StopReason::Unknown),
    ] {
        assert_eq!(stop_reason_from_str(Some(name)), reason);
    }
    assert_eq!(stop_reason_from_str(None), StopReason::EndTurn);
}

#[test]
fn later_fields_overwrite_and_absent_ones_stay() {
    let agg = fold(vec![
        LlmResponseChunk::MessageStart {
            id: Some("a".to_string()),
            model: Some("m".to_string()),
        },
        LlmResponseChunk::MessageStart {
            id: None,
            model: Some("n".to_string()),
        },
        LlmResponseChunk::TextDone {
            index: 0,
            text: "whole".to_string(),
        },
        LlmResponseChunk::TextDone {
            index: 0,
            text: "ignored".to_string(),
        },
        LlmResponseChunk::ReasoningStarted { index: 0 },
        LlmResponseChunk::ReasoningDone {
            index: 0,
            text: Some("why".to_string()),
            state: Vec::new(),
        },
        LlmResponseChunk::RefusalDelta {
            index: 0,
            text: "no".to_string(),
        },
        LlmResponseChunk::RefusalDone {
            index: 0,
            text: "No.".to_string(),
        },
        LlmResponseChunk::ResponseMetadata(ResponseMetadata {
            model_etag: Some("tag".to_string()),
            turn_state: None,
        }),
        LlmResponseChunk::ResponseMetadata(ResponseMetadata::default()),
        LlmResponseChunk::ResponseTerminal(ResponseTerminal::Completed),
    ]);
    assert_eq!(agg.id.as_deref(), Some("a"));
    assert_eq!(agg.model.as_deref(), Some("n"));
    assert_eq!(agg.metadata.model_etag.as_deref(), Some("tag"));
    assert_eq!(agg.terminal, Some(ResponseTerminal::Completed));
    assert_eq!(agg.outputs[0].stop_reason, None);
    assert_eq!(
        agg.outputs[0].content,
        vec![
            ContentBlock::Reasoning {
                text: "why".to_string(),
                signature: None,
                details: Vec::new(),
                openai_chat_field: Default::default(),
            },
            text_block("whole"),
            ContentBlock::Refusal {
                text: "No.".to_string()
            },
        ]
    );
}

#[test]
fn unfinished_calls_come_in_index_order_before_finished_ones() {
    let agg = fold(vec![
        LlmResponseChunk::CustomToolCallDelta {
            index: 3,
            id: Some("c3".to_string()),
            item_id: Some("i3".to_string()),
            name: Some("grep".to_string()),
            input_delta: "fo".to_string(),
        },
        LlmResponseChunk::CustomToolCallDelta {
            index: 3,
            id: None,
            item_id: None,
            name: None,
            input_delta: "o".to_string(),
        },
        LlmResponseChunk::ToolCallDone {
            index: 9,
            call: ToolCall {
                id: "done".to_string(),
                name: "d".to_string(),
                arguments: Value::Null,
            },
        },
        LlmResponseChunk::ToolCallDelta {
            index: 2,
            id: Some("t2".to_string()),
            name: None,
            arguments_delta: None,
        },
        LlmResponseChunk::ToolCallDelta {
            index: 1,
            id: Some("t1".to_string()),
            name: Some("one".to_string()),
            arguments_delta: Some("[]".to_string()),
        },
    ]);
    let call = |id: &str, name: &str, arguments: Value| {
        ContentBlock::ToolCall(ToolCall {
            id: id.to_string(),
            name: name.to_string(),
            arguments,
        })
    };
    assert_eq!(
        agg.outputs[0].content,
        vec![
            call("t1", "one", Value::Array(Vec::new())),
            call("t2", "", Value::Object(JsonMap::new())),
            ContentBlock::CustomToolCall(CustomToolCall {
                id: "c3".to_string(),
                item_id: Some("i3".to_string()),
                name: "grep".to_string(),
                input: "foo".to_string(),
            }),
            call("done", "d", Value::Null),
        ]
    );
}

#[test]
fn unfinished_calls_of_both_kinds_share_one_order() {
    let custom = |index: usize, id: &str| LlmResponseChunk::CustomToolCallDelta {
        index,
        id: Some(id.to_string()),
        item_id: None,
        name: Some("x".to_string()),
        input_delta: "i".to_string(),
    };
    let function = |index: usize, id: &str| LlmResponseChunk::ToolCallDelta {
        index,
        id: Some(id.to_string()),
        name: Some("y".to_string()),
        arguments_delta: None,
    };
    let custom_block = |id: &str| {
        ContentBlock::CustomToolCall(CustomToolCall {
            id: id.to_string(),
            item_id: None,
            name: "x".to_string(),
            input: "i".to_string(),
        })
    };
    let function_block = |id: &str| {
        ContentBlock::ToolCall(ToolCall {
            id: id.to_string(),
            name: "y".to_string(),
            arguments: Value::Object(JsonMap::new()),
        })
    };
    assert_eq!(
        fold(vec![custom(0, "a"), function(1, "b")]).outputs[0].content,
        vec![custom_block("a"), function_block("b")]
    );
    assert_eq!(
        fold(vec![
            custom(6, "e"),
            custom(2, "b"),
            function(4, "d"),
            function(2, "a"),
            custom(3, "c"),
        ])
        .outputs[0]
            .content,
        vec![
            function_block("a"),
            custom_block("b"),
            custom_block("c"),
            function_block("d"),
            custom_block("e"),
        ]
    );
}

#[test]
fn floats_print_as_they_were_printed() {
    let call = |text: &str| {
        single_output(
            vec![ContentBlock::ToolCall(ToolCall {
                id: "c".to_string(),
                name: "f".to_string(),
                arguments: Value::Number(Number::Float(text.to_string())),
            })],
            None,
        )
    };
    for float in [0.1 + 0.2, 1e-7 / 3.0, 1.7976931348623157e308, 123456.789e-30] {
        let text = serde_json::Value::from(float).to_string();
        let items = call(&text).into_stream();
        let found = items.into_iter().any(|item| {
            item.expect("no item fails").into_parts().1.iter().any(|chunk| {
                matches!(
                    chunk,
                    LlmResponseChunk::ToolCallDelta { arguments_delta: Some(printed), .. }
                        if printed == &text
                )
            })
        });
        assert!(found);
    }
}

#[test]
fn tool_arguments_are_printed_into_the_stream() {
    let response = single_output(
        vec![ContentBlock::ToolCall(ToolCall {
            id: "c".to_string(),
            name: "f".to_string(),
            arguments: object(vec![
                ("b", Value::Number(Number::Float("0.5".to_string()))),
                ("a", Value::Array(vec![Value::Null, Value::integer(7)])),
            ]),
        })],
        Some(StopReason::ToolUse),
    );
    let items = response.into_stream();
    let mut arguments = Vec::new();
    for item in items {
        let event = item.expect("no item fails");
        for chunk in event.into_parts().1 {
            if let LlmResponseChunk::ToolCallDelta {
                index,
                arguments_delta,
                ..
            } = chunk
            {
                assert_eq!(index, 0);
                arguments.push(arguments_delta);
            }
        }
    }
    assert_eq!(arguments, vec![Some("{\"a\":[null,7],\"b\":0.5}".to_string())]);
}

#[test]
fn ordered_response_comes_back_unchanged() {
    let state = OpaqueState::new(OpaqueStatePurpose::Reasoning, "s".to_string()).expect("small");
    let original = AggLlmResponse {
        id: Some("r".to_string()),
        metadata: ResponseMetadata {
            model_etag: Some("e".to_string()),
            turn_state: Some(state.clone()),
        },
        terminal: Some(ResponseTerminal::Paused(PauseTurn::default())),
        ..single_output(
            vec![
                ContentBlock::Reasoning {
                    text: "r".to_string(),
                    signature: None,
                    details: vec![object(vec![("type", string("summary"))])],
                    openai_chat_field: Default::default(),
                },
                text_block("t"),
                ContentBlock::Refusal {
                    text: "n".to_string(),
                },
                ContentBlock::OpaqueState(state),
                ContentBlock::ToolCall(ToolCall {
                    id: "1".to_string(),
                    name: "a".to_string(),
                    arguments: object(vec![("k", Value::Bool(true))]),
                }),
                ContentBlock::CustomToolCall(CustomToolCall {
                    id: "2".to_string(),
                    item_id: None,
                    name: "b".to_string(),
                    input: "raw".to_string(),
                }),
                ContentBlock::ComputerToolCall(ComputerToolCall {
                    id: "3".to_string(),
                    item_id: None,
                    actions: Vec::new(),
                    pending_safety_checks: Vec::new(),
                }),
                ContentBlock::HostedToolCall(HostedToolCall {
                    id: "4".to_string(),
                    item_id: None,
                    tool: HostedTool::ImageGeneration,
                    arguments: Value::Null,
                }),
                ContentBlock::Compaction(CompactionItem {
                    id: None,
                    summary: Some("short".to_string()),
                    state: None,
                }),
                ContentBlock::GeneratedImage(GeneratedImage {
                    id: None,
                    source: ImageSource::Raw(Value::Null),
                }),
                ContentBlock::PauseTurn(PauseTurn::default()),
            ],
            Some(StopReason::ContentFilter),
        )
    };
    assert_eq!(replayed(original.clone()), original);
}

#[test]
fn streaming_merges_outputs_and_omits_input_content() {
    let original = AggLlmResponse {
        outputs: vec![
            ResponseOutput {
                role: Role::User,
                content: vec![
                    text_block("a"),
                    ContentBlock::File {
                        source: FileSource::FileId("f".to_string()),
                    },
                    ContentBlock::Unknown {
                        provider: WireFormat::OpenAiChat.id(),
                        raw: Value::Null,
                    },
                ],
                stop_reason: Some(StopReason::ToolUse),
            },
            ResponseOutput {
                role: Role::Assistant,
                content: vec![text_block("b")],
                stop_reason: Some(StopReason::Error),
            },
        ],
        ..AggLlmResponse::default()
    };
    let back = replayed(original);
    assert_eq!(back.outputs.len(), 1);
    assert_eq!(back.outputs[0].role, Role::Assistant);
    assert_eq!(back.outputs[0].content, vec![text_block("ab")]);
    assert_eq!(back.outputs[0].stop_reason, Some(StopReason::Unknown));
    // Without a reason the stop is an ordinary end of turn.
    assert_eq!(
        replayed(single_output(Vec::new(), None)).outputs[0].stop_reason,
        Some(StopReason::EndTurn)
    );
}

#[test]
fn semantic_class_follows_visible_output() {
    let text = |text: &str| LlmResponseChunk::TextDelta {
        index: 0,
        text: text.to_string(),
    };
    assert_eq!(text("x").semantic_class(), StreamSemanticClass::Semantic);
    assert_eq!(text("").semantic_class(), StreamSemanticClass::NonSemantic);
    assert!(LlmResponseChunk::MessageStop { reason: None }.commits_semantics());
    assert!(LlmResponseChunk::ResponseTerminal(ResponseTerminal::Completed).commits_semantics());
    assert!(
        !LlmResponseChunk::ResponseTerminal(ResponseTerminal::Incomplete { reason: None })
            .commits_semantics()
    );
    assert!(!LlmResponseChunk::ReasoningDone {
        index: 0,
        text: None,
        state: Vec::new(),
    }
    .commits_semantics());
    assert!(LlmResponseChunk::ReasoningDone {
        index: 0,
        text: Some("x".to_string()),
        state: Vec::new(),
    }
    .commits_semantics());
    assert!(LlmResponseChunk::RefusalDone {
        index: 0,
        text: String::new(),
    }
    .commits_semantics());
    assert!(!LlmResponseChunk::Usage(Usage::default()).commits_semantics());
    assert!(!LlmResponseChunk::StreamError {
        message: "x".to_string(),
    }
    .commits_semantics());
}

#[test]
fn preserved_events_give_their_parts_back() {
    let raw = delta_document("x");
    let event =
        LlmResponseStreamEvent::preserved(WireFormat::OpenAiChat.id(), raw.clone(), Vec::new());
    let kept = event.preservation().expect("preserved");
    assert_eq!(kept.source().as_str(), "openai_chat");
    assert_eq!(kept.raw(), &raw);
    let (kept, normalized) = event.into_parts();
    assert!(normalized.is_empty());
    let (source, value) = kept.expect("preserved").into_parts();
    assert_eq!(source.as_str(), "openai_chat");
    assert_eq!(value, raw);
}

#[test]
fn stream_errors_print_their_cause() {
    let upstream = LlmStreamError::Upstream(object(vec![("code", Value::integer(3))]));
    assert_eq!(upstream.to_string(), "upstream stream error: {\"code\":3}");
    let client = LlmStreamError::from(LlmClientError::General("gone".to_string()));
    assert_eq!(client.to_string(), "gone");
}

#[test]
fn fragments_join_whatever_the_cut() {
    let text = |text: &str| LlmResponseChunk::TextDelta {
        index: 0,
        text: text.to_string(),
    };
    let whole = fold(vec![text("hello")]);
    assert_eq!(fold(vec![text("he"), text("llo")]), whole);
    assert_eq!(fold(vec![text(""), text("h"), text("ello")]), whole);
}

#[test]
fn deltas_of_different_calls_arrive_in_either_order() {
    let delta = |index: usize, name: &str| LlmResponseChunk::ToolCallDelta {
        index,
        id: None,
        name: Some(name.to_string()),
        arguments_delta: Some("1".to_string()),
    };
    assert_eq!(
        fold(vec![delta(1, "a"), delta(0, "b")]),
        fold(vec![delta(0, "b"), delta(1, "a")])
    );
}

#[test]
fn uncommitted_chunks_show_nothing() {
    let chunks = vec![
        LlmResponseChunk::Usage(Usage::default()),
        LlmResponseChunk::ReasoningStarted { index: 0 },
        LlmResponseChunk::TextDone {
            index: 0,
            text: String::new(),
        },
        LlmResponseChunk::StreamError {
            message: "late".to_string(),
        },
    ];
    assert!(chunks.iter().all(|chunk| !chunk.commits_semantics()));
    let agg = fold(chunks);
    assert!(agg.outputs[0].content.is_empty());
    assert_eq!(agg.outputs[0].stop_reason, None);
}
