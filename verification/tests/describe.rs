//! Descriptions of content blocks.
use switchyard::describe::describe_block;
use switchyard::format::FormatId;
use switchyard::json::{JsonMap, Number, Value};
use switchyard::llm::{
    CompactionItem, ComputerAction, ComputerMouseButton, ComputerPoint, ComputerSafetyCheck,
    ComputerToolCall, ComputerToolResult, ContentBlock, CustomToolCall, CustomToolResult,
    FileSource, GeneratedImage, HostedTool, HostedToolCall, HostedToolResult, ImageSource,
    MediaSource, OpaqueState, OpaqueStatePurpose, OpenAiChatReasoningField, PauseTurn, ToolCall,
    ToolResult,
};

fn s(text: &str) -> String {
    text.to_string()
}

fn document() -> Value {
    Value::Object(
        JsonMap::new()
            .with("n", Value::Number(Number::NegInt(-1)))
            .with(
                "a",
                Value::Array(vec![
                    Value::Null,
                    Value::Bool(true),
                    Value::integer(7),
                    Value::Number(Number::Float(s("0.5"))),
                    Value::text("q\"uote"),
                ]),
            ),
    )
}

const DOCUMENT: &str = "Object {\"a\": Array [Null, Bool(true), Number(7), Number(0.5), \
                        String(\"q\\\"uote\")], \"n\": Number(-1)}";

#[test]
fn blocks_are_described_as_derived() {
    let state = || OpaqueState::new(OpaqueStatePurpose::TurnRouting, s("d\n")).expect("fits");
    let blocks = vec![
        ContentBlock::Text { text: s("a \"b\" \u{e9}\u{7f}") },
        ContentBlock::Reasoning {
            text: s(""),
            signature: Some(s("s")),
            details: vec![],
            openai_chat_field: OpenAiChatReasoningField::ReasoningContent,
        },
        ContentBlock::Image {
            source: ImageSource::Url { url: s("u"), detail: Some(s("high")) },
        },
        ContentBlock::Image {
            source: ImageSource::Base64 { media_type: None, data: s("x") },
        },
        ContentBlock::Audio {
            source: MediaSource::Url { url: s("u"), media_type: Some(s("audio/wav")) },
        },
        ContentBlock::Video {
            source: MediaSource::Base64 { media_type: Some(s("m")), data: s("x") },
        },
        ContentBlock::File { source: FileSource::FileId(s("f")) },
        ContentBlock::File {
            source: FileSource::FileData { data: s("d"), filename: Some(s("n")) },
        },
        ContentBlock::ToolResult(ToolResult {
            tool_call_id: s("c"),
            content: vec![
                ContentBlock::Text { text: s("1") },
                ContentBlock::Refusal { text: s("2") },
            ],
            is_error: Some(true),
        }),
        ContentBlock::CustomToolCall(CustomToolCall {
            id: s("i"),
            item_id: Some(s("j")),
            name: s("n"),
            input: s("t"),
        }),
        ContentBlock::CustomToolResult(CustomToolResult {
            tool_call_id: s("i"),
            output: s("o"),
            is_error: Some(false),
        }),
        ContentBlock::ComputerToolCall(ComputerToolCall {
            id: s("i"),
            item_id: None,
            actions: vec![
                ComputerAction::Click {
                    point: ComputerPoint { x: i64::MIN, y: i64::MAX },
                    button: ComputerMouseButton::Left,
                },
                ComputerAction::DoubleClick {
                    point: ComputerPoint { x: -10, y: 0 },
                    button: ComputerMouseButton::Middle,
                },
                ComputerAction::Click {
                    point: ComputerPoint { x: 1, y: 2 },
                    button: ComputerMouseButton::Right,
                },
                ComputerAction::Drag {
                    path: vec![ComputerPoint { x: 1, y: 2 }, ComputerPoint { x: 3, y: 4 }],
                },
                ComputerAction::KeyPress { keys: vec![s("ctrl"), s("c")] },
                ComputerAction::Move { point: ComputerPoint { x: 5, y: 6 } },
                ComputerAction::Screenshot,
                ComputerAction::Scroll {
                    point: ComputerPoint { x: 7, y: 8 },
                    delta_x: -9,
                    delta_y: 100,
                },
                ComputerAction::Type { text: s("t") },
                ComputerAction::Wait,
            ],
            pending_safety_checks: vec![ComputerSafetyCheck { id: s("s"), description: s("d") }],
        }),
        ContentBlock::ComputerToolResult(ComputerToolResult {
            tool_call_id: s("i"),
            output: ImageSource::Url { url: s("u"), detail: None },
            acknowledged_safety_checks: vec![],
        }),
        ContentBlock::HostedToolResult(HostedToolResult {
            tool_call_id: s("i"),
            content: vec![],
            is_error: None,
        }),
        ContentBlock::OpaqueState(state()),
        ContentBlock::Compaction(CompactionItem {
            id: None,
            summary: Some(s("s")),
            state: Some(state()),
        }),
        ContentBlock::Compaction(CompactionItem { id: Some(s("i")), summary: None, state: None }),
        ContentBlock::GeneratedImage(GeneratedImage {
            id: Some(s("g")),
            source: ImageSource::Base64 { media_type: Some(s("image/png")), data: s("x") },
        }),
        ContentBlock::PauseTurn(PauseTurn { continuation_id: Some(s("c")), reason: None }),
        ContentBlock::Refusal { text: s("no") },
    ];
    for block in blocks {
        assert_eq!(describe_block(&block), format!("{block:?}"));
    }
}

#[test]
fn documents_are_described_compactly() {
    assert_eq!(
        describe_block(&ContentBlock::Unknown {
            provider: FormatId::new(s("other")),
            raw: document(),
        }),
        format!("Unknown {{ provider: FormatId(\"other\"), raw: {DOCUMENT} }}")
    );
    assert_eq!(
        describe_block(&ContentBlock::Image { source: ImageSource::Raw(document()) }),
        format!("Image {{ source: Raw({DOCUMENT}) }}")
    );
    assert_eq!(
        describe_block(&ContentBlock::Audio { source: MediaSource::Raw(document()) }),
        format!("Audio {{ source: Raw({DOCUMENT}) }}")
    );
    assert_eq!(
        describe_block(&ContentBlock::File { source: FileSource::Raw(document()) }),
        format!("File {{ source: Raw({DOCUMENT}) }}")
    );
    assert_eq!(
        describe_block(&ContentBlock::HostedToolCall(HostedToolCall {
            id: s("h"),
            item_id: None,
            tool: HostedTool::FileSearch {
                vector_store_ids: vec![s("v"), s("w")],
                max_results: Some(10),
            },
            arguments: document(),
        })),
        format!(
            "HostedToolCall(HostedToolCall {{ id: \"h\", item_id: None, tool: FileSearch {{ \
             vector_store_ids: [\"v\", \"w\"], max_results: Some(10) }}, arguments: {DOCUMENT} }})"
        )
    );
    assert_eq!(
        describe_block(&ContentBlock::HostedToolResult(HostedToolResult {
            tool_call_id: s("h"),
            content: vec![
                ContentBlock::ToolCall(ToolCall {
                    id: s("c"),
                    name: s("f"),
                    arguments: document(),
                }),
                ContentBlock::Reasoning {
                    text: s("t"),
                    signature: None,
                    details: vec![document(), Value::Null],
                    openai_chat_field: OpenAiChatReasoningField::Reasoning,
                },
            ],
            is_error: None,
        })),
        format!(
            "HostedToolResult(HostedToolResult {{ tool_call_id: \"h\", content: [\
             ToolCall(ToolCall {{ id: \"c\", name: \"f\", arguments: {DOCUMENT} }}), \
             Reasoning {{ text: \"t\", signature: None, details: [{DOCUMENT}, Null], \
             openai_chat_field: Reasoning }}], is_error: None }})"
        )
    );
}

#[test]
fn hosted_tools_are_described() {
    let describe = |tool: HostedTool| {
        describe_block(&ContentBlock::HostedToolCall(HostedToolCall {
            id: s("h"),
            item_id: Some(s("i")),
            tool,
            arguments: Value::Null,
        }))
    };
    let expected = |tool: &str| {
        format!(
            "HostedToolCall(HostedToolCall {{ id: \"h\", item_id: Some(\"i\"), tool: {tool}, \
             arguments: Null }})"
        )
    };
    assert_eq!(
        describe(HostedTool::WebSearch { allowed_domains: vec![] }),
        expected("WebSearch { allowed_domains: [] }")
    );
    assert_eq!(
        describe(HostedTool::FileSearch { vector_store_ids: vec![], max_results: None }),
        expected("FileSearch { vector_store_ids: [], max_results: None }")
    );
    assert_eq!(
        describe(HostedTool::CodeInterpreter { container_id: Some(s("k")) }),
        expected("CodeInterpreter { container_id: Some(\"k\") }")
    );
    assert_eq!(describe(HostedTool::ImageGeneration), expected("ImageGeneration"));
}
