//! Conversion of tool-server results into the payload written back to
//! the model: structured content wins, null falls back, and the error
//! flag drives the success flag.

use codex_core::items::CallToolResult;
use codex_core::items::FunctionCallOutputPayload;
use codex_core::items::StructuredContent;

/// Serializes the content blocks of a text result the way a tool server
/// reports them.
fn text_blocks_json(texts: &[&str]) -> String {
    let mut blocks = Vec::new();
    for text in texts {
        let mut block = serde_json::Map::new();
        block.insert(
            "type".to_string(),
            serde_json::Value::String("text".to_string()),
        );
        block.insert(
            "text".to_string(),
            serde_json::Value::String(text.to_string()),
        );
        blocks.push(serde_json::Value::Object(block));
    }
    serde_json::to_string(&serde_json::Value::Array(blocks)).unwrap()
}

#[test]
fn prefers_structured_content_when_present() {
    let mut structured = serde_json::Map::new();
    structured.insert("ok".to_string(), serde_json::Value::Bool(true));
    structured.insert(
        "value".to_string(),
        serde_json::Value::Number(serde_json::Number::from(42)),
    );
    let structured = serde_json::Value::Object(structured);

    let ctr = CallToolResult {
        // Content present but ignored because structured content is set.
        content_json: text_blocks_json(&["ignored"]),
        is_error: None,
        structured_content: Some(StructuredContent::Json {
            serialized: serde_json::to_string(&structured).unwrap(),
        }),
    };

    let got = FunctionCallOutputPayload::from_call_tool_result(&ctr);
    let expected = FunctionCallOutputPayload {
        content: serde_json::to_string(&structured).unwrap(),
        success: Some(true),
    };

    assert_eq!(expected, got);
}

#[test]
fn falls_back_to_content_when_structured_is_null() {
    let ctr = CallToolResult {
        content_json: text_blocks_json(&["hello", "world"]),
        is_error: None,
        structured_content: Some(StructuredContent::Null),
    };

    let got = FunctionCallOutputPayload::from_call_tool_result(&ctr);
    let expected = FunctionCallOutputPayload {
        content: text_blocks_json(&["hello", "world"]),
        success: Some(true),
    };

    assert_eq!(expected, got);
}

#[test]
fn success_flag_reflects_is_error_true() {
    let mut structured = serde_json::Map::new();
    structured.insert(
        "message".to_string(),
        serde_json::Value::String("bad".to_string()),
    );
    let structured = serde_json::Value::Object(structured);

    let ctr = CallToolResult {
        content_json: text_blocks_json(&["unused"]),
        is_error: Some(true),
        structured_content: Some(StructuredContent::Json {
            serialized: serde_json::to_string(&structured).unwrap(),
        }),
    };

    let got = FunctionCallOutputPayload::from_call_tool_result(&ctr);
    let expected = FunctionCallOutputPayload {
        content: serde_json::to_string(&structured).unwrap(),
        success: Some(false),
    };

    assert_eq!(expected, got);
}

#[test]
fn success_flag_true_with_no_error_and_content_used() {
    let ctr = CallToolResult {
        content_json: text_blocks_json(&["alpha"]),
        is_error: Some(false),
        structured_content: None,
    };

    let got = FunctionCallOutputPayload::from_call_tool_result(&ctr);
    let expected = FunctionCallOutputPayload {
        content: text_blocks_json(&["alpha"]),
        success: Some(true),
    };

    assert_eq!(expected, got);
}
