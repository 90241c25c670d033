//! Stream-level behavior of the SSE decoder and parser: items and the
//! deferred completion, missing completion, failure classification, and
//! the idle timeout.

use codex_core::aggregate::EventAggregator;
use codex_core::errors::ApiError;
use codex_core::items::ContentItem;
use codex_core::items::ResponseItem;
use codex_core::items::Role;
use codex_core::jsonio::parse_sse_fields;
use codex_core::sse::ResponseEvent;
use codex_core::sse::SseParser;
use codex_core::sse::SsePoll;
use codex_core::sse::SseStep;
use codex_core::sse_frames::SseDecoder;

/// Feeds raw SSE bytes through the frame decoder and the parser, the way
/// the stream reader does, and collects everything forwarded.
fn collect_events(chunks: &[&[u8]]) -> Vec<Result<ResponseEvent, ApiError>> {
    let mut decoder = SseDecoder::new();
    let mut parser = SseParser::new();
    let mut out = Vec::new();
    for chunk in chunks {
        let frames = decoder.decode(&chunk.to_vec());
        for frame in frames {
            let fields = parse_sse_fields(&frame);
            match parser.poll(SsePoll::Frame { fields }) {
                SseStep::Continue => {}
                SseStep::Emit { event } => out.push(Ok(event)),
                SseStep::Finish { event } => {
                    out.push(Ok(event));
                    return out;
                }
                SseStep::Fail { error } => {
                    out.push(Err(error));
                    return out;
                }
            }
        }
    }
    match parser.poll(SsePoll::Closed) {
        SseStep::Continue => {}
        SseStep::Emit { event } => out.push(Ok(event)),
        SseStep::Finish { event } => out.push(Ok(event)),
        SseStep::Fail { error } => out.push(Err(error)),
    }
    out
}

fn message_done_frame(text: &str) -> String {
    format!(
        "event: response.output_item.done\ndata: {{\"type\":\"response.output_item.done\",\"item\":{{\"type\":\"message\",\"role\":\"assistant\",\"content\":[{{\"type\":\"output_text\",\"text\":\"{text}\"}}]}}}}\n\n"
    )
}

#[test]
fn parses_items_and_completed() {
    let sse1 = message_done_frame("Hello");
    let sse2 = message_done_frame("World");
    let sse3 = "event: response.completed\ndata: {\"type\":\"response.completed\",\"response\":{\"id\":\"resp1\"}}\n\n";

    let events = collect_events(&[sse1.as_bytes(), sse2.as_bytes(), sse3.as_bytes()]);

    assert_eq!(events.len(), 3);
    match &events[0] {
        Ok(ResponseEvent::OutputItemDone {
            item: ResponseItem::Message { role, content, .. },
        }) => {
            assert_eq!(*role, Role::Assistant);
            assert_eq!(
                content,
                &vec![ContentItem::OutputText {
                    text: "Hello".to_string()
                }]
            );
        }
        other => panic!("unexpected first event: {other:?}"),
    }
    match &events[1] {
        Ok(ResponseEvent::OutputItemDone {
            item: ResponseItem::Message { role, .. },
        }) => assert_eq!(*role, Role::Assistant),
        other => panic!("unexpected second event: {other:?}"),
    }
    match &events[2] {
        Ok(ResponseEvent::Completed {
            response_id,
            token_usage,
        }) => {
            assert_eq!(response_id, "resp1");
            assert!(token_usage.is_none());
        }
        other => panic!("unexpected third event: {other:?}"),
    }
}

#[test]
fn error_when_missing_completed() {
    let sse1 = message_done_frame("Hello");

    let events = collect_events(&[sse1.as_bytes()]);

    assert_eq!(events.len(), 2);
    assert!(matches!(events[0], Ok(ResponseEvent::OutputItemDone { .. })));
    match &events[1] {
        Err(ApiError::Stream { message }) => {
            assert_eq!(message, "stream closed before response.completed")
        }
        other => panic!("unexpected second event: {other:?}"),
    }
}

#[test]
fn error_when_error_event() {
    let raw_error = r#"{"type":"response.failed","sequence_number":3,"response":{"id":"resp_689bcf18d7f08194bf3440ba62fe05d803fee0cdac429894","object":"response","created_at":1755041560,"status":"failed","background":false,"error":{"code":"rate_limit_exceeded","message":"Rate limit reached for gpt-5.1 in organization org-AAA on tokens per min (TPM): Limit 30000, Used 22999, Requested 12528. Please try again in 11.054s. Visit https://platform.openai.com/account/rate-limits to learn more."}, "usage":null,"user":null,"metadata":{}}}"#;

    let sse1 = format!("event: response.failed\ndata: {raw_error}\n\n");

    let events = collect_events(&[sse1.as_bytes()]);

    assert_eq!(events.len(), 1);
    match &events[0] {
        Err(ApiError::Retryable {
            message,
            delay_millis,
        }) => {
            assert_eq!(
                message,
                "Rate limit reached for gpt-5.1 in organization org-AAA on tokens per min (TPM): Limit 30000, Used 22999, Requested 12528. Please try again in 11.054s. Visit https://platform.openai.com/account/rate-limits to learn more."
            );
            assert_eq!(*delay_millis, Some(11054));
        }
        other => panic!("unexpected event: {other:?}"),
    }
}

#[test]
fn context_window_error_is_fatal() {
    let raw_error = r#"{"type":"response.failed","sequence_number":3,"response":{"id":"resp_5c66275b97b9baef1ed95550adb3b7ec13b17aafd1d2f11b","object":"response","created_at":1759510079,"status":"failed","background":false,"error":{"code":"context_length_exceeded","message":"Your input exceeds the context window of this model. Please adjust your input and try again."},"usage":null,"user":null,"metadata":{}}}"#;

    let sse1 = format!("event: response.failed\ndata: {raw_error}\n\n");

    let events = collect_events(&[sse1.as_bytes()]);

    assert_eq!(events.len(), 1);
    assert!(matches!(events[0], Err(ApiError::ContextWindowExceeded)));
}

#[test]
fn context_window_error_with_newline_is_fatal() {
    let raw_error = r#"{"type":"response.failed","sequence_number":4,"response":{"id":"resp_fatal_newline","object":"response","created_at":1759510080,"status":"failed","background":false,"error":{"code":"context_length_exceeded","message":"Your input exceeds the context window of this model. Please adjust your input and try\nagain."},"usage":null,"user":null,"metadata":{}}}"#;

    let sse1 = format!("event: response.failed\ndata: {raw_error}\n\n");

    let events = collect_events(&[sse1.as_bytes()]);

    assert_eq!(events.len(), 1);
    assert!(matches!(events[0], Err(ApiError::ContextWindowExceeded)));
}

#[test]
fn quota_exceeded_error_is_fatal() {
    let raw_error = r#"{"type":"response.failed","sequence_number":3,"response":{"id":"resp_fatal_quota","object":"response","created_at":1759771626,"status":"failed","background":false,"error":{"code":"insufficient_quota","message":"You exceeded your current quota, please check your plan and billing details. For more information on this error, read the docs: https://platform.openai.com/docs/guides/error-codes/api-errors."},"incomplete_details":null}}"#;

    let sse1 = format!("event: response.failed\ndata: {raw_error}\n\n");

    let events = collect_events(&[sse1.as_bytes()]);

    assert_eq!(events.len(), 1);
    assert!(matches!(events[0], Err(ApiError::QuotaExceeded)));
}

#[test]
fn table_driven_event_kinds() {
    let completed = "event: response.completed\ndata: {\"type\":\"response.completed\",\"response\":{\"id\":\"c\",\"usage\":{\"input_tokens\":0,\"input_tokens_details\":null,\"output_tokens\":0,\"output_tokens_details\":null,\"total_tokens\":0},\"output\":[]}}\n\n";

    // A created event with a response object forwards Created.
    let created = "event: response.created\ndata: {\"type\":\"response.created\",\"response\":{}}\n\n";
    let body = format!("{created}{completed}");
    let events = collect_events(&[body.as_bytes()]);
    assert_eq!(events.len(), 2, "case created");
    assert!(matches!(events[0], Ok(ResponseEvent::Created)), "case created");

    // A completed output item forwards OutputItemDone.
    let item = message_done_frame("hi");
    let body = format!("{item}{completed}");
    let events = collect_events(&[body.as_bytes()]);
    assert_eq!(events.len(), 2, "case output_item.done");
    assert!(
        matches!(events[0], Ok(ResponseEvent::OutputItemDone { .. })),
        "case output_item.done"
    );

    // An unknown kind is ignored without breaking the stream.
    let unknown =
        "event: response.new_tool_event\ndata: {\"type\":\"response.new_tool_event\"}\n\n";
    let body = format!("{unknown}{completed}");
    let events = collect_events(&[body.as_bytes()]);
    assert_eq!(events.len(), 1, "case unknown");
    assert!(matches!(events[0], Ok(ResponseEvent::Completed { .. })), "case unknown");
}

#[test]
fn idle_timeout_synthesizes_stream_error() {
    let mut parser = SseParser::new();
    match parser.poll(SsePoll::IdleTimeout) {
        SseStep::Fail {
            error: ApiError::Stream { message },
        } => assert_eq!(message, "idle timeout waiting for SSE"),
        other => panic!("unexpected step: {other:?}"),
    }
}

#[test]
fn transport_error_fails_stream() {
    let mut parser = SseParser::new();
    match parser.poll(SsePoll::TransportError {
        message: "connection reset".to_string(),
    }) {
        SseStep::Fail {
            error: ApiError::Stream { message },
        } => assert_eq!(message, "connection reset"),
        other => panic!("unexpected step: {other:?}"),
    }
}

#[test]
fn failed_without_error_object_is_retryable_default() {
    let frame = "event: response.failed\ndata: {\"type\":\"response.failed\",\"response\":{\"id\":\"r\",\"status\":\"failed\"}}\n\n";
    let events = collect_events(&[frame.as_bytes()]);
    assert_eq!(events.len(), 1);
    match &events[0] {
        Err(ApiError::Stream { message }) => {
            assert_eq!(message, "response.failed event received")
        }
        other => panic!("unexpected event: {other:?}"),
    }
}

#[test]
fn deltas_pass_through() {
    let frames = "event: response.output_text.delta\ndata: {\"type\":\"response.output_text.delta\",\"delta\":\"He\"}\n\nevent: response.reasoning_summary_text.delta\ndata: {\"type\":\"response.reasoning_summary_text.delta\",\"delta\":\"th\",\"summary_index\":2}\n\nevent: response.reasoning_text.delta\ndata: {\"type\":\"response.reasoning_text.delta\",\"delta\":\"raw\",\"content_index\":1}\n\nevent: response.reasoning_summary_part.added\ndata: {\"type\":\"response.reasoning_summary_part.added\",\"summary_index\":3}\n\n";
    let completed = "event: response.completed\ndata: {\"type\":\"response.completed\",\"response\":{\"id\":\"d\"}}\n\n";
    let body = format!("{frames}{completed}");
    let events = collect_events(&[body.as_bytes()]);
    assert_eq!(events.len(), 5);
    assert_eq!(
        events[0].as_ref().unwrap(),
        &ResponseEvent::OutputTextDelta {
            delta: "He".to_string()
        }
    );
    assert_eq!(
        events[1].as_ref().unwrap(),
        &ResponseEvent::ReasoningSummaryDelta {
            delta: "th".to_string(),
            summary_index: 2
        }
    );
    assert_eq!(
        events[2].as_ref().unwrap(),
        &ResponseEvent::ReasoningContentDelta {
            delta: "raw".to_string(),
            content_index: 1
        }
    );
    assert_eq!(
        events[3].as_ref().unwrap(),
        &ResponseEvent::ReasoningSummaryPartAdded { summary_index: 3 }
    );
}

#[test]
fn completed_carries_token_usage() {
    let completed = "event: response.completed\ndata: {\"type\":\"response.completed\",\"response\":{\"id\":\"u\",\"usage\":{\"input_tokens\":7,\"input_tokens_details\":{\"cached_tokens\":3},\"output_tokens\":5,\"output_tokens_details\":{\"reasoning_tokens\":2},\"total_tokens\":12}}}\n\n";
    let events = collect_events(&[completed.as_bytes()]);
    assert_eq!(events.len(), 1);
    match &events[0] {
        Ok(ResponseEvent::Completed {
            response_id,
            token_usage: Some(usage),
        }) => {
            assert_eq!(response_id, "u");
            assert_eq!(usage.input_tokens, 7);
            assert_eq!(usage.cached_input_tokens, 3);
            assert_eq!(usage.output_tokens, 5);
            assert_eq!(usage.reasoning_output_tokens, 2);
            assert_eq!(usage.total_tokens, 12);
        }
        other => panic!("unexpected event: {other:?}"),
    }
}

#[test]
fn crlf_frames_and_comments_decode() {
    let mut decoder = SseDecoder::new();
    let bytes =
        b": keepalive\r\nevent: response.created\r\ndata: {\"a\":1}\r\ndata: {\"b\":2}\r\n\r\n"
            .to_vec();
    let frames = decoder.decode(&bytes);
    assert_eq!(frames.len(), 1);
    assert_eq!(frames[0], b"{\"a\":1}\n{\"b\":2}".to_vec());
}

#[test]
fn completed_is_forwarded_last_even_when_items_follow() {
    // The terminal payload arrives mid-stream; a further item follows.
    // The item is still forwarded, and the completion comes last, only
    // at the close of the stream.
    let completed = "event: response.completed\ndata: {\"type\":\"response.completed\",\"response\":{\"id\":\"early\"}}\n\n";
    let item = message_done_frame("after");
    let body = format!("{completed}{item}");
    let events = collect_events(&[body.as_bytes()]);
    assert_eq!(events.len(), 2);
    assert!(matches!(events[0], Ok(ResponseEvent::OutputItemDone { .. })));
    match &events[1] {
        Ok(ResponseEvent::Completed { response_id, .. }) => assert_eq!(response_id, "early"),
        other => panic!("unexpected last event: {other:?}"),
    }
}

#[test]
fn aggregation_mode_collapses_deltas() {
    let mut agg = EventAggregator::new();
    assert!(agg
        .push(ResponseEvent::OutputTextDelta {
            delta: "Hel".to_string()
        })
        .is_empty());
    assert!(agg
        .push(ResponseEvent::OutputTextDelta {
            delta: "lo".to_string()
        })
        .is_empty());
    assert!(agg
        .push(ResponseEvent::ReasoningContentDelta {
            delta: "because".to_string(),
            content_index: 0
        })
        .is_empty());

    // A non-delta event passes straight through.
    let passed = agg.push(ResponseEvent::Created);
    assert_eq!(passed, vec![ResponseEvent::Created]);

    let out = agg.push(ResponseEvent::Completed {
        response_id: "resp9".to_string(),
        token_usage: None,
    });
    assert_eq!(out.len(), 3);
    match &out[0] {
        ResponseEvent::OutputItemDone {
            item: ResponseItem::Reasoning { content, .. },
        } => assert_eq!(content, &vec!["because".to_string()]),
        other => panic!("unexpected first aggregated event: {other:?}"),
    }
    match &out[1] {
        ResponseEvent::OutputItemDone {
            item: ResponseItem::Message { role, content, .. },
        } => {
            assert_eq!(*role, Role::Assistant);
            assert_eq!(
                content,
                &vec![ContentItem::OutputText {
                    text: "Hello".to_string()
                }]
            );
        }
        other => panic!("unexpected second aggregated event: {other:?}"),
    }
    assert!(matches!(out[2], ResponseEvent::Completed { .. }));
}
