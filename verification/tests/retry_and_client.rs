//! Retry decisions, backoff, the one-refresh rule, and the model
//! client's request-shape decisions.

use codex_core::client::effective_context_window;
use codex_core::client::reasoning_controls;
use codex_core::client::validate_request_shape;
use codex_core::client::Reasoning;
use codex_core::client::ReasoningEffort;
use codex_core::client::ReasoningSummary;
use codex_core::client::StreamAuthState;
use codex_core::client::UnauthorizedOutcome;
use codex_core::client::WireApi;
use codex_core::errors::CodexErr;
use codex_core::errors::TransportError;
use codex_core::retry::backoff;
use codex_core::retry::backoff_millis;
use codex_core::retry::retry_decision;
use codex_core::retry::RetryOn;
use codex_core::retry::RetryStep;
use codex_core::retry::RetryPolicy;
use codex_core::task::next_internal_sub_id;
use codex_core::task::next_submission_id;
use codex_core::task::reconnect_message;
use codex_core::task::should_auto_compact;
use codex_core::task::should_emit_chat_deprecation;
use codex_core::task::task_step;
use codex_core::task::turn_disposition;
use codex_core::task::TaskStep;
use codex_core::task::TurnDisposition;

fn policy() -> RetryPolicy {
    RetryPolicy {
        max_attempts: 3,
        base_delay_millis: 100,
        retry_on: RetryOn {
            retry_429: true,
            retry_5xx: true,
            retry_transport: false,
        },
    }
}

#[test]
fn should_retry_follows_the_policy() {
    let on = policy().retry_on;
    let http_429 = TransportError::Http {
        status: 429,
        body: None,
    };
    let http_500 = TransportError::Http {
        status: 500,
        body: None,
    };
    let http_404 = TransportError::Http {
        status: 404,
        body: None,
    };
    assert!(on.should_retry(&http_429, 0, 3));
    assert!(on.should_retry(&http_500, 2, 3));
    assert!(!on.should_retry(&http_429, 3, 3));
    assert!(!on.should_retry(&http_404, 0, 3));
    assert!(!on.should_retry(&TransportError::Timeout, 0, 3));
    assert!(!on.should_retry(&TransportError::RetryLimit, 0, 3));

    let transport_on = RetryOn {
        retry_429: false,
        retry_5xx: false,
        retry_transport: true,
    };
    assert!(transport_on.should_retry(&TransportError::Timeout, 0, 3));
    assert!(transport_on.should_retry(
        &TransportError::Network {
            message: "reset".to_string()
        },
        0,
        3
    ));
    assert!(!transport_on.should_retry(&http_500, 0, 3));
}

#[test]
fn backoff_doubles_and_scales_by_jitter() {
    // Attempt zero waits the plain base delay.
    assert_eq!(backoff_millis(100, 0, 1000), 100);
    // Attempt k waits base * 2^(k-1), scaled by the jitter in permille.
    assert_eq!(backoff_millis(100, 1, 1000), 100);
    assert_eq!(backoff_millis(100, 3, 1000), 400);
    assert_eq!(backoff_millis(100, 3, 900), 360);
    assert_eq!(backoff_millis(100, 3, 1099), 439);
    // Huge exponents saturate instead of overflowing.
    assert_eq!(backoff_millis(u64::MAX, 80, 1099), u64::MAX);
    // The drawn jitter keeps the wait inside the jittered family.
    let waited = backoff(1000, 1);
    assert!((900..1100).contains(&waited));
}

#[test]
fn retry_decision_distinguishes_propagate_and_exhausted() {
    let p = policy();
    let http_429 = TransportError::Http {
        status: 429,
        body: None,
    };
    // Inside the budget a retried class waits.
    assert!(matches!(
        retry_decision(&p, &http_429, 0),
        RetryStep::RetryAfter { .. }
    ));
    // A retried class past the budget exhausts the envelope, which then
    // reports its retry limit.
    assert_eq!(retry_decision(&p, &http_429, 3), RetryStep::Exhausted);
    // A class the policy does not retry propagates unchanged, even with
    // budget left.
    assert_eq!(
        retry_decision(&p, &TransportError::Timeout, 0),
        RetryStep::Propagate
    );
    assert_eq!(
        retry_decision(&p, &TransportError::RetryLimit, 5),
        RetryStep::Propagate
    );
}

#[test]
fn at_most_one_refresh_per_stream_open() {
    let mut auth = StreamAuthState::new();
    assert_eq!(
        auth.on_unauthorized(true),
        UnauthorizedOutcome::RefreshAndRetry
    );
    assert_eq!(auth.on_unauthorized(true), UnauthorizedOutcome::Propagate);
    assert_eq!(auth.on_unauthorized(true), UnauthorizedOutcome::Propagate);

    let mut no_refresh = StreamAuthState::new();
    assert_eq!(
        no_refresh.on_unauthorized(false),
        UnauthorizedOutcome::Propagate
    );
}

#[test]
fn chat_protocol_rejects_output_schema() {
    match validate_request_shape(WireApi::Chat, true) {
        Err(CodexErr::UnsupportedOperation { message }) => assert_eq!(
            message,
            "output_schema is not supported for Chat Completions API"
        ),
        other => panic!("unexpected result: {other:?}"),
    }
    assert!(validate_request_shape(WireApi::Chat, false).is_ok());
    assert!(validate_request_shape(WireApi::Responses, true).is_ok());
}

#[test]
fn reasoning_controls_follow_the_family() {
    assert_eq!(
        reasoning_controls(false, Some(ReasoningEffort::High), None, ReasoningSummary::Auto),
        None
    );
    assert_eq!(
        reasoning_controls(
            true,
            None,
            Some(ReasoningEffort::Medium),
            ReasoningSummary::NotRequested
        ),
        Some(Reasoning {
            effort: Some(ReasoningEffort::Medium),
            summary: None,
        })
    );
    assert_eq!(
        reasoning_controls(
            true,
            Some(ReasoningEffort::High),
            Some(ReasoningEffort::Medium),
            ReasoningSummary::Detailed
        ),
        Some(Reasoning {
            effort: Some(ReasoningEffort::High),
            summary: Some(ReasoningSummary::Detailed),
        })
    );
}

#[test]
fn effective_context_window_scales_by_percent() {
    assert_eq!(effective_context_window(Some(272000), 95), Some(258400));
    assert_eq!(effective_context_window(Some(100), 100), Some(100));
    assert_eq!(effective_context_window(None, 95), None);
    assert_eq!(
        effective_context_window(Some(i64::MAX), 95),
        Some(i64::MAX / 100)
    );
}

#[test]
fn task_decisions() {
    assert_eq!(should_auto_compact(100, Some(100)), true);
    assert_eq!(should_auto_compact(99, Some(100)), false);
    assert_eq!(should_auto_compact(i64::MAX, None), false);

    assert_eq!(task_step(true, true), TaskStep::CompactThenContinue);
    assert_eq!(task_step(true, false), TaskStep::Continue);
    assert_eq!(task_step(false, false), TaskStep::Finish);
    assert_eq!(task_step(false, true), TaskStep::Finish);
}

#[test]
fn turn_disposition_prefers_server_delay() {
    let retryable = CodexErr::Stream {
        message: "disconnected".to_string(),
        delay_millis: Some(2500),
    };
    assert_eq!(
        turn_disposition(&retryable, 0, 5, 800),
        TurnDisposition::RetryAfter { delay_millis: 2500 }
    );

    let plain = CodexErr::Stream {
        message: "disconnected".to_string(),
        delay_millis: None,
    };
    assert_eq!(
        turn_disposition(&plain, 1, 5, 800),
        TurnDisposition::RetryAfter { delay_millis: 800 }
    );
    assert_eq!(turn_disposition(&plain, 5, 5, 800), TurnDisposition::Propagate);

    assert_eq!(
        turn_disposition(&CodexErr::TurnAborted, 0, 5, 800),
        TurnDisposition::Propagate
    );
    assert_eq!(
        turn_disposition(&CodexErr::ContextWindowExceeded, 0, 5, 800),
        TurnDisposition::Propagate
    );
}

#[test]
fn generated_identifiers_and_notices() {
    assert_eq!(reconnect_message(2, 5), "Reconnecting... 2/5");
    let (id, next) = next_internal_sub_id(0);
    assert_eq!(id, "auto-compact-0");
    let (id2, _) = next_internal_sub_id(next);
    assert_eq!(id2, "auto-compact-1");
    let (sid, next) = next_submission_id(41);
    assert_eq!(sid, "41");
    assert_eq!(next, 42);

    assert!(should_emit_chat_deprecation(WireApi::Chat, false));
    assert!(!should_emit_chat_deprecation(WireApi::Chat, true));
    assert!(!should_emit_chat_deprecation(WireApi::Responses, false));
}
