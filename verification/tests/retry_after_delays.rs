//! The retry-after grammar on the messages providers actually send.

use codex_core::sse::try_parse_retry_after;
use codex_core::sse::ErrorPayload;

#[test]
fn test_try_parse_retry_after() {
    let err = ErrorPayload {
        message: Some("Rate limit reached for gpt-5.1 in organization org- on tokens per min (TPM): Limit 1, Used 1, Requested 19304. Please try again in 28ms. Visit https://platform.openai.com/account/rate-limits to learn more.".to_string()),
        code: Some("rate_limit_exceeded".to_string()),
    };

    let delay = try_parse_retry_after(&err);
    assert_eq!(delay, Some(28));
}

#[test]
fn test_try_parse_retry_after_no_delay() {
    let err = ErrorPayload {
        message: Some("Rate limit reached for gpt-5.1 in organization <ORG> on tokens per min (TPM): Limit 30000, Used 6899, Requested 24050. Please try again in 1.898s. Visit https://platform.openai.com/account/rate-limits to learn more.".to_string()),
        code: Some("rate_limit_exceeded".to_string()),
    };
    let delay = try_parse_retry_after(&err);
    assert_eq!(delay, Some(1898));
}

#[test]
fn test_try_parse_retry_after_azure() {
    let err = ErrorPayload {
        message: Some("Rate limit exceeded. Try again in 35 seconds.".to_string()),
        code: Some("rate_limit_exceeded".to_string()),
    };
    let delay = try_parse_retry_after(&err);
    assert_eq!(delay, Some(35000));
}

#[test]
fn retry_after_needs_rate_limit_code() {
    let err = ErrorPayload {
        message: Some("Please try again in 28ms.".to_string()),
        code: Some("server_error".to_string()),
    };
    assert_eq!(try_parse_retry_after(&err), None);

    let err = ErrorPayload {
        message: Some("Please try again in 28ms.".to_string()),
        code: None,
    };
    assert_eq!(try_parse_retry_after(&err), None);
}

#[test]
fn retry_after_without_unit_or_number_is_none() {
    let err = ErrorPayload {
        message: Some("try again in a moment".to_string()),
        code: Some("rate_limit_exceeded".to_string()),
    };
    assert_eq!(try_parse_retry_after(&err), None);

    let err = ErrorPayload {
        message: Some("slow down".to_string()),
        code: Some("rate_limit_exceeded".to_string()),
    };
    assert_eq!(try_parse_retry_after(&err), None);
}

#[test]
fn retry_after_is_case_insensitive_and_leftmost() {
    let err = ErrorPayload {
        message: Some("TRY AGAIN IN 5S or try again in 9s".to_string()),
        code: Some("rate_limit_exceeded".to_string()),
    };
    assert_eq!(try_parse_retry_after(&err), Some(5000));
}

#[test]
fn retry_after_fraction_truncates_to_milliseconds() {
    let err = ErrorPayload {
        message: Some("try again in 0.5s".to_string()),
        code: Some("rate_limit_exceeded".to_string()),
    };
    assert_eq!(try_parse_retry_after(&err), Some(500));

    let err = ErrorPayload {
        message: Some("try again in 2.0345s".to_string()),
        code: Some("rate_limit_exceeded".to_string()),
    };
    assert_eq!(try_parse_retry_after(&err), Some(2034));
}

#[test]
fn retry_after_enormous_delay_saturates() {
    let err = ErrorPayload {
        message: Some(
            "try again in 99999999999999999999999999999 s".to_string(),
        ),
        code: Some("rate_limit_exceeded".to_string()),
    };
    assert_eq!(try_parse_retry_after(&err), Some(u64::MAX));
}
