//! The closed error taxonomy: transport failures, stream-level failures
//! classified from the provider's events, turn-level failures, and the
//! errors a tool handler can raise.

use vstd::prelude::*;

use crate::rate_limits::RateLimitSnapshot;

verus! {

/// A failure of the HTTP transport.
#[derive(Debug, PartialEq, Eq)]
pub enum TransportError {
    Timeout,
    Network { message: String },
    Http { status: u16, body: Option<String> },
    RetryLimit,
}

impl Clone for TransportError {
    /// A clone keeps the error unchanged.
    fn clone(&self) -> (r: Self)
        ensures
            r == *self,
    {
        match self {
            TransportError::Timeout => TransportError::Timeout,
            TransportError::Network { message } => TransportError::Network {
                message: message.clone(),
            },
            TransportError::Http { status, body } => TransportError::Http {
                status: *status,
                body: match body {
                    Some(b) => Some(b.clone()),
                    None => None,
                },
            },
            TransportError::RetryLimit => TransportError::RetryLimit,
        }
    }
}

/// A failure of one streaming response, as classified from the provider's
/// events: either an unclassified stream fault, a retryable failure with
/// an optional server-suggested delay, or one of the fatal conditions.
#[derive(Debug, PartialEq, Eq)]
pub enum ApiError {
    Stream { message: String },
    Retryable { message: String, delay_millis: Option<u64> },
    ContextWindowExceeded,
    QuotaExceeded,
    UsageNotIncluded,
    Transport(TransportError),
}

impl Clone for ApiError {
    /// A clone keeps the error unchanged.
    fn clone(&self) -> (r: Self)
        ensures
            r == *self,
    {
        match self {
            ApiError::Stream { message } => ApiError::Stream { message: message.clone() },
            ApiError::Retryable { message, delay_millis } => ApiError::Retryable {
                message: message.clone(),
                delay_millis: *delay_millis,
            },
            ApiError::ContextWindowExceeded => ApiError::ContextWindowExceeded,
            ApiError::QuotaExceeded => ApiError::QuotaExceeded,
            ApiError::UsageNotIncluded => ApiError::UsageNotIncluded,
            ApiError::Transport(t) => ApiError::Transport(t.clone()),
        }
    }
}

/// The mathematical value of a transport failure.
pub enum TransportErrorView {
    Timeout,
    Network { message: Seq<char> },
    Http { status: u16, body: Option<Seq<char>> },
    RetryLimit,
}

impl View for TransportError {
    type V = TransportErrorView;

    open spec fn view(&self) -> TransportErrorView {
        match *self {
            TransportError::Timeout => TransportErrorView::Timeout,
            TransportError::Network { message } => TransportErrorView::Network {
                message: message@,
            },
            TransportError::Http { status, body } => TransportErrorView::Http {
                status,
                body: match body {
                    Some(b) => Some(b@),
                    None => None,
                },
            },
            TransportError::RetryLimit => TransportErrorView::RetryLimit,
        }
    }
}

/// The mathematical value of a stream failure.
pub enum ApiErrorView {
    Stream { message: Seq<char> },
    Retryable { message: Seq<char>, delay_millis: Option<u64> },
    ContextWindowExceeded,
    QuotaExceeded,
    UsageNotIncluded,
    Transport(TransportErrorView),
}

impl View for ApiError {
    type V = ApiErrorView;

    open spec fn view(&self) -> ApiErrorView {
        match *self {
            ApiError::Stream { message } => ApiErrorView::Stream { message: message@ },
            ApiError::Retryable { message, delay_millis } => ApiErrorView::Retryable {
                message: message@,
                delay_millis,
            },
            ApiError::ContextWindowExceeded => ApiErrorView::ContextWindowExceeded,
            ApiError::QuotaExceeded => ApiErrorView::QuotaExceeded,
            ApiError::UsageNotIncluded => ApiErrorView::UsageNotIncluded,
            ApiError::Transport(t) => ApiErrorView::Transport(t@),
        }
    }
}

/// A failure of one turn, as the task driver sees it.
#[derive(Debug, PartialEq, Eq)]
pub enum CodexErr {
    TurnAborted,
    Interrupted,
    Fatal { message: String },
    ContextWindowExceeded,
    QuotaExceeded,
    UsageNotIncluded,
    UsageLimitReached { rate_limits: Option<RateLimitSnapshot> },
    InvalidImageRequest,
    InvalidRequest { message: String },
    RefreshTokenFailed,
    Unauthorized,
    UnsupportedOperation { message: String },
    EnvVar { name: String },
    Stream { message: String, delay_millis: Option<u64> },
    Timeout,
    Network { message: String },
    Http { status: u16 },
}

/// Whether a turn error may be retried by reconnecting the stream.
/// Everything outside the closed non-retriable set is treated as a
/// transient stream fault.
pub open spec fn spec_is_retriable_turn_error(e: CodexErr) -> bool {
    match e {
        CodexErr::TurnAborted => false,
        CodexErr::Interrupted => false,
        CodexErr::Fatal { .. } => false,
        CodexErr::ContextWindowExceeded => false,
        CodexErr::QuotaExceeded => false,
        CodexErr::UsageNotIncluded => false,
        CodexErr::UsageLimitReached { .. } => false,
        CodexErr::InvalidImageRequest => false,
        CodexErr::InvalidRequest { .. } => false,
        CodexErr::RefreshTokenFailed => false,
        CodexErr::Unauthorized => false,
        CodexErr::UnsupportedOperation { .. } => false,
        CodexErr::EnvVar { .. } => false,
        CodexErr::Stream { .. } => true,
        CodexErr::Timeout => true,
        CodexErr::Network { .. } => true,
        CodexErr::Http { .. } => true,
    }
}

/// A failure raised by a tool handler.
#[derive(Debug, PartialEq, Eq)]
pub enum FunctionCallError {
    Fatal { message: String },
    RespondToModel { message: String },
    Denied { message: String },
    MissingLocalShellCallId,
}

impl FunctionCallError {
    /// The text surfaced for this failure: the carried message, or the
    /// fixed description of a missing local-shell call id.
    pub fn message_text(&self) -> (r: String)
        ensures
            r@ == spec_function_call_error_text(*self),
    {
        proof {
            reveal_strlit("LocalShellCall without call_id or id");
        }
        match self {
            FunctionCallError::Fatal { message } => message.clone(),
            FunctionCallError::RespondToModel { message } => message.clone(),
            FunctionCallError::Denied { message } => message.clone(),
            FunctionCallError::MissingLocalShellCallId => String::from_str(
                "LocalShellCall without call_id or id",
            ),
        }
    }
}

/// The text surfaced for a tool failure.
pub open spec fn spec_function_call_error_text(e: FunctionCallError) -> Seq<char> {
    match e {
        FunctionCallError::Fatal { message } => message@,
        FunctionCallError::RespondToModel { message } => message@,
        FunctionCallError::Denied { message } => message@,
        FunctionCallError::MissingLocalShellCallId => "LocalShellCall without call_id or id"@,
    }
}

} // verus!
