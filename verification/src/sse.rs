//! The streaming-response parser: classifies the provider's server-sent
//! events into normalized response events, stashes the terminal
//! `response.completed` until the stream closes, classifies failures,
//! and enforces the terminal-event rule — `Completed` is the last event
//! of any normal stream.

use vstd::prelude::*;

use crate::errors::ApiError;
use crate::errors::ApiErrorView;
use crate::items::ItemView;
use crate::items::ResponseItem;
use crate::items::TokenUsage;
use crate::rate_limits::RateLimitSnapshot;
use crate::retry_after::parse_retry_after_millis;
use crate::retry_after::spec_retry_after_millis;
use crate::text::str_eq;

verus! {

/// A normalized event of one streaming model response.
#[derive(Debug, PartialEq, Eq)]
pub enum ResponseEvent {
    Created,
    OutputItemAdded { item: ResponseItem },
    OutputItemDone { item: ResponseItem },
    OutputTextDelta { delta: String },
    ReasoningSummaryDelta { delta: String, summary_index: i64 },
    ReasoningSummaryPartAdded { summary_index: i64 },
    ReasoningContentDelta { delta: String, content_index: i64 },
    RateLimits { snapshot: RateLimitSnapshot },
    ModelsEtag { etag: String },
    Completed { response_id: String, token_usage: Option<TokenUsage> },
}

/// The mathematical value of a normalized event.
pub enum ResponseEventView {
    Created,
    OutputItemAdded { item: ItemView },
    OutputItemDone { item: ItemView },
    OutputTextDelta { delta: Seq<char> },
    ReasoningSummaryDelta { delta: Seq<char>, summary_index: i64 },
    ReasoningSummaryPartAdded { summary_index: i64 },
    ReasoningContentDelta { delta: Seq<char>, content_index: i64 },
    RateLimits { snapshot: RateLimitSnapshot },
    ModelsEtag { etag: Seq<char> },
    Completed { response_id: Seq<char>, token_usage: Option<TokenUsage> },
}

impl View for ResponseEvent {
    type V = ResponseEventView;

    open spec fn view(&self) -> ResponseEventView {
        match *self {
            ResponseEvent::Created => ResponseEventView::Created,
            ResponseEvent::OutputItemAdded { item } => ResponseEventView::OutputItemAdded {
                item: item@,
            },
            ResponseEvent::OutputItemDone { item } => ResponseEventView::OutputItemDone {
                item: item@,
            },
            ResponseEvent::OutputTextDelta { delta } => ResponseEventView::OutputTextDelta {
                delta: delta@,
            },
            ResponseEvent::ReasoningSummaryDelta { delta, summary_index } => {
                ResponseEventView::ReasoningSummaryDelta { delta: delta@, summary_index }
            },
            ResponseEvent::ReasoningSummaryPartAdded { summary_index } => {
                ResponseEventView::ReasoningSummaryPartAdded { summary_index }
            },
            ResponseEvent::ReasoningContentDelta { delta, content_index } => {
                ResponseEventView::ReasoningContentDelta { delta: delta@, content_index }
            },
            ResponseEvent::RateLimits { snapshot } => ResponseEventView::RateLimits { snapshot },
            ResponseEvent::ModelsEtag { etag } => ResponseEventView::ModelsEtag { etag: etag@ },
            ResponseEvent::Completed { response_id, token_usage } => ResponseEventView::Completed {
                response_id: response_id@,
                token_usage,
            },
        }
    }
}

/// The kinds of wire events the parser distinguishes; anything else is
/// ignored without breaking the stream.
#[derive(Clone, Copy, Debug, PartialEq, Eq)]
pub enum SseKind {
    Created,
    OutputItemAdded,
    OutputItemDone,
    OutputTextDelta,
    ReasoningSummaryTextDelta,
    ReasoningSummaryPartAdded,
    ReasoningTextDelta,
    Failed,
    Completed,
    Other,
}

/// The error object carried by a failed response.
#[derive(Debug, PartialEq, Eq)]
pub struct ErrorPayload {
    pub code: Option<String>,
    pub message: Option<String>,
}

/// The mathematical value of an error payload.
pub struct ErrorPayloadView {
    pub code: Option<Seq<char>>,
    pub message: Option<Seq<char>>,
}

impl View for ErrorPayload {
    type V = ErrorPayloadView;

    open spec fn view(&self) -> ErrorPayloadView {
        ErrorPayloadView {
            code: match self.code {
                Some(c) => Some(c@),
                None => None,
            },
            message: match self.message {
                Some(m) => Some(m@),
                None => None,
            },
        }
    }
}

/// The payload of a completed response: its id and optional token usage.
#[derive(Debug, PartialEq, Eq)]
pub struct CompletedInfo {
    pub response_id: String,
    pub usage: Option<TokenUsage>,
}

/// The mathematical value of a completed payload.
pub struct CompletedInfoView {
    pub response_id: Seq<char>,
    pub usage: Option<TokenUsage>,
}

impl View for CompletedInfo {
    type V = CompletedInfoView;

    open spec fn view(&self) -> CompletedInfoView {
        CompletedInfoView { response_id: self.response_id@, usage: self.usage }
    }
}

/// The token counts of a completed response as they appear on the wire,
/// with the nested detail counts optional.
#[derive(Clone, Copy, Debug, PartialEq, Eq)]
pub struct ResponseCompletedUsage {
    pub input_tokens: i64,
    pub cached_input_tokens: Option<i64>,
    pub output_tokens: i64,
    pub reasoning_output_tokens: Option<i64>,
    pub total_tokens: i64,
}

/// What the wire usage flattens to: absent detail counts become zero.
pub open spec fn spec_usage_from_wire(u: ResponseCompletedUsage) -> TokenUsage {
    TokenUsage {
        input_tokens: u.input_tokens,
        cached_input_tokens: match u.cached_input_tokens {
            Some(c) => c,
            None => 0,
        },
        output_tokens: u.output_tokens,
        reasoning_output_tokens: match u.reasoning_output_tokens {
            Some(r) => r,
            None => 0,
        },
        total_tokens: u.total_tokens,
    }
}

impl TokenUsage {
    /// Flattens the wire usage payload, reading absent detail counts as
    /// zero.
    pub fn from_wire(u: &ResponseCompletedUsage) -> (r: TokenUsage)
        ensures
            r == spec_usage_from_wire(*u),
    {
        TokenUsage {
            input_tokens: u.input_tokens,
            cached_input_tokens: match u.cached_input_tokens {
                Some(c) => c,
                None => 0,
            },
            output_tokens: u.output_tokens,
            reasoning_output_tokens: match u.reasoning_output_tokens {
                Some(r) => r,
                None => 0,
            },
            total_tokens: u.total_tokens,
        }
    }
}

/// The fields extracted from one wire event's JSON payload.
#[derive(Debug, PartialEq, Eq)]
pub struct SseFields {
    pub kind: SseKind,
    pub item: Option<ResponseItem>,
    pub delta: Option<String>,
    pub summary_index: Option<i64>,
    pub content_index: Option<i64>,
    pub has_response: bool,
    pub completed: Option<CompletedInfo>,
    pub error: Option<ErrorPayload>,
}

/// The mathematical value of the extracted fields.
pub struct SseFieldsView {
    pub kind: SseKind,
    pub item: Option<ItemView>,
    pub delta: Option<Seq<char>>,
    pub summary_index: Option<i64>,
    pub content_index: Option<i64>,
    pub has_response: bool,
    pub completed: Option<CompletedInfoView>,
    pub error: Option<ErrorPayloadView>,
}

impl View for SseFields {
    type V = SseFieldsView;

    open spec fn view(&self) -> SseFieldsView {
        SseFieldsView {
            kind: self.kind,
            item: match self.item {
                Some(item) => Some(item@),
                None => None,
            },
            delta: match self.delta {
                Some(d) => Some(d@),
                None => None,
            },
            summary_index: self.summary_index,
            content_index: self.content_index,
            has_response: self.has_response,
            completed: match self.completed {
                Some(c) => Some(c@),
                None => None,
            },
            error: match self.error {
                Some(e) => Some(e@),
                None => None,
            },
        }
    }
}

/// Whether a failure payload names the fatal context-window condition.
pub open spec fn spec_is_context_window_error(e: ErrorPayloadView) -> bool {
    e.code == Some("context_length_exceeded"@)
}

/// Whether a failure payload names the fatal quota condition.
pub open spec fn spec_is_quota_exceeded_error(e: ErrorPayloadView) -> bool {
    e.code == Some("insufficient_quota"@)
}

/// Whether a failure payload names the fatal usage-not-included
/// condition.
pub open spec fn spec_is_usage_not_included(e: ErrorPayloadView) -> bool {
    e.code == Some("usage_not_included"@)
}

/// The delay a rate-limited failure suggests: parsed from the message
/// only when the code names the rate-limit condition.
pub open spec fn spec_try_parse_retry_after(e: ErrorPayloadView) -> Option<u64> {
    if e.code == Some("rate_limit_exceeded"@) {
        match e.message {
            Some(m) => spec_retry_after_millis(m),
            None => None,
        }
    } else {
        None
    }
}

/// Recognizes the fatal context-window failure by its code alone; the
/// message, newlines and all, plays no part.
pub fn is_context_window_error(error: &ErrorPayload) -> (r: bool)
    ensures
        r == spec_is_context_window_error(error@),
{
    match &error.code {
        Some(c) => str_eq(c.as_str(), "context_length_exceeded"),
        None => false,
    }
}

/// Recognizes the fatal quota failure by its code alone.
pub fn is_quota_exceeded_error(error: &ErrorPayload) -> (r: bool)
    ensures
        r == spec_is_quota_exceeded_error(error@),
{
    match &error.code {
        Some(c) => str_eq(c.as_str(), "insufficient_quota"),
        None => false,
    }
}

/// Recognizes the usage-not-included failure by its code alone.
pub fn is_usage_not_included(error: &ErrorPayload) -> (r: bool)
    ensures
        r == spec_is_usage_not_included(error@),
{
    match &error.code {
        Some(c) => str_eq(c.as_str(), "usage_not_included"),
        None => false,
    }
}

/// Parses the suggested retry delay of a rate-limited failure, in
/// milliseconds.
pub fn try_parse_retry_after(err: &ErrorPayload) -> (r: Option<u64>)
    ensures
        r == spec_try_parse_retry_after(err@),
{
    let is_rate_limit = match &err.code {
        Some(c) => str_eq(c.as_str(), "rate_limit_exceeded"),
        None => false,
    };
    if !is_rate_limit {
        return None;
    }
    match &err.message {
        Some(m) => parse_retry_after_millis(m.as_str()),
        None => None,
    }
}

/// How a failed response classifies: the three fatal conditions by their
/// code; everything else is retryable, carrying the message and the
/// delay parsed from it; a failure without an error object is an
/// unclassified stream fault.
pub open spec fn spec_classify_failure(error: Option<ErrorPayloadView>) -> ApiErrorView {
    match error {
        None => ApiErrorView::Stream { message: "response.failed event received"@ },
        Some(e) => {
            if spec_is_context_window_error(e) {
                ApiErrorView::ContextWindowExceeded
            } else if spec_is_quota_exceeded_error(e) {
                ApiErrorView::QuotaExceeded
            } else if spec_is_usage_not_included(e) {
                ApiErrorView::UsageNotIncluded
            } else {
                ApiErrorView::Retryable {
                    message: match e.message {
                        Some(m) => m,
                        None => Seq::empty(),
                    },
                    delay_millis: spec_try_parse_retry_after(e),
                }
            }
        },
    }
}

/// Classifies a failed response.
pub fn classify_failure(error: Option<ErrorPayload>) -> (r: ApiError)
    ensures
        r@ == spec_classify_failure(
            match error {
                Some(e) => Some(e@),
                None => None,
            },
        ),
{
    proof {
        reveal_strlit("response.failed event received");
    }
    match error {
        None => ApiError::Stream {
            message: String::from_str("response.failed event received"),
        },
        Some(e) => {
            if is_context_window_error(&e) {
                ApiError::ContextWindowExceeded
            } else if is_quota_exceeded_error(&e) {
                ApiError::QuotaExceeded
            } else if is_usage_not_included(&e) {
                ApiError::UsageNotIncluded
            } else {
                let delay_millis = try_parse_retry_after(&e);
                let message = match e.message {
                    Some(m) => m,
                    None => String::new(),
                };
                ApiError::Retryable { message, delay_millis }
            }
        },
    }
}

/// One observation of the underlying byte stream, as the reader hands it
/// to the parser: a frame's extracted fields (absent when its JSON did
/// not parse), a transport fault, a clean close, or an idle timeout.
#[derive(Debug, PartialEq, Eq)]
pub enum SsePoll {
    Frame { fields: Option<SseFields> },
    TransportError { message: String },
    Closed,
    IdleTimeout,
}

/// The mathematical value of one observation.
pub enum SsePollView {
    Frame { fields: Option<SseFieldsView> },
    TransportError { message: Seq<char> },
    Closed,
    IdleTimeout,
}

impl View for SsePoll {
    type V = SsePollView;

    open spec fn view(&self) -> SsePollView {
        match *self {
            SsePoll::Frame { fields } => SsePollView::Frame {
                fields: match fields {
                    Some(f) => Some(f@),
                    None => None,
                },
            },
            SsePoll::TransportError { message } => SsePollView::TransportError {
                message: message@,
            },
            SsePoll::Closed => SsePollView::Closed,
            SsePoll::IdleTimeout => SsePollView::IdleTimeout,
        }
    }
}

/// What the parser does with one observation: keep reading, forward one
/// event and keep reading, forward the terminal event and stop, or
/// forward an error and stop.
#[derive(Debug, PartialEq, Eq)]
pub enum SseStep {
    Continue,
    Emit { event: ResponseEvent },
    Finish { event: ResponseEvent },
    Fail { error: ApiError },
}

/// The mathematical value of one parser step.
pub enum SseStepView {
    Continue,
    Emit { event: ResponseEventView },
    Finish { event: ResponseEventView },
    Fail { error: ApiErrorView },
}

impl View for SseStep {
    type V = SseStepView;

    open spec fn view(&self) -> SseStepView {
        match *self {
            SseStep::Continue => SseStepView::Continue,
            SseStep::Emit { event } => SseStepView::Emit { event: event@ },
            SseStep::Finish { event } => SseStepView::Finish { event: event@ },
            SseStep::Fail { error } => SseStepView::Fail { error: error@ },
        }
    }
}

/// The parser's state: the stashed terminal payload, the stashed failure,
/// and whether the stream has ended.
pub struct SseParser {
    pub completed: Option<CompletedInfo>,
    pub stashed_error: Option<ApiError>,
    pub finished: bool,
}

/// The mathematical value of the parser's state.
pub struct SseParserView {
    pub completed: Option<CompletedInfoView>,
    pub stashed_error: Option<ApiErrorView>,
    pub finished: bool,
}

impl View for SseParser {
    type V = SseParserView;

    open spec fn view(&self) -> SseParserView {
        SseParserView {
            completed: match self.completed {
                Some(c) => Some(c@),
                None => None,
            },
            stashed_error: match self.stashed_error {
                Some(e) => Some(e@),
                None => None,
            },
            finished: self.finished,
        }
    }
}

/// The parser's starting state.
pub open spec fn spec_parser_init() -> SseParserView {
    SseParserView { completed: None, stashed_error: None, finished: false }
}

/// What one observation does to the parser. The terminal rule lives
/// here: `response.completed` is stashed, never forwarded directly; a
/// clean close forwards it as the final event, or fails with the stashed
/// error, or with the fixed message when the stream closed early. An
/// idle timeout and a transport fault each fail with a stream error.
/// Frames of unknown kind, and frames whose payload did not parse, leave
/// the state unchanged and forward nothing.
pub open spec fn spec_sse_step(st: SseParserView, poll: SsePollView) -> (
    SseParserView,
    SseStepView,
) {
    let done = SseParserView { completed: st.completed, stashed_error: st.stashed_error, finished: true };
    if st.finished {
        (st, SseStepView::Continue)
    } else {
        match poll {
            SsePollView::TransportError { message } => (
                done,
                SseStepView::Fail { error: ApiErrorView::Stream { message } },
            ),
            SsePollView::IdleTimeout => (
                done,
                SseStepView::Fail {
                    error: ApiErrorView::Stream { message: "idle timeout waiting for SSE"@ },
                },
            ),
            SsePollView::Closed => match st.completed {
                Some(c) => (
                    done,
                    SseStepView::Finish {
                        event: ResponseEventView::Completed {
                            response_id: c.response_id,
                            token_usage: c.usage,
                        },
                    },
                ),
                None => (
                    done,
                    SseStepView::Fail {
                        error: match st.stashed_error {
                            Some(e) => e,
                            None => ApiErrorView::Stream {
                                message: "stream closed before response.completed"@,
                            },
                        },
                    },
                ),
            },
            SsePollView::Frame { fields: None } => (st, SseStepView::Continue),
            SsePollView::Frame { fields: Some(f) } => match f.kind {
                SseKind::Created => {
                    if f.has_response {
                        (st, SseStepView::Emit { event: ResponseEventView::Created })
                    } else {
                        (st, SseStepView::Continue)
                    }
                },
                SseKind::OutputItemAdded => match f.item {
                    Some(item) => (
                        st,
                        SseStepView::Emit { event: ResponseEventView::OutputItemAdded { item } },
                    ),
                    None => (st, SseStepView::Continue),
                },
                SseKind::OutputItemDone => match f.item {
                    Some(item) => (
                        st,
                        SseStepView::Emit { event: ResponseEventView::OutputItemDone { item } },
                    ),
                    None => (st, SseStepView::Continue),
                },
                SseKind::OutputTextDelta => match f.delta {
                    Some(delta) => (
                        st,
                        SseStepView::Emit { event: ResponseEventView::OutputTextDelta { delta } },
                    ),
                    None => (st, SseStepView::Continue),
                },
                SseKind::ReasoningSummaryTextDelta => {
                    if f.delta is Some && f.summary_index is Some {
                        (
                            st,
                            SseStepView::Emit {
                                event: ResponseEventView::ReasoningSummaryDelta {
                                    delta: f.delta->Some_0,
                                    summary_index: f.summary_index->Some_0,
                                },
                            },
                        )
                    } else {
                        (st, SseStepView::Continue)
                    }
                },
                SseKind::ReasoningSummaryPartAdded => match f.summary_index {
                    Some(summary_index) => (
                        st,
                        SseStepView::Emit {
                            event: ResponseEventView::ReasoningSummaryPartAdded { summary_index },
                        },
                    ),
                    None => (st, SseStepView::Continue),
                },
                SseKind::ReasoningTextDelta => {
                    if f.delta is Some && f.content_index is Some {
                        (
                            st,
                            SseStepView::Emit {
                                event: ResponseEventView::ReasoningContentDelta {
                                    delta: f.delta->Some_0,
                                    content_index: f.content_index->Some_0,
                                },
                            },
                        )
                    } else {
                        (st, SseStepView::Continue)
                    }
                },
                SseKind::Failed => {
                    if f.has_response {
                        (
                            SseParserView {
                                completed: st.completed,
                                stashed_error: Some(spec_classify_failure(f.error)),
                                finished: false,
                            },
                            SseStepView::Continue,
                        )
                    } else {
                        (st, SseStepView::Continue)
                    }
                },
                SseKind::Completed => {
                    if f.has_response {
                        match f.completed {
                            Some(c) => (
                                SseParserView {
                                    completed: Some(c),
                                    stashed_error: st.stashed_error,
                                    finished: false,
                                },
                                SseStepView::Continue,
                            ),
                            None => (
                                SseParserView {
                                    completed: st.completed,
                                    stashed_error: Some(
                                        ApiErrorView::Stream {
                                            message:
                                                "failed to parse response.completed event"@,
                                        },
                                    ),
                                    finished: false,
                                },
                                SseStepView::Continue,
                            ),
                        }
                    } else {
                        (st, SseStepView::Continue)
                    }
                },
                SseKind::Other => (st, SseStepView::Continue),
            },
        }
    }
}

impl SseParser {
    /// A parser in the starting state.
    pub fn new() -> (r: SseParser)
        ensures
            r@ == spec_parser_init(),
    {
        SseParser { completed: None, stashed_error: None, finished: false }
    }

    /// Handles one observation of the byte stream.
    pub fn poll(&mut self, poll: SsePoll) -> (r: SseStep)
        ensures
            final(self)@ == spec_sse_step(old(self)@, poll@).0,
            r@ == spec_sse_step(old(self)@, poll@).1,
    {
        proof {
            reveal_strlit("idle timeout waiting for SSE");
            reveal_strlit("stream closed before response.completed");
            reveal_strlit("failed to parse response.completed event");
        }
        if self.finished {
            return SseStep::Continue;
        }
        match poll {
            SsePoll::TransportError { message } => {
                self.finished = true;
                SseStep::Fail { error: ApiError::Stream { message } }
            },
            SsePoll::IdleTimeout => {
                self.finished = true;
                SseStep::Fail {
                    error: ApiError::Stream {
                        message: String::from_str("idle timeout waiting for SSE"),
                    },
                }
            },
            SsePoll::Closed => {
                self.finished = true;
                let mut completed: Option<CompletedInfo> = None;
                core::mem::swap(&mut completed, &mut self.completed);
                match completed {
                    Some(c) => {
                        self.completed = Some(CompletedInfo {
                            response_id: c.response_id.clone(),
                            usage: c.usage,
                        });
                        SseStep::Finish {
                            event: ResponseEvent::Completed {
                                response_id: c.response_id,
                                token_usage: c.usage,
                            },
                        }
                    },
                    None => {
                        let mut stashed: Option<ApiError> = None;
                        core::mem::swap(&mut stashed, &mut self.stashed_error);
                        match stashed {
                            Some(e) => {
                                self.stashed_error = Some(e.clone());
                                SseStep::Fail { error: e }
                            },
                            None => SseStep::Fail {
                                error: ApiError::Stream {
                                    message: String::from_str(
                                        "stream closed before response.completed",
                                    ),
                                },
                            },
                        }
                    },
                }
            },
            SsePoll::Frame { fields: None } => SseStep::Continue,
            SsePoll::Frame { fields: Some(f) } => {
                let SseFields {
                    kind,
                    item,
                    delta,
                    summary_index,
                    content_index,
                    has_response,
                    completed,
                    error,
                } = f;
                match kind {
                    SseKind::Created => {
                        if has_response {
                            SseStep::Emit { event: ResponseEvent::Created }
                        } else {
                            SseStep::Continue
                        }
                    },
                    SseKind::OutputItemAdded => match item {
                        Some(item) => SseStep::Emit {
                            event: ResponseEvent::OutputItemAdded { item },
                        },
                        None => SseStep::Continue,
                    },
                    SseKind::OutputItemDone => match item {
                        Some(item) => SseStep::Emit {
                            event: ResponseEvent::OutputItemDone { item },
                        },
                        None => SseStep::Continue,
                    },
                    SseKind::OutputTextDelta => match delta {
                        Some(delta) => SseStep::Emit {
                            event: ResponseEvent::OutputTextDelta { delta },
                        },
                        None => SseStep::Continue,
                    },
                    SseKind::ReasoningSummaryTextDelta => match (delta, summary_index) {
                        (Some(delta), Some(summary_index)) => SseStep::Emit {
                            event: ResponseEvent::ReasoningSummaryDelta { delta, summary_index },
                        },
                        _ => SseStep::Continue,
                    },
                    SseKind::ReasoningSummaryPartAdded => match summary_index {
                        Some(summary_index) => SseStep::Emit {
                            event: ResponseEvent::ReasoningSummaryPartAdded { summary_index },
                        },
                        None => SseStep::Continue,
                    },
                    SseKind::ReasoningTextDelta => match (delta, content_index) {
                        (Some(delta), Some(content_index)) => SseStep::Emit {
                            event: ResponseEvent::ReasoningContentDelta { delta, content_index },
                        },
                        _ => SseStep::Continue,
                    },
                    SseKind::Failed => {
                        if has_response {
                            self.stashed_error = Some(classify_failure(error));
                        }
                        SseStep::Continue
                    },
                    SseKind::Completed => {
                        if has_response {
                            match completed {
                                Some(c) => {
                                    self.completed = Some(c);
                                },
                                None => {
                                    self.stashed_error = Some(ApiError::Stream {
                                        message: String::from_str(
                                            "failed to parse response.completed event",
                                        ),
                                    });
                                },
                            }
                        }
                        SseStep::Continue
                    },
                    SseKind::Other => SseStep::Continue,
                }
            },
        }
    }
}

/// One element of the stream a consumer sees: a forwarded event or a
/// terminal error.
pub enum SseOutView {
    Event(ResponseEventView),
    Error(ApiErrorView),
}

/// Everything the parser forwards while handling `polls` from state
/// `st`, stopping at the first terminal step.
pub open spec fn spec_sse_run(st: SseParserView, polls: Seq<SsePollView>) -> Seq<SseOutView>
    decreases polls.len(),
{
    if polls.len() == 0 {
        Seq::empty()
    } else {
        let (st1, step) = spec_sse_step(st, polls.first());
        match step {
            SseStepView::Continue => spec_sse_run(st1, polls.drop_first()),
            SseStepView::Emit { event } => seq![SseOutView::Event(event)] + spec_sse_run(
                st1,
                polls.drop_first(),
            ),
            SseStepView::Finish { event } => seq![SseOutView::Event(event)],
            SseStepView::Fail { error } => seq![SseOutView::Error(error)],
        }
    }
}

/// Whether one forwarded element is the terminal `Completed` event.
pub open spec fn spec_is_completed_out(o: SseOutView) -> bool {
    o matches SseOutView::Event(ResponseEventView::Completed { .. })
}

/// A step that keeps the stream open never forwards `Completed`.
proof fn lemma_emit_never_completed(st: SseParserView, poll: SsePollView)
    ensures
        (spec_sse_step(st, poll).1 matches SseStepView::Emit { event } ==> !(event
            matches ResponseEventView::Completed { .. })),
{
}

/// The terminal-event rule: on any sequence of observations, a
/// `Completed` event appears in the forwarded stream only as its very
/// last element. A stream that ends any other way ends in an error
/// instead, which the turn driver surfaces.
pub proof fn lemma_completed_is_terminal(st: SseParserView, polls: Seq<SsePollView>)
    ensures
        forall|i: int|
            0 <= i < spec_sse_run(st, polls).len() && spec_is_completed_out(
                #[trigger] spec_sse_run(st, polls)[i],
            ) ==> i == spec_sse_run(st, polls).len() - 1,
    decreases polls.len(),
{
    if polls.len() > 0 {
        let run = spec_sse_run(st, polls);
        let (st1, step) = spec_sse_step(st, polls.first());
        lemma_emit_never_completed(st, polls.first());
        match step {
            SseStepView::Continue => {
                let rest = spec_sse_run(st1, polls.drop_first());
                lemma_completed_is_terminal(st1, polls.drop_first());
                assert forall|i: int|
                    0 <= i < run.len() && spec_is_completed_out(run[i]) implies i == run.len()
                    - 1 by {
                    assert(run == rest);
                    assert(run[i] == rest[i]);
                }
            },
            SseStepView::Emit { event } => {
                let rest = spec_sse_run(st1, polls.drop_first());
                lemma_completed_is_terminal(st1, polls.drop_first());
                assert forall|i: int|
                    0 <= i < run.len() && spec_is_completed_out(run[i]) implies i == run.len()
                    - 1 by {
                    assert(run == seq![SseOutView::Event(event)] + rest);
                    if i == 0 {
                        assert(run[0] == SseOutView::Event(event));
                    } else {
                        assert(run[i] == rest[i - 1]);
                    }
                }
            },
            SseStepView::Finish { event } => {},
            SseStepView::Fail { error } => {},
        }
    }
}

} // verus!
