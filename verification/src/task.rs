//! The task driver's decisions: when auto-compaction runs, how a task
//! reacts to a finished turn, how a failed turn is retried, and the
//! generated identifiers and notices around a session's lifetime.

use vstd::prelude::*;

use crate::client::WireApi;
use crate::errors::CodexErr;
use crate::errors::spec_is_retriable_turn_error;
use crate::fmt_text::spec_decimal;
use crate::fmt_text::u64_to_decimal;

verus! {

/// Whether cumulative usage has reached the family's auto-compaction
/// threshold; a family without one never compacts automatically.
pub open spec fn spec_should_auto_compact(total_tokens: i64, limit: Option<i64>) -> bool {
    match limit {
        Some(l) => total_tokens >= l,
        None => false,
    }
}

/// Decides whether to compact before the next turn.
pub fn should_auto_compact(total_tokens: i64, limit: Option<i64>) -> (r: bool)
    ensures
        r == spec_should_auto_compact(total_tokens, limit),
{
    match limit {
        Some(l) => total_tokens >= l,
        None => false,
    }
}

/// What a task does after a turn returns normally.
#[derive(Clone, Copy, Debug, PartialEq, Eq)]
pub enum TaskStep {
    /// Compact the history, then run the follow-up turn.
    CompactThenContinue,
    /// Tool outputs demand another turn.
    Continue,
    /// The model answered without tool calls: notify and stop.
    Finish,
}

/// How a task continues after a turn: a follow-up over the token limit
/// compacts first; a follow-up under it just runs; no follow-up ends the
/// task.
pub open spec fn spec_task_step(needs_follow_up: bool, token_limit_reached: bool) -> TaskStep {
    if token_limit_reached && needs_follow_up {
        TaskStep::CompactThenContinue
    } else if !needs_follow_up {
        TaskStep::Finish
    } else {
        TaskStep::Continue
    }
}

/// Decides how the task continues after a turn.
pub fn task_step(needs_follow_up: bool, token_limit_reached: bool) -> (r: TaskStep)
    ensures
        r == spec_task_step(needs_follow_up, token_limit_reached),
{
    if token_limit_reached && needs_follow_up {
        TaskStep::CompactThenContinue
    } else if !needs_follow_up {
        TaskStep::Finish
    } else {
        TaskStep::Continue
    }
}

/// What a failed turn does next: the wait before reconnecting, or
/// nothing when the failure propagates.
#[derive(Clone, Copy, Debug, PartialEq, Eq)]
pub enum TurnDisposition {
    /// Reconnect after this many milliseconds.
    RetryAfter { delay_millis: u64 },
    /// Surface the failure.
    Propagate,
}

/// Decides how a failed turn proceeds: the closed set of non-retriable
/// failures propagates at once; a retriable failure within the stream
/// retry budget waits — the server-suggested delay always wins over the
/// caller's backoff — and one beyond the budget propagates.
pub fn turn_disposition(err: &CodexErr, retries_done: u64, max_retries: u64, backoff_millis: u64) -> (r:
    TurnDisposition)
    ensures
        !spec_is_retriable_turn_error(*err) ==> r == TurnDisposition::Propagate,
        spec_is_retriable_turn_error(*err) && retries_done >= max_retries ==> r
            == TurnDisposition::Propagate,
        spec_is_retriable_turn_error(*err) && retries_done < max_retries ==> r == (
        TurnDisposition::RetryAfter {
            delay_millis: match *err {
                CodexErr::Stream { delay_millis: Some(d), .. } => d,
                _ => backoff_millis,
            },
        }),
{
    let retriable = match err {
        CodexErr::Stream { .. } => true,
        CodexErr::Timeout => true,
        CodexErr::Network { .. } => true,
        CodexErr::Http { .. } => true,
        _ => false,
    };
    if !retriable || retries_done >= max_retries {
        return TurnDisposition::Propagate;
    }
    let delay_millis = match err {
        CodexErr::Stream { delay_millis: Some(d), .. } => *d,
        _ => backoff_millis,
    };
    TurnDisposition::RetryAfter { delay_millis }
}

/// Renders the reconnection notice shown while a turn retries.
pub fn reconnect_message(retries: u64, max_retries: u64) -> (r: String)
    ensures
        r@ == "Reconnecting... "@ + spec_decimal(retries as nat) + "/"@ + spec_decimal(
            max_retries as nat,
        ),
{
    proof {
        reveal_strlit("Reconnecting... ");
        reveal_strlit("/");
    }
    String::from_str("Reconnecting... ").concat(u64_to_decimal(retries).as_str()).concat(
        "/",
    ).concat(u64_to_decimal(max_retries).as_str())
}

/// Renders the identifier of an internally started task and advances the
/// counter.
pub fn next_internal_sub_id(counter: u64) -> (r: (String, u64))
    requires
        counter < u64::MAX,
    ensures
        r.0@ == "auto-compact-"@ + spec_decimal(counter as nat),
        r.1 == counter + 1,
{
    proof {
        reveal_strlit("auto-compact-");
    }
    (String::from_str("auto-compact-").concat(u64_to_decimal(counter).as_str()), counter + 1)
}

/// Renders the next session-generated submission id — monotonically
/// increasing decimal strings — and advances the counter.
pub fn next_submission_id(counter: u64) -> (r: (String, u64))
    requires
        counter < u64::MAX,
    ensures
        r.0@ == spec_decimal(counter as nat),
        r.1 == counter + 1,
{
    (u64_to_decimal(counter), counter + 1)
}

/// Where a compaction runs.
#[derive(Clone, Copy, Debug, PartialEq, Eq)]
pub enum CompactMode {
    /// The provider's compact endpoint summarizes the history.
    Remote,
    /// A local summarization turn runs inside the session.
    Local,
}

/// Chooses where a compaction runs: remotely exactly when the provider
/// offers a compact endpoint.
pub fn compact_mode(provider_supports_remote_compact: bool) -> (r: CompactMode)
    ensures
        r == (if provider_supports_remote_compact {
            CompactMode::Remote
        } else {
            CompactMode::Local
        }),
{
    if provider_supports_remote_compact {
        CompactMode::Remote
    } else {
        CompactMode::Local
    }
}

/// Whether the deprecation notice for the chat wire protocol is emitted
/// now: only for a chat-protocol provider, and only if the process-wide
/// latch has not been flipped yet. The latch itself lives with the
/// caller; it is flipped at most once per process.
pub fn should_emit_chat_deprecation(wire_api: WireApi, already_emitted: bool) -> (r: bool)
    ensures
        r == (wire_api == WireApi::Chat && !already_emitted),
{
    matches!(wire_api, WireApi::Chat) && !already_emitted
}

} // verus!
