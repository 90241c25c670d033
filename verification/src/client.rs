//! The model client's decisions: which wire protocol a request may use,
//! the reasoning and text controls attached to it, the effective context
//! window, and the one-shot re-authentication rule — a 401 triggers at
//! most one token refresh per stream opening.

use vstd::prelude::*;

use crate::errors::CodexErr;

verus! {

/// The two wire protocols a provider can speak.
#[derive(Clone, Copy, Debug, PartialEq, Eq)]
pub enum WireApi {
    Responses,
    Chat,
}

/// The reasoning effort asked of the model.
#[derive(Clone, Copy, Debug, PartialEq, Eq)]
pub enum ReasoningEffort {
    Minimal,
    Low,
    Medium,
    High,
}

/// How reasoning summaries are requested.
#[derive(Clone, Copy, Debug, PartialEq, Eq)]
pub enum ReasoningSummary {
    NotRequested,
    Auto,
    Concise,
    Detailed,
}

/// The reasoning controls attached to a request.
#[derive(Clone, Copy, Debug, PartialEq, Eq)]
pub struct Reasoning {
    pub effort: Option<ReasoningEffort>,
    pub summary: Option<ReasoningSummary>,
}

/// What reasoning controls a request carries: none unless the model
/// family supports reasoning summaries; otherwise the configured effort,
/// falling back to the family default, and the summary mode unless it
/// was declined.
pub open spec fn spec_reasoning_controls(
    supports_reasoning_summaries: bool,
    effort: Option<ReasoningEffort>,
    default_effort: Option<ReasoningEffort>,
    summary: ReasoningSummary,
) -> Option<Reasoning> {
    if supports_reasoning_summaries {
        Some(
            Reasoning {
                effort: match effort {
                    Some(e) => Some(e),
                    None => default_effort,
                },
                summary: if summary == ReasoningSummary::NotRequested {
                    None
                } else {
                    Some(summary)
                },
            },
        )
    } else {
        None
    }
}

/// Builds the reasoning controls of one request.
pub fn reasoning_controls(
    supports_reasoning_summaries: bool,
    effort: Option<ReasoningEffort>,
    default_effort: Option<ReasoningEffort>,
    summary: ReasoningSummary,
) -> (r: Option<Reasoning>)
    ensures
        r == spec_reasoning_controls(
            supports_reasoning_summaries,
            effort,
            default_effort,
            summary,
        ),
{
    if !supports_reasoning_summaries {
        return None;
    }
    Some(
        Reasoning {
            effort: match effort {
                Some(e) => Some(e),
                None => default_effort,
            },
            summary: match summary {
                ReasoningSummary::NotRequested => None,
                s => Some(s),
            },
        },
    )
}

/// Whether the request must ask for encrypted reasoning content: exactly
/// when reasoning is enabled.
pub fn wants_encrypted_reasoning(reasoning: &Option<Reasoning>) -> (r: bool)
    ensures
        r == (reasoning is Some),
{
    reasoning.is_some()
}

/// The effective context window: the advertised window scaled by the
/// family's effective percentage and divided back down, saturating at
/// the largest representable count.
pub open spec fn spec_effective_context_window(
    context_window: Option<i64>,
    effective_percent: i64,
) -> Option<i64> {
    match context_window {
        Some(w) => Some(
            ((if w * effective_percent > i64::MAX {
                i64::MAX as int
            } else {
                w * effective_percent
            }) / 100) as i64,
        ),
        None => None,
    }
}

/// Computes the effective context window. Windows and percentages are
/// counts: never negative.
pub fn effective_context_window(context_window: Option<i64>, effective_percent: i64) -> (r: Option<
    i64,
>)
    requires
        effective_percent >= 0,
        context_window matches Some(w) ==> w >= 0,
    ensures
        r == spec_effective_context_window(context_window, effective_percent),
{
    match context_window {
        Some(w) => {
            let scaled = match w.checked_mul(effective_percent) {
                Some(p) => p,
                None => i64::MAX,
            };
            proof {
                if w.checked_mul(effective_percent) is None {
                    assert(w * effective_percent > i64::MAX || w * effective_percent < i64::MIN);
                    assert(w * effective_percent >= 0) by (nonlinear_arith)
                        requires
                            w >= 0 && effective_percent >= 0,
                    ;
                }
            }
            Some(scaled / 100)
        },
        None => None,
    }
}

/// Rejects a request shape the wire protocol cannot carry: the chat
/// protocol has no output schema.
pub fn validate_request_shape(wire_api: WireApi, has_output_schema: bool) -> (r: Result<
    (),
    CodexErr,
>)
    ensures
        (wire_api == WireApi::Chat && has_output_schema) ==> (r matches Err(
            CodexErr::UnsupportedOperation { message },
        ) && message@ == "output_schema is not supported for Chat Completions API"@),
        !(wire_api == WireApi::Chat && has_output_schema) ==> r is Ok,
{
    proof {
        reveal_strlit("output_schema is not supported for Chat Completions API");
    }
    if matches!(wire_api, WireApi::Chat) && has_output_schema {
        Err(
            CodexErr::UnsupportedOperation {
                message: String::from_str(
                    "output_schema is not supported for Chat Completions API",
                ),
            },
        )
    } else {
        Ok(())
    }
}

/// The re-authentication state of one stream opening.
pub struct StreamAuthState {
    pub refreshed: bool,
}

/// What to do about an unauthorized response.
#[derive(Clone, Copy, Debug, PartialEq, Eq)]
pub enum UnauthorizedOutcome {
    /// Refresh the token once and retry the request.
    RefreshAndRetry,
    /// Give up and surface the failure.
    Propagate,
}

impl StreamAuthState {
    /// The state at the start of one stream opening: no refresh spent.
    pub fn new() -> (r: StreamAuthState)
        ensures
            !r.refreshed,
    {
        StreamAuthState { refreshed: false }
    }

    /// Decides what a 401 does: the one refresh is spent on the first
    /// 401 of a refresh-capable session; every later 401 propagates.
    pub fn on_unauthorized(&mut self, can_refresh: bool) -> (r: UnauthorizedOutcome)
        ensures
            r == (if !old(self).refreshed && can_refresh {
                UnauthorizedOutcome::RefreshAndRetry
            } else {
                UnauthorizedOutcome::Propagate
            }),
            final(self).refreshed == (old(self).refreshed || can_refresh),
            old(self).refreshed ==> final(self).refreshed,
    {
        if !self.refreshed && can_refresh {
            self.refreshed = true;
            UnauthorizedOutcome::RefreshAndRetry
        } else {
            if can_refresh {
                self.refreshed = true;
            }
            UnauthorizedOutcome::Propagate
        }
    }
}

/// The outcomes of a run of 401 decisions from a given state.
pub open spec fn spec_auth_run(refreshed: bool, flags: Seq<bool>) -> Seq<UnauthorizedOutcome>
    decreases flags.len(),
{
    if flags.len() == 0 {
        Seq::empty()
    } else {
        let outcome = if !refreshed && flags.first() {
            UnauthorizedOutcome::RefreshAndRetry
        } else {
            UnauthorizedOutcome::Propagate
        };
        seq![outcome] + spec_auth_run(refreshed || flags.first(), flags.drop_first())
    }
}

/// How many refreshes a run performs.
pub open spec fn spec_refresh_count(outcomes: Seq<UnauthorizedOutcome>) -> int
    decreases outcomes.len(),
{
    if outcomes.len() == 0 {
        0
    } else {
        spec_refresh_count(outcomes.drop_last()) + (
        if outcomes.last() == UnauthorizedOutcome::RefreshAndRetry {
            1int
        } else {
            0int
        })
    }
}

/// A fresh run never refreshes more than once, whatever 401s arrive and
/// whatever the refresh capability at each: at most one refresh per
/// stream opening.
pub proof fn lemma_at_most_one_refresh(flags: Seq<bool>)
    ensures
        spec_refresh_count(spec_auth_run(false, flags)) <= 1,
{
    lemma_auth_run_spent(false, flags);
}

/// Once the refresh is spent, a run never refreshes; before that, it
/// refreshes at most once.
proof fn lemma_auth_run_spent(refreshed: bool, flags: Seq<bool>)
    ensures
        refreshed ==> spec_refresh_count(spec_auth_run(refreshed, flags)) == 0,
        !refreshed ==> spec_refresh_count(spec_auth_run(refreshed, flags)) <= 1,
    decreases flags.len(),
{
    if flags.len() == 0 {
    } else {
        let outcome = if !refreshed && flags.first() {
            UnauthorizedOutcome::RefreshAndRetry
        } else {
            UnauthorizedOutcome::Propagate
        };
        let rest = spec_auth_run(refreshed || flags.first(), flags.drop_first());
        lemma_auth_run_spent(refreshed || flags.first(), flags.drop_first());
        lemma_refresh_count_cons(outcome, rest);
    }
}

/// Prepending one outcome adds its own contribution to the count.
proof fn lemma_refresh_count_cons(outcome: UnauthorizedOutcome, rest: Seq<UnauthorizedOutcome>)
    ensures
        spec_refresh_count(seq![outcome] + rest) == spec_refresh_count(rest) + (
        if outcome == UnauthorizedOutcome::RefreshAndRetry {
            1int
        } else {
            0int
        }),
    decreases rest.len(),
{
    if rest.len() == 0 {
        assert((seq![outcome] + rest).drop_last() =~= Seq::<UnauthorizedOutcome>::empty());
        assert((seq![outcome] + rest).last() == outcome);
        assert(spec_refresh_count(Seq::<UnauthorizedOutcome>::empty()) == 0);
        assert(spec_refresh_count(rest) == 0);
    } else {
        assert((seq![outcome] + rest).drop_last() =~= seq![outcome] + rest.drop_last());
        assert((seq![outcome] + rest).last() == rest.last());
        lemma_refresh_count_cons(outcome, rest.drop_last());
    }
}

} // verus!
