//! Per-session mutable state: the in-memory history, cumulative token
//! usage, the sticky rate-limit snapshot, the queue of input submitted
//! while a task runs, pending approvals, and the active-task handle.

use vstd::prelude::*;

use crate::history::ContextManager;
use crate::items::ItemView;
use crate::items::ResponseItem;
use crate::items::Role;
use crate::items::TokenUsage;
use crate::items::UserInput;
use crate::items::item_seq_view;
use crate::items::spec_user_input_content;
use crate::items::user_input_to_message;
use crate::rate_limits::RateLimitSnapshot;
use crate::rate_limits::merge_rate_limits;
use crate::rate_limits::spec_merge_rate_limits;
use crate::text::str_eq;

verus! {

/// Cumulative and last-turn token usage, with the model's context
/// window once known.
#[derive(Clone, Copy, Debug, PartialEq, Eq)]
pub struct TokenUsageInfo {
    pub total_token_usage: TokenUsage,
    pub last_token_usage: TokenUsage,
    pub model_context_window: Option<i64>,
}

/// Saturating signed addition, so token accounting can never panic.
pub open spec fn spec_sat_add(a: i64, b: i64) -> i64 {
    if a + b > i64::MAX {
        i64::MAX
    } else if a + b < i64::MIN {
        i64::MIN
    } else {
        (a + b) as i64
    }
}

/// Fieldwise saturating sum of two usages.
pub open spec fn spec_add_usage(a: TokenUsage, b: TokenUsage) -> TokenUsage {
    TokenUsage {
        input_tokens: spec_sat_add(a.input_tokens, b.input_tokens),
        cached_input_tokens: spec_sat_add(a.cached_input_tokens, b.cached_input_tokens),
        output_tokens: spec_sat_add(a.output_tokens, b.output_tokens),
        reasoning_output_tokens: spec_sat_add(
            a.reasoning_output_tokens,
            b.reasoning_output_tokens,
        ),
        total_tokens: spec_sat_add(a.total_tokens, b.total_tokens),
    }
}

/// Adds two token counts without overflow.
fn sat_add(a: i64, b: i64) -> (r: i64)
    ensures
        r == spec_sat_add(a, b),
{
    match a.checked_add(b) {
        Some(r) => r,
        None => {
            if a > 0 {
                i64::MAX
            } else {
                i64::MIN
            }
        },
    }
}

/// A configuration value whose later changes the session may forbid: a
/// locked policy keeps its value for the session's whole life.
#[derive(Clone, Copy, Debug, PartialEq, Eq)]
pub struct Constrained<T> {
    pub value: T,
    pub locked: bool,
}

impl<T> Constrained<T> {
    /// Replaces the value, unless it is locked; a locked value hands the
    /// rejected update back.
    pub fn set(&mut self, value: T) -> (r: Result<(), T>)
        ensures
            !old(self).locked ==> (r is Ok && final(self).value == value && final(self).locked
                == old(self).locked),
            old(self).locked ==> (r == Err::<(), T>(value) && *final(self) == *old(self)),
    {
        if self.locked {
            Err(value)
        } else {
            self.value = value;
            Ok(())
        }
    }

    /// Reads the value.
    pub fn get(&self) -> (r: &T)
        ensures
            *r == self.value,
    {
        &self.value
    }
}

/// The session-scoped configuration a turn starts from.
#[derive(Debug, PartialEq, Eq)]
pub struct SessionConfiguration {
    pub model: String,
    pub model_reasoning_effort: Option<crate::client::ReasoningEffort>,
    pub model_reasoning_summary: crate::client::ReasoningSummary,
    pub approval_policy: Constrained<ApprovalPolicy>,
    pub sandbox_policy: Constrained<SandboxPolicy>,
    pub cwd: String,
}

/// When command execution escalates for approval.
#[derive(Clone, Copy, Debug, PartialEq, Eq)]
pub enum ApprovalPolicy {
    Never,
    OnRequest,
    OnFailure,
    UntrustedCommands,
}

/// How executed commands are sandboxed.
#[derive(Clone, Copy, Debug, PartialEq, Eq)]
pub enum SandboxPolicy {
    ReadOnly,
    WorkspaceWrite,
    DangerFullAccess,
}

impl Clone for SessionConfiguration {
    /// A clone keeps every setting.
    fn clone(&self) -> (r: Self)
        ensures
            r.model@ == self.model@,
            r.model_reasoning_effort == self.model_reasoning_effort,
            r.model_reasoning_summary == self.model_reasoning_summary,
            r.approval_policy == self.approval_policy,
            r.sandbox_policy == self.sandbox_policy,
            r.cwd@ == self.cwd@,
    {
        SessionConfiguration {
            model: self.model.clone(),
            model_reasoning_effort: self.model_reasoning_effort,
            model_reasoning_summary: self.model_reasoning_summary,
            approval_policy: self.approval_policy,
            sandbox_policy: self.sandbox_policy,
            cwd: self.cwd.clone(),
        }
    }
}

/// The fields one settings update may change; an absent field keeps the
/// current value.
#[derive(Clone, Debug, PartialEq, Eq)]
pub struct SessionSettingsUpdate {
    pub model: Option<String>,
    pub reasoning_effort: Option<Option<crate::client::ReasoningEffort>>,
    pub reasoning_summary: Option<crate::client::ReasoningSummary>,
    pub approval_policy: Option<ApprovalPolicy>,
    pub sandbox_policy: Option<SandboxPolicy>,
    pub cwd: Option<String>,
}

impl SessionConfiguration {
    /// Applies one settings update: every present field replaces the
    /// current value, except that an update to a locked policy rejects
    /// the whole application and changes nothing the caller keeps.
    pub fn apply(&self, updates: &SessionSettingsUpdate) -> (r: Result<
        SessionConfiguration,
        (),
    >)
        ensures
            r matches Ok(next) ==> {
                &&& next.model@ == (match updates.model {
                    Some(m) => m@,
                    None => self.model@,
                })
                &&& next.model_reasoning_effort == (match updates.reasoning_effort {
                    Some(e) => e,
                    None => self.model_reasoning_effort,
                })
                &&& next.model_reasoning_summary == (match updates.reasoning_summary {
                    Some(s) => s,
                    None => self.model_reasoning_summary,
                })
                &&& next.approval_policy.value == (match updates.approval_policy {
                    Some(p) => p,
                    None => self.approval_policy.value,
                })
                &&& next.sandbox_policy.value == (match updates.sandbox_policy {
                    Some(p) => p,
                    None => self.sandbox_policy.value,
                })
                &&& next.cwd@ == (match updates.cwd {
                    Some(c) => c@,
                    None => self.cwd@,
                })
            },
            r is Err <==> ((updates.approval_policy is Some && self.approval_policy.locked) || (
            updates.sandbox_policy is Some && self.sandbox_policy.locked)),
    {
        let mut next = self.clone();
        if let Some(model) = &updates.model {
            next.model = model.clone();
        }
        if let Some(effort) = &updates.reasoning_effort {
            next.model_reasoning_effort = *effort;
        }
        if let Some(summary) = &updates.reasoning_summary {
            next.model_reasoning_summary = *summary;
        }
        if let Some(approval_policy) = &updates.approval_policy {
            if next.approval_policy.set(*approval_policy).is_err() {
                return Err(());
            }
        }
        if let Some(sandbox_policy) = &updates.sandbox_policy {
            if next.sandbox_policy.set(*sandbox_policy).is_err() {
                return Err(());
            }
        }
        if let Some(cwd) = &updates.cwd {
            next.cwd = cwd.clone();
        }
        Ok(next)
    }
}

/// Whether a key is pending approval.
pub open spec fn spec_has_approval(keys: Seq<String>, key: Seq<char>) -> bool {
    exists|i: int| 0 <= i < keys.len() && (#[trigger] keys[i])@ == key
}

/// Whether the pending keys are pairwise distinct; every state built
/// through this type keeps them so.
pub open spec fn spec_approvals_unique(keys: Seq<String>) -> bool {
    forall|i: int, j: int|
        0 <= i < j < keys.len() ==> (#[trigger] keys[i])@ != (#[trigger] keys[j])@
}

/// The first index at or after `from` whose key matches, or the length.
pub open spec fn spec_first_approval_index(keys: Seq<String>, key: Seq<char>, from: int) -> int
    decreases keys.len() - from,
{
    if from < 0 || from >= keys.len() {
        keys.len() as int
    } else if keys[from]@ == key {
        from
    } else {
        spec_first_approval_index(keys, key, from + 1)
    }
}

/// An index with no earlier match is the first match.
proof fn lemma_first_approval_index(keys: Seq<String>, key: Seq<char>, i: int)
    requires
        0 <= i < keys.len(),
        keys[i]@ == key,
        forall|j: int| 0 <= j < i ==> (#[trigger] keys[j])@ != key,
    ensures
        spec_first_approval_index(keys, key, 0) == i,
{
    lemma_first_approval_index_from(keys, key, i, 0);
}

/// Scanning from anywhere at or before the match lands on it.
proof fn lemma_first_approval_index_from(keys: Seq<String>, key: Seq<char>, i: int, from: int)
    requires
        0 <= from <= i < keys.len(),
        keys[i]@ == key,
        forall|j: int| 0 <= j < i ==> (#[trigger] keys[j])@ != key,
    ensures
        spec_first_approval_index(keys, key, from) == i,
    decreases i - from,
{
    if from < i {
        lemma_first_approval_index_from(keys, key, i, from + 1);
    }
}

/// The answer a user gives an approval request.
#[derive(Clone, Copy, Debug, PartialEq, Eq)]
pub enum ReviewDecision {
    Approved,
    ApprovedForSession,
    Denied,
    Abort,
}

impl Default for ReviewDecision {
    /// The decision a dropped waiter reads: denied. A task aborted while
    /// an approval is pending resolves the waiter this way.
    fn default() -> (r: Self)
        ensures
            r == ReviewDecision::Denied,
    {
        ReviewDecision::Denied
    }
}

/// What the session does with an answered approval.
#[derive(Clone, Copy, Debug, PartialEq, Eq)]
pub enum ApprovalAction {
    /// The user chose to abort: the running task is interrupted.
    InterruptTask,
    /// Any other decision resolves the waiting tool with it.
    ResolveWaiter { decision: ReviewDecision },
}

/// Routes an answered approval: an abort interrupts the task; every
/// other decision resolves the waiter.
pub fn approval_action(decision: ReviewDecision) -> (r: ApprovalAction)
    ensures
        r == (if decision == ReviewDecision::Abort {
            ApprovalAction::InterruptTask
        } else {
            ApprovalAction::ResolveWaiter { decision }
        }),
{
    match decision {
        ReviewDecision::Abort => ApprovalAction::InterruptTask,
        other => ApprovalAction::ResolveWaiter { decision: other },
    }
}

/// An exec approval request as emitted to the user.
#[derive(Debug, PartialEq, Eq)]
pub struct ExecApprovalRequest {
    pub call_id: String,
    pub turn_id: String,
    pub command: Vec<String>,
    pub cwd: String,
    pub reason: Option<String>,
}

/// A patch approval request as emitted to the user.
#[derive(Debug, PartialEq, Eq)]
pub struct PatchApprovalRequest {
    pub call_id: String,
    pub turn_id: String,
    pub reason: Option<String>,
    pub grant_root: Option<String>,
}

/// The session's mutable state.
pub struct SessionState {
    /// The conversation so far.
    pub history: ContextManager,
    /// Token accounting, absent until the first completed turn.
    pub token_info: Option<TokenUsageInfo>,
    /// The sticky rate-limit snapshot.
    pub latest_rate_limits: Option<RateLimitSnapshot>,
    /// User messages submitted while a task was already running; drained
    /// into the next turn's input.
    pub pending_input: Vec<ResponseItem>,
    /// Keys of approval requests awaiting an answer.
    pub pending_approvals: Vec<String>,
    /// The running task's identifier, when one runs.
    pub active_task: Option<String>,
}

impl SessionState {
    /// A fresh session: empty history, no usage, no limits, nothing
    /// pending, no task.
    pub fn new() -> (r: SessionState)
        ensures
            r.history@ == Seq::<ItemView>::empty(),
            r.token_info is None,
            r.latest_rate_limits is None,
            r.pending_input@.len() == 0,
            r.pending_approvals@.len() == 0,
            r.active_task is None,
    {
        SessionState {
            history: ContextManager::new(),
            token_info: None,
            latest_rate_limits: None,
            pending_input: Vec::new(),
            pending_approvals: Vec::new(),
            active_task: None,
        }
    }

    /// Applies a fresh rate-limit snapshot: windows from the update,
    /// credits and plan type preserved when the update omits them.
    pub fn set_rate_limits(&mut self, update: RateLimitSnapshot)
        ensures
            final(self).latest_rate_limits == Some(
                spec_merge_rate_limits(old(self).latest_rate_limits, update),
            ),
            final(self).history@ == old(self).history@,
            final(self).token_info == old(self).token_info,
            final(self).pending_input@ == old(self).pending_input@,
            final(self).pending_approvals@ == old(self).pending_approvals@,
            final(self).active_task == old(self).active_task,
    {
        let merged = merge_rate_limits(&self.latest_rate_limits, update);
        self.latest_rate_limits = Some(merged);
    }

    /// Folds a completed turn's usage into the totals and remembers it
    /// as the last turn's usage; the context window is kept once known.
    pub fn update_token_info_from_usage(
        &mut self,
        usage: &TokenUsage,
        model_context_window: Option<i64>,
    )
        ensures
            ({
                let prev = match old(self).token_info {
                    Some(info) => info,
                    None => TokenUsageInfo {
                        total_token_usage: TokenUsage {
                            input_tokens: 0,
                            cached_input_tokens: 0,
                            output_tokens: 0,
                            reasoning_output_tokens: 0,
                            total_tokens: 0,
                        },
                        last_token_usage: TokenUsage {
                            input_tokens: 0,
                            cached_input_tokens: 0,
                            output_tokens: 0,
                            reasoning_output_tokens: 0,
                            total_tokens: 0,
                        },
                        model_context_window: None,
                    },
                };
                final(self).token_info == Some(
                    TokenUsageInfo {
                        total_token_usage: spec_add_usage(prev.total_token_usage, *usage),
                        last_token_usage: *usage,
                        model_context_window: match model_context_window {
                            Some(w) => Some(w),
                            None => prev.model_context_window,
                        },
                    },
                )
            }),
            final(self).history@ == old(self).history@,
            final(self).latest_rate_limits == old(self).latest_rate_limits,
            final(self).pending_input@ == old(self).pending_input@,
            final(self).pending_approvals@ == old(self).pending_approvals@,
            final(self).active_task == old(self).active_task,
    {
        let prev = match &self.token_info {
            Some(info) => *info,
            None => TokenUsageInfo {
                total_token_usage: TokenUsage::zero(),
                last_token_usage: TokenUsage::zero(),
                model_context_window: None,
            },
        };
        let total = TokenUsage {
            input_tokens: sat_add(prev.total_token_usage.input_tokens, usage.input_tokens),
            cached_input_tokens: sat_add(
                prev.total_token_usage.cached_input_tokens,
                usage.cached_input_tokens,
            ),
            output_tokens: sat_add(prev.total_token_usage.output_tokens, usage.output_tokens),
            reasoning_output_tokens: sat_add(
                prev.total_token_usage.reasoning_output_tokens,
                usage.reasoning_output_tokens,
            ),
            total_tokens: sat_add(prev.total_token_usage.total_tokens, usage.total_tokens),
        };
        self.token_info = Some(
            TokenUsageInfo {
                total_token_usage: total,
                last_token_usage: *usage,
                model_context_window: match model_context_window {
                    Some(w) => Some(w),
                    None => prev.model_context_window,
                },
            },
        );
    }

    /// The payload of a token-count announcement: the usage info and the
    /// merged sticky rate-limit snapshot, read together so the two are
    /// announced coalesced rather than one at a time.
    pub fn token_info_and_rate_limits(&self) -> (r: (
        Option<TokenUsageInfo>,
        Option<RateLimitSnapshot>,
    ))
        ensures
            r.0 == self.token_info,
            r.1 == self.latest_rate_limits,
    {
        let limits = match &self.latest_rate_limits {
            Some(snapshot) => Some(snapshot.clone()),
            None => None,
        };
        (self.token_info, limits)
    }

    /// The cumulative token count, zero before any turn completed.
    pub fn get_total_token_usage(&self) -> (r: i64)
        ensures
            r == (match self.token_info {
                Some(info) => info.total_token_usage.total_tokens,
                None => 0,
            }),
    {
        match &self.token_info {
            Some(info) => info.total_token_usage.total_tokens,
            None => 0,
        }
    }

    /// Marks the context as full after a context-window failure: the
    /// total becomes the whole window.
    pub fn set_token_usage_full(&mut self, context_window: i64)
        ensures
            final(self).token_info matches Some(info) && info.total_token_usage.total_tokens
                == context_window && info.model_context_window == Some(context_window),
            final(self).history@ == old(self).history@,
            final(self).latest_rate_limits == old(self).latest_rate_limits,
            final(self).pending_input@ == old(self).pending_input@,
            final(self).active_task == old(self).active_task,
    {
        let prev = match &self.token_info {
            Some(info) => *info,
            None => TokenUsageInfo {
                total_token_usage: TokenUsage::zero(),
                last_token_usage: TokenUsage::zero(),
                model_context_window: None,
            },
        };
        self.token_info = Some(
            TokenUsageInfo {
                total_token_usage: TokenUsage {
                    total_tokens: context_window,
                    ..prev.total_token_usage
                },
                last_token_usage: prev.last_token_usage,
                model_context_window: Some(context_window),
            },
        );
    }

    /// Queues user input submitted while a task runs; with no task
    /// running the input is handed back, and the caller starts a task.
    pub fn inject_input(&mut self, input: Vec<UserInput>) -> (r: Result<(), Vec<UserInput>>)
        ensures
            old(self).active_task is Some ==> (r is Ok && final(self).pending_input@.len() == old(self).pending_input@.len() + 1 && final(self).pending_input@.drop_last() == old(self).pending_input@ && final(self).pending_input@.last()@ == (ItemView::Message {
                id: None,
                role: Role::User,
                content: spec_user_input_content(input@),
            })),
            old(self).active_task is None ==> (r matches Err(given) && given@ == input@ && final(self).pending_input@ == old(self).pending_input@),
            final(self).history@ == old(self).history@,
            final(self).active_task == old(self).active_task,
    {
        if self.active_task.is_some() {
            let message = user_input_to_message(&input);
            self.pending_input.push(message);
            proof {
                assert(self.pending_input@.drop_last() =~= old(self).pending_input@);
            }
            Ok(())
        } else {
            Err(input)
        }
    }

    /// Drains the queued input for the next turn, oldest first.
    pub fn get_pending_input(&mut self) -> (r: Vec<ResponseItem>)
        ensures
            item_seq_view(r@) == item_seq_view(old(self).pending_input@),
            final(self).pending_input@.len() == 0,
            final(self).history@ == old(self).history@,
            final(self).active_task == old(self).active_task,
            final(self).token_info == old(self).token_info,
            final(self).latest_rate_limits == old(self).latest_rate_limits,
    {
        let mut drained: Vec<ResponseItem> = Vec::new();
        core::mem::swap(&mut drained, &mut self.pending_input);
        drained
    }

    /// Records a pending approval key, reporting whether one with that
    /// key already waited — the caller logs the overwrite and replaces
    /// its waiter. A fresh key is appended; a known key leaves the key
    /// set exactly as it was, and nothing else changes either way.
    pub fn insert_pending_approval(&mut self, key: String) -> (had: bool)
        ensures
            had == spec_has_approval(old(self).pending_approvals@, key@),
            had ==> final(self).pending_approvals@ == old(self).pending_approvals@,
            !had ==> final(self).pending_approvals@ == old(self).pending_approvals@.push(key),
            spec_approvals_unique(old(self).pending_approvals@) ==> spec_approvals_unique(
                final(self).pending_approvals@,
            ),
            final(self).history@ == old(self).history@,
            final(self).active_task == old(self).active_task,
            final(self).token_info == old(self).token_info,
            final(self).latest_rate_limits == old(self).latest_rate_limits,
            final(self).pending_input@ == old(self).pending_input@,
    {
        let mut i: usize = 0;
        while i < self.pending_approvals.len()
            invariant
                i <= self.pending_approvals@.len(),
                self == old(self),
                forall|j: int|
                    0 <= j < i ==> (#[trigger] self.pending_approvals@[j])@ != key@,
            decreases self.pending_approvals@.len() - i,
        {
            if str_eq(self.pending_approvals[i].as_str(), key.as_str()) {
                return true;
            }
            i = i + 1;
        }
        self.pending_approvals.push(key);
        proof {
            let keys = self.pending_approvals@;
            assert(keys.last()@ == key@);
            assert(keys.drop_last() =~= old(self).pending_approvals@);
            if spec_approvals_unique(old(self).pending_approvals@) {
                assert forall|p: int, q: int|
                    0 <= p < q < keys.len() implies (#[trigger] keys[p])@ != (
                #[trigger] keys[q])@ by {
                    if q == keys.len() - 1 {
                        assert(keys[p]@ != key@);
                    }
                }
            }
        }
        false
    }

    /// Removes the pending approval with the given key, reporting
    /// whether one waited: the resolved waiter is the caller's to wake.
    /// Every other key survives, in order; with distinct keys — which
    /// every state built through this type has — none with this key
    /// remains.
    pub fn remove_pending_approval(&mut self, key: &str) -> (had: bool)
        ensures
            had == spec_has_approval(old(self).pending_approvals@, key@),
            !had ==> final(self).pending_approvals@ == old(self).pending_approvals@,
            had ==> ({
                let i = spec_first_approval_index(old(self).pending_approvals@, key@, 0);
                &&& 0 <= i < old(self).pending_approvals@.len()
                &&& old(self).pending_approvals@[i]@ == key@
                &&& final(self).pending_approvals@ == old(self).pending_approvals@.remove(i)
            }),
            spec_approvals_unique(old(self).pending_approvals@) ==> (spec_approvals_unique(
                final(self).pending_approvals@,
            ) && (forall|j: int|
                0 <= j < final(self).pending_approvals@.len() ==> (#[trigger] final(self).pending_approvals@[j])@ != key@)),
            final(self).history@ == old(self).history@,
            final(self).active_task == old(self).active_task,
            final(self).token_info == old(self).token_info,
            final(self).latest_rate_limits == old(self).latest_rate_limits,
            final(self).pending_input@ == old(self).pending_input@,
    {
        let ghost keys = self.pending_approvals@;
        let mut i: usize = 0;
        while i < self.pending_approvals.len()
            invariant
                i <= self.pending_approvals@.len(),
                self == old(self),
                keys == self.pending_approvals@,
                forall|j: int|
                    0 <= j < i ==> (#[trigger] self.pending_approvals@[j])@ != key@,
            decreases self.pending_approvals@.len() - i,
        {
            if str_eq(self.pending_approvals[i].as_str(), key) {
                proof {
                    lemma_first_approval_index(keys, key@, i as int);
                }
                let _ = self.pending_approvals.remove(i);
                proof {
                    if spec_approvals_unique(keys) {
                        assert forall|j: int|
                            0 <= j < self.pending_approvals@.len() implies (#[trigger] self.pending_approvals@[j])@
                            != key@ by {
                            if j < i {
                                assert(self.pending_approvals@[j] == keys[j]);
                            } else {
                                assert(self.pending_approvals@[j] == keys[j + 1]);
                                assert(keys[i as int]@ == key@);
                            }
                        }
                        assert forall|p: int, q: int|
                            0 <= p < q < self.pending_approvals@.len() implies (
                        #[trigger] self.pending_approvals@[p])@ != (
                        #[trigger] self.pending_approvals@[q])@ by {
                            let pk = if p < i { p } else { p + 1 };
                            let qk = if q < i { q } else { q + 1 };
                            assert(self.pending_approvals@[p] == keys[pk]);
                            assert(self.pending_approvals@[q] == keys[qk]);
                        }
                    }
                }
                return true;
            }
            i = i + 1;
        }
        false
    }

    /// Opens an exec approval request: records the waiter under the
    /// turn's identifier — reporting whether one was already pending, so
    /// the caller can log the overwrite — and builds the request shown
    /// to the user. The caller emits the request, awaits the decision,
    /// and reads the default when the waiter is dropped.
    pub fn request_command_approval(
        &mut self,
        turn_sub_id: String,
        call_id: String,
        command: Vec<String>,
        cwd: String,
        reason: Option<String>,
    ) -> (r: (bool, ExecApprovalRequest))
        ensures
            r.0 == spec_has_approval(old(self).pending_approvals@, turn_sub_id@),
            r.0 ==> final(self).pending_approvals@ == old(self).pending_approvals@,
            !r.0 ==> (final(self).pending_approvals@.len() == old(self).pending_approvals@.len()
                + 1 && final(self).pending_approvals@.drop_last() == old(self).pending_approvals@
                && final(self).pending_approvals@.last()@ == turn_sub_id@),
            r.1.call_id == call_id,
            r.1.turn_id == turn_sub_id,
            r.1.command@ == command@,
            r.1.cwd == cwd,
            r.1.reason == reason,
            final(self).history@ == old(self).history@,
            final(self).active_task == old(self).active_task,
    {
        let key = turn_sub_id.clone();
        let had = self.insert_pending_approval(key);
        let request = ExecApprovalRequest {
            call_id,
            turn_id: turn_sub_id,
            command,
            cwd,
            reason,
        };
        (had, request)
    }

    /// Opens a patch approval request, exactly like a command approval.
    pub fn request_patch_approval(
        &mut self,
        turn_sub_id: String,
        call_id: String,
        reason: Option<String>,
        grant_root: Option<String>,
    ) -> (r: (bool, PatchApprovalRequest))
        ensures
            r.0 == spec_has_approval(old(self).pending_approvals@, turn_sub_id@),
            r.0 ==> final(self).pending_approvals@ == old(self).pending_approvals@,
            !r.0 ==> (final(self).pending_approvals@.len() == old(self).pending_approvals@.len()
                + 1 && final(self).pending_approvals@.drop_last() == old(self).pending_approvals@
                && final(self).pending_approvals@.last()@ == turn_sub_id@),
            r.1.call_id == call_id,
            r.1.turn_id == turn_sub_id,
            r.1.reason == reason,
            r.1.grant_root == grant_root,
            final(self).history@ == old(self).history@,
            final(self).active_task == old(self).active_task,
    {
        let key = turn_sub_id.clone();
        let had = self.insert_pending_approval(key);
        let request = PatchApprovalRequest { call_id, turn_id: turn_sub_id, reason, grant_root };
        (had, request)
    }

    /// Answers a pending approval: takes the waiter's key out and reports
    /// whether one waited — the caller wakes that waiter with the
    /// decision, and logs when none was found.
    pub fn notify_approval(&mut self, sub_id: &str) -> (had: bool)
        ensures
            had == spec_has_approval(old(self).pending_approvals@, sub_id@),
            !had ==> final(self).pending_approvals@ == old(self).pending_approvals@,
            had ==> final(self).pending_approvals@ == old(self).pending_approvals@.remove(
                spec_first_approval_index(old(self).pending_approvals@, sub_id@, 0),
            ),
            final(self).history@ == old(self).history@,
            final(self).active_task == old(self).active_task,
    {
        self.remove_pending_approval(sub_id)
    }

    /// Starts a task: records its identifier as the active one.
    pub fn start_task(&mut self, sub_id: String)
        ensures
            final(self).active_task == Some(sub_id),
            final(self).history@ == old(self).history@,
            final(self).pending_input@ == old(self).pending_input@,
    {
        self.active_task = Some(sub_id);
    }

    /// Ends the running task, if any.
    pub fn end_task(&mut self)
        ensures
            final(self).active_task is None,
            final(self).history@ == old(self).history@,
            final(self).pending_input@ == old(self).pending_input@,
    {
        self.active_task = None;
    }

    /// Handles an interrupt: reports whether a task was running — and
    /// must now be cancelled by the caller — or nothing at all happens.
    /// An interrupt with no active task is a no-op.
    pub fn interrupt_task(&mut self) -> (r: Option<String>)
        ensures
            r == old(self).active_task,
            final(self).active_task is None,
            old(self).active_task is None ==> final(self).pending_approvals@ == old(self).pending_approvals@,
            final(self).history@ == old(self).history@,
            final(self).pending_input@ == old(self).pending_input@,
    {
        let mut taken: Option<String> = None;
        core::mem::swap(&mut taken, &mut self.active_task);
        taken
    }
}

} // verus!
