//! Session state: the sticky rate-limit merge, token accounting, queued
//! input, approvals, and the interrupt no-op.

use codex_core::client::ReasoningEffort;
use codex_core::client::ReasoningSummary;
use codex_core::items::ContentItem;
use codex_core::items::ResponseItem;
use codex_core::items::Role;
use codex_core::items::TokenUsage;
use codex_core::items::UserInput;
use codex_core::rate_limits::CreditsSnapshot;
use codex_core::rate_limits::PlanType;
use codex_core::rate_limits::RateLimitSnapshot;
use codex_core::rate_limits::RateLimitWindow;
use codex_core::state::approval_action;
use codex_core::state::ApprovalAction;
use codex_core::state::ApprovalPolicy;
use codex_core::state::Constrained;
use codex_core::state::SandboxPolicy;
use codex_core::state::ReviewDecision;
use codex_core::state::SessionConfiguration;
use codex_core::state::SessionSettingsUpdate;
use codex_core::state::SessionState;

#[test]
fn set_rate_limits_retains_previous_credits() {
    let mut state = SessionState::new();
    let initial = RateLimitSnapshot {
        primary: Some(RateLimitWindow {
            used_percent_hundredths: 1000,
            window_minutes: Some(15),
            resets_at: Some(1_700),
        }),
        secondary: None,
        credits: Some(CreditsSnapshot {
            has_credits: true,
            unlimited: false,
            balance: Some("10.00".to_string()),
        }),
        plan_type: Some(PlanType::Plus),
    };
    state.set_rate_limits(initial.clone());

    let update = RateLimitSnapshot {
        primary: Some(RateLimitWindow {
            used_percent_hundredths: 4000,
            window_minutes: Some(30),
            resets_at: Some(1_800),
        }),
        secondary: Some(RateLimitWindow {
            used_percent_hundredths: 500,
            window_minutes: Some(60),
            resets_at: Some(1_900),
        }),
        credits: None,
        plan_type: None,
    };
    state.set_rate_limits(update.clone());

    assert_eq!(
        state.latest_rate_limits,
        Some(RateLimitSnapshot {
            primary: update.primary.clone(),
            secondary: update.secondary,
            credits: initial.credits,
            plan_type: initial.plan_type,
        })
    );
}

#[test]
fn set_rate_limits_updates_plan_type_when_present() {
    let mut state = SessionState::new();
    let initial = RateLimitSnapshot {
        primary: Some(RateLimitWindow {
            used_percent_hundredths: 1500,
            window_minutes: Some(20),
            resets_at: Some(1_600),
        }),
        secondary: Some(RateLimitWindow {
            used_percent_hundredths: 500,
            window_minutes: Some(45),
            resets_at: Some(1_650),
        }),
        credits: Some(CreditsSnapshot {
            has_credits: true,
            unlimited: false,
            balance: Some("15.00".to_string()),
        }),
        plan_type: Some(PlanType::Plus),
    };
    state.set_rate_limits(initial.clone());

    let update = RateLimitSnapshot {
        primary: Some(RateLimitWindow {
            used_percent_hundredths: 3500,
            window_minutes: Some(25),
            resets_at: Some(1_700),
        }),
        secondary: None,
        credits: None,
        plan_type: Some(PlanType::Pro),
    };
    state.set_rate_limits(update.clone());

    assert_eq!(
        state.latest_rate_limits,
        Some(RateLimitSnapshot {
            primary: update.primary,
            secondary: update.secondary,
            credits: initial.credits,
            plan_type: update.plan_type,
        })
    );
}

#[test]
fn token_usage_accumulates_and_marks_full() {
    let mut state = SessionState::new();
    assert_eq!(state.get_total_token_usage(), 0);

    let usage = TokenUsage {
        input_tokens: 10,
        cached_input_tokens: 2,
        output_tokens: 5,
        reasoning_output_tokens: 1,
        total_tokens: 15,
    };
    state.update_token_info_from_usage(&usage, Some(1000));
    state.update_token_info_from_usage(&usage, None);
    assert_eq!(state.get_total_token_usage(), 30);
    let info = state.token_info.unwrap();
    assert_eq!(info.last_token_usage, usage);
    assert_eq!(info.model_context_window, Some(1000));

    state.set_token_usage_full(1000);
    assert_eq!(state.get_total_token_usage(), 1000);
}

#[test]
fn inject_input_queues_only_while_a_task_runs() {
    let mut state = SessionState::new();

    // No task: the input comes back and nothing is queued.
    let input = vec![UserInput::Text {
        text: "hello".to_string(),
    }];
    match state.inject_input(input) {
        Err(returned) => assert_eq!(
            returned,
            vec![UserInput::Text {
                text: "hello".to_string()
            }]
        ),
        Ok(()) => panic!("queued input with no active task"),
    }
    assert_eq!(state.get_pending_input(), Vec::<ResponseItem>::new());

    // With a task running the input queues as one user message.
    state.start_task("1".to_string());
    state
        .inject_input(vec![UserInput::Text {
            text: "more".to_string(),
        }])
        .unwrap();
    let drained = state.get_pending_input();
    assert_eq!(
        drained,
        vec![ResponseItem::Message {
            id: None,
            role: Role::User,
            content: vec![ContentItem::InputText {
                text: "more".to_string()
            }],
        }]
    );
    // Draining empties the queue.
    assert_eq!(state.get_pending_input(), Vec::<ResponseItem>::new());
}

#[test]
fn interrupt_without_active_task_is_a_no_op() {
    let mut state = SessionState::new();
    assert_eq!(state.interrupt_task(), None);

    state.start_task("7".to_string());
    assert_eq!(state.interrupt_task(), Some("7".to_string()));
    assert_eq!(state.interrupt_task(), None);
}

#[test]
fn pending_approvals_insert_and_remove() {
    let mut state = SessionState::new();
    assert!(!state.insert_pending_approval("sub-1".to_string()));
    assert!(state.insert_pending_approval("sub-1".to_string()));
    // Other keys survive a removal untouched.
    assert!(!state.insert_pending_approval("sub-2".to_string()));
    assert!(state.remove_pending_approval("sub-1"));
    assert!(!state.remove_pending_approval("sub-1"));
    assert!(state.remove_pending_approval("sub-2"));
}

#[test]
fn approval_requests_and_resolution() {
    let mut state = SessionState::new();
    state.start_task("7".to_string());

    // Opening a request records the waiter under the turn's id and
    // builds the event shown to the user.
    let (had, request) = state.request_command_approval(
        "7".to_string(),
        "call-1".to_string(),
        vec!["rm".to_string(), "-rf".to_string()],
        "/work".to_string(),
        Some("cleanup".to_string()),
    );
    assert!(!had);
    assert_eq!(request.call_id, "call-1");
    assert_eq!(request.turn_id, "7");
    assert_eq!(request.command, vec!["rm".to_string(), "-rf".to_string()]);
    assert_eq!(request.cwd, "/work");
    assert_eq!(request.reason, Some("cleanup".to_string()));

    // A second request under the same turn id reports the overwrite.
    let (had, patch) = state.request_patch_approval(
        "7".to_string(),
        "call-2".to_string(),
        None,
        Some("/work".to_string()),
    );
    assert!(had);
    assert_eq!(patch.grant_root, Some("/work".to_string()));

    // Abort interrupts the task; any other decision resolves the waiter.
    assert_eq!(
        approval_action(ReviewDecision::Abort),
        ApprovalAction::InterruptTask
    );
    assert_eq!(
        approval_action(ReviewDecision::Approved),
        ApprovalAction::ResolveWaiter {
            decision: ReviewDecision::Approved
        }
    );

    // Resolving takes the waiter out; a second answer finds none.
    assert!(state.notify_approval("7"));
    assert!(!state.notify_approval("7"));

    // A dropped waiter reads the default decision: denied.
    assert_eq!(ReviewDecision::default(), ReviewDecision::Denied);
}

#[test]
fn settings_updates_respect_locked_policies() {
    let base = SessionConfiguration {
        model: "gpt-5.1".to_string(),
        model_reasoning_effort: None,
        model_reasoning_summary: ReasoningSummary::Auto,
        approval_policy: Constrained {
            value: ApprovalPolicy::OnRequest,
            locked: false,
        },
        sandbox_policy: Constrained {
            value: SandboxPolicy::ReadOnly,
            locked: true,
        },
        cwd: "/work".to_string(),
    };

    let update = SessionSettingsUpdate {
        model: Some("gpt-5.1-codex".to_string()),
        reasoning_effort: Some(Some(ReasoningEffort::High)),
        reasoning_summary: None,
        approval_policy: Some(ApprovalPolicy::Never),
        sandbox_policy: None,
        cwd: None,
    };
    let next = base.apply(&update).unwrap();
    assert_eq!(next.model, "gpt-5.1-codex");
    assert_eq!(next.model_reasoning_effort, Some(ReasoningEffort::High));
    assert_eq!(next.approval_policy.value, ApprovalPolicy::Never);
    assert_eq!(next.sandbox_policy.value, SandboxPolicy::ReadOnly);
    assert_eq!(next.cwd, "/work");

    // The sandbox policy is locked for this session: changing it fails.
    let rejected = base.apply(&SessionSettingsUpdate {
        model: None,
        reasoning_effort: None,
        reasoning_summary: None,
        approval_policy: None,
        sandbox_policy: Some(SandboxPolicy::DangerFullAccess),
        cwd: None,
    });
    assert!(rejected.is_err());
}

#[test]
fn token_count_announcement_pairs_usage_with_limits() {
    let mut state = SessionState::new();
    assert_eq!(state.token_info_and_rate_limits(), (None, None));

    let usage = TokenUsage {
        input_tokens: 1,
        cached_input_tokens: 0,
        output_tokens: 1,
        reasoning_output_tokens: 0,
        total_tokens: 2,
    };
    state.update_token_info_from_usage(&usage, None);
    state.set_rate_limits(RateLimitSnapshot {
        primary: None,
        secondary: None,
        credits: None,
        plan_type: Some(PlanType::Free),
    });

    let (info, limits) = state.token_info_and_rate_limits();
    assert_eq!(info.unwrap().last_token_usage, usage);
    assert_eq!(limits.unwrap().plan_type, Some(PlanType::Free));
}
