//! History reconstruction from a rollout log, against the live execution
//! that produced it.

use codex_core::history::build_compacted_history;
use codex_core::history::record_initial_history;
use codex_core::history::resumed_model_mismatch;
use codex_core::history::InitialHistory;
use codex_core::history::collect_user_messages;
use codex_core::history::reconstruct_history_from_rollout;
use codex_core::history::ContextManager;
use codex_core::history::RolloutItem;
use codex_core::history::TurnContextItem;
use codex_core::items::ContentItem;
use codex_core::items::ResponseItem;
use codex_core::items::Role;

fn user_message(text: &str) -> ResponseItem {
    ResponseItem::Message {
        id: None,
        role: Role::User,
        content: vec![ContentItem::InputText {
            text: text.to_string(),
        }],
    }
}

fn assistant_message(text: &str) -> ResponseItem {
    ResponseItem::Message {
        id: None,
        role: Role::Assistant,
        content: vec![ContentItem::OutputText {
            text: text.to_string(),
        }],
    }
}

fn initial_context() -> Vec<ResponseItem> {
    vec![
        ResponseItem::UserInstructions {
            text: "be brief".to_string(),
            directory: "/work".to_string(),
        },
        ResponseItem::EnvironmentContext {
            cwd: "/work".to_string(),
        },
    ]
}

fn clone_items(items: &[ResponseItem]) -> Vec<ResponseItem> {
    items.iter().cloned().collect()
}

/// Drives a live execution with two compactions while writing the
/// rollout, and returns both the log and the final in-memory history.
fn sample_rollout(initial: &[ResponseItem]) -> (Vec<RolloutItem>, Vec<ResponseItem>) {
    let mut rollout_items = Vec::new();
    let mut live_history = ContextManager::new();

    live_history.record_items(&clone_items(initial));
    for item in initial {
        rollout_items.push(RolloutItem::ResponseItem(item.clone()));
    }

    let user1 = user_message("first user");
    live_history.record_item(&user1);
    rollout_items.push(RolloutItem::ResponseItem(user1));

    let assistant1 = assistant_message("assistant reply one");
    live_history.record_item(&assistant1);
    rollout_items.push(RolloutItem::ResponseItem(assistant1));

    let summary1 = "summary one".to_string();
    let snapshot1 = live_history.get_history();
    let user_messages1 = collect_user_messages(&snapshot1);
    let rebuilt1 = build_compacted_history(clone_items(initial), &user_messages1, &summary1);
    live_history.replace(rebuilt1);
    rollout_items.push(RolloutItem::Compacted {
        message: summary1,
        replacement_history: None,
    });

    let user2 = user_message("second user");
    live_history.record_item(&user2);
    rollout_items.push(RolloutItem::ResponseItem(user2));

    let assistant2 = assistant_message("assistant reply two");
    live_history.record_item(&assistant2);
    rollout_items.push(RolloutItem::ResponseItem(assistant2));

    let summary2 = "summary two".to_string();
    let snapshot2 = live_history.get_history();
    let user_messages2 = collect_user_messages(&snapshot2);
    let rebuilt2 = build_compacted_history(clone_items(initial), &user_messages2, &summary2);
    live_history.replace(rebuilt2);
    rollout_items.push(RolloutItem::Compacted {
        message: summary2,
        replacement_history: None,
    });

    let user3 = user_message("third user");
    live_history.record_item(&user3);
    rollout_items.push(RolloutItem::ResponseItem(user3));

    let assistant3 = assistant_message("assistant reply three");
    live_history.record_item(&assistant3);
    rollout_items.push(RolloutItem::ResponseItem(assistant3));

    (rollout_items, live_history.get_history())
}

#[test]
fn reconstruct_history_matches_live_compactions() {
    let initial = initial_context();
    let (rollout_items, expected) = sample_rollout(&initial);

    let reconstructed = reconstruct_history_from_rollout(&initial, &rollout_items);

    assert_eq!(expected, reconstructed);
}

#[test]
fn reconstruct_resumes_plain_records_verbatim() {
    let initial = initial_context();
    let items = vec![
        user_message("hello"),
        assistant_message("hi"),
        ResponseItem::FunctionCall {
            name: "shell".to_string(),
            arguments: "{}".to_string(),
            call_id: "c1".to_string(),
        },
    ];
    let rollout: Vec<RolloutItem> = items
        .iter()
        .cloned()
        .map(RolloutItem::ResponseItem)
        .collect();

    let reconstructed = reconstruct_history_from_rollout(&initial, &rollout);
    assert_eq!(reconstructed, items);
}

#[test]
fn reconstruct_honors_explicit_replacement() {
    let initial = initial_context();
    let replacement = vec![user_message("kept")];
    let rollout = vec![
        RolloutItem::ResponseItem(user_message("dropped")),
        RolloutItem::Compacted {
            message: "s".to_string(),
            replacement_history: Some(replacement.clone()),
        },
        RolloutItem::ResponseItem(assistant_message("after")),
    ];

    let reconstructed = reconstruct_history_from_rollout(&initial, &rollout);
    assert_eq!(
        reconstructed,
        vec![user_message("kept"), assistant_message("after")]
    );
}

#[test]
fn reconstruct_ignores_context_and_event_records() {
    let initial = initial_context();
    let rollout = vec![
        RolloutItem::TurnContext(TurnContextItem {
            cwd: "/work".to_string(),
            model: "gpt-5.1".to_string(),
            approval_policy: "never".to_string(),
            sandbox_policy: "workspace-write".to_string(),
        }),
        RolloutItem::ResponseItem(user_message("only")),
        RolloutItem::EventMessage {
            message: "task started".to_string(),
        },
    ];

    let reconstructed = reconstruct_history_from_rollout(&initial, &rollout);
    assert_eq!(reconstructed, vec![user_message("only")]);
}

#[test]
fn compaction_keeps_user_messages_and_summary() {
    let initial = initial_context();
    let mut history = ContextManager::new();
    history.record_items(&clone_items(&initial));
    history.record_item(&user_message("question"));
    history.record_item(&assistant_message("answer"));

    let users = collect_user_messages(&history.get_history());
    assert_eq!(users, vec![user_message("question")]);

    let rebuilt =
        build_compacted_history(clone_items(&initial), &users, &"the gist".to_string());
    let mut expected = clone_items(&initial);
    expected.push(user_message("question"));
    expected.push(ResponseItem::CompactSummary {
        text: "the gist".to_string(),
    });
    assert_eq!(rebuilt, expected);
}

#[test]
fn initial_context_orders_instructions_then_environment() {
    let items = codex_core::history::build_initial_context(
        &Some("follow policy".to_string()),
        &Some("be brief".to_string()),
        &"/work".to_string(),
    );
    assert_eq!(
        items,
        vec![
            ResponseItem::DeveloperInstructions {
                text: "follow policy".to_string()
            },
            ResponseItem::UserInstructions {
                text: "be brief".to_string(),
                directory: "/work".to_string()
            },
            ResponseItem::EnvironmentContext {
                cwd: "/work".to_string()
            },
        ]
    );

    let bare = codex_core::history::build_initial_context(&None, &None, &"/w".to_string());
    assert_eq!(
        bare,
        vec![ResponseItem::EnvironmentContext {
            cwd: "/w".to_string()
        }]
    );
}

#[test]
fn record_model_warning_appends_user_message() {
    let mut history = ContextManager::new();
    let warning = codex_core::history::model_warning_item("tool output truncated");
    history.record_item(&warning);
    assert_eq!(
        history.get_history(),
        vec![ResponseItem::Message {
            id: None,
            role: Role::User,
            content: vec![ContentItem::InputText {
                text: "Warning: tool output truncated".to_string()
            }],
        }]
    );
}

#[test]
fn seeding_history_by_mode() {
    let initial = initial_context();

    // A fresh session records its initial context, write-through.
    let (history, records) = record_initial_history(&initial, InitialHistory::New);
    assert_eq!(history, initial);
    assert_eq!(records.len(), initial.len());
    assert!(matches!(records[0], RolloutItem::ResponseItem(_)));

    // A resume replays the rollout and persists nothing new.
    let rollout = vec![
        RolloutItem::ResponseItem(user_message("hi")),
        RolloutItem::ResponseItem(assistant_message("hello")),
    ];
    let (history, records) = record_initial_history(
        &initial,
        InitialHistory::Resumed {
            rollout_items: rollout,
        },
    );
    assert_eq!(
        history,
        vec![user_message("hi"), assistant_message("hello")]
    );
    assert!(records.is_empty());

    // A fork replays the rollout and re-persists it whole.
    let rollout = vec![RolloutItem::ResponseItem(user_message("hi"))];
    let (history, records) = record_initial_history(
        &initial,
        InitialHistory::Forked {
            rollout_items: rollout,
        },
    );
    assert_eq!(history, vec![user_message("hi")]);
    assert_eq!(records, vec![RolloutItem::ResponseItem(user_message("hi"))]);
}

#[test]
fn resuming_with_another_model_is_noticed() {
    let rollout = vec![
        RolloutItem::TurnContext(TurnContextItem {
            cwd: "/w".to_string(),
            model: "gpt-5".to_string(),
            approval_policy: "never".to_string(),
            sandbox_policy: "read-only".to_string(),
        }),
        RolloutItem::ResponseItem(user_message("hi")),
        RolloutItem::TurnContext(TurnContextItem {
            cwd: "/w".to_string(),
            model: "gpt-5.1".to_string(),
            approval_policy: "never".to_string(),
            sandbox_policy: "read-only".to_string(),
        }),
    ];
    assert_eq!(
        resumed_model_mismatch(&rollout, "gpt-5.1-codex"),
        Some("gpt-5.1".to_string())
    );
    assert_eq!(resumed_model_mismatch(&rollout, "gpt-5.1"), None);
    assert_eq!(resumed_model_mismatch(&Vec::new(), "gpt-5.1"), None);
}
