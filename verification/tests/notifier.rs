//! The notifier payload's exact wire format and the spawn decision.

use codex_core::notify::UserNotification;
use codex_core::notify::UserNotifier;

#[test]
fn test_user_notification() {
    let notification = UserNotification::AgentTurnComplete {
        thread_id: "b5f6c1c2-1111-2222-3333-444455556666".to_string(),
        turn_id: "12345".to_string(),
        cwd: "/Users/example/project".to_string(),
        input_messages: vec!["Rename `foo` to `bar` and update the callsites.".to_string()],
        last_assistant_message: Some(
            "Rename complete and verified `cargo build` succeeds.".to_string(),
        ),
    };
    let serialized = notification.to_json();
    assert_eq!(
        serialized,
        r#"{"type":"agent-turn-complete","thread-id":"b5f6c1c2-1111-2222-3333-444455556666","turn-id":"12345","cwd":"/Users/example/project","input-messages":["Rename `foo` to `bar` and update the callsites."],"last-assistant-message":"Rename complete and verified `cargo build` succeeds."}"#
    );
}

#[test]
fn notification_escapes_and_null_message() {
    let notification = UserNotification::AgentTurnComplete {
        thread_id: "t\"1\"".to_string(),
        turn_id: "2\\3".to_string(),
        cwd: "/tmp/a\nb".to_string(),
        input_messages: vec!["first".to_string(), "second".to_string()],
        last_assistant_message: None,
    };
    let serialized = notification.to_json();
    assert_eq!(
        serialized,
        "{\"type\":\"agent-turn-complete\",\"thread-id\":\"t\\\"1\\\"\",\"turn-id\":\"2\\\\3\",\"cwd\":\"/tmp/a\\nb\",\"input-messages\":[\"first\",\"second\"],\"last-assistant-message\":null}"
    );
    // The payload is exactly what serde-style JSON parsing accepts.
    let parsed: serde_json::Value = serde_json::from_str(&serialized).unwrap();
    assert_eq!(
        parsed.get("cwd").and_then(|v| v.as_str()),
        Some("/tmp/a\nb")
    );
    assert!(parsed
        .get("last-assistant-message")
        .map(|v| v.is_null())
        .unwrap_or(false));
}

#[test]
fn notifier_builds_argv_or_stays_silent() {
    let notification = UserNotification::AgentTurnComplete {
        thread_id: "t".to_string(),
        turn_id: "1".to_string(),
        cwd: "/".to_string(),
        input_messages: vec![],
        last_assistant_message: None,
    };

    let silent = UserNotifier::new(None);
    assert_eq!(silent.notify(&notification), None);

    let empty = UserNotifier::new(Some(vec![]));
    assert_eq!(empty.notify(&notification), None);

    let notifier = UserNotifier::new(Some(vec![
        "notify-send".to_string(),
        "--urgency=low".to_string(),
    ]));
    let argv = notifier.notify(&notification).unwrap();
    assert_eq!(argv.len(), 3);
    assert_eq!(argv[0], "notify-send");
    assert_eq!(argv[1], "--urgency=low");
    assert_eq!(
        argv[2],
        "{\"type\":\"agent-turn-complete\",\"thread-id\":\"t\",\"turn-id\":\"1\",\"cwd\":\"/\",\"input-messages\":[],\"last-assistant-message\":null}"
    );
}
