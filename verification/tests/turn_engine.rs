//! The turn's streaming event loop: delta scoping, tool-call queuing,
//! the ordered drain, and the abort payloads.

use codex_core::engine::abort_tenths_from_millis;
use codex_core::engine::McpToolRef;
use codex_core::engine::SessionEvent;
use codex_core::engine::TurnEngine;
use codex_core::items::ContentItem;
use codex_core::items::FunctionCallOutputPayload;
use codex_core::items::ResponseInputItem;
use codex_core::items::ResponseItem;
use codex_core::items::Role;
use codex_core::sse::ResponseEvent;
use codex_core::tools::abort_message;
use codex_core::tools::aborted_response;
use codex_core::tools::ToolCall;
use codex_core::tools::ToolPayload;

fn assistant_message(id: Option<&str>, text: &str) -> ResponseItem {
    ResponseItem::Message {
        id: id.map(|s| s.to_string()),
        role: Role::Assistant,
        content: vec![ContentItem::OutputText {
            text: text.to_string(),
        }],
    }
}

fn function_call(name: &str, call_id: &str) -> ResponseItem {
    ResponseItem::FunctionCall {
        name: name.to_string(),
        arguments: "{}".to_string(),
        call_id: call_id.to_string(),
    }
}

#[test]
fn happy_path_message_turn() {
    let mut engine = TurnEngine::new(Vec::new());

    let events = engine.on_event(ResponseEvent::OutputItemDone {
        item: assistant_message(None, "Hello"),
    });
    assert_eq!(events.len(), 2);
    assert!(matches!(events[0], SessionEvent::ItemStarted { .. }));
    assert!(matches!(events[1], SessionEvent::ItemCompleted { .. }));

    engine.on_event(ResponseEvent::OutputItemDone {
        item: assistant_message(None, "World"),
    });
    let events = engine.on_event(ResponseEvent::Completed {
        response_id: "resp1".to_string(),
        token_usage: None,
    });
    assert_eq!(events, vec![SessionEvent::TokenCount { usage: None }]);

    assert!(engine.completed);
    assert!(!engine.needs_follow_up);
    assert_eq!(engine.last_agent_message, Some("World".to_string()));
    assert_eq!(engine.recorded.len(), 2);
    assert_eq!(engine.pending_calls.len(), 0);
}

#[test]
fn deltas_follow_their_started_item() {
    let mut engine = TurnEngine::new(Vec::new());

    let events = engine.on_event(ResponseEvent::OutputItemAdded {
        item: assistant_message(Some("item_7"), ""),
    });
    assert_eq!(events.len(), 1);
    match &events[0] {
        SessionEvent::ItemStarted { item_id, .. } => assert_eq!(item_id, "item_7"),
        other => panic!("unexpected event: {other:?}"),
    }

    let events = engine.on_event(ResponseEvent::OutputTextDelta {
        delta: "Hel".to_string(),
    });
    assert_eq!(events.len(), 1);
    match &events[0] {
        SessionEvent::AgentMessageContentDelta { item_id, delta } => {
            assert_eq!(item_id, "item_7");
            assert_eq!(delta, "Hel");
        }
        other => panic!("unexpected event: {other:?}"),
    }

    let events = engine.on_event(ResponseEvent::OutputItemDone {
        item: assistant_message(Some("item_7"), "Hello"),
    });
    assert_eq!(events.len(), 1);
    match &events[0] {
        SessionEvent::ItemCompleted { item_id, .. } => assert_eq!(item_id, "item_7"),
        other => panic!("unexpected event: {other:?}"),
    }
    assert_eq!(engine.violations, 0);
}

#[test]
fn delta_without_active_item_is_a_violation() {
    let mut engine = TurnEngine::new(Vec::new());
    let events = engine.on_event(ResponseEvent::OutputTextDelta {
        delta: "orphan".to_string(),
    });
    assert!(events.is_empty());
    assert_eq!(engine.violations, 1);
}

#[test]
fn tool_outputs_drain_in_call_order() {
    let mut engine = TurnEngine::new(Vec::new());

    // Tool A arrives first, tool B second; B's output is ready first,
    // but history still records A's output before B's.
    engine.on_event(ResponseEvent::OutputItemDone {
        item: function_call("tool_a", "call_a"),
    });
    engine.on_event(ResponseEvent::OutputItemDone {
        item: function_call("tool_b", "call_b"),
    });
    assert!(engine.needs_follow_up);
    assert_eq!(engine.pending_calls.len(), 2);
    assert_eq!(engine.pending_calls[0].call_id, "call_a");
    assert_eq!(engine.pending_calls[1].call_id, "call_b");

    engine.on_event(ResponseEvent::Completed {
        response_id: "r".to_string(),
        token_usage: None,
    });

    let outputs = vec![
        ResponseInputItem::FunctionCallOutput {
            call_id: "call_a".to_string(),
            output: FunctionCallOutputPayload {
                content: "a done (slow)".to_string(),
                success: Some(true),
            },
        },
        ResponseInputItem::FunctionCallOutput {
            call_id: "call_b".to_string(),
            output: FunctionCallOutputPayload {
                content: "b done (fast)".to_string(),
                success: Some(true),
            },
        },
    ];
    engine.drain_outputs(&outputs);

    assert_eq!(engine.recorded.len(), 4);
    match &engine.recorded[2] {
        ResponseItem::FunctionCallOutput { call_id, output } => {
            assert_eq!(call_id, "call_a");
            assert_eq!(output.content, "a done (slow)");
        }
        other => panic!("unexpected item: {other:?}"),
    }
    match &engine.recorded[3] {
        ResponseItem::FunctionCallOutput { call_id, .. } => assert_eq!(call_id, "call_b"),
        other => panic!("unexpected item: {other:?}"),
    }

    // The turn diff, when one exists, comes after every output.
    let events = engine.finish_turn(Some("diff --git a b".to_string()));
    assert_eq!(events.len(), 1);
    assert!(matches!(events[0], SessionEvent::TurnDiff { .. }));
}

#[test]
fn missing_local_shell_call_id_keeps_turn_alive() {
    let mut engine = TurnEngine::new(Vec::new());
    engine.on_event(ResponseEvent::OutputItemDone {
        item: ResponseItem::LocalShellCall {
            id: None,
            call_id: None,
            command: vec!["ls".to_string()],
        },
    });
    assert!(engine.needs_follow_up);
    assert_eq!(engine.pending_calls.len(), 0);
    assert_eq!(engine.recorded.len(), 2);
    match &engine.recorded[1] {
        ResponseItem::FunctionCallOutput { call_id, output } => {
            assert_eq!(call_id, "");
            assert_eq!(output.content, "LocalShellCall without call_id or id");
        }
        other => panic!("unexpected item: {other:?}"),
    }
}

#[test]
fn mcp_tools_route_function_calls() {
    let mut engine = TurnEngine::new(vec![McpToolRef {
        qualified_name: "docs__search".to_string(),
        server: "docs".to_string(),
        tool: "search".to_string(),
    }]);
    engine.on_event(ResponseEvent::OutputItemDone {
        item: function_call("docs__search", "call_1"),
    });
    assert_eq!(engine.pending_calls.len(), 1);
    match &engine.pending_calls[0].payload {
        ToolPayload::Mcp { server, tool, .. } => {
            assert_eq!(server, "docs");
            assert_eq!(tool, "search");
        }
        other => panic!("unexpected payload: {other:?}"),
    }
}

#[test]
fn aborted_shell_tool_reports_wall_time() {
    let call = ToolCall {
        tool_name: "local_shell".to_string(),
        call_id: "c9".to_string(),
        payload: ToolPayload::Function {
            arguments: "{}".to_string(),
        },
    };
    assert_eq!(
        abort_message(&call, 23),
        "Wall time: 2.3 seconds\naborted by user"
    );
    match aborted_response(&call, 23) {
        ResponseInputItem::FunctionCallOutput { call_id, output } => {
            assert_eq!(call_id, "c9");
            assert_eq!(output.content, "Wall time: 2.3 seconds\naborted by user");
            assert_eq!(output.success, None);
        }
        other => panic!("unexpected response: {other:?}"),
    }

    let other_call = ToolCall {
        tool_name: "apply_patch".to_string(),
        call_id: "c10".to_string(),
        payload: ToolPayload::Custom {
            input: "x".to_string(),
        },
    };
    assert_eq!(abort_message(&other_call, 4), "aborted by user after 0.4s");
    match aborted_response(&other_call, 4) {
        ResponseInputItem::CustomToolCallOutput { call_id, output } => {
            assert_eq!(call_id, "c10");
            assert_eq!(output, "aborted by user after 0.4s");
        }
        other => panic!("unexpected response: {other:?}"),
    }

    // The runtime measures wall time in milliseconds and never reports
    // less than a tenth of a second.
    assert_eq!(abort_tenths_from_millis(40), 1);
    assert_eq!(abort_tenths_from_millis(2340), 23);
}

#[test]
fn interrupted_turn_records_abort_outputs_for_pending_tools() {
    let mut engine = TurnEngine::new(Vec::new());
    engine.on_event(ResponseEvent::OutputItemDone {
        item: ResponseItem::FunctionCall {
            name: "local_shell".to_string(),
            arguments: "{}".to_string(),
            call_id: "c1".to_string(),
        },
    });
    assert_eq!(engine.pending_calls.len(), 1);

    // The stream is interrupted before completion; the runtime resolves
    // the pending shell tool with the abort output, and the drain still
    // records exactly one output for the call.
    let outputs = vec![aborted_response(&engine.pending_calls[0], 23)];
    engine.drain_outputs(&outputs);
    assert!(!engine.completed);
    assert_eq!(engine.recorded.len(), 2);
    match &engine.recorded[1] {
        ResponseItem::FunctionCallOutput { call_id, output } => {
            assert_eq!(call_id, "c1");
            assert_eq!(output.content, "Wall time: 2.3 seconds\naborted by user");
        }
        other => panic!("unexpected item: {other:?}"),
    }
    // An interrupted turn emits no diff.
    assert!(engine.finish_turn(Some("diff".to_string())).is_empty());
}
