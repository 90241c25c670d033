//! The tool registry and router: registration, lookup, dispatch
//! decisions, parallel capability, and call construction.

use codex_core::errors::FunctionCallError;
use codex_core::tools::build_tool_call;
use codex_core::tools::failure_response;
use codex_core::tools::unsupported_tool_call_message;
use codex_core::tools::ConfiguredToolSpec;
use codex_core::tools::ShellToolCallParams;
use codex_core::tools::ToolCall;
use codex_core::tools::ToolHandler;
use codex_core::tools::ToolInvocation;
use codex_core::tools::ToolKind;
use codex_core::tools::ToolPayload;
use codex_core::tools::ToolRegistryBuilder;
use codex_core::tools::ToolRouter;
use codex_core::tools::ToolSpec;
use codex_core::items::ResponseInputItem;
use codex_core::items::ResponseItem;

#[derive(Debug, PartialEq, Eq)]
struct TestHandler {
    kind: ToolKind,
    label: u32,
}

impl ToolHandler for TestHandler {
    fn kind(&self) -> ToolKind {
        self.kind
    }
}

fn invocation(name: &str, payload: ToolPayload) -> ToolInvocation {
    ToolInvocation {
        tool_name: name.to_string(),
        call_id: "call_1".to_string(),
        payload,
    }
}

fn function_payload() -> ToolPayload {
    ToolPayload::Function {
        arguments: "{}".to_string(),
    }
}

#[test]
fn registry_routes_known_function_tool() {
    let mut builder: ToolRegistryBuilder<TestHandler> = ToolRegistryBuilder::new();
    builder.push_spec(ToolSpec {
        name: "shell".to_string(),
    });
    builder.register_handler(
        "shell".to_string(),
        TestHandler {
            kind: ToolKind::Function,
            label: 1,
        },
    );
    let (specs, registry) = builder.build();
    assert_eq!(specs.len(), 1);

    let handler = registry.handler("shell");
    assert_eq!(
        handler,
        Some(&TestHandler {
            kind: ToolKind::Function,
            label: 1
        })
    );
    assert!(registry.handler("missing").is_none());

    let dispatched = registry.dispatch(&invocation("shell", function_payload()));
    assert_eq!(
        dispatched,
        Ok(&TestHandler {
            kind: ToolKind::Function,
            label: 1
        })
    );
}

#[test]
fn unknown_tool_corrects_the_model() {
    let builder: ToolRegistryBuilder<TestHandler> = ToolRegistryBuilder::new();
    let (_, registry) = builder.build();

    match registry.dispatch(&invocation("nope", function_payload())) {
        Err(FunctionCallError::RespondToModel { message }) => {
            assert_eq!(message, "unsupported call: nope")
        }
        other => panic!("unexpected dispatch: {other:?}"),
    }

    match registry.dispatch(&invocation(
        "nope",
        ToolPayload::Custom {
            input: "x".to_string(),
        },
    )) {
        Err(FunctionCallError::RespondToModel { message }) => {
            assert_eq!(message, "unsupported custom tool call: nope")
        }
        other => panic!("unexpected dispatch: {other:?}"),
    }

    assert_eq!(
        unsupported_tool_call_message(&function_payload(), "nope"),
        "unsupported call: nope"
    );
}

#[test]
fn payload_kind_mismatch_is_fatal() {
    let mut builder: ToolRegistryBuilder<TestHandler> = ToolRegistryBuilder::new();
    builder.register_handler(
        "docs".to_string(),
        TestHandler {
            kind: ToolKind::Mcp,
            label: 2,
        },
    );
    let (_, registry) = builder.build();

    match registry.dispatch(&invocation("docs", function_payload())) {
        Err(FunctionCallError::Fatal { message }) => {
            assert_eq!(message, "tool docs invoked with incompatible payload")
        }
        other => panic!("unexpected dispatch: {other:?}"),
    }
}

#[test]
fn registering_a_name_again_replaces_the_handler() {
    let mut builder: ToolRegistryBuilder<TestHandler> = ToolRegistryBuilder::new();
    builder.register_handler(
        "shell".to_string(),
        TestHandler {
            kind: ToolKind::Function,
            label: 1,
        },
    );
    builder.register_handler(
        "docs".to_string(),
        TestHandler {
            kind: ToolKind::Mcp,
            label: 9,
        },
    );
    builder.register_handler(
        "shell".to_string(),
        TestHandler {
            kind: ToolKind::Function,
            label: 2,
        },
    );
    let (_, registry) = builder.build();
    // The last registration wins; the other entry is untouched.
    assert_eq!(
        registry.handler("shell"),
        Some(&TestHandler {
            kind: ToolKind::Function,
            label: 2
        })
    );
    assert_eq!(
        registry.handler("docs"),
        Some(&TestHandler {
            kind: ToolKind::Mcp,
            label: 9
        })
    );
}

#[test]
fn tool_supports_parallel_consults_the_specs() {
    let mut builder: ToolRegistryBuilder<TestHandler> = ToolRegistryBuilder::new();
    builder.push_spec_with_parallel_support(
        ToolSpec {
            name: "read_file".to_string(),
        },
        true,
    );
    builder.push_spec(ToolSpec {
        name: "shell".to_string(),
    });
    let (specs, registry) = builder.build();
    let router = ToolRouter { registry, specs };

    assert!(router.tool_supports_parallel("read_file"));
    assert!(!router.tool_supports_parallel("shell"));
    assert!(!router.tool_supports_parallel("absent"));

    let names: Vec<String> = router.specs().into_iter().map(|s| s.name).collect();
    assert_eq!(names, vec!["read_file".to_string(), "shell".to_string()]);
}

#[test]
fn build_tool_call_routes_each_item_kind() {
    // A plain function call.
    let item = ResponseItem::FunctionCall {
        name: "shell".to_string(),
        arguments: "{\"cmd\":1}".to_string(),
        call_id: "c1".to_string(),
    };
    match build_tool_call(&item, None) {
        Ok(Some(ToolCall {
            tool_name,
            call_id,
            payload: ToolPayload::Function { arguments },
        })) => {
            assert_eq!(tool_name, "shell");
            assert_eq!(call_id, "c1");
            assert_eq!(arguments, "{\"cmd\":1}");
        }
        other => panic!("unexpected call: {other:?}"),
    }

    // The same wire item routed to a discovered MCP tool.
    match build_tool_call(
        &item,
        Some(("docs".to_string(), "search".to_string())),
    ) {
        Ok(Some(ToolCall {
            payload: ToolPayload::Mcp { server, tool, .. },
            ..
        })) => {
            assert_eq!(server, "docs");
            assert_eq!(tool, "search");
        }
        other => panic!("unexpected call: {other:?}"),
    }

    // A custom tool call.
    let custom = ResponseItem::CustomToolCall {
        name: "apply_patch".to_string(),
        input: "patch".to_string(),
        call_id: "c2".to_string(),
    };
    match build_tool_call(&custom, None) {
        Ok(Some(ToolCall {
            tool_name,
            payload: ToolPayload::Custom { input },
            ..
        })) => {
            assert_eq!(tool_name, "apply_patch");
            assert_eq!(input, "patch");
        }
        other => panic!("unexpected call: {other:?}"),
    }

    // A local shell call takes its call id, falling back to its item id.
    let shell = ResponseItem::LocalShellCall {
        id: Some("item_3".to_string()),
        call_id: None,
        command: vec!["ls".to_string(), "-l".to_string()],
    };
    match build_tool_call(&shell, None) {
        Ok(Some(ToolCall {
            tool_name,
            call_id,
            payload: ToolPayload::LocalShell {
                params: ShellToolCallParams { command, .. },
            },
        })) => {
            assert_eq!(tool_name, "local_shell");
            assert_eq!(call_id, "item_3");
            assert_eq!(command, vec!["ls".to_string(), "-l".to_string()]);
        }
        other => panic!("unexpected call: {other:?}"),
    }

    // One with no id at all is the contract violation.
    let bad = ResponseItem::LocalShellCall {
        id: None,
        call_id: None,
        command: vec![],
    };
    assert_eq!(
        build_tool_call(&bad, None),
        Err(FunctionCallError::MissingLocalShellCallId)
    );

    // Non-call items are no tool calls.
    let msg = ResponseItem::CompactSummary {
        text: "s".to_string(),
    };
    assert_eq!(build_tool_call(&msg, None), Ok(None));
}

#[test]
fn failure_responses_match_the_payload_shape() {
    match failure_response(
        "c5".to_string(),
        false,
        FunctionCallError::RespondToModel {
            message: "bad arguments".to_string(),
        },
    ) {
        ResponseInputItem::FunctionCallOutput { call_id, output } => {
            assert_eq!(call_id, "c5");
            assert_eq!(output.content, "bad arguments");
            assert_eq!(output.success, Some(false));
        }
        other => panic!("unexpected response: {other:?}"),
    }

    match failure_response(
        "c6".to_string(),
        true,
        FunctionCallError::Denied {
            message: "denied".to_string(),
        },
    ) {
        ResponseInputItem::CustomToolCallOutput { call_id, output } => {
            assert_eq!(call_id, "c6");
            assert_eq!(output, "denied");
        }
        other => panic!("unexpected response: {other:?}"),
    }
}

#[test]
fn spec_tools_check_a_handlers_defaults() {
    let handler = TestHandler {
        kind: ToolKind::Function,
        label: 1,
    };
    assert!(handler.matches_kind(&function_payload()));
    assert!(!handler.matches_kind(&ToolPayload::Mcp {
        server: "s".to_string(),
        tool: "t".to_string(),
        raw_arguments: "{}".to_string(),
    }));
    assert!(!handler.is_mutating(&invocation("shell", function_payload())));

    let spec = ConfiguredToolSpec::new(
        ToolSpec {
            name: "shell".to_string(),
        },
        false,
    );
    assert_eq!(spec.spec.name(), "shell");
}
