//! The tool registry and router: which tools exist, which handler
//! answers a call, whether a tool may run in parallel, and the exact
//! items written back when a call cannot be dispatched or is aborted.
//!
//! Handlers themselves do I/O, so running one is the runtime's job
//! outside this crate; everything decided before and after the run —
//! lookup, payload compatibility, failure and abort payloads — is here,
//! verified.

use vstd::prelude::*;

use crate::errors::FunctionCallError;
use crate::errors::spec_function_call_error_text;
use crate::fmt_text::spec_tenths;
use crate::fmt_text::tenths_to_decimal;
use crate::items::FunctionCallOutputPayload;
use crate::items::ItemView;
use crate::items::ResponseInputItem;
use crate::items::ResponseItem;
use crate::items::clone_string_vec;
use crate::text::str_eq;

verus! {

/// The two families of handlers.
#[derive(Clone, Copy, Debug, PartialEq, Eq, Hash)]
pub enum ToolKind {
    Function,
    Mcp,
}

/// The parameters of a local shell call.
#[derive(Clone, Debug, PartialEq, Eq)]
pub struct ShellToolCallParams {
    pub command: Vec<String>,
    pub workdir: Option<String>,
    pub timeout_ms: Option<u64>,
}

/// The mathematical value of shell parameters.
pub struct ShellToolCallParamsView {
    pub command: Seq<String>,
    pub workdir: Option<String>,
    pub timeout_ms: Option<u64>,
}

impl View for ShellToolCallParams {
    type V = ShellToolCallParamsView;

    open spec fn view(&self) -> ShellToolCallParamsView {
        ShellToolCallParamsView {
            command: self.command@,
            workdir: self.workdir,
            timeout_ms: self.timeout_ms,
        }
    }
}

/// The argument payload of one tool call.
#[derive(Clone, Debug, PartialEq, Eq)]
pub enum ToolPayload {
    Function { arguments: String },
    Custom { input: String },
    Mcp { server: String, tool: String, raw_arguments: String },
    LocalShell { params: ShellToolCallParams },
}

/// The mathematical value of a payload.
pub enum ToolPayloadView {
    Function { arguments: String },
    Custom { input: String },
    Mcp { server: String, tool: String, raw_arguments: String },
    LocalShell { params: ShellToolCallParamsView },
}

impl View for ToolPayload {
    type V = ToolPayloadView;

    open spec fn view(&self) -> ToolPayloadView {
        match *self {
            ToolPayload::Function { arguments } => ToolPayloadView::Function { arguments },
            ToolPayload::Custom { input } => ToolPayloadView::Custom { input },
            ToolPayload::Mcp { server, tool, raw_arguments } => ToolPayloadView::Mcp {
                server,
                tool,
                raw_arguments,
            },
            ToolPayload::LocalShell { params } => ToolPayloadView::LocalShell { params: params@ },
        }
    }
}

/// One tool call the model asked for.
#[derive(Clone, Debug, PartialEq, Eq)]
pub struct ToolCall {
    pub tool_name: String,
    pub call_id: String,
    pub payload: ToolPayload,
}

/// The mathematical value of a tool call.
pub struct ToolCallView {
    pub tool_name: String,
    pub call_id: String,
    pub payload: ToolPayloadView,
}

impl View for ToolCall {
    type V = ToolCallView;

    open spec fn view(&self) -> ToolCallView {
        ToolCallView {
            tool_name: self.tool_name,
            call_id: self.call_id,
            payload: self.payload@,
        }
    }
}

/// Everything a handler receives for one call.
#[derive(Debug, PartialEq, Eq)]
pub struct ToolInvocation {
    pub tool_name: String,
    pub call_id: String,
    pub payload: ToolPayload,
}

/// Whether a payload is of the shape a handler family accepts: function
/// payloads fit function handlers, MCP payloads fit MCP handlers, and
/// nothing else fits by kind alone.
pub open spec fn spec_kind_matches(kind: ToolKind, payload: ToolPayloadView) -> bool {
    match payload {
        ToolPayloadView::Function { .. } => kind == ToolKind::Function,
        ToolPayloadView::Mcp { .. } => kind == ToolKind::Mcp,
        _ => false,
    }
}

/// The contract every tool exposes to the router. Running a handler does
/// I/O and happens in the runtime outside this crate; the router routes
/// by the kind the handler reports when it is registered.
pub trait ToolHandler: Sized {
    /// The family this handler belongs to.
    fn kind(&self) -> ToolKind;

    /// Whether a payload is of the shape this handler accepts.
    fn matches_kind(&self, payload: &ToolPayload) -> bool {
        let k = self.kind();
        match payload {
            ToolPayload::Function { .. } => matches!(k, ToolKind::Function),
            ToolPayload::Mcp { .. } => matches!(k, ToolKind::Mcp),
            _ => false,
        }
    }

    /// Whether this call mutates the environment and must wait for the
    /// turn's readiness latch before running.
    fn is_mutating(&self, invocation: &ToolInvocation) -> bool {
        let _ = invocation;
        false
    }
}

/// One registered tool: its name, the family it reported when it was
/// registered, and the handler itself.
pub struct ToolEntry<H> {
    pub name: String,
    pub kind: ToolKind,
    pub handler: H,
}

/// Whether a registry's entries hold the given tool name.
pub open spec fn spec_has_tool<H>(entries: Seq<ToolEntry<H>>, name: Seq<char>) -> bool {
    exists|i: int| 0 <= i < entries.len() && entries[i].name@ == name
}

/// The index at which a name is registered; meaningful when the name is
/// registered and the names are unique.
pub open spec fn spec_tool_index<H>(entries: Seq<ToolEntry<H>>, name: Seq<char>) -> int {
    choose|i: int| 0 <= i < entries.len() && entries[i].name@ == name
}

/// Whether every registered name is distinct.
pub open spec fn spec_tools_unique<H>(entries: Seq<ToolEntry<H>>) -> bool {
    forall|i: int, j: int|
        0 <= i < j < entries.len() ==> (#[trigger] entries[i].name@) != (
        #[trigger] entries[j].name@)
}

/// The registry: tool name to handler, each name registered once.
pub struct ToolRegistry<H> {
    pub handlers: Vec<ToolEntry<H>>,
}

impl<H: ToolHandler> ToolRegistry<H> {
    /// Whether the registry is well formed: no name twice.
    pub open spec fn wf(&self) -> bool {
        spec_tools_unique(self.handlers@)
    }

    /// A registry over the given entries.
    pub fn new(handlers: Vec<ToolEntry<H>>) -> (r: ToolRegistry<H>)
        requires
            spec_tools_unique(handlers@),
        ensures
            r.handlers@ == handlers@,
            r.wf(),
    {
        ToolRegistry { handlers }
    }

    /// Looks up the handler registered under a name.
    pub fn handler(&self, name: &str) -> (r: Option<&H>)
        ensures
            r is Some <==> spec_has_tool(self.handlers@, name@),
            r matches Some(h) ==> exists|i: int|
                0 <= i < self.handlers@.len() && (#[trigger] self.handlers@[i].name@) == name@ && *h
                    == self.handlers@[i].handler,
    {
        let mut i: usize = 0;
        while i < self.handlers.len()
            invariant
                i <= self.handlers@.len(),
                forall|j: int| 0 <= j < i ==> (#[trigger] self.handlers@[j].name@) != name@,
            decreases self.handlers@.len() - i,
        {
            if str_eq(self.handlers[i].name.as_str(), name) {
                return Some(&self.handlers[i].handler);
            }
            i = i + 1;
        }
        None
    }

    /// Decides who answers one call — exactly one of three outcomes: a
    /// correction for the model when the tool does not exist; a fatal
    /// contract violation when the payload does not fit the kind the
    /// registered handler reported; otherwise the handler itself.
    /// Running the chosen handler is the runtime's job.
    #[verifier::loop_isolation(false)]
    pub fn dispatch(&self, invocation: &ToolInvocation) -> (r: Result<&H, FunctionCallError>)
        requires
            self.wf(),
        ensures
            !spec_has_tool(self.handlers@, invocation.tool_name@) ==> (r matches Err(
                FunctionCallError::RespondToModel { message },
            ) && message@ == spec_unsupported_message(
                invocation.payload@,
                invocation.tool_name@,
            )),
            spec_has_tool(self.handlers@, invocation.tool_name@) ==> ({
                let entry = self.handlers@[spec_tool_index(
                    self.handlers@,
                    invocation.tool_name@,
                )];
                if spec_kind_matches(entry.kind, invocation.payload@) {
                    r matches Ok(h) && *h == entry.handler
                } else {
                    r matches Err(FunctionCallError::Fatal { message }) && message@
                        == spec_incompatible_message(invocation.tool_name@)
                }
            }),
    {
        let ghost name = invocation.tool_name@;
        let mut i: usize = 0;
        while i < self.handlers.len()
            invariant
                i <= self.handlers@.len(),
                forall|j: int| 0 <= j < i ==> (#[trigger] self.handlers@[j].name@) != name,
            decreases self.handlers@.len() - i,
        {
            if str_eq(self.handlers[i].name.as_str(), invocation.tool_name.as_str()) {
                proof {
                    let idx = spec_tool_index(self.handlers@, name);
                    assert(self.handlers@[i as int].name@ == name);
                    assert(0 <= idx < self.handlers@.len() && self.handlers@[idx].name@ == name);
                    assert(idx == i);
                }
                let compatible = match (&self.handlers[i].kind, &invocation.payload) {
                    (ToolKind::Function, ToolPayload::Function { .. }) => true,
                    (ToolKind::Mcp, ToolPayload::Mcp { .. }) => true,
                    _ => false,
                };
                if !compatible {
                    proof {
                        reveal_strlit("tool ");
                        reveal_strlit(" invoked with incompatible payload");
                    }
                    let message = String::from_str("tool ").concat(
                        invocation.tool_name.as_str(),
                    ).concat(" invoked with incompatible payload");
                    return Err(FunctionCallError::Fatal { message });
                }
                return Ok(&self.handlers[i].handler);
            }
            i = i + 1;
        }
        let message = unsupported_tool_call_message(
            &invocation.payload,
            invocation.tool_name.as_str(),
        );
        Err(FunctionCallError::RespondToModel { message })
    }
}

/// The correction shown to the model for a call to an unknown tool.
pub open spec fn spec_unsupported_message(payload: ToolPayloadView, name: Seq<char>) -> Seq<char> {
    if payload matches ToolPayloadView::Custom { .. } {
        "unsupported custom tool call: "@ + name
    } else {
        "unsupported call: "@ + name
    }
}

/// The fatal message for a payload that does not fit its handler.
pub open spec fn spec_incompatible_message(name: Seq<char>) -> Seq<char> {
    "tool "@ + name + " invoked with incompatible payload"@
}

/// Renders the correction shown to the model for an unknown tool.
pub fn unsupported_tool_call_message(payload: &ToolPayload, tool_name: &str) -> (r: String)
    ensures
        r@ == spec_unsupported_message(payload@, tool_name@),
{
    proof {
        reveal_strlit("unsupported custom tool call: ");
        reveal_strlit("unsupported call: ");
    }
    match payload {
        ToolPayload::Custom { .. } => String::from_str("unsupported custom tool call: ").concat(
            tool_name,
        ),
        _ => String::from_str("unsupported call: ").concat(tool_name),
    }
}

/// One tool as shown to the model.
#[derive(Debug, PartialEq, Eq)]
pub struct ToolSpec {
    pub name: String,
}

impl ToolSpec {
    /// The tool's name.
    pub fn name(&self) -> (r: &str)
        ensures
            r@ == self.name@,
    {
        self.name.as_str()
    }

    /// A copy of the spec.
    pub fn duplicate(&self) -> (r: ToolSpec)
        ensures
            r.name@ == self.name@,
    {
        ToolSpec { name: self.name.clone() }
    }
}

/// One tool as shown to the model, with its scheduling discipline.
#[derive(Debug, PartialEq, Eq)]
pub struct ConfiguredToolSpec {
    pub spec: ToolSpec,
    pub supports_parallel_tool_calls: bool,
}

impl ConfiguredToolSpec {
    /// Pairs a spec with its scheduling discipline.
    pub fn new(spec: ToolSpec, supports_parallel_tool_calls: bool) -> (r: ConfiguredToolSpec)
        ensures
            r.spec.name@ == spec.name@,
            r.supports_parallel_tool_calls == supports_parallel_tool_calls,
    {
        ConfiguredToolSpec { spec, supports_parallel_tool_calls }
    }
}

/// Collects tool specs and handlers before the registry is sealed.
pub struct ToolRegistryBuilder<H> {
    pub handlers: Vec<ToolEntry<H>>,
    pub specs: Vec<ConfiguredToolSpec>,
}

impl<H: ToolHandler> ToolRegistryBuilder<H> {
    /// Whether the collected names are distinct.
    pub open spec fn wf(&self) -> bool {
        spec_tools_unique(self.handlers@)
    }

    /// An empty builder.
    pub fn new() -> (r: ToolRegistryBuilder<H>)
        ensures
            r.handlers@.len() == 0,
            r.specs@.len() == 0,
            r.wf(),
    {
        ToolRegistryBuilder { handlers: Vec::new(), specs: Vec::new() }
    }

    /// Adds a tool spec that does not support parallel calls.
    pub fn push_spec(&mut self, spec: ToolSpec)
        ensures
            final(self).handlers@ == old(self).handlers@,
            final(self).specs@.len() == old(self).specs@.len() + 1,
            final(self).specs@.drop_last() == old(self).specs@,
            final(self).specs@.last().spec.name@ == spec.name@,
            final(self).specs@.last().supports_parallel_tool_calls == false,
            old(self).wf() ==> final(self).wf(),
    {
        self.push_spec_with_parallel_support(spec, false);
    }

    /// Adds a tool spec with the given scheduling discipline.
    pub fn push_spec_with_parallel_support(
        &mut self,
        spec: ToolSpec,
        supports_parallel_tool_calls: bool,
    )
        ensures
            final(self).handlers@ == old(self).handlers@,
            final(self).specs@.len() == old(self).specs@.len() + 1,
            final(self).specs@.drop_last() == old(self).specs@,
            final(self).specs@.last().spec.name@ == spec.name@,
            final(self).specs@.last().supports_parallel_tool_calls == supports_parallel_tool_calls,
            old(self).wf() ==> final(self).wf(),
    {
        self.specs.push(ConfiguredToolSpec::new(spec, supports_parallel_tool_calls));
        proof {
            assert(self.specs@.drop_last() =~= old(self).specs@);
        }
    }

    /// Registers a handler under a name; registering a name again
    /// replaces the earlier handler.
    #[verifier::loop_isolation(false)]
    pub fn register_handler(&mut self, name: String, handler: H)
        requires
            old(self).wf(),
        ensures
            final(self).wf(),
            final(self).specs@ == old(self).specs@,
            spec_has_tool(final(self).handlers@, name@),
            forall|n: Seq<char>|
                spec_has_tool(final(self).handlers@, n) <==> (spec_has_tool(
                    old(self).handlers@,
                    n,
                ) || n == name@),
            spec_has_tool(old(self).handlers@, name@) ==> ({
                let i = spec_tool_index(old(self).handlers@, name@);
                &&& final(self).handlers@.len() == old(self).handlers@.len()
                &&& (forall|j: int|
                    0 <= j < final(self).handlers@.len() && j != i ==> final(self).handlers@[j]
                        == old(self).handlers@[j])
                &&& final(self).handlers@[i].name@ == name@
                &&& final(self).handlers@[i].handler == handler
            }),
            !spec_has_tool(old(self).handlers@, name@) ==> (final(self).handlers@.len() == old(self).handlers@.len() + 1 && final(self).handlers@.drop_last() == old(self).handlers@
                && final(self).handlers@.last().name@ == name@ && final(self).handlers@.last().handler
                == handler),
    {
        let ghost olds = old(self).handlers@;
        let mut i: usize = 0;
        while i < self.handlers.len()
            invariant
                i <= self.handlers@.len(),
                forall|j: int| 0 <= j < i ==> (#[trigger] self.handlers@[j].name@) != name@,
                self.handlers@ == olds,
                self.specs@ == old(self).specs@,
            decreases self.handlers@.len() - i,
        {
            if str_eq(self.handlers[i].name.as_str(), name.as_str()) {
                let kind = handler.kind();
                self.handlers.set(i, ToolEntry { name, kind, handler });
                proof {
                    let new = self.handlers@;
                    let k = spec_tool_index(olds, name@);
                    assert(olds[i as int].name@ == name@);
                    assert(0 <= k < olds.len() && olds[k].name@ == name@);
                    assert(k == i);
                    assert(new.len() == olds.len());
                    assert(forall|j: int|
                        0 <= j < new.len() ==> (#[trigger] new[j].name@) == olds[j].name@);
                    assert forall|p: int, q: int|
                        0 <= p < q < new.len() implies (#[trigger] new[p].name@) != (
                    #[trigger] new[q].name@) by {
                        assert(olds[p].name@ != olds[q].name@);
                    }
                    assert forall|n: Seq<char>|
                        spec_has_tool(new, n) <==> (spec_has_tool(olds, n) || n == name@) by {
                        if spec_has_tool(olds, n) {
                            let k = choose|k: int|
                                0 <= k < olds.len() && (#[trigger] olds[k].name@) == n;
                            assert(new[k].name@ == n);
                        }
                        if n == name@ {
                            assert(new[i as int].name@ == name@);
                        }
                        if spec_has_tool(new, n) {
                            let k = choose|k: int|
                                0 <= k < new.len() && (#[trigger] new[k].name@) == n;
                            assert(olds[k].name@ == n);
                        }
                    }
                }
                return ;
            }
            i = i + 1;
        }
        let kind = handler.kind();
        self.handlers.push(ToolEntry { name, kind, handler });
        proof {
            let new = self.handlers@;
            assert(new.len() == olds.len() + 1);
            assert(forall|j: int| 0 <= j < olds.len() ==> new[j] == olds[j]);
            assert(new[olds.len() as int].name@ == name@);
            assert forall|p: int, q: int|
                0 <= p < q < new.len() implies (#[trigger] new[p].name@) != (
            #[trigger] new[q].name@) by {
                if q < olds.len() {
                    assert(olds[p].name@ != olds[q].name@);
                } else {
                    assert(new[q].name@ == name@);
                    assert(new[p].name@ == olds[p].name@);
                    assert(olds[p].name@ != name@);
                }
            }
            assert forall|n: Seq<char>|
                spec_has_tool(new, n) <==> (spec_has_tool(olds, n) || n == name@) by {
                if spec_has_tool(olds, n) {
                    let k = choose|k: int| 0 <= k < olds.len() && (#[trigger] olds[k].name@) == n;
                    assert(new[k].name@ == n);
                }
                if n == name@ {
                    assert(new[olds.len() as int].name@ == name@);
                }
                if spec_has_tool(new, n) {
                    let k = choose|k: int| 0 <= k < new.len() && (#[trigger] new[k].name@) == n;
                    if k < olds.len() {
                        assert(olds[k].name@ == n);
                    } else {
                        assert(n == name@);
                    }
                }
            }
        }
    }

    /// Seals the builder into the specs shown to the model and the
    /// registry that routes calls.
    pub fn build(self) -> (r: (Vec<ConfiguredToolSpec>, ToolRegistry<H>))
        requires
            self.wf(),
        ensures
            r.0@ == self.specs@,
            r.1.handlers@ == self.handlers@,
            r.1.wf(),
    {
        let ToolRegistryBuilder { handlers, specs } = self;
        (specs, ToolRegistry::new(handlers))
    }
}

/// The router: the sealed specs and the registry.
pub struct ToolRouter<H> {
    pub registry: ToolRegistry<H>,
    pub specs: Vec<ConfiguredToolSpec>,
}

/// Whether the specs mark a tool as parallel-capable.
pub open spec fn spec_tool_supports_parallel(
    specs: Seq<ConfiguredToolSpec>,
    tool_name: Seq<char>,
) -> bool {
    exists|i: int|
        0 <= i < specs.len() && (#[trigger] specs[i].supports_parallel_tool_calls)
            && specs[i].spec.name@ == tool_name
}

impl<H: ToolHandler> ToolRouter<H> {
    /// The tool specs shown to the model, in registration order.
    pub fn specs(&self) -> (r: Vec<ToolSpec>)
        ensures
            r@.len() == self.specs@.len(),
            forall|i: int|
                0 <= i < r@.len() ==> (#[trigger] r@[i].name@) == self.specs@[i].spec.name@,
    {
        let mut r: Vec<ToolSpec> = Vec::new();
        let mut i: usize = 0;
        while i < self.specs.len()
            invariant
                i <= self.specs@.len(),
                r@.len() == i,
                forall|j: int|
                    0 <= j < i ==> (#[trigger] r@[j].name@) == self.specs@[j].spec.name@,
            decreases self.specs@.len() - i,
        {
            r.push(self.specs[i].spec.duplicate());
            i = i + 1;
        }
        r
    }

    /// Whether the named tool may overlap other tools: true exactly when
    /// some spec of that name carries the parallel flag.
    pub fn tool_supports_parallel(&self, tool_name: &str) -> (r: bool)
        ensures
            r == spec_tool_supports_parallel(self.specs@, tool_name@),
    {
        let mut i: usize = 0;
        while i < self.specs.len()
            invariant
                i <= self.specs@.len(),
                forall|j: int|
                    0 <= j < i ==> !((#[trigger] self.specs@[j].supports_parallel_tool_calls)
                        && self.specs@[j].spec.name@ == tool_name@),
            decreases self.specs@.len() - i,
        {
            if self.specs[i].supports_parallel_tool_calls && str_eq(
                self.specs[i].spec.name.as_str(),
                tool_name,
            ) {
                return true;
            }
            i = i + 1;
        }
        false
    }

    /// Decides who answers one call, exactly as the registry does.
    pub fn dispatch_tool_call(&self, invocation: &ToolInvocation) -> (r: Result<
        &H,
        FunctionCallError,
    >)
        requires
            self.registry.wf(),
        ensures
            !spec_has_tool(self.registry.handlers@, invocation.tool_name@) ==> (r matches Err(
                FunctionCallError::RespondToModel { message },
            ) && message@ == spec_unsupported_message(
                invocation.payload@,
                invocation.tool_name@,
            )),
            spec_has_tool(self.registry.handlers@, invocation.tool_name@) ==> ({
                let entry = self.registry.handlers@[spec_tool_index(
                    self.registry.handlers@,
                    invocation.tool_name@,
                )];
                if spec_kind_matches(entry.kind, invocation.payload@) {
                    r matches Ok(h) && *h == entry.handler
                } else {
                    r matches Err(FunctionCallError::Fatal { message }) && message@
                        == spec_incompatible_message(invocation.tool_name@)
                }
            }),
    {
        self.registry.dispatch(invocation)
    }
}

/// Converts a non-fatal dispatch failure into the output item written
/// back to the model: the failure's text as a custom tool output when
/// the call was a custom tool call, else as a function call output
/// flagged unsuccessful.
pub fn failure_response(
    call_id: String,
    payload_outputs_custom: bool,
    err: FunctionCallError,
) -> (r: ResponseInputItem)
    ensures
        payload_outputs_custom ==> (r matches ResponseInputItem::CustomToolCallOutput {
            call_id: c,
            output,
        } && c == call_id && output@ == spec_function_call_error_text(err)),
        !payload_outputs_custom ==> (r matches ResponseInputItem::FunctionCallOutput {
            call_id: c,
            output,
        } && c == call_id && output.content@ == spec_function_call_error_text(err)
            && output.success == Some(false)),
{
    let message = err.message_text();
    if payload_outputs_custom {
        ResponseInputItem::CustomToolCallOutput { call_id, output: message }
    } else {
        ResponseInputItem::FunctionCallOutput {
            call_id,
            output: FunctionCallOutputPayload { content: message, success: Some(false) },
        }
    }
}

/// Whether a tool renders its abort notice in the wall-time form: the
/// shell-like tools do.
pub open spec fn spec_is_shell_like(name: Seq<char>) -> bool {
    name == "shell"@ || name == "container.exec"@ || name == "local_shell"@ || name
        == "shell_command"@ || name == "unified_exec"@
}

/// The text recorded for a call aborted after the given number of tenths
/// of a second.
pub open spec fn spec_abort_message(name: Seq<char>, tenths: nat) -> Seq<char> {
    if spec_is_shell_like(name) {
        "Wall time: "@ + spec_tenths(tenths) + " seconds\naborted by user"@
    } else {
        "aborted by user after "@ + spec_tenths(tenths) + "s"@
    }
}

/// Renders the abort notice for one call.
pub fn abort_message(call: &ToolCall, tenths: u64) -> (r: String)
    ensures
        r@ == spec_abort_message(call.tool_name@, tenths as nat),
{
    proof {
        reveal_strlit("Wall time: ");
        reveal_strlit(" seconds\naborted by user");
        reveal_strlit("aborted by user after ");
        reveal_strlit("s");
    }
    let elapsed = tenths_to_decimal(tenths);
    let shell_like = str_eq(call.tool_name.as_str(), "shell") || str_eq(
        call.tool_name.as_str(),
        "container.exec",
    ) || str_eq(call.tool_name.as_str(), "local_shell") || str_eq(
        call.tool_name.as_str(),
        "shell_command",
    ) || str_eq(call.tool_name.as_str(), "unified_exec");
    if shell_like {
        String::from_str("Wall time: ").concat(elapsed.as_str()).concat(
            " seconds\naborted by user",
        )
    } else {
        String::from_str("aborted by user after ").concat(elapsed.as_str()).concat("s")
    }
}

/// The output item recorded when a call is aborted, so that every call
/// still gets exactly one output: custom calls get a custom output, MCP
/// calls a failed MCP output, and everything else a function call
/// output, each carrying the abort notice.
pub fn aborted_response(call: &ToolCall, tenths: u64) -> (r: ResponseInputItem)
    ensures
        call.payload@ matches ToolPayloadView::Custom { .. } ==> (r matches
            ResponseInputItem::CustomToolCallOutput { call_id, output } && call_id == call.call_id
            && output@ == spec_abort_message(call.tool_name@, tenths as nat)),
        call.payload@ matches ToolPayloadView::Mcp { .. } ==> (r matches
            ResponseInputItem::McpToolCallOutput { call_id, result } && call_id == call.call_id
            && (result matches Err(m) && m@ == spec_abort_message(call.tool_name@, tenths as nat))),
        (call.payload@ matches ToolPayloadView::Function { .. } || call.payload@ matches
            ToolPayloadView::LocalShell { .. }) ==> (r matches
            ResponseInputItem::FunctionCallOutput { call_id, output } && call_id == call.call_id
            && output.content@ == spec_abort_message(call.tool_name@, tenths as nat)
            && output.success is None),
{
    let message = abort_message(call, tenths);
    match &call.payload {
        ToolPayload::Custom { .. } => ResponseInputItem::CustomToolCallOutput {
            call_id: call.call_id.clone(),
            output: message,
        },
        ToolPayload::Mcp { .. } => ResponseInputItem::McpToolCallOutput {
            call_id: call.call_id.clone(),
            result: Err(message),
        },
        _ => ResponseInputItem::FunctionCallOutput {
            call_id: call.call_id.clone(),
            output: FunctionCallOutputPayload { content: message, success: None },
        },
    }
}

/// One tool execution's occupancy of the conversation-wide scheduling
/// lock: the span it held the lock for, and in which mode.
pub struct LockHold {
    pub start: int,
    pub end: int,
    pub exclusive: bool,
}

/// Whether two occupancies overlap in time.
pub open spec fn spec_holds_overlap(a: LockHold, b: LockHold) -> bool {
    a.start < b.end && b.start < a.end
}

/// The scheduling discipline: the runtime runs every tool inside a hold
/// of the conversation's reader-writer lock, shared for parallel-capable
/// tools and exclusive for the rest. Given the lock's own guarantee —
/// an exclusive hold overlaps no other hold — a tool that does not
/// support parallel calls overlaps no other tool at all; in particular
/// two such tools never run concurrently. Parallel-capable tools may
/// overlap each other freely.
pub proof fn lemma_parallel_discipline(holds: Seq<LockHold>, supports_parallel: Seq<bool>)
    requires
        holds.len() == supports_parallel.len(),
        forall|i: int|
            0 <= i < holds.len() && !supports_parallel[i] ==> (#[trigger] holds[i]).exclusive,
        forall|i: int, j: int|
            0 <= i < holds.len() && 0 <= j < holds.len() && i != j && ((#[trigger] holds[i]).exclusive
                || (#[trigger] holds[j]).exclusive) ==> !spec_holds_overlap(holds[i], holds[j]),
    ensures
        forall|i: int, j: int|
            0 <= i < holds.len() && 0 <= j < holds.len() && i != j && !supports_parallel[i]
                ==> !spec_holds_overlap(#[trigger] holds[i], #[trigger] holds[j]),
{
}

/// Builds the routed call for one streamed item: function calls route to
/// a registered MCP tool when the caller resolved the name to one,
/// custom and local-shell calls route to their payloads, a local shell
/// call without any id is the one contract violation, and every other
/// item is no tool call at all.
pub fn build_tool_call(item: &ResponseItem, mcp_parsed: Option<(String, String)>) -> (r: Result<
    Option<ToolCall>,
    FunctionCallError,
>)
    ensures
        item@ matches ItemView::FunctionCall { name, arguments, call_id } ==> (r matches Ok(
            Some(c),
        ) && c.tool_name == name && c.call_id == call_id && (match mcp_parsed {
            Some((server, tool)) => c.payload@ == (ToolPayloadView::Mcp {
                server,
                tool,
                raw_arguments: arguments,
            }),
            None => c.payload@ == (ToolPayloadView::Function { arguments }),
        })),
        item@ matches ItemView::CustomToolCall { name, input, call_id } ==> (r matches Ok(
            Some(c),
        ) && c.tool_name == name && c.call_id == call_id && c.payload@ == (
        ToolPayloadView::Custom { input })),
        item@ matches ItemView::LocalShellCall { id, call_id, command } ==> (match (
            call_id,
            id,
        ) {
            (None, None) => r == Err::<Option<ToolCall>, FunctionCallError>(
                FunctionCallError::MissingLocalShellCallId,
            ),
            _ => (r matches Ok(Some(c)) && c.tool_name@ == "local_shell"@ && Some(c.call_id) == (
            if call_id is Some {
                call_id
            } else {
                id
            }) && (c.payload@ matches ToolPayloadView::LocalShell { params }
                && params.command == command)),
        }),
        !(item@ matches ItemView::FunctionCall { .. }) && !(item@ matches
            ItemView::CustomToolCall { .. }) && !(item@ matches ItemView::LocalShellCall {
            ..
        }) ==> r == Ok::<Option<ToolCall>, FunctionCallError>(None),
{
    proof {
        reveal_strlit("local_shell");
    }
    match item {
        ResponseItem::FunctionCall { name, arguments, call_id } => {
            let payload = match mcp_parsed {
                Some((server, tool)) => ToolPayload::Mcp {
                    server,
                    tool,
                    raw_arguments: arguments.clone(),
                },
                None => ToolPayload::Function { arguments: arguments.clone() },
            };
            Ok(
                Some(
                    ToolCall { tool_name: name.clone(), call_id: call_id.clone(), payload },
                ),
            )
        },
        ResponseItem::CustomToolCall { name, input, call_id } => Ok(
            Some(
                ToolCall {
                    tool_name: name.clone(),
                    call_id: call_id.clone(),
                    payload: ToolPayload::Custom { input: input.clone() },
                },
            ),
        ),
        ResponseItem::LocalShellCall { id, call_id, command } => {
            let chosen = match call_id {
                Some(c) => Some(c.clone()),
                None => match id {
                    Some(i) => Some(i.clone()),
                    None => None,
                },
            };
            match chosen {
                Some(cid) => Ok(
                    Some(
                        ToolCall {
                            tool_name: String::from_str("local_shell"),
                            call_id: cid,
                            payload: ToolPayload::LocalShell {
                                params: ShellToolCallParams {
                                    command: clone_string_vec(command),
                                    workdir: None,
                                    timeout_ms: None,
                                },
                            },
                        },
                    ),
                ),
                None => Err(FunctionCallError::MissingLocalShellCallId),
            }
        },
        _ => Ok(None),
    }
}

} // verus!
