//! The per-turn streaming event loop: consumes the normalized response
//! events of one model invocation, emits the session's user-visible
//! events, records items into the turn's history delta, and queues tool
//! calls for the runtime in arrival order.
//!
//! The module carries the turn's ordering laws: a content delta is only
//! ever emitted for an item that was started and not yet completed, and
//! tool outputs are recorded in the order their calls appeared, one
//! output per call, before the turn's diff.

use vstd::prelude::*;

use crate::errors::FunctionCallError;
use crate::items::FunctionCallOutputPayload;
use crate::items::ItemView;
use crate::items::ResponseInputItem;
use crate::items::ResponseItem;
use crate::items::TokenUsage;
use crate::items::clone_opt_string;
use crate::items::item_seq_view;
use crate::items::last_assistant_message_from_item;
use crate::items::response_input_to_response_item;
use crate::items::spec_is_viewable;
use crate::items::spec_last_assistant_text;
use crate::items::spec_response_input_to_response_item;
use crate::rate_limits::RateLimitSnapshot;
use crate::sse::ResponseEvent;
use crate::text::str_eq;
use crate::tools::ToolCall;
use crate::tools::build_tool_call;

verus! {

/// One event the session emits to its consumer while a turn streams.
#[derive(Debug, PartialEq, Eq)]
pub enum SessionEvent {
    ItemStarted { item_id: String, item: ResponseItem },
    ItemCompleted { item_id: String, item: ResponseItem },
    AgentMessageContentDelta { item_id: String, delta: String },
    ReasoningContentDelta { item_id: String, delta: String, summary_index: i64 },
    AgentReasoningSectionBreak { item_id: String, summary_index: i64 },
    ReasoningRawContentDelta { item_id: String, delta: String, content_index: i64 },
    RateLimitsUpdated { snapshot: RateLimitSnapshot },
    ModelsEtagChanged { etag: String },
    TokenCount { usage: Option<TokenUsage> },
    TurnDiff { unified_diff: String },
}

/// The mathematical value of a session event.
pub enum SessionEventView {
    ItemStarted { item_id: Seq<char>, item: ItemView },
    ItemCompleted { item_id: Seq<char>, item: ItemView },
    AgentMessageContentDelta { item_id: Seq<char>, delta: Seq<char> },
    ReasoningContentDelta { item_id: Seq<char>, delta: Seq<char>, summary_index: i64 },
    AgentReasoningSectionBreak { item_id: Seq<char>, summary_index: i64 },
    ReasoningRawContentDelta { item_id: Seq<char>, delta: Seq<char>, content_index: i64 },
    RateLimitsUpdated { snapshot: RateLimitSnapshot },
    ModelsEtagChanged { etag: Seq<char> },
    TokenCount { usage: Option<TokenUsage> },
    TurnDiff { unified_diff: Seq<char> },
}

impl View for SessionEvent {
    type V = SessionEventView;

    open spec fn view(&self) -> SessionEventView {
        match *self {
            SessionEvent::ItemStarted { item_id, item } => SessionEventView::ItemStarted {
                item_id: item_id@,
                item: item@,
            },
            SessionEvent::ItemCompleted { item_id, item } => SessionEventView::ItemCompleted {
                item_id: item_id@,
                item: item@,
            },
            SessionEvent::AgentMessageContentDelta { item_id, delta } => {
                SessionEventView::AgentMessageContentDelta { item_id: item_id@, delta: delta@ }
            },
            SessionEvent::ReasoningContentDelta { item_id, delta, summary_index } => {
                SessionEventView::ReasoningContentDelta {
                    item_id: item_id@,
                    delta: delta@,
                    summary_index,
                }
            },
            SessionEvent::AgentReasoningSectionBreak { item_id, summary_index } => {
                SessionEventView::AgentReasoningSectionBreak { item_id: item_id@, summary_index }
            },
            SessionEvent::ReasoningRawContentDelta { item_id, delta, content_index } => {
                SessionEventView::ReasoningRawContentDelta {
                    item_id: item_id@,
                    delta: delta@,
                    content_index,
                }
            },
            SessionEvent::RateLimitsUpdated { snapshot } => SessionEventView::RateLimitsUpdated {
                snapshot,
            },
            SessionEvent::ModelsEtagChanged { etag } => SessionEventView::ModelsEtagChanged {
                etag: etag@,
            },
            SessionEvent::TokenCount { usage } => SessionEventView::TokenCount { usage },
            SessionEvent::TurnDiff { unified_diff } => SessionEventView::TurnDiff {
                unified_diff: unified_diff@,
            },
        }
    }
}

/// The views of a list of session events.
pub open spec fn event_seq_view(s: Seq<SessionEvent>) -> Seq<SessionEventView> {
    s.map_values(|e: SessionEvent| e@)
}

/// The identifier a streamed item carries; items without one share the
/// empty identifier.
pub open spec fn spec_item_id(item: ItemView) -> Seq<char> {
    match item {
        ItemView::Message { id: Some(id), .. } => id@,
        ItemView::Reasoning { id: Some(id), .. } => id@,
        ItemView::WebSearchCall { id: Some(id), .. } => id@,
        _ => Seq::empty(),
    }
}

/// Reads the identifier of a streamed item.
pub fn item_id_of(item: &ResponseItem) -> (r: String)
    ensures
        r@ == spec_item_id(item@),
{
    let id = match item {
        ResponseItem::Message { id, .. } => clone_opt_string(id),
        ResponseItem::Reasoning { id, .. } => clone_opt_string(id),
        ResponseItem::WebSearchCall { id, .. } => clone_opt_string(id),
        _ => None,
    };
    match id {
        Some(id) => id,
        None => String::new(),
    }
}

/// The item id a delta-like event refers to, if it is one.
pub open spec fn spec_delta_id(e: SessionEventView) -> Option<Seq<char>> {
    match e {
        SessionEventView::AgentMessageContentDelta { item_id, .. } => Some(item_id),
        SessionEventView::ReasoningContentDelta { item_id, .. } => Some(item_id),
        SessionEventView::AgentReasoningSectionBreak { item_id, .. } => Some(item_id),
        SessionEventView::ReasoningRawContentDelta { item_id, .. } => Some(item_id),
        _ => None,
    }
}

/// How many times an item id has been started in a trace.
pub open spec fn spec_count_started(trace: Seq<SessionEventView>, id: Seq<char>) -> int
    decreases trace.len(),
{
    if trace.len() == 0 {
        0
    } else {
        spec_count_started(trace.drop_last(), id) + (
        if trace.last() matches SessionEventView::ItemStarted { item_id, .. } && item_id == id {
            1int
        } else {
            0int
        })
    }
}

/// How many times an item id has been completed in a trace.
pub open spec fn spec_count_completed(trace: Seq<SessionEventView>, id: Seq<char>) -> int
    decreases trace.len(),
{
    if trace.len() == 0 {
        0
    } else {
        spec_count_completed(trace.drop_last(), id) + (
        if trace.last() matches SessionEventView::ItemCompleted { item_id, .. } && item_id == id {
            1int
        } else {
            0int
        })
    }
}

/// The delta-scoping law over a trace: every delta-like event refers to
/// an item started more times than completed at that point — an item
/// that is open.
pub open spec fn spec_deltas_scoped(trace: Seq<SessionEventView>) -> bool {
    forall|i: int|
        0 <= i < trace.len() && (#[trigger] spec_delta_id(trace[i])) is Some
            ==> spec_count_started(trace.take(i), spec_delta_id(trace[i])->Some_0)
            > spec_count_completed(trace.take(i), spec_delta_id(trace[i])->Some_0)
}

/// How appending one event changes the counts.
proof fn lemma_counts_push(trace: Seq<SessionEventView>, e: SessionEventView)
    ensures
        forall|id: Seq<char>|
            #![trigger spec_count_started(trace.push(e), id)]
            spec_count_started(trace.push(e), id) == spec_count_started(trace, id) + (
            if e matches SessionEventView::ItemStarted { item_id, .. } && item_id == id {
                1int
            } else {
                0int
            }),
        forall|id: Seq<char>|
            #![trigger spec_count_completed(trace.push(e), id)]
            spec_count_completed(trace.push(e), id) == spec_count_completed(trace, id) + (
            if e matches SessionEventView::ItemCompleted { item_id, .. } && item_id == id {
                1int
            } else {
                0int
            }),
{
    assert(trace.push(e).drop_last() =~= trace);
    assert(trace.push(e).last() == e);
}

/// Appending an event preserves the scoping law, provided the event is
/// not a delta, or refers to an item open in the trace so far.
proof fn lemma_scoped_push(trace: Seq<SessionEventView>, e: SessionEventView)
    requires
        spec_deltas_scoped(trace),
        (spec_delta_id(e) matches Some(id) ==> spec_count_started(trace, id)
            > spec_count_completed(trace, id)),
    ensures
        spec_deltas_scoped(trace.push(e)),
{
    let t2 = trace.push(e);
    assert forall|i: int|
        0 <= i < t2.len() && (#[trigger] spec_delta_id(t2[i])) is Some implies spec_count_started(
        t2.take(i),
        spec_delta_id(t2[i])->Some_0,
    ) > spec_count_completed(t2.take(i), spec_delta_id(t2[i])->Some_0) by {
        if i < trace.len() {
            assert(t2[i] == trace[i]);
            assert(t2.take(i) =~= trace.take(i));
        } else {
            assert(t2[i] == e);
            assert(t2.take(i) =~= trace);
        }
    }
}

/// Counts never go below completion parity: in every trace this engine
/// produces, no id is completed more often than started.
pub open spec fn spec_counts_balanced(trace: Seq<SessionEventView>) -> bool {
    forall|id: Seq<char>|
        #![trigger spec_count_completed(trace, id)]
        spec_count_completed(trace, id) <= spec_count_started(trace, id)
}

/// Whether an event completes a tool-call item — the only events that
/// can raise the follow-up demand.
pub open spec fn spec_event_is_tool_call_done(e: crate::sse::ResponseEventView) -> bool {
    e matches crate::sse::ResponseEventView::OutputItemDone { item } && (item matches
        ItemView::FunctionCall { .. } || item matches ItemView::CustomToolCall { .. } || item
        matches ItemView::LocalShellCall { .. })
}

/// Whether a queued call is the one a call item asked for.
pub open spec fn spec_call_matches_item(call: ToolCall, item: ItemView) -> bool {
    match item {
        ItemView::FunctionCall { name, arguments, call_id } => call.tool_name == name
            && call.call_id == call_id,
        ItemView::CustomToolCall { name, input, call_id } => call.tool_name == name
            && call.call_id == call_id,
        _ => false,
    }
}

/// The call id a tool output answers.
pub open spec fn spec_input_call_id(input: ResponseInputItem) -> Seq<char> {
    match input {
        ResponseInputItem::FunctionCallOutput { call_id, .. } => call_id@,
        ResponseInputItem::CustomToolCallOutput { call_id, .. } => call_id@,
        ResponseInputItem::McpToolCallOutput { call_id, .. } => call_id@,
    }
}

/// The call id a recorded output item carries, when it is one.
pub open spec fn spec_output_call_id(item: ItemView) -> Option<Seq<char>> {
    match item {
        ItemView::FunctionCallOutput { call_id, .. } => Some(call_id@),
        ItemView::CustomToolCallOutput { call_id, .. } => Some(call_id@),
        _ => None,
    }
}

/// The delta-scoping law, as the engine's invariant carries it: in every
/// trace a well-formed engine has emitted, each content delta, reasoning
/// delta, raw-content delta, and section break refers to an item started
/// more times than completed at that point — an item with an open
/// `ItemStarted`, whose `ItemCompleted` has not yet been emitted.
pub proof fn lemma_delta_events_scoped(engine: TurnEngine)
    requires
        engine.wf(),
    ensures
        spec_deltas_scoped(engine.trace@),
{
}

/// The wall time of an aborted call in tenths of a second, as the abort
/// notice reports it: measured milliseconds rounded down, but never less
/// than one tenth.
pub fn abort_tenths_from_millis(millis: u64) -> (r: u64)
    ensures
        r == (if millis / 100 < 1 {
            1u64
        } else {
            millis / 100
        }),
{
    let tenths = millis / 100;
    if tenths < 1 {
        1
    } else {
        tenths
    }
}

/// One MCP tool discovered for this turn: its fully-qualified name and
/// where it lives.
#[derive(Debug, PartialEq, Eq)]
pub struct McpToolRef {
    pub qualified_name: String,
    pub server: String,
    pub tool: String,
}

/// Whether an item is shown to the user as it streams.
pub fn is_viewable_item(item: &ResponseItem) -> (r: bool)
    ensures
        r == spec_is_viewable(item@),
{
    match item {
        ResponseItem::Message { .. } => true,
        ResponseItem::Reasoning { .. } => true,
        ResponseItem::WebSearchCall { .. } => true,
        _ => false,
    }
}

/// The streaming event loop of one turn.
pub struct TurnEngine {
    /// The MCP tools discovered for this turn, by qualified name.
    pub mcp_tools: Vec<McpToolRef>,
    /// The most recently added viewable item, whose id names deltas.
    pub active_item: Option<ResponseItem>,
    /// Whether the turn produced tool work that demands a follow-up turn.
    pub needs_follow_up: bool,
    /// The last assistant text seen this turn.
    pub last_agent_message: Option<String>,
    /// Tool calls queued for the runtime, in arrival order.
    pub pending_calls: Vec<ToolCall>,
    /// The items recorded into history this turn, in order.
    pub recorded: Vec<ResponseItem>,
    /// Whether the stream reached its `Completed` event.
    pub completed: bool,
    /// Deltas that arrived with no active item: stream-contract
    /// violations, counted so the caller can log them loudly.
    pub violations: u64,
    /// Everything emitted so far, for the ordering laws.
    pub trace: Ghost<Seq<SessionEventView>>,
}

impl TurnEngine {
    /// The engine's ordering invariant: deltas are scoped to open items,
    /// no id completes more often than it starts, and the active item is
    /// open.
    pub open spec fn wf(&self) -> bool {
        &&& spec_deltas_scoped(self.trace@)
        &&& spec_counts_balanced(self.trace@)
        &&& match self.active_item {
            Some(item) => spec_count_started(self.trace@, spec_item_id(item@))
                > spec_count_completed(self.trace@, spec_item_id(item@)),
            None => true,
        }
    }

    /// The stream shapes under which one step preserves the invariant: a
    /// completed viewable item must carry the id of the item being
    /// streamed, when one is. A stream that completes a different id
    /// while another item is open breaks the scoping law by its own
    /// shape, not by anything this engine does.
    pub open spec fn spec_step_safe(&self, event: crate::sse::ResponseEventView) -> bool {
        match event {
            crate::sse::ResponseEventView::OutputItemDone { item } => {
                if spec_is_viewable(item) {
                    match self.active_item {
                        Some(active) => spec_item_id(active@) == spec_item_id(item),
                        None => true,
                    }
                } else {
                    true
                }
            },
            _ => true,
        }
    }

    /// An engine at the start of a turn, with this turn's MCP tools.
    pub fn new(mcp_tools: Vec<McpToolRef>) -> (r: TurnEngine)
        ensures
            r.wf(),
            r.trace@ == Seq::<SessionEventView>::empty(),
            r.mcp_tools@ == mcp_tools@,
            r.active_item is None,
            !r.needs_follow_up,
            r.last_agent_message is None,
            r.pending_calls@.len() == 0,
            r.recorded@.len() == 0,
            !r.completed,
            r.violations == 0,
    {
        let r = TurnEngine {
            mcp_tools,
            active_item: None,
            needs_follow_up: false,
            last_agent_message: None,
            pending_calls: Vec::new(),
            recorded: Vec::new(),
            completed: false,
            violations: 0,
            trace: Ghost(Seq::empty()),
        };
        r
    }

    /// Resolves a fully-qualified MCP tool name against this turn's
    /// discovered tools.
    pub fn parse_mcp_tool_name(&self, name: &String) -> (r: Option<(String, String)>)
        ensures
            r is Some <==> exists|i: int|
                0 <= i < self.mcp_tools@.len() && (#[trigger] self.mcp_tools@[i].qualified_name@)
                    == name@,
            r matches Some((server, tool)) ==> exists|i: int|
                0 <= i < self.mcp_tools@.len() && (#[trigger] self.mcp_tools@[i].qualified_name@)
                    == name@ && server@ == self.mcp_tools@[i].server@ && tool@
                    == self.mcp_tools@[i].tool@,
    {
        let mut i: usize = 0;
        while i < self.mcp_tools.len()
            invariant
                i <= self.mcp_tools@.len(),
                forall|j: int|
                    0 <= j < i ==> (#[trigger] self.mcp_tools@[j].qualified_name@) != name@,
            decreases self.mcp_tools@.len() - i,
        {
            if str_eq(self.mcp_tools[i].qualified_name.as_str(), name.as_str()) {
                return Some((self.mcp_tools[i].server.clone(), self.mcp_tools[i].tool.clone()));
            }
            i = i + 1;
        }
        None
    }

    /// Handles one normalized response event: emits the session events
    /// it produces, records items, and queues tool calls. The trace
    /// grows by exactly the returned events, and under well-shaped
    /// streams the ordering invariant is preserved.
    pub fn on_event(&mut self, event: ResponseEvent) -> (r: Vec<SessionEvent>)
        ensures
            final(self).trace@ == old(self).trace@ + event_seq_view(r@),
            old(self).wf() && old(self).spec_step_safe(event@) ==> final(self).wf(),
            old(self).recorded@.is_prefix_of(final(self).recorded@),
            old(self).pending_calls@.is_prefix_of(final(self).pending_calls@),
            final(self).mcp_tools@ == old(self).mcp_tools@,
            old(self).completed ==> final(self).completed,
            final(self).completed == (old(self).completed || event@ matches
                crate::sse::ResponseEventView::Completed { .. }),
            final(self).needs_follow_up == (old(self).needs_follow_up
                || spec_event_is_tool_call_done(event@)),
            (event@ matches crate::sse::ResponseEventView::OutputItemAdded { item } ==> (
            if spec_is_viewable(item) {
                &&& final(self).active_item matches Some(a) && a@ == item
                &&& r@.len() == 1
                &&& (r@[0]@ matches SessionEventView::ItemStarted { item_id, item: it }
                    && item_id == spec_item_id(item) && it == item)
            } else {
                final(self).active_item == old(self).active_item && r@.len() == 0
            })),
            (event@ matches crate::sse::ResponseEventView::OutputItemDone { item } ==> final(self).active_item is None),
            (event@ matches crate::sse::ResponseEventView::OutputItemDone { item } ==> ((item
                matches ItemView::FunctionCall { .. } || item matches ItemView::CustomToolCall {
                ..
            }) ==> (
            item_seq_view(final(self).recorded@) == item_seq_view(old(self).recorded@).push(item)
                && final(self).pending_calls@.len() == old(self).pending_calls@.len() + 1
                && spec_call_matches_item(
                final(self).pending_calls@.last(),
                item,
            ) && final(self).needs_follow_up && r@.len() == 0))),
            (event@ matches crate::sse::ResponseEventView::OutputItemDone { item } ==> (item
                matches ItemView::LocalShellCall { id, call_id, .. } ==> (
            if id is None && call_id is None {
                &&& final(self).recorded@.len() == old(self).recorded@.len() + 2
                &&& final(self).recorded@[old(self).recorded@.len() as int]@ == item
                &&& (final(self).recorded@.last()@ matches ItemView::FunctionCallOutput {
                    call_id: out_id,
                    output,
                } && out_id@ == Seq::<char>::empty() && output.content@
                    == "LocalShellCall without call_id or id"@)
                &&& final(self).pending_calls@ == old(self).pending_calls@
                &&& final(self).needs_follow_up
                &&& r@.len() == 0
            } else {
                &&& item_seq_view(final(self).recorded@) == item_seq_view(
                    old(self).recorded@,
                ).push(item)
                &&& final(self).pending_calls@.len() == old(self).pending_calls@.len() + 1
                &&& final(self).needs_follow_up
                &&& r@.len() == 0
            }))),
            (event@ matches crate::sse::ResponseEventView::OutputItemDone { item } ==> (
            spec_is_viewable(item) ==> {
                &&& item_seq_view(final(self).recorded@) == item_seq_view(
                    old(self).recorded@,
                ).push(item)
                &&& final(self).pending_calls@ == old(self).pending_calls@
                &&& final(self).last_agent_message == (match spec_last_assistant_text(item) {
                    Some(m) => Some(m),
                    None => old(self).last_agent_message,
                })
                &&& r@.len() == (if old(self).active_item is None {
                    2int
                } else {
                    1int
                })
                &&& (r@[r@.len() - 1]@ matches SessionEventView::ItemCompleted { item_id, item: it }
                    && item_id == spec_item_id(item) && it == item)
                &&& (old(self).active_item is None ==> (r@[0]@ matches
                    SessionEventView::ItemStarted { item_id, item: it } && item_id == spec_item_id(
                    item,
                ) && it == item))
            })),
            (event@ matches crate::sse::ResponseEventView::OutputTextDelta { delta } ==> (
            match old(self).active_item {
                Some(active) => r@.len() == 1 && (r@[0]@ matches
                    SessionEventView::AgentMessageContentDelta { item_id, delta: d } && item_id
                    == spec_item_id(active@) && d == delta),
                None => r@.len() == 0,
            })),
            (event@ matches crate::sse::ResponseEventView::ReasoningSummaryDelta {
                delta,
                summary_index,
            } ==> (
            match old(self).active_item {
                Some(active) => r@.len() == 1 && (r@[0]@ matches
                    SessionEventView::ReasoningContentDelta { item_id, delta: d, summary_index: si }
                    && item_id == spec_item_id(active@) && d == delta && si == summary_index),
                None => r@.len() == 0,
            })),
            (event@ matches crate::sse::ResponseEventView::ReasoningSummaryPartAdded {
                summary_index,
            } ==> (
            match old(self).active_item {
                Some(active) => r@.len() == 1 && (r@[0]@ matches
                    SessionEventView::AgentReasoningSectionBreak { item_id, summary_index: si }
                    && item_id == spec_item_id(active@) && si == summary_index),
                None => r@.len() == 0,
            })),
            (event@ matches crate::sse::ResponseEventView::ReasoningContentDelta {
                delta,
                content_index,
            } ==> (
            match old(self).active_item {
                Some(active) => r@.len() == 1 && (r@[0]@ matches
                    SessionEventView::ReasoningRawContentDelta { item_id, delta: d, content_index: ci }
                    && item_id == spec_item_id(active@) && d == delta && ci == content_index),
                None => r@.len() == 0,
            })),
            (event@ matches crate::sse::ResponseEventView::RateLimits { snapshot } ==> r@.len()
                == 1 && r@[0]@ == (SessionEventView::RateLimitsUpdated { snapshot })),
            (event@ matches crate::sse::ResponseEventView::ModelsEtag { etag } ==> r@.len() == 1
                && (r@[0]@ matches SessionEventView::ModelsEtagChanged { etag: e } && e == etag)),
            (event@ matches crate::sse::ResponseEventView::Completed { token_usage, .. } ==> r@.len()
                == 1 && r@[0]@ == (SessionEventView::TokenCount { usage: token_usage })),
            (event@ matches crate::sse::ResponseEventView::Created ==> r@.len() == 0),
    {
        let ghost trace0 = self.trace@;
        match event {
            ResponseEvent::Created => {
                let events: Vec<SessionEvent> = Vec::new();
                proof {
                    assert(trace0 + event_seq_view(events@) =~= trace0);
                }
                events
            },
            ResponseEvent::OutputItemAdded { item } => {
                if is_viewable_item(&item) {
                    let id = item_id_of(&item);
                    let ev = SessionEvent::ItemStarted { item_id: id, item: item.clone() };
                    let ghost evv = ev@;
                    let mut events: Vec<SessionEvent> = Vec::new();
                    events.push(ev);
                    self.active_item = Some(item);
                    self.trace = Ghost(trace0.push(evv));
                    proof {
                        assert(event_seq_view(events@) =~= seq![evv]);
                        assert(trace0 + event_seq_view(events@) =~= trace0.push(evv));
                        if old(self).wf() {
                            lemma_counts_push(trace0, evv);
                            lemma_scoped_push(trace0, evv);
                        }
                    }
                    events
                } else {
                    let events: Vec<SessionEvent> = Vec::new();
                    proof {
                        assert(trace0 + event_seq_view(events@) =~= trace0);
                    }
                    events
                }
            },
            ResponseEvent::OutputItemDone { item } => {
                let mut prev_active: Option<ResponseItem> = None;
                core::mem::swap(&mut prev_active, &mut self.active_item);
                let mcp_parsed = match &item {
                    ResponseItem::FunctionCall { name, .. } => self.parse_mcp_tool_name(name),
                    _ => None,
                };
                match build_tool_call(&item, mcp_parsed) {
                    Ok(Some(call)) => {
                        self.recorded.push(item);
                        self.pending_calls.push(call);
                        self.needs_follow_up = true;
                        let events: Vec<SessionEvent> = Vec::new();
                        proof {
                            assert(trace0 + event_seq_view(events@) =~= trace0);
                            assert(self.recorded@.drop_last() =~= old(self).recorded@);
                            assert(self.pending_calls@.drop_last() =~= old(self).pending_calls@);
                        }
                        events
                    },
                    Ok(None) => {
                        let viewable = is_viewable_item(&item);
                        let mut events: Vec<SessionEvent> = Vec::new();
                        if viewable {
                            let id = item_id_of(&item);
                            let ghost idv = id@;
                            let started_here = prev_active.is_none();
                            if started_here {
                                let ev = SessionEvent::ItemStarted {
                                    item_id: id.clone(),
                                    item: item.clone(),
                                };
                                events.push(ev);
                            }
                            let ev2 = SessionEvent::ItemCompleted {
                                item_id: id,
                                item: item.clone(),
                            };
                            events.push(ev2);
                            proof {
                                if started_here {
                                    assert(event_seq_view(events@) =~= seq![
                                        events@[0]@,
                                        events@[1]@,
                                    ]);
                                } else {
                                    assert(event_seq_view(events@) =~= seq![events@[0]@]);
                                }
                            }
                        }
                        match last_assistant_message_from_item(&item) {
                            Some(m) => {
                                self.last_agent_message = Some(m);
                            },
                            None => {},
                        }
                        self.recorded.push(item);
                        self.trace = Ghost(trace0 + event_seq_view(events@));
                        proof {
                            assert(self.recorded@.drop_last() =~= old(self).recorded@);
                            if old(self).wf() && old(self).spec_step_safe(event@) {
                                if events@.len() == 0 {
                                    assert(self.trace@ =~= trace0);
                                } else if events@.len() == 1 {
                                    let evv = events@[0]@;
                                    assert(self.trace@ =~= trace0.push(evv));
                                    lemma_counts_push(trace0, evv);
                                    lemma_scoped_push(trace0, evv);
                                } else {
                                    let e1 = events@[0]@;
                                    let e2 = events@[1]@;
                                    let t1 = trace0.push(e1);
                                    assert(self.trace@ =~= t1.push(e2));
                                    lemma_counts_push(trace0, e1);
                                    lemma_scoped_push(trace0, e1);
                                    lemma_counts_push(t1, e2);
                                    lemma_scoped_push(t1, e2);
                                }
                            }
                        }
                        events
                    },
                    Err(FunctionCallError::MissingLocalShellCallId) => {
                        proof {
                            reveal_strlit("LocalShellCall without call_id or id");
                        }
                        self.recorded.push(item);
                        // The call lacks any id to key an output by; an
                        // empty-id failure output keeps the turn alive.
                        let response = ResponseInputItem::FunctionCallOutput {
                            call_id: String::new(),
                            output: FunctionCallOutputPayload {
                                content: String::from_str("LocalShellCall without call_id or id"),
                                success: None,
                            },
                        };
                        let out_item = response_input_to_response_item(&response);
                        self.recorded.push(out_item);
                        self.needs_follow_up = true;
                        let events: Vec<SessionEvent> = Vec::new();
                        proof {
                            assert(trace0 + event_seq_view(events@) =~= trace0);
                            assert(self.recorded@.drop_last().drop_last() =~= old(self).recorded@);
                            assert(old(self).recorded@.is_prefix_of(self.recorded@));
                        }
                        events
                    },
                    Err(_) => {
                        let events: Vec<SessionEvent> = Vec::new();
                        proof {
                            assert(trace0 + event_seq_view(events@) =~= trace0);
                        }
                        events
                    },
                }
            },
            ResponseEvent::OutputTextDelta { delta } => {
                let active = match &self.active_item {
                    Some(a) => Some(item_id_of(a)),
                    None => None,
                };
                match active {
                    Some(item_id) => {
                        let ev = SessionEvent::AgentMessageContentDelta { item_id, delta };
                        let ghost evv = ev@;
                        let mut events: Vec<SessionEvent> = Vec::new();
                        events.push(ev);
                        self.trace = Ghost(trace0.push(evv));
                        proof {
                            assert(event_seq_view(events@) =~= seq![evv]);
                            assert(trace0 + event_seq_view(events@) =~= trace0.push(evv));
                            if old(self).wf() {
                                lemma_counts_push(trace0, evv);
                                lemma_scoped_push(trace0, evv);
                            }
                        }
                        events
                    },
                    None => self.note_violation(Ghost(trace0)),
                }
            },
            ResponseEvent::ReasoningSummaryDelta { delta, summary_index } => {
                let active = match &self.active_item {
                    Some(a) => Some(item_id_of(a)),
                    None => None,
                };
                match active {
                    Some(item_id) => {
                        let ev = SessionEvent::ReasoningContentDelta {
                            item_id,
                            delta,
                            summary_index,
                        };
                        let ghost evv = ev@;
                        let mut events: Vec<SessionEvent> = Vec::new();
                        events.push(ev);
                        self.trace = Ghost(trace0.push(evv));
                        proof {
                            assert(event_seq_view(events@) =~= seq![evv]);
                            assert(trace0 + event_seq_view(events@) =~= trace0.push(evv));
                            if old(self).wf() {
                                lemma_counts_push(trace0, evv);
                                lemma_scoped_push(trace0, evv);
                            }
                        }
                        events
                    },
                    None => self.note_violation(Ghost(trace0)),
                }
            },
            ResponseEvent::ReasoningSummaryPartAdded { summary_index } => {
                let active = match &self.active_item {
                    Some(a) => Some(item_id_of(a)),
                    None => None,
                };
                match active {
                    Some(item_id) => {
                        let ev = SessionEvent::AgentReasoningSectionBreak {
                            item_id,
                            summary_index,
                        };
                        let ghost evv = ev@;
                        let mut events: Vec<SessionEvent> = Vec::new();
                        events.push(ev);
                        self.trace = Ghost(trace0.push(evv));
                        proof {
                            assert(event_seq_view(events@) =~= seq![evv]);
                            assert(trace0 + event_seq_view(events@) =~= trace0.push(evv));
                            if old(self).wf() {
                                lemma_counts_push(trace0, evv);
                                lemma_scoped_push(trace0, evv);
                            }
                        }
                        events
                    },
                    None => self.note_violation(Ghost(trace0)),
                }
            },
            ResponseEvent::ReasoningContentDelta { delta, content_index } => {
                let active = match &self.active_item {
                    Some(a) => Some(item_id_of(a)),
                    None => None,
                };
                match active {
                    Some(item_id) => {
                        let ev = SessionEvent::ReasoningRawContentDelta {
                            item_id,
                            delta,
                            content_index,
                        };
                        let ghost evv = ev@;
                        let mut events: Vec<SessionEvent> = Vec::new();
                        events.push(ev);
                        self.trace = Ghost(trace0.push(evv));
                        proof {
                            assert(event_seq_view(events@) =~= seq![evv]);
                            assert(trace0 + event_seq_view(events@) =~= trace0.push(evv));
                            if old(self).wf() {
                                lemma_counts_push(trace0, evv);
                                lemma_scoped_push(trace0, evv);
                            }
                        }
                        events
                    },
                    None => self.note_violation(Ghost(trace0)),
                }
            },
            ResponseEvent::RateLimits { snapshot } => {
                let ev = SessionEvent::RateLimitsUpdated { snapshot };
                let ghost evv = ev@;
                let mut events: Vec<SessionEvent> = Vec::new();
                events.push(ev);
                self.trace = Ghost(trace0.push(evv));
                proof {
                    assert(event_seq_view(events@) =~= seq![evv]);
                    assert(trace0 + event_seq_view(events@) =~= trace0.push(evv));
                    if old(self).wf() {
                        lemma_counts_push(trace0, evv);
                        lemma_scoped_push(trace0, evv);
                    }
                }
                events
            },
            ResponseEvent::ModelsEtag { etag } => {
                let ev = SessionEvent::ModelsEtagChanged { etag };
                let ghost evv = ev@;
                let mut events: Vec<SessionEvent> = Vec::new();
                events.push(ev);
                self.trace = Ghost(trace0.push(evv));
                proof {
                    assert(event_seq_view(events@) =~= seq![evv]);
                    assert(trace0 + event_seq_view(events@) =~= trace0.push(evv));
                    if old(self).wf() {
                        lemma_counts_push(trace0, evv);
                        lemma_scoped_push(trace0, evv);
                    }
                }
                events
            },
            ResponseEvent::Completed { response_id: _, token_usage } => {
                self.completed = true;
                let ev = SessionEvent::TokenCount { usage: token_usage };
                let ghost evv = ev@;
                let mut events: Vec<SessionEvent> = Vec::new();
                events.push(ev);
                self.trace = Ghost(trace0.push(evv));
                proof {
                    assert(event_seq_view(events@) =~= seq![evv]);
                    assert(trace0 + event_seq_view(events@) =~= trace0.push(evv));
                    if old(self).wf() {
                        lemma_counts_push(trace0, evv);
                        lemma_scoped_push(trace0, evv);
                    }
                }
                events
            },
        }
    }

    /// Records the outputs of this turn's tool calls, in the order the
    /// calls appeared — never in completion order — one output per call,
    /// each keyed by its call's id. Draining happens even when the turn
    /// ended on an error, so no call is left without its output.
    pub fn drain_outputs(&mut self, outputs: &Vec<ResponseInputItem>)
        requires
            outputs@.len() == old(self).pending_calls@.len(),
            forall|i: int|
                0 <= i < outputs@.len() ==> spec_input_call_id(#[trigger] outputs@[i]) == old(self).pending_calls@[i].call_id@,
        ensures
            final(self).recorded@.len() == old(self).recorded@.len() + outputs@.len(),
            old(self).recorded@.is_prefix_of(final(self).recorded@),
            forall|i: int|
                0 <= i < outputs@.len() ==> (#[trigger] final(self).recorded@[old(self).recorded@.len() + i])@ == spec_response_input_to_response_item(outputs@[i]),
            forall|i: int|
                0 <= i < outputs@.len() ==> spec_output_call_id(
                    (#[trigger] final(self).recorded@[old(self).recorded@.len() + i])@,
                ) == Some(old(self).pending_calls@[i].call_id@),
            final(self).pending_calls@.len() == 0,
            final(self).trace@ == old(self).trace@,
            final(self).completed == old(self).completed,
            final(self).needs_follow_up == old(self).needs_follow_up,
            final(self).last_agent_message == old(self).last_agent_message,
            old(self).wf() ==> final(self).wf(),
    {
        let ghost calls = self.pending_calls@;
        let ghost base = self.recorded@.len();
        let mut i: usize = 0;
        while i < outputs.len()
            invariant
                i <= outputs@.len(),
                outputs@.len() == calls.len(),
                self.recorded@.len() == base + i,
                old(self).recorded@.is_prefix_of(self.recorded@),
                self.pending_calls@ == calls,
                self.trace@ == old(self).trace@,
                self.completed == old(self).completed,
                self.needs_follow_up == old(self).needs_follow_up,
                self.last_agent_message == old(self).last_agent_message,
                self.active_item == old(self).active_item,
                self.mcp_tools@ == old(self).mcp_tools@,
                base == old(self).recorded@.len(),
                forall|j: int|
                    0 <= j < i ==> (#[trigger] self.recorded@[base + j])@
                        == spec_response_input_to_response_item(outputs@[j]),
            decreases outputs@.len() - i,
        {
            let item = response_input_to_response_item(&outputs[i]);
            self.recorded.push(item);
            i = i + 1;
        }
        self.pending_calls = Vec::new();
        proof {
            assert forall|j: int|
                0 <= j < outputs@.len() implies spec_output_call_id(
                (#[trigger] self.recorded@[base + j])@,
            ) == Some(calls[j].call_id@) by {
                assert(self.recorded@[base + j]@ == spec_response_input_to_response_item(
                    outputs@[j],
                ));
            }
        }
    }

    /// Closes the turn after every output was drained: the turn's diff,
    /// when the stream completed normally and one exists, is the last
    /// event — after all tool outputs.
    pub fn finish_turn(&mut self, unified_diff: Option<String>) -> (r: Vec<SessionEvent>)
        requires
            old(self).pending_calls@.len() == 0,
        ensures
            final(self).trace@ == old(self).trace@ + event_seq_view(r@),
            old(self).wf() ==> final(self).wf(),
            final(self).recorded@ == old(self).recorded@,
            r@.len() == (if old(self).completed && unified_diff is Some {
                1int
            } else {
                0int
            }),
            old(self).completed && unified_diff is Some ==> (r@[0]@ matches
                SessionEventView::TurnDiff { unified_diff: d } && Some(d)
                == (match unified_diff {
                Some(u) => Some(u@),
                None => None,
            })),
    {
        let ghost trace0 = self.trace@;
        if self.completed {
            match unified_diff {
                Some(unified_diff) => {
                    let ev = SessionEvent::TurnDiff { unified_diff };
                    let ghost evv = ev@;
                    let mut events: Vec<SessionEvent> = Vec::new();
                    events.push(ev);
                    self.trace = Ghost(trace0.push(evv));
                    proof {
                        assert(event_seq_view(events@) =~= seq![evv]);
                        assert(trace0 + event_seq_view(events@) =~= trace0.push(evv));
                        if old(self).wf() {
                            lemma_counts_push(trace0, evv);
                            lemma_scoped_push(trace0, evv);
                        }
                    }
                    events
                },
                None => {
                    let events: Vec<SessionEvent> = Vec::new();
                    proof {
                        assert(trace0 + event_seq_view(events@) =~= trace0);
                    }
                    events
                },
            }
        } else {
            let events: Vec<SessionEvent> = Vec::new();
            proof {
                assert(trace0 + event_seq_view(events@) =~= trace0);
            }
            events
        }
    }

    /// Counts a delta that arrived with no item open.
    fn note_violation(&mut self, Ghost(trace0): Ghost<Seq<SessionEventView>>) -> (r: Vec<
        SessionEvent,
    >)
        requires
            old(self).trace@ == trace0,
        ensures
            r@.len() == 0,
            final(self).trace@ == trace0 + event_seq_view(r@),
            final(self).mcp_tools@ == old(self).mcp_tools@,
            final(self).active_item == old(self).active_item,
            final(self).needs_follow_up == old(self).needs_follow_up,
            final(self).last_agent_message == old(self).last_agent_message,
            final(self).pending_calls@ == old(self).pending_calls@,
            final(self).recorded@ == old(self).recorded@,
            final(self).completed == old(self).completed,
            final(self).trace@ == old(self).trace@,
            final(self).violations as int == (if old(self).violations < u64::MAX {
                old(self).violations + 1
            } else {
                old(self).violations as int
            }),
    {
        if self.violations < u64::MAX {
            self.violations = self.violations + 1;
        }
        let events: Vec<SessionEvent> = Vec::new();
        proof {
            assert(trace0 + event_seq_view(events@) =~= trace0);
        }
        events
    }
}

} // verus!
