//! The aggregation mode of the chat wire protocol: when raw reasoning is
//! hidden, streamed deltas are absorbed and surface as one aggregated
//! completed item apiece — reasoning first, then the assistant message —
//! immediately before the terminal completion. Streaming mode passes
//! every event through untouched.

use vstd::prelude::*;

use crate::items::ContentItem;
use crate::items::ResponseItem;
use crate::items::Role;
use crate::sse::ResponseEvent;
use crate::sse::ResponseEventView;

verus! {

/// The aggregation state: the assistant text and reasoning text
/// absorbed so far.
pub struct EventAggregator {
    pub assistant_text: String,
    pub reasoning_text: String,
}

/// The mathematical value of the aggregation state.
pub struct EventAggregatorView {
    pub assistant_text: Seq<char>,
    pub reasoning_text: Seq<char>,
}

impl View for EventAggregator {
    type V = EventAggregatorView;

    open spec fn view(&self) -> EventAggregatorView {
        EventAggregatorView {
            assistant_text: self.assistant_text@,
            reasoning_text: self.reasoning_text@,
        }
    }
}

impl EventAggregator {
    /// An aggregator with nothing absorbed.
    pub fn new() -> (r: EventAggregator)
        ensures
            r@.assistant_text == Seq::<char>::empty(),
            r@.reasoning_text == Seq::<char>::empty(),
    {
        EventAggregator { assistant_text: String::new(), reasoning_text: String::new() }
    }

    /// Handles one event in aggregation mode: text and reasoning deltas
    /// are absorbed in order; the terminal completion is preceded by one
    /// aggregated reasoning item and one aggregated assistant message,
    /// each only if anything was absorbed; every other event passes
    /// through unchanged.
    pub fn push(&mut self, event: ResponseEvent) -> (r: Vec<ResponseEvent>)
        ensures
            (event@ matches ResponseEventView::OutputTextDelta { delta } ==> (
            final(self)@.assistant_text == old(self)@.assistant_text + delta && final(self)@.reasoning_text == old(self)@.reasoning_text && r@.len() == 0)),
            (event@ matches ResponseEventView::ReasoningContentDelta { delta, .. } ==> (
            final(self)@.reasoning_text == old(self)@.reasoning_text + delta && final(self)@.assistant_text == old(self)@.assistant_text && r@.len() == 0)),
            (event@ matches ResponseEventView::ReasoningSummaryDelta { delta, .. } ==> (
            final(self)@.reasoning_text == old(self)@.reasoning_text + delta && final(self)@.assistant_text == old(self)@.assistant_text && r@.len() == 0)),
            (event@ matches ResponseEventView::Completed { .. } ==> (
            {
                let had_reasoning = old(self)@.reasoning_text.len() > 0;
                let had_text = old(self)@.assistant_text.len() > 0;
                &&& r@.len() == 1 + (if had_reasoning {
                    1int
                } else {
                    0int
                }) + (if had_text {
                    1int
                } else {
                    0int
                })
                &&& r@.last()@ == event@
                &&& (had_reasoning ==> (r@[0]@ matches ResponseEventView::OutputItemDone { item }
                    && (item matches crate::items::ItemView::Reasoning { content, .. }
                    && content.len() == 1 && content[0]@ == old(self)@.reasoning_text)))
                &&& (had_text ==> (r@[r@.len() - 2]@ matches ResponseEventView::OutputItemDone {
                    item,
                } && (item matches crate::items::ItemView::Message { role, content, .. } && role
                    == Role::Assistant && content.len() == 1 && (content[0] matches
                    ContentItem::OutputText { text } && text@ == old(self)@.assistant_text))))
                &&& final(self)@.assistant_text == Seq::<char>::empty()
                &&& final(self)@.reasoning_text == Seq::<char>::empty()
            })),
            (!(event@ matches ResponseEventView::OutputTextDelta { .. }) && !(event@ matches
                ResponseEventView::ReasoningContentDelta { .. }) && !(event@ matches
                ResponseEventView::ReasoningSummaryDelta { .. }) && !(event@ matches
                ResponseEventView::Completed { .. }) ==> (r@.len() == 1 && r@[0]@ == event@ && final(self)@ == old(self)@)),
    {
        match event {
            ResponseEvent::OutputTextDelta { delta } => {
                self.assistant_text.append(delta.as_str());
                Vec::new()
            },
            ResponseEvent::ReasoningContentDelta { delta, content_index: _ } => {
                self.reasoning_text.append(delta.as_str());
                Vec::new()
            },
            ResponseEvent::ReasoningSummaryDelta { delta, summary_index: _ } => {
                self.reasoning_text.append(delta.as_str());
                Vec::new()
            },
            ResponseEvent::Completed { response_id, token_usage } => {
                let mut out: Vec<ResponseEvent> = Vec::new();
                let mut reasoning = String::new();
                core::mem::swap(&mut reasoning, &mut self.reasoning_text);
                let mut text = String::new();
                core::mem::swap(&mut text, &mut self.assistant_text);
                if reasoning.as_str().unicode_len() > 0 {
                    let mut content: Vec<String> = Vec::new();
                    content.push(reasoning);
                    out.push(
                        ResponseEvent::OutputItemDone {
                            item: ResponseItem::Reasoning {
                                id: None,
                                summary: Vec::new(),
                                content,
                            },
                        },
                    );
                }
                if text.as_str().unicode_len() > 0 {
                    let mut content: Vec<ContentItem> = Vec::new();
                    content.push(ContentItem::OutputText { text });
                    out.push(
                        ResponseEvent::OutputItemDone {
                            item: ResponseItem::Message {
                                id: None,
                                role: Role::Assistant,
                                content,
                            },
                        },
                    );
                }
                out.push(ResponseEvent::Completed { response_id, token_usage });
                out
            },
            other => {
                let mut out: Vec<ResponseEvent> = Vec::new();
                out.push(other);
                out
            },
        }
    }
}

} // verus!
