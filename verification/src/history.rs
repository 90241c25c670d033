//! In-memory conversation history, the durable rollout log that shadows
//! it, compaction, and the reconstruction of history from a rollout.
//!
//! The module ends with the round-trip theorem: replaying the rollout that
//! a live execution wrote rebuilds exactly the live in-memory history.

use vstd::prelude::*;

use crate::items::ContentItem;
use crate::items::ItemView;
use crate::items::ResponseItem;
use crate::items::Role;
use crate::items::clone_item_vec;
use crate::items::item_seq_view;

verus! {

/// The per-turn context snapshot persisted ahead of each streaming
/// request: enough to replay the request's surroundings offline.
#[derive(Clone, Debug, PartialEq, Eq)]
pub struct TurnContextItem {
    pub cwd: String,
    pub model: String,
    pub approval_policy: String,
    pub sandbox_policy: String,
}

/// One record of the append-only rollout log.
#[derive(Debug, PartialEq, Eq)]
pub enum RolloutItem {
    ResponseItem(ResponseItem),
    Compacted { message: String, replacement_history: Option<Vec<ResponseItem>> },
    TurnContext(TurnContextItem),
    EventMessage { message: String },
}

/// The mathematical value of a rollout record.
pub enum RolloutItemView {
    ResponseItem(ItemView),
    Compacted { message: String, replacement_history: Option<Seq<ItemView>> },
    TurnContext(TurnContextItem),
    EventMessage { message: String },
}

impl View for RolloutItem {
    type V = RolloutItemView;

    open spec fn view(&self) -> RolloutItemView {
        match *self {
            RolloutItem::ResponseItem(item) => RolloutItemView::ResponseItem(item@),
            RolloutItem::Compacted { message, replacement_history } => RolloutItemView::Compacted {
                message,
                replacement_history: match replacement_history {
                    Some(items) => Some(item_seq_view(items@)),
                    None => None,
                },
            },
            RolloutItem::TurnContext(ctx) => RolloutItemView::TurnContext(ctx),
            RolloutItem::EventMessage { message } => RolloutItemView::EventMessage { message },
        }
    }
}

/// The views of a sequence of rollout records.
pub open spec fn rollout_seq_view(s: Seq<RolloutItem>) -> Seq<RolloutItemView> {
    s.map_values(|it: RolloutItem| it@)
}

/// The in-memory conversation: a totally-ordered list of response items.
pub struct ContextManager {
    pub items: Vec<ResponseItem>,
}

impl View for ContextManager {
    type V = Seq<ItemView>;

    open spec fn view(&self) -> Seq<ItemView> {
        item_seq_view(self.items@)
    }
}

impl ContextManager {
    /// An empty conversation.
    pub fn new() -> (r: ContextManager)
        ensures
            r@ == Seq::<ItemView>::empty(),
    {
        let r = ContextManager { items: Vec::new() };
        proof {
            assert(r@ =~= Seq::<ItemView>::empty());
        }
        r
    }

    /// The number of items recorded.
    pub fn len(&self) -> (n: usize)
        ensures
            n == self@.len(),
    {
        self.items.len()
    }

    /// Appends items to the conversation in order. Every recorded item is
    /// kept; nothing already recorded moves.
    pub fn record_items(&mut self, items: &Vec<ResponseItem>)
        ensures
            final(self)@ == old(self)@ + item_seq_view(items@),
    {
        let mut i: usize = 0;
        proof {
            assert(old(self)@ + item_seq_view(items@.take(0)) =~= old(self)@);
        }
        while i < items.len()
            invariant
                i <= items@.len(),
                self@ == old(self)@ + item_seq_view(items@.take(i as int)),
            decreases items@.len() - i,
        {
            self.items.push(items[i].clone());
            proof {
                assert(item_seq_view(self.items@) =~= item_seq_view(self.items@.drop_last()).push(
                    self.items@.last()@,
                ));
                assert(old(self)@ + item_seq_view(items@.take(i + 1 as int)) =~= (old(self)@
                    + item_seq_view(items@.take(i as int))).push(items@[i as int]@));
            }
            i = i + 1;
        }
        proof {
            assert(items@.take(items@.len() as int) =~= items@);
        }
    }

    /// Appends one item to the conversation.
    pub fn record_item(&mut self, item: &ResponseItem)
        ensures
            final(self)@ == old(self)@.push(item@),
    {
        self.items.push(item.clone());
        proof {
            assert(item_seq_view(self.items@) =~= item_seq_view(self.items@.drop_last()).push(
                self.items@.last()@,
            ));
        }
    }

    /// Replaces the whole conversation, as compaction does.
    pub fn replace(&mut self, items: Vec<ResponseItem>)
        ensures
            final(self)@ == item_seq_view(items@),
    {
        self.items = items;
    }

    /// A copy of the recorded conversation.
    pub fn get_history(&self) -> (r: Vec<ResponseItem>)
        ensures
            item_seq_view(r@) == self@,
    {
        clone_item_vec(&self.items)
    }

    /// Borrows the recorded conversation.
    pub fn contents(&self) -> (r: &Vec<ResponseItem>)
        ensures
            item_seq_view(r@) == self@,
    {
        &self.items
    }
}

/// The items every fresh conversation opens with: the developer
/// instructions and user instructions when configured, then the
/// environment context — in that order.
pub open spec fn spec_initial_context(
    developer_instructions: Option<String>,
    user_instructions: Option<String>,
    cwd: String,
) -> Seq<ItemView> {
    (match developer_instructions {
        Some(text) => seq![ItemView::DeveloperInstructions { text }],
        None => Seq::empty(),
    }) + (match user_instructions {
        Some(text) => seq![
            ItemView::UserInstructions { text, directory: cwd },
        ],
        None => Seq::empty(),
    }) + seq![ItemView::EnvironmentContext { cwd }]
}

/// Builds the items a fresh conversation opens with.
pub fn build_initial_context(
    developer_instructions: &Option<String>,
    user_instructions: &Option<String>,
    cwd: &String,
) -> (r: Vec<ResponseItem>)
    ensures
        item_seq_view(r@) == spec_initial_context(
            *developer_instructions,
            *user_instructions,
            *cwd,
        ),
{
    let mut items: Vec<ResponseItem> = Vec::new();
    if let Some(text) = developer_instructions {
        items.push(ResponseItem::DeveloperInstructions { text: text.clone() });
    }
    if let Some(text) = user_instructions {
        items.push(ResponseItem::UserInstructions {
            text: text.clone(),
            directory: cwd.clone(),
        });
    }
    items.push(ResponseItem::EnvironmentContext { cwd: cwd.clone() });
    proof {
        assert(item_seq_view(items@) =~= spec_initial_context(
            *developer_instructions,
            *user_instructions,
            *cwd,
        ));
    }
    items
}

/// Builds the user message that records a model warning in the
/// conversation, so the model sees it on the next turn.
pub fn model_warning_item(message: &str) -> (r: ResponseItem)
    ensures
        (r@ matches ItemView::Message { id, role, content } && id is None && role == Role::User
            && content.len() == 1 && (content[0] matches ContentItem::InputText { text } && text@
            == "Warning: "@ + message@)),
{
    proof {
        reveal_strlit("Warning: ");
    }
    let text = String::from_str("Warning: ").concat(message);
    let mut content: Vec<crate::items::ContentItem> = Vec::new();
    content.push(ContentItem::InputText { text });
    ResponseItem::Message { id: None, role: Role::User, content }
}

/// Whether an item is a plain user message: the kind collected by
/// compaction, as opposed to instructions, context, or summaries.
pub open spec fn spec_is_plain_user_message(item: ItemView) -> bool {
    item matches ItemView::Message { role: Role::User, .. }
}

/// The plain user messages of a history, in order.
pub open spec fn spec_user_messages(items: Seq<ItemView>) -> Seq<ItemView>
    decreases items.len(),
{
    if items.len() == 0 {
        Seq::empty()
    } else if spec_is_plain_user_message(items.last()) {
        spec_user_messages(items.drop_last()).push(items.last())
    } else {
        spec_user_messages(items.drop_last())
    }
}

/// Collects the plain user messages of a history, in order.
#[verifier::loop_isolation(false)]
pub fn collect_user_messages(items: &Vec<ResponseItem>) -> (r: Vec<ResponseItem>)
    ensures
        item_seq_view(r@) == spec_user_messages(item_seq_view(items@)),
{
    let ghost all = item_seq_view(items@);
    let mut r: Vec<ResponseItem> = Vec::new();
    let mut i: usize = 0;
    proof {
        assert(all.take(0) =~= Seq::<ItemView>::empty());
    }
    while i < items.len()
        invariant
            i <= items@.len(),
            item_seq_view(r@) == spec_user_messages(all.take(i as int)),
        decreases items@.len() - i,
    {
        proof {
            assert(all.take(i + 1 as int).drop_last() =~= all.take(i as int));
            assert(all.take(i + 1 as int).last() == all[i as int]);
        }
        let keep = match &items[i] {
            ResponseItem::Message { role: Role::User, .. } => true,
            _ => false,
        };
        if keep {
            r.push(items[i].clone());
            proof {
                assert(item_seq_view(r@) =~= item_seq_view(r@.drop_last()).push(r@.last()@));
            }
        }
        i = i + 1;
    }
    proof {
        assert(all.take(items@.len() as int) =~= all);
    }
    r
}

/// What a compaction leaves in memory: the session's initial context,
/// then the user messages collected from the history being replaced,
/// then the summary item.
pub open spec fn spec_compacted_history(
    initial: Seq<ItemView>,
    users: Seq<ItemView>,
    summary: String,
) -> Seq<ItemView> {
    initial + users + seq![ItemView::CompactSummary { text: summary }]
}

/// Builds the replacement history for one compaction.
pub fn build_compacted_history(
    initial_context: Vec<ResponseItem>,
    user_messages: &Vec<ResponseItem>,
    summary: &String,
) -> (r: Vec<ResponseItem>)
    ensures
        item_seq_view(r@) == spec_compacted_history(
            item_seq_view(initial_context@),
            item_seq_view(user_messages@),
            *summary,
        ),
{
    let ghost initial = item_seq_view(initial_context@);
    let ghost users = item_seq_view(user_messages@);
    let mut r = initial_context;
    let mut i: usize = 0;
    proof {
        assert(initial + users.take(0) =~= initial);
    }
    while i < user_messages.len()
        invariant
            i <= user_messages@.len(),
            item_seq_view(r@) == initial + users.take(i as int),
            users == item_seq_view(user_messages@),
        decreases user_messages@.len() - i,
    {
        r.push(user_messages[i].clone());
        proof {
            assert(item_seq_view(r@) =~= item_seq_view(r@.drop_last()).push(r@.last()@));
            assert(initial + users.take(i + 1 as int) =~= (initial + users.take(i as int)).push(
                users[i as int],
            ));
        }
        i = i + 1;
    }
    r.push(ResponseItem::CompactSummary { text: summary.clone() });
    proof {
        assert(users.take(user_messages@.len() as int) =~= users);
        assert(item_seq_view(r@) =~= item_seq_view(r@.drop_last()).push(r@.last()@));
        assert(item_seq_view(r@) =~= spec_compacted_history(initial, users, *summary));
    }
    r
}

/// How one rollout record transforms a history being rebuilt: response
/// items append; a compaction marker replaces the history, either with its
/// explicit replacement or with the compacted form; other records are
/// ignored.
pub open spec fn spec_replay_step(
    initial: Seq<ItemView>,
    h: Seq<ItemView>,
    record: RolloutItemView,
) -> Seq<ItemView> {
    match record {
        RolloutItemView::ResponseItem(item) => h.push(item),
        RolloutItemView::Compacted { message, replacement_history } => {
            match replacement_history {
                Some(replacement) => replacement,
                None => spec_compacted_history(initial, spec_user_messages(h), message),
            }
        },
        _ => h,
    }
}

/// The history obtained by replaying a rollout from `h`, applying
/// `spec_replay_step` record by record, left to right.
pub open spec fn spec_replay(
    initial: Seq<ItemView>,
    h: Seq<ItemView>,
    rollout: Seq<RolloutItemView>,
) -> Seq<ItemView>
    decreases rollout.len(),
{
    if rollout.len() == 0 {
        h
    } else {
        spec_replay(initial, spec_replay_step(initial, h, rollout.first()), rollout.drop_first())
    }
}

/// Replaying a concatenation replays the parts in order.
pub proof fn lemma_replay_append(
    initial: Seq<ItemView>,
    h: Seq<ItemView>,
    r1: Seq<RolloutItemView>,
    r2: Seq<RolloutItemView>,
)
    ensures
        spec_replay(initial, h, r1 + r2) == spec_replay(initial, spec_replay(initial, h, r1), r2),
    decreases r1.len(),
{
    if r1.len() == 0 {
        assert(r1 + r2 =~= r2);
    } else {
        assert((r1 + r2).drop_first() =~= r1.drop_first() + r2);
        lemma_replay_append(initial, spec_replay_step(initial, h, r1.first()), r1.drop_first(), r2);
    }
}

/// Where a session's first history comes from: fresh, resumed from an
/// existing rollout, or forked from another session's rollout.
#[derive(Debug, PartialEq, Eq)]
pub enum InitialHistory {
    New,
    Resumed { rollout_items: Vec<RolloutItem> },
    Forked { rollout_items: Vec<RolloutItem> },
}

/// What seeding a session's history must produce and persist: a fresh
/// session records its initial context, write-through; a resumed session
/// replays the rollout and appends nothing — the file already holds it;
/// a fork replays it and re-persists every record into the new file.
pub open spec fn spec_seed_history(
    initial: Seq<ItemView>,
    mode_records: Option<Seq<RolloutItemView>>,
    persist_all: bool,
) -> (Seq<ItemView>, Seq<RolloutItemView>) {
    match mode_records {
        None => (initial, initial.map_values(|item: ItemView| RolloutItemView::ResponseItem(item))),
        Some(records) => (
            spec_replay(initial, Seq::empty(), records),
            if persist_all {
                records
            } else {
                Seq::empty()
            },
        ),
    }
}

/// Seeds a session's history: returns the in-memory history and the
/// records to persist into the session's rollout file.
pub fn record_initial_history(
    initial_context: &Vec<ResponseItem>,
    mode: InitialHistory,
) -> (r: (Vec<ResponseItem>, Vec<RolloutItem>))
    ensures
        ({
            let expected = spec_seed_history(
                item_seq_view(initial_context@),
                match mode {
                    InitialHistory::New => None,
                    InitialHistory::Resumed { rollout_items } => Some(
                        rollout_seq_view(rollout_items@),
                    ),
                    InitialHistory::Forked { rollout_items } => Some(
                        rollout_seq_view(rollout_items@),
                    ),
                },
                mode matches InitialHistory::Forked { .. },
            );
            item_seq_view(r.0@) == expected.0 && rollout_seq_view(r.1@) == expected.1
        }),
{
    match mode {
        InitialHistory::New => {
            let history = clone_item_vec(initial_context);
            let mut records: Vec<RolloutItem> = Vec::new();
            let mut i: usize = 0;
            while i < initial_context.len()
                invariant
                    i <= initial_context@.len(),
                    rollout_seq_view(records@) == item_seq_view(
                        initial_context@.take(i as int),
                    ).map_values(|item: ItemView| RolloutItemView::ResponseItem(item)),
                decreases initial_context@.len() - i,
            {
                records.push(RolloutItem::ResponseItem(initial_context[i].clone()));
                proof {
                    assert(rollout_seq_view(records@) =~= rollout_seq_view(
                        records@.drop_last(),
                    ).push(records@.last()@));
                    assert(item_seq_view(initial_context@.take(i + 1 as int)).map_values(
                        |item: ItemView| RolloutItemView::ResponseItem(item),
                    ) =~= item_seq_view(initial_context@.take(i as int)).map_values(
                        |item: ItemView| RolloutItemView::ResponseItem(item),
                    ).push(RolloutItemView::ResponseItem(initial_context@[i as int]@)));
                }
                i = i + 1;
            }
            proof {
                assert(initial_context@.take(initial_context@.len() as int) =~= initial_context@);
                assert(item_seq_view(initial_context@).map_values(
                    |item: ItemView| RolloutItemView::ResponseItem(item),
                ) =~= spec_seed_history(item_seq_view(initial_context@), None, false).1);
            }
            (history, records)
        },
        InitialHistory::Resumed { rollout_items } => {
            let history = reconstruct_history_from_rollout(initial_context, &rollout_items);
            proof {
                assert(rollout_seq_view(Seq::<RolloutItem>::empty()) =~= Seq::<
                    RolloutItemView,
                >::empty());
            }
            (history, Vec::new())
        },
        InitialHistory::Forked { rollout_items } => {
            let history = reconstruct_history_from_rollout(initial_context, &rollout_items);
            (history, rollout_items)
        },
    }
}

/// The model a rollout was last recorded with: the model of its last
/// turn-context record, scanning from the end.
pub open spec fn spec_last_recorded_model(records: Seq<RolloutItemView>) -> Option<String>
    decreases records.len(),
{
    if records.len() == 0 {
        None
    } else {
        match records.last() {
            RolloutItemView::TurnContext(ctx) => Some(ctx.model),
            _ => spec_last_recorded_model(records.drop_last()),
        }
    }
}

/// Finds the model a resumed rollout was recorded with, when it differs
/// from the current one — the caller warns that resuming with another
/// model may change behavior.
#[verifier::loop_isolation(false)]
pub fn resumed_model_mismatch(rollout_items: &Vec<RolloutItem>, current_model: &str) -> (r: Option<
    String,
>)
    ensures
        r is Some <==> (spec_last_recorded_model(rollout_seq_view(rollout_items@)) matches Some(
            prev,
        ) && prev@ != current_model@),
        r matches Some(prev) ==> Some(prev) == spec_last_recorded_model(
            rollout_seq_view(rollout_items@),
        ),
{
    let ghost records = rollout_seq_view(rollout_items@);
    let mut i: usize = rollout_items.len();
    proof {
        assert(records.take(records.len() as int) =~= records);
    }
    while i > 0
        invariant
            i <= rollout_items@.len(),
            spec_last_recorded_model(records) == spec_last_recorded_model(
                records.take(i as int),
            ),
        decreases i,
    {
        i = i - 1;
        proof {
            assert(records.take(i + 1 as int).drop_last() =~= records.take(i as int));
            assert(records.take(i + 1 as int).last() == records[i as int]);
        }
        match &rollout_items[i] {
            RolloutItem::TurnContext(ctx) => {
                if crate::text::str_eq(ctx.model.as_str(), current_model) {
                    return None;
                }
                return Some(ctx.model.clone());
            },
            _ => {},
        }
    }
    proof {
        assert(records.take(0) =~= Seq::<RolloutItemView>::empty());
    }
    None
}

/// One history-changing step of a live execution: recording items, or
/// compacting with an optional explicit replacement.
pub enum HistoryStepView {
    Record { items: Seq<ItemView> },
    Compact { message: String, replacement_history: Option<Seq<ItemView>> },
}

/// What one live step leaves in memory.
pub open spec fn spec_live_step(
    initial: Seq<ItemView>,
    h: Seq<ItemView>,
    step: HistoryStepView,
) -> Seq<ItemView> {
    match step {
        HistoryStepView::Record { items } => h + items,
        HistoryStepView::Compact { message, replacement_history } => match replacement_history {
            Some(replacement) => replacement,
            None => spec_compacted_history(initial, spec_user_messages(h), message),
        },
    }
}

/// What one live step appends to the rollout log: each recorded item
/// verbatim, or one compaction marker.
pub open spec fn spec_step_rollout(step: HistoryStepView) -> Seq<RolloutItemView> {
    match step {
        HistoryStepView::Record { items } => items.map_values(
            |item: ItemView| RolloutItemView::ResponseItem(item),
        ),
        HistoryStepView::Compact { message, replacement_history } => seq![
            RolloutItemView::Compacted { message, replacement_history },
        ],
    }
}

/// The in-memory history after a live execution runs `steps` from `h`.
pub open spec fn spec_live_run(
    initial: Seq<ItemView>,
    h: Seq<ItemView>,
    steps: Seq<HistoryStepView>,
) -> Seq<ItemView>
    decreases steps.len(),
{
    if steps.len() == 0 {
        h
    } else {
        spec_live_run(initial, spec_live_step(initial, h, steps.first()), steps.drop_first())
    }
}

/// The rollout log a live execution writes while running `steps`.
pub open spec fn spec_run_rollout(steps: Seq<HistoryStepView>) -> Seq<RolloutItemView>
    decreases steps.len(),
{
    if steps.len() == 0 {
        Seq::empty()
    } else {
        spec_step_rollout(steps.first()) + spec_run_rollout(steps.drop_first())
    }
}

/// Replaying the records of one recording step appends exactly the
/// recorded items.
proof fn lemma_replay_records(initial: Seq<ItemView>, h: Seq<ItemView>, items: Seq<ItemView>)
    ensures
        spec_replay(
            initial,
            h,
            items.map_values(|item: ItemView| RolloutItemView::ResponseItem(item)),
        ) == h + items,
    decreases items.len(),
{
    let records = items.map_values(|item: ItemView| RolloutItemView::ResponseItem(item));
    if items.len() == 0 {
        assert(h + items =~= h);
    } else {
        assert(records.drop_first() =~= items.drop_first().map_values(
            |item: ItemView| RolloutItemView::ResponseItem(item),
        ));
        lemma_replay_records(initial, h.push(items.first()), items.drop_first());
        assert(h.push(items.first()) + items.drop_first() =~= h + items);
    }
}

/// Replaying what one live step wrote to the rollout reproduces what that
/// step left in memory.
proof fn lemma_replay_one_step(initial: Seq<ItemView>, h: Seq<ItemView>, step: HistoryStepView)
    ensures
        spec_replay(initial, h, spec_step_rollout(step)) == spec_live_step(initial, h, step),
{
    match step {
        HistoryStepView::Record { items } => {
            assert(spec_step_rollout(step) =~= items.map_values(
                |item: ItemView| RolloutItemView::ResponseItem(item),
            ));
            lemma_replay_records(initial, h, items);
            assert(spec_replay(initial, h, spec_step_rollout(step)) == spec_live_step(
                initial,
                h,
                step,
            ));
        },
        HistoryStepView::Compact { message, replacement_history } => {
            let records = spec_step_rollout(step);
            let after = spec_replay_step(initial, h, records.first());
            assert(records.drop_first() =~= Seq::<RolloutItemView>::empty());
            assert(spec_replay(initial, after, Seq::<RolloutItemView>::empty()) == after);
            assert(spec_replay(initial, h, records) == spec_replay(
                initial,
                after,
                records.drop_first(),
            ));
        },
    }
}

/// The round-trip law: rebuilding history from the rollout log written by
/// a live execution yields exactly the live in-memory history, whatever
/// the steps — records, compactions, and explicit replacements alike.
pub proof fn lemma_reconstruct_matches_live(
    initial: Seq<ItemView>,
    h: Seq<ItemView>,
    steps: Seq<HistoryStepView>,
)
    ensures
        spec_replay(initial, h, spec_run_rollout(steps)) == spec_live_run(initial, h, steps),
    decreases steps.len(),
{
    if steps.len() > 0 {
        lemma_replay_append(
            initial,
            h,
            spec_step_rollout(steps.first()),
            spec_run_rollout(steps.drop_first()),
        );
        lemma_replay_one_step(initial, h, steps.first());
        lemma_reconstruct_matches_live(
            initial,
            spec_live_step(initial, h, steps.first()),
            steps.drop_first(),
        );
    }
}

/// The resume law: replaying a rollout of plain records (no compactions)
/// into an empty history returns exactly the recorded items.
pub proof fn lemma_resume_records_identity(initial: Seq<ItemView>, items: Seq<ItemView>)
    ensures
        spec_replay(
            initial,
            Seq::<ItemView>::empty(),
            items.map_values(|item: ItemView| RolloutItemView::ResponseItem(item)),
        ) == items,
{
    lemma_replay_records(initial, Seq::<ItemView>::empty(), items);
    assert(Seq::<ItemView>::empty() + items =~= items);
}

/// Rebuilds the in-memory history from a rollout, starting empty.
pub fn reconstruct_history_from_rollout(
    initial_context: &Vec<ResponseItem>,
    rollout_items: &Vec<RolloutItem>,
) -> (r: Vec<ResponseItem>)
    ensures
        item_seq_view(r@) == spec_replay(
            item_seq_view(initial_context@),
            Seq::<ItemView>::empty(),
            rollout_seq_view(rollout_items@),
        ),
{
    let ghost initial = item_seq_view(initial_context@);
    let ghost records = rollout_seq_view(rollout_items@);
    let mut history = ContextManager::new();
    let mut i: usize = 0;
    proof {
        assert(records.skip(0) =~= records);
    }
    while i < rollout_items.len()
        invariant
            i <= rollout_items@.len(),
            initial == item_seq_view(initial_context@),
            records == rollout_seq_view(rollout_items@),
            spec_replay(initial, Seq::<ItemView>::empty(), records) == spec_replay(
                initial,
                history@,
                records.skip(i as int),
            ),
        decreases rollout_items@.len() - i,
    {
        proof {
            assert(records.skip(i as int).first() == records[i as int]);
            assert(records.skip(i as int).drop_first() =~= records.skip(i + 1 as int));
        }
        match &rollout_items[i] {
            RolloutItem::ResponseItem(item) => {
                history.record_item(item);
            },
            RolloutItem::Compacted { message, replacement_history } => {
                match replacement_history {
                    Some(replacement) => {
                        history.replace(clone_item_vec(replacement));
                    },
                    None => {
                        let snapshot = history.get_history();
                        let user_messages = collect_user_messages(&snapshot);
                        let rebuilt = build_compacted_history(
                            clone_item_vec(initial_context),
                            &user_messages,
                            message,
                        );
                        history.replace(rebuilt);
                    },
                }
            },
            RolloutItem::TurnContext(..) => {},
            RolloutItem::EventMessage { .. } => {},
        }
        i = i + 1;
    }
    proof {
        assert(records.skip(rollout_items@.len() as int) =~= Seq::<RolloutItemView>::empty());
    }
    history.get_history()
}

} // verus!
