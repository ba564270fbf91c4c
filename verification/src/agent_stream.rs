//! The rows of a session's message stream: which traces and consent cards are
//! shown, in which order, and which rows change from one moment to the next.

use std::collections::HashSet;
use std::ops::Range;
use vstd::prelude::*;
use crate::agent::{
    AgentSessionStatus, AgentTraceEntry, AgentTraceKind, ApprovalModel, BashApprovalCard,
    BashApprovalStatus, CardModel, TraceModel,
};
use crate::clock::{moment_id, moment_number, TraceTime};
use crate::text::{byte_len, utf8_len};
use crate::text_selection::least;

verus! {

broadcast use vstd::std_specs::hash::group_hash_axioms;

/// One row of the stream. A row also says when it must be measured again: it
/// differs from what it was.
#[derive(Debug, PartialEq, Eq)]
pub enum AgentStreamItem {
    /// The question that started the session.
    Question,
    /// One trace.
    Trace {
        /// Its place among the traces.
        trace_index: usize,
        /// The number by which it is known.
        trace_id: i64,
        /// The bytes of its title and its text.
        content_bytes: usize,
        /// Whether it is at work.
        is_active: bool,
    },
    /// A run of tool traces.
    ToolGroup {
        /// The first.
        start: usize,
        /// Behind the last.
        end: usize,
        /// The number by which it is known.
        group_id: i64,
        /// The bytes of all its titles and texts.
        content_bytes: usize,
        /// Whether all of them are shown.
        is_expanded: bool,
        /// Whether one of them is at work.
        is_active: bool,
    },
    /// A command that needs consent.
    BashApproval {
        /// Its place among the cards.
        approval_index: usize,
        /// What became of it.
        status: BashApprovalStatus,
    },
    /// The room at the end.
    Spacer,
}

/// An [`AgentStreamItem`] with its text as a sequence of characters.
#[verifier::ext_equal]
pub enum ItemModel {
    /// The question that started the session.
    Question,
    /// One trace.
    Trace {
        /// Its place among the traces.
        trace_index: int,
        /// The number by which it is known.
        trace_id: i64,
        /// The bytes of its title and its text.
        content_bytes: int,
        /// Whether it is at work.
        is_active: bool,
    },
    /// A run of tool traces.
    ToolGroup {
        /// The first.
        start: int,
        /// Behind the last.
        end: int,
        /// The number by which it is known.
        group_id: i64,
        /// The bytes of all its titles and texts.
        content_bytes: int,
        /// Whether all of them are shown.
        is_expanded: bool,
        /// Whether one of them is at work.
        is_active: bool,
    },
    /// A command that needs consent.
    BashApproval {
        /// Its place among the cards.
        approval_index: int,
        /// What became of it.
        status: ApprovalModel,
    },
    /// The room at the end.
    Spacer,
}

impl View for AgentStreamItem {
    type V = ItemModel;

    open spec fn view(&self) -> ItemModel {
        match self {
            AgentStreamItem::Question => ItemModel::Question,
            AgentStreamItem::Trace { trace_index, trace_id, content_bytes, is_active } =>
                ItemModel::Trace {
                trace_index: *trace_index as int,
                trace_id: *trace_id,
                content_bytes: *content_bytes as int,
                is_active: *is_active,
            },
            AgentStreamItem::ToolGroup {
                start,
                end,
                group_id,
                content_bytes,
                is_expanded,
                is_active,
            } => ItemModel::ToolGroup {
                start: *start as int,
                end: *end as int,
                group_id: *group_id,
                content_bytes: *content_bytes as int,
                is_expanded: *is_expanded,
                is_active: *is_active,
            },
            AgentStreamItem::BashApproval { approval_index, status } => ItemModel::BashApproval {
                approval_index: *approval_index as int,
                status: status@,
            },
            AgentStreamItem::Spacer => ItemModel::Spacer,
        }
    }
}

impl AgentStreamItem {
    /// Whether two rows are the same.
    pub fn same(&self, other: &AgentStreamItem) -> (result: bool)
        ensures
            result == (self@ == other@),
    {
        match (self, other) {
            (AgentStreamItem::Question, AgentStreamItem::Question) => true,
            (AgentStreamItem::Spacer, AgentStreamItem::Spacer) => true,
            (
                AgentStreamItem::Trace {
                    trace_index: index_a,
                    trace_id: id_a,
                    content_bytes: bytes_a,
                    is_active: active_a,
                },
                AgentStreamItem::Trace {
                    trace_index: index_b,
                    trace_id: id_b,
                    content_bytes: bytes_b,
                    is_active: active_b,
                },
            ) => *index_a == *index_b && *id_a == *id_b && *bytes_a == *bytes_b && *active_a
                == *active_b,
            (
                AgentStreamItem::ToolGroup {
                    start: start_a,
                    end: end_a,
                    group_id: id_a,
                    content_bytes: bytes_a,
                    is_expanded: expanded_a,
                    is_active: active_a,
                },
                AgentStreamItem::ToolGroup {
                    start: start_b,
                    end: end_b,
                    group_id: id_b,
                    content_bytes: bytes_b,
                    is_expanded: expanded_b,
                    is_active: active_b,
                },
            ) => *start_a == *start_b && *end_a == *end_b && *id_a == *id_b && *bytes_a == *bytes_b
                && *expanded_a == *expanded_b && *active_a == *active_b,
            (
                AgentStreamItem::BashApproval { approval_index: index_a, status: status_a },
                AgentStreamItem::BashApproval { approval_index: index_b, status: status_b },
            ) => *index_a == *index_b && status_a.same(status_b),
            _ => false,
        }
    }
}

/// The models of some rows.
pub open spec fn item_models(items: Seq<AgentStreamItem>) -> Seq<ItemModel> {
    items.map_values(|item: AgentStreamItem| item@)
}

/// The models of some traces.
pub open spec fn trace_models(traces: Seq<AgentTraceEntry>) -> Seq<TraceModel> {
    traces.map_values(|trace: AgentTraceEntry| trace@)
}

/// The models of some cards.
pub open spec fn card_models(cards: Seq<BashApprovalCard>) -> Seq<CardModel> {
    cards.map_values(|card: BashApprovalCard| card@)
}

// ---------------------------------------------------------------------------
// Which rows there are
// ---------------------------------------------------------------------------

/// Whether a kind of trace can be at work.
pub open spec fn can_work(kind: AgentTraceKind) -> bool {
    kind is Status || kind is Reasoning || kind is Output || kind is Tool
}

/// The last trace that can be at work.
pub open spec fn last_working(traces: Seq<TraceModel>) -> Option<int>
    decreases traces.len(),
{
    if traces.len() == 0 {
        None
    } else if can_work(traces.last().kind) {
        Some(traces.len() - 1)
    } else {
        last_working(traces.drop_last())
    }
}

/// The trace at work: none once the session has ended.
pub open spec fn working_trace(traces: Seq<TraceModel>, status: AgentSessionStatus) -> Option<int> {
    if status.ends_session() {
        None
    } else {
        last_working(traces)
    }
}

/// The bytes of a trace's title and text.
pub open spec fn trace_bytes(trace: TraceModel) -> nat {
    utf8_len(trace.title) + utf8_len(trace.detail)
}

/// The bytes of the titles and texts of some traces.
pub open spec fn bytes_between(traces: Seq<TraceModel>, start: int, end: int) -> nat
    decreases end - start,
{
    if start >= end {
        0
    } else {
        bytes_between(traces, start, end - 1) + trace_bytes(traces[end - 1])
    }
}

/// A number of bytes, but never more than the machine counts.
pub open spec fn counted(bytes: nat) -> int {
    least(bytes as int, usize::MAX as int)
}

/// Behind the run of tool traces that begins at a trace.
pub open spec fn run_end(traces: Seq<TraceModel>, start: int) -> int
    decreases traces.len() - start,
{
    if 0 <= start < traces.len() && traces[start].kind is Tool {
        run_end(traces, start + 1)
    } else {
        start
    }
}

/// Behind the cards that were asked no later than a moment.
pub open spec fn cards_until(cards: Seq<CardModel>, from: int, time: TraceTime) -> int
    decreases cards.len() - from,
{
    if 0 <= from < cards.len() && cards[from].created_at.no_later_than(time) {
        cards_until(cards, from + 1, time)
    } else {
        from
    }
}

/// The rows of some cards.
pub open spec fn card_rows(cards: Seq<CardModel>, from: int, to: int) -> Seq<ItemModel>
    decreases to - from,
{
    if from >= to {
        Seq::empty()
    } else {
        card_rows(cards, from, to - 1).push(
            ItemModel::BashApproval { approval_index: to - 1, status: cards[to - 1].status },
        )
    }
}

/// What the rows of a stream depend on.
#[verifier::ext_equal]
pub struct StreamModel {
    /// The traces.
    pub traces: Seq<TraceModel>,
    /// The cards.
    pub cards: Seq<CardModel>,
    /// The trace at work.
    pub active: Option<int>,
    /// The groups that are shown whole.
    pub expanded: Set<i64>,
}

impl StreamModel {
    /// The row of one trace.
    pub open spec fn trace_row(self, index: int) -> ItemModel {
        ItemModel::Trace {
            trace_index: index,
            trace_id: moment_id(self.traces[index].created_at),
            content_bytes: counted(trace_bytes(self.traces[index])),
            is_active: self.active == Some(index),
        }
    }

    /// The row of a run of tool traces.
    pub open spec fn group_row(self, start: int, end: int) -> ItemModel {
        let group_id = moment_id(self.traces[start].created_at);
        ItemModel::ToolGroup {
            start,
            end,
            group_id,
            content_bytes: counted(bytes_between(self.traces, start, end)),
            is_expanded: self.expanded.contains(group_id),
            is_active: self.active is Some && start <= self.active->0 < end,
        }
    }

    /// The rows from a trace and a card on. Requests to the model have no row;
    /// tool traces in a row share one; a card stands in front of the first trace
    /// that is not older, or at the end.
    pub open spec fn rows_from(self, trace: int, card: int) -> Seq<ItemModel>
        decreases self.traces.len() - trace,
    {
        if trace < 0 || trace >= self.traces.len() {
            card_rows(self.cards, card, self.cards.len() as int)
        } else if self.traces[trace].kind is Model {
            self.rows_from(trace + 1, card)
        } else {
            let next_card = cards_until(self.cards, card, self.traces[trace].created_at);
            let asked = card_rows(self.cards, card, next_card);
            if self.traces[trace].kind is Tool {
                let end = run_end(self.traces, trace + 1);
                if trace < end && end <= self.traces.len() {
                    asked + seq![self.group_row(trace, end)] + self.rows_from(end, next_card)
                } else {
                    asked
                }
            } else {
                asked + seq![self.trace_row(trace)] + self.rows_from(trace + 1, next_card)
            }
        }
    }

    /// All rows of the stream.
    pub open spec fn rows(self) -> Seq<ItemModel> {
        seq![ItemModel::Question] + self.rows_from(0, 0) + seq![ItemModel::Spacer]
    }
}

/// What the rows of a stream are made from.
pub open spec fn stream_model(
    traces: Seq<AgentTraceEntry>,
    status: AgentSessionStatus,
    expanded: Set<i64>,
    cards: Seq<BashApprovalCard>,
) -> StreamModel {
    StreamModel {
        traces: trace_models(traces),
        cards: card_models(cards),
        active: working_trace(trace_models(traces), status),
        expanded,
    }
}

/// Whether every trace was made at a moment of the calendar.
pub open spec fn traces_are_dated(traces: Seq<AgentTraceEntry>) -> bool {
    forall|i: int| 0 <= i < traces.len() ==> (#[trigger] traces[i]).created_at.is_valid()
}

fn working_trace_index(traces: &Vec<AgentTraceEntry>, status: AgentSessionStatus) -> (result: Option<
    usize,
>)
    ensures
        match result {
            Some(index) => working_trace(trace_models(traces@), status) == Some(index as int)
                && index < traces@.len(),
            None => working_trace(trace_models(traces@), status) is None,
        },
{
    if status.is_terminal() {
        return None;
    }
    let ghost models = trace_models(traces@);
    let mut end: usize = traces.len();
    proof {
        assert(models.take(end as int) =~= models);
    }
    while end > 0
        invariant
            end <= traces@.len(),
            models == trace_models(traces@),
            last_working(models) == last_working(models.take(end as int)),
            working_trace(models, status) == last_working(models),
        decreases end,
    {
        proof {
            assert(models.take(end as int).last() == traces@[end - 1]@);
            assert(models.take(end as int).drop_last() =~= models.take(end - 1));
        }
        match traces[end - 1].kind {
            AgentTraceKind::Status
            | AgentTraceKind::Reasoning
            | AgentTraceKind::Output
            | AgentTraceKind::Tool => {
                return Some(end - 1);
            },
            _ => {},
        }
        end -= 1;
    }
    None
}

proof fn lemma_run_end(traces: Seq<TraceModel>, start: int)
    requires
        0 <= start <= traces.len(),
    ensures
        start <= run_end(traces, start) <= traces.len(),
        forall|k: int| start <= k < run_end(traces, start) ==> (#[trigger] traces[k]).kind is Tool,
        run_end(traces, start) < traces.len() ==> !(traces[run_end(traces, start)].kind is Tool),
    decreases traces.len() - start,
{
    if start < traces.len() && traces[start].kind is Tool {
        lemma_run_end(traces, start + 1);
    }
}

proof fn lemma_cards_until(cards: Seq<CardModel>, from: int, time: TraceTime)
    requires
        0 <= from <= cards.len(),
    ensures
        from <= cards_until(cards, from, time) <= cards.len(),
    decreases cards.len() - from,
{
    if from < cards.len() && cards[from].created_at.no_later_than(time) {
        lemma_cards_until(cards, from + 1, time);
    }
}

proof fn lemma_card_rows_len(cards: Seq<CardModel>, from: int, to: int)
    requires
        from <= to,
    ensures
        card_rows(cards, from, to).len() == to - from,
        forall|k: int|
            0 <= k < to - from ==> #[trigger] card_rows(cards, from, to)[k]
                == (ItemModel::BashApproval {
                approval_index: from + k,
                status: cards[from + k].status,
            }),
    decreases to - from,
{
    if from < to {
        lemma_card_rows_len(cards, from, to - 1);
    }
}

/// Adds the row of one card to some rows.
fn push_card_row(
    items: &mut Vec<AgentStreamItem>,
    cards: &Vec<BashApprovalCard>,
    card: usize,
)
    requires
        card < cards@.len(),
    ensures
        item_models(final(items)@) == item_models(old(items)@).push(
            ItemModel::BashApproval {
                approval_index: card as int,
                status: card_models(cards@)[card as int].status,
            },
        ),
{
    let item = AgentStreamItem::BashApproval {
        approval_index: card,
        status: cards[card].status.copy(),
    };
    items.push(item);
    proof {
        assert(item_models(items@) =~= item_models(old(items)@).push(item@));
    }
}

/// Adds the rows of the cards that were asked no later than a moment. Returns the
/// first card that was not.
fn push_cards_until(
    items: &mut Vec<AgentStreamItem>,
    cards: &Vec<BashApprovalCard>,
    from: usize,
    time: TraceTime,
) -> (result: usize)
    requires
        from <= cards@.len(),
    ensures
        result == cards_until(card_models(cards@), from as int, time),
        from <= result <= cards@.len(),
        item_models(final(items)@) == item_models(old(items)@) + card_rows(
            card_models(cards@),
            from as int,
            result as int,
        ),
{
    let ghost models = card_models(cards@);
    let ghost before = item_models(items@);
    let mut card: usize = from;
    while card < cards.len() && cards[card].created_at.is_no_later_than(&time)
        invariant
            from <= card <= cards@.len(),
            models == card_models(cards@),
            cards_until(models, from as int, time) == cards_until(models, card as int, time),
            item_models(items@) == before + card_rows(models, from as int, card as int),
        decreases cards@.len() - card,
    {
        proof {
            assert(models[card as int] == cards@[card as int]@);
        }
        push_card_row(items, cards, card);
        proof {
            let row = ItemModel::BashApproval {
                approval_index: card as int,
                status: models[card as int].status,
            };
            assert(before + card_rows(models, from as int, card + 1) =~= (before + card_rows(
                models,
                from as int,
                card as int,
            )).push(row));
        }
        card += 1;
    }
    proof {
        if card < cards@.len() {
            assert(models[card as int] == cards@[card as int]@);
        }
    }
    card
}

/// Adds the rows of the cards from one on.
fn push_remaining_cards(
    items: &mut Vec<AgentStreamItem>,
    cards: &Vec<BashApprovalCard>,
    from: usize,
)
    requires
        from <= cards@.len(),
    ensures
        item_models(final(items)@) == item_models(old(items)@) + card_rows(
            card_models(cards@),
            from as int,
            cards@.len() as int,
        ),
{
    let ghost models = card_models(cards@);
    let ghost before = item_models(items@);
    let mut card: usize = from;
    while card < cards.len()
        invariant
            from <= card <= cards@.len(),
            models == card_models(cards@),
            item_models(items@) == before + card_rows(models, from as int, card as int),
        decreases cards@.len() - card,
    {
        push_card_row(items, cards, card);
        proof {
            let row = ItemModel::BashApproval {
                approval_index: card as int,
                status: models[card as int].status,
            };
            assert(before + card_rows(models, from as int, card + 1) =~= (before + card_rows(
                models,
                from as int,
                card as int,
            )).push(row));
        }
        card += 1;
    }
}

/// The bytes of a trace, but never more than the machine counts.
fn trace_content_bytes(trace: &AgentTraceEntry) -> (result: usize)
    ensures
        result == counted(trace_bytes(trace@)),
{
    byte_len(trace.title.as_str()).saturating_add(byte_len(trace.detail.as_str()))
}

/// Works out the rows of a stream.
pub fn build_agent_stream_items(
    traces: &Vec<AgentTraceEntry>,
    status: AgentSessionStatus,
    expanded_tool_groups: &HashSet<i64>,
    bash_approvals: &Vec<BashApprovalCard>,
) -> (result: Vec<AgentStreamItem>)
    requires
        traces_are_dated(traces@),
    ensures
        item_models(result@) == stream_model(
            traces@,
            status,
            expanded_tool_groups@,
            bash_approvals@,
        ).rows(),
{
    let ghost stream = stream_model(traces@, status, expanded_tool_groups@, bash_approvals@);
    let mut items: Vec<AgentStreamItem> = Vec::new();
    items.push(AgentStreamItem::Question);
    let active = working_trace_index(traces, status);
    let mut card: usize = 0;
    let mut index: usize = 0;
    proof {
        assert(item_models(items@) =~= seq![ItemModel::Question]);
    }
    while index < traces.len()
        invariant
            index <= traces@.len(),
            card <= bash_approvals@.len(),
            traces_are_dated(traces@),
            stream == stream_model(traces@, status, expanded_tool_groups@, bash_approvals@),
            match active {
                Some(at) => stream.active == Some(at as int),
                None => stream.active is None,
            },
            item_models(items@) + stream.rows_from(index as int, card as int) == seq![
                ItemModel::Question,
            ] + stream.rows_from(0, 0),
        decreases traces@.len() - index,
    {
        let ghost before = item_models(items@);
        let ghost rest = stream.rows_from(index as int, card as int);
        let trace = &traces[index];
        proof {
            assert(stream.traces[index as int] == trace@);
        }
        if trace.kind == AgentTraceKind::Model {
            index += 1;
            continue;
        }
        let from: usize = card;
        card = push_cards_until(&mut items, bash_approvals, from, trace.created_at);
        let ghost asked = card_rows(stream.cards, from as int, card as int);
        if trace.kind != AgentTraceKind::Tool {
            let item = AgentStreamItem::Trace {
                trace_index: index,
                trace_id: moment_number(trace.created_at),
                content_bytes: trace_content_bytes(trace),
                is_active: match active {
                    Some(at) => at == index,
                    None => false,
                },
            };
            items.push(item);
            proof {
                assert(item@ == stream.trace_row(index as int));
                assert(item_models(items@) =~= before + asked + seq![item@]);
                assert(item_models(items@) + stream.rows_from(index + 1, card as int) =~= before
                    + rest);
            }
            index += 1;
            continue;
        }
        let start: usize = index;
        let mut content_bytes: usize = trace_content_bytes(trace);
        index += 1;
        proof {
            reveal_with_fuel(bytes_between, 2);
        }
        while index < traces.len() && traces[index].kind == AgentTraceKind::Tool
            invariant
                start < index <= traces@.len(),
                stream.traces == trace_models(traces@),
                run_end(stream.traces, start + 1) == run_end(stream.traces, index as int),
                content_bytes == counted(bytes_between(stream.traces, start as int, index as int)),
            decreases traces@.len() - index,
        {
            proof {
                assert(stream.traces[index as int] == traces@[index as int]@);
            }
            content_bytes = content_bytes.saturating_add(
                byte_len(traces[index].title.as_str()),
            ).saturating_add(byte_len(traces[index].detail.as_str()));
            index += 1;
        }
        proof {
            if index < traces@.len() {
                assert(stream.traces[index as int] == traces@[index as int]@);
            }
            assert(run_end(stream.traces, start + 1) == index);
        }
        let group_id: i64 = moment_number(traces[start].created_at);
        let item = AgentStreamItem::ToolGroup {
            start,
            end: index,
            group_id,
            content_bytes,
            is_expanded: expanded_tool_groups.contains(&group_id),
            is_active: match active {
                Some(at) => start <= at && at < index,
                None => false,
            },
        };
        items.push(item);
        proof {
            assert(item@ == stream.group_row(start as int, index as int));
            assert(item_models(items@) =~= before + asked + seq![item@]);
            assert(item_models(items@) + stream.rows_from(index as int, card as int) =~= before
                + rest);
        }
    }
    push_remaining_cards(&mut items, bash_approvals, card);
    items.push(AgentStreamItem::Spacer);
    proof {
        assert(item_models(items@) =~= stream.rows());
    }
    items
}

// ---------------------------------------------------------------------------
// Which rows changed
// ---------------------------------------------------------------------------

/// Rows that are measured again: a range of the old rows, and how many new rows
/// take its place.
#[derive(Debug, PartialEq, Eq)]
pub struct RowSplice {
    /// The old rows.
    pub old_range: Range<usize>,
    /// How many new rows there are.
    pub new_count: usize,
}

/// Whether the new rows differ from the old ones exactly in some splices, each of
/// which is a longest run of rows that differ.
pub open spec fn splices_are_runs(
    old_rows: Seq<ItemModel>,
    new_rows: Seq<ItemModel>,
    splices: Seq<RowSplice>,
) -> bool {
    &&& forall|s: int|
        0 <= s < splices.len() ==> {
            let splice = #[trigger] splices[s];
            &&& splice.old_range.start < splice.old_range.end <= old_rows.len()
            &&& splice.new_count == splice.old_range.end - splice.old_range.start
        }
    &&& forall|s: int, t: int|
        0 <= s < t < splices.len() ==> (#[trigger] splices[s]).old_range.end < (
        #[trigger] splices[t]).old_range.start
    &&& forall|i: int|
        0 <= i < old_rows.len() ==> ((#[trigger] old_rows[i]) != new_rows[i] <==> exists|s: int|
            0 <= s < splices.len() && (#[trigger] splices[s]).old_range.start <= i
                < splices[s].old_range.end)
}

/// Whether a number is the length of the longest common beginning of two lists.
pub open spec fn is_common_prefix(left: Seq<ItemModel>, right: Seq<ItemModel>, length: int) -> bool {
    &&& 0 <= length <= left.len()
    &&& length <= right.len()
    &&& left.take(length) == right.take(length)
    &&& length < left.len() && length < right.len() ==> left[length] != right[length]
}

/// Whether a number is the length of the longest common end of two lists behind a
/// common beginning.
pub open spec fn is_common_suffix(
    left: Seq<ItemModel>,
    right: Seq<ItemModel>,
    prefix: int,
    length: int,
) -> bool {
    &&& 0 <= length <= left.len() - prefix
    &&& length <= right.len() - prefix
    &&& left.skip(left.len() - length) == right.skip(right.len() - length)
    &&& length < left.len() - prefix && length < right.len() - prefix ==> left[left.len() - length
        - 1] != right[right.len() - length - 1]
}

/// Whether one splice replaces what stands between a longest common beginning and
/// a longest common end.
pub open spec fn is_middle_splice(
    old_rows: Seq<ItemModel>,
    new_rows: Seq<ItemModel>,
    splice: RowSplice,
) -> bool {
    let prefix = splice.old_range.start as int;
    &&& splice.old_range.start <= splice.old_range.end <= old_rows.len()
    &&& is_common_prefix(old_rows, new_rows, prefix)
    &&& is_common_suffix(old_rows, new_rows, prefix, old_rows.len() - splice.old_range.end)
    &&& splice.new_count == new_rows.len() - prefix - (old_rows.len() - splice.old_range.end)
}

fn common_prefix_len(left: &Vec<AgentStreamItem>, right: &Vec<AgentStreamItem>) -> (result: usize)
    ensures
        is_common_prefix(item_models(left@), item_models(right@), result as int),
{
    let mut i: usize = 0;
    while i < left.len() && i < right.len() && left[i].same(&right[i])
        invariant
            i <= left@.len(),
            i <= right@.len(),
            item_models(left@).take(i as int) == item_models(right@).take(i as int),
        decreases left@.len() - i,
    {
        proof {
            let a = item_models(left@);
            let b = item_models(right@);
            assert(a[i as int] == b[i as int]);
            assert(a.take(i + 1) =~= a.take(i as int).push(a[i as int]));
            assert(b.take(i + 1) =~= b.take(i as int).push(b[i as int]));
        }
        i += 1;
    }
    i
}

fn common_suffix_len(
    left: &Vec<AgentStreamItem>,
    right: &Vec<AgentStreamItem>,
    prefix: usize,
) -> (result: usize)
    requires
        prefix <= left@.len(),
        prefix <= right@.len(),
    ensures
        is_common_suffix(
            item_models(left@),
            item_models(right@),
            prefix as int,
            result as int,
        ),
{
    let mut i: usize = 0;
    proof {
        let a = item_models(left@);
        let b = item_models(right@);
        assert(a.skip(a.len() as int) =~= b.skip(b.len() as int));
    }
    while i < left.len() - prefix && i < right.len() - prefix && left[left.len() - 1 - i].same(
        &right[right.len() - 1 - i],
    )
        invariant
            prefix <= left@.len(),
            prefix <= right@.len(),
            i <= left@.len() - prefix,
            i <= right@.len() - prefix,
            item_models(left@).skip(left@.len() - i) == item_models(right@).skip(right@.len() - i),
        decreases left@.len() - prefix - i,
    {
        proof {
            let a = item_models(left@);
            let b = item_models(right@);
            let x = a.len() - 1 - i;
            let y = b.len() - 1 - i;
            assert(a[x] == b[y]);
            assert(a.skip(x) =~= seq![a[x]] + a.skip(x + 1));
            assert(b.skip(y) =~= seq![b[y]] + b.skip(y + 1));
        }
        i += 1;
    }
    i
}

/// Works out which rows are measured again. Where no row came or went, only the
/// rows that differ are; else what stands between the common beginning and the
/// common end.
pub fn changed_stream_item_ranges(
    previous: &Vec<AgentStreamItem>,
    next: &Vec<AgentStreamItem>,
) -> (result: Vec<RowSplice>)
    ensures
        previous@.len() == next@.len() ==> splices_are_runs(
            item_models(previous@),
            item_models(next@),
            result@,
        ),
        previous@.len() != next@.len() ==> result@.len() == 1 && is_middle_splice(
            item_models(previous@),
            item_models(next@),
            result@[0],
        ),
{
    if previous.len() == next.len() {
        return changed_runs(previous, next);
    }
    let mut splices: Vec<RowSplice> = Vec::new();
    let prefix: usize = common_prefix_len(previous, next);
    let suffix: usize = common_suffix_len(previous, next, prefix);
    let old_end: usize = previous.len() - suffix;
    let new_end: usize = next.len() - suffix;
    splices.push(RowSplice { old_range: prefix..old_end, new_count: new_end - prefix });
    splices
}

spec fn in_splices(splices: Seq<RowSplice>, i: int) -> bool {
    exists|s: int|
        0 <= s < splices.len() && (#[trigger] splices[s]).old_range.start <= i
            < splices[s].old_range.end
}

fn changed_runs(previous: &Vec<AgentStreamItem>, next: &Vec<AgentStreamItem>) -> (result: Vec<
    RowSplice,
>)
    requires
        previous@.len() == next@.len(),
    ensures
        splices_are_runs(item_models(previous@), item_models(next@), result@),
{
    let ghost old_rows = item_models(previous@);
    let ghost new_rows = item_models(next@);
    let mut splices: Vec<RowSplice> = Vec::new();
    let mut index: usize = 0;
    while index < previous.len()
        invariant
            previous@.len() == next@.len(),
            index <= previous@.len(),
            old_rows == item_models(previous@),
            new_rows == item_models(next@),
            forall|s: int|
                0 <= s < splices@.len() ==> {
                    let splice = #[trigger] splices@[s];
                    &&& splice.old_range.start < splice.old_range.end <= index
                    &&& splice.new_count == splice.old_range.end - splice.old_range.start
                    &&& splice.old_range.end < previous@.len() ==> old_rows[splice.old_range.end as int]
                        == new_rows[splice.old_range.end as int]
                },
            forall|s: int, t: int|
                0 <= s < t < splices@.len() ==> (#[trigger] splices@[s]).old_range.end < (
                #[trigger] splices@[t]).old_range.start,
            forall|i: int|
                0 <= i < index ==> ((#[trigger] old_rows[i]) != new_rows[i] <==> in_splices(
                    splices@,
                    i,
                )),
        decreases previous@.len() - index,
    {
        if previous[index].same(&next[index]) {
            proof {
                assert(old_rows[index as int] == new_rows[index as int]);
            }
            index += 1;
            continue;
        }
        let start: usize = index;
        while index < previous.len() && !previous[index].same(&next[index])
            invariant
                previous@.len() == next@.len(),
                start <= index <= previous@.len(),
                old_rows == item_models(previous@),
                new_rows == item_models(next@),
                forall|i: int| start <= i < index ==> (#[trigger] old_rows[i]) != new_rows[i],
            ensures
                start <= index <= previous@.len(),
                forall|i: int| start <= i < index ==> (#[trigger] old_rows[i]) != new_rows[i],
                index < previous@.len() ==> old_rows[index as int] == new_rows[index as int],
            decreases previous@.len() - index,
        {
            proof {
                assert(old_rows[index as int] != new_rows[index as int]);
            }
            index += 1;
        }
        assert(old_rows[start as int] != new_rows[start as int]);
        let ghost before = splices@;
        splices.push(RowSplice { old_range: start..index, new_count: index - start });
        proof {
            assert forall|i: int| 0 <= i < index implies ((#[trigger] old_rows[i]) != new_rows[i]
                <==> in_splices(splices@, i)) by {
                if i >= start {
                    assert(splices@[splices@.len() - 1].old_range.start <= i);
                    assert(in_splices(splices@, i));
                } else {
                    if in_splices(before, i) {
                        let s = choose|s: int|
                            0 <= s < before.len() && (#[trigger] before[s]).old_range.start <= i
                                < before[s].old_range.end;
                        assert(splices@[s] == before[s]);
                    }
                    if in_splices(splices@, i) {
                        let s = choose|s: int|
                            0 <= s < splices@.len() && (#[trigger] splices@[s]).old_range.start <= i
                                < splices@[s].old_range.end;
                        assert(s < before.len());
                        assert(before[s] == splices@[s]);
                    }
                }
            }
        }
    }
    splices
}

// ---------------------------------------------------------------------------
// Laws
// ---------------------------------------------------------------------------

/// Whether a row shows a trace.
pub open spec fn shows_trace(row: ItemModel, trace: int) -> bool {
    match row {
        ItemModel::Trace { trace_index, .. } => trace_index == trace,
        ItemModel::ToolGroup { start, end, .. } => start <= trace < end,
        _ => false,
    }
}

/// Whether some row shows a trace.
pub open spec fn some_row_shows(rows: Seq<ItemModel>, trace: int) -> bool {
    exists|r: int| 0 <= r < rows.len() && shows_trace(#[trigger] rows[r], trace)
}

/// Whether no two rows show the same trace.
pub open spec fn no_row_twice(rows: Seq<ItemModel>, trace: int) -> bool {
    forall|r: int, s: int|
        0 <= r < rows.len() && 0 <= s < rows.len() && shows_trace(#[trigger] rows[r], trace)
            && shows_trace(#[trigger] rows[s], trace) ==> r == s
}

proof fn lemma_cards_show_no_trace(cards: Seq<CardModel>, from: int, to: int, trace: int)
    requires
        from <= to,
    ensures
        !some_row_shows(card_rows(cards, from, to), trace),
{
    lemma_card_rows_len(cards, from, to);
}

proof fn lemma_shown_in_concat(left: Seq<ItemModel>, right: Seq<ItemModel>, trace: int)
    ensures
        some_row_shows(left + right, trace) == (some_row_shows(left, trace) || some_row_shows(
            right,
            trace,
        )),
        !some_row_shows(left, trace) && no_row_twice(right, trace) ==> no_row_twice(
            left + right,
            trace,
        ),
        !some_row_shows(right, trace) && no_row_twice(left, trace) ==> no_row_twice(
            left + right,
            trace,
        ),
{
    let both = left + right;
    if some_row_shows(left, trace) {
        let r = choose|r: int| 0 <= r < left.len() && shows_trace(#[trigger] left[r], trace);
        assert(both[r] == left[r]);
    }
    if some_row_shows(right, trace) {
        let r = choose|r: int| 0 <= r < right.len() && shows_trace(#[trigger] right[r], trace);
        assert(both[left.len() + r] == right[r]);
    }
    if some_row_shows(both, trace) {
        let r = choose|r: int| 0 <= r < both.len() && shows_trace(#[trigger] both[r], trace);
        if r < left.len() {
            assert(left[r] == both[r]);
        } else {
            assert(right[r - left.len()] == both[r]);
        }
    }
    assert forall|r: int, s: int|
        0 <= r < both.len() && 0 <= s < both.len() && shows_trace(#[trigger] both[r], trace)
            && shows_trace(#[trigger] both[s], trace) && ((!some_row_shows(left, trace)
            && no_row_twice(right, trace)) || (!some_row_shows(right, trace) && no_row_twice(
            left,
            trace,
        ))) implies r == s by {
        if r < left.len() {
            assert(left[r] == both[r]);
        } else {
            assert(right[r - left.len()] == both[r]);
        }
        if s < left.len() {
            assert(left[s] == both[s]);
        } else {
            assert(right[s - left.len()] == both[s]);
        }
    }
}

proof fn lemma_rows_show_traces(stream: StreamModel, from: int, card: int, trace: int)
    requires
        0 <= from <= stream.traces.len(),
        0 <= card <= stream.cards.len(),
        0 <= trace < stream.traces.len(),
    ensures
        some_row_shows(stream.rows_from(from, card), trace) == (from <= trace && !(
        stream.traces[trace].kind is Model)),
        no_row_twice(stream.rows_from(from, card), trace),
    decreases stream.traces.len() - from,
{
    if from == stream.traces.len() {
        lemma_cards_show_no_trace(stream.cards, card, stream.cards.len() as int, trace);
    } else if stream.traces[from].kind is Model {
        lemma_rows_show_traces(stream, from + 1, card, trace);
    } else {
        let time = stream.traces[from].created_at;
        lemma_cards_until(stream.cards, card, time);
        let next_card = cards_until(stream.cards, card, time);
        let asked = card_rows(stream.cards, card, next_card);
        lemma_cards_show_no_trace(stream.cards, card, next_card, trace);
        let (row, next) = if stream.traces[from].kind is Tool {
            lemma_run_end(stream.traces, from + 1);
            let end = run_end(stream.traces, from + 1);
            (stream.group_row(from, end), end)
        } else {
            (stream.trace_row(from), from + 1)
        };
        let rest = stream.rows_from(next, next_card);
        lemma_rows_show_traces(stream, next, next_card, trace);
        let one = seq![row];
        assert(one[0] == row);
        assert(some_row_shows(one, trace) == shows_trace(row, trace));
        lemma_shown_in_concat(asked, one, trace);
        lemma_shown_in_concat(asked + one, rest, trace);
    }
}

/// Every trace has exactly one row, except a request to the model, which has none.
pub proof fn law_every_trace_has_one_row(stream: StreamModel, trace: int)
    requires
        0 <= trace < stream.traces.len(),
    ensures
        some_row_shows(stream.rows(), trace) == !(stream.traces[trace].kind is Model),
        no_row_twice(stream.rows(), trace),
{
    let first = seq![ItemModel::Question];
    let last = seq![ItemModel::Spacer];
    lemma_rows_show_traces(stream, 0, 0, trace);
    assert(first[0] is Question && last[0] is Spacer);
    assert(!some_row_shows(first, trace));
    assert(!some_row_shows(last, trace));
    lemma_shown_in_concat(first, stream.rows_from(0, 0), trace);
    lemma_shown_in_concat(first + stream.rows_from(0, 0), last, trace);
}

/// The cards that some rows show, in their order.
pub open spec fn shown_cards(rows: Seq<ItemModel>) -> Seq<int>
    decreases rows.len(),
{
    if rows.len() == 0 {
        Seq::empty()
    } else {
        let before = shown_cards(rows.drop_last());
        match rows.last() {
            ItemModel::BashApproval { approval_index, .. } => before.push(approval_index),
            _ => before,
        }
    }
}

proof fn lemma_shown_cards_concat(left: Seq<ItemModel>, right: Seq<ItemModel>)
    ensures
        shown_cards(left + right) == shown_cards(left) + shown_cards(right),
    decreases right.len(),
{
    if right.len() == 0 {
        assert(left + right =~= left);
        assert(shown_cards(left) + shown_cards(right) =~= shown_cards(left));
    } else {
        assert((left + right).drop_last() =~= left + right.drop_last());
        lemma_shown_cards_concat(left, right.drop_last());
        assert(shown_cards(left + right) =~= shown_cards(left) + shown_cards(right));
    }
}

/// The numbers from one to below another.
pub open spec fn counting(from: int, to: int) -> Seq<int> {
    Seq::new((to - from) as nat, |i: int| from + i)
}

proof fn lemma_card_rows_show(cards: Seq<CardModel>, from: int, to: int)
    requires
        from <= to,
    ensures
        shown_cards(card_rows(cards, from, to)) == counting(from, to),
    decreases to - from,
{
    if from < to {
        lemma_card_rows_show(cards, from, to - 1);
        assert(card_rows(cards, from, to).drop_last() =~= card_rows(cards, from, to - 1));
        assert(counting(from, to) =~= counting(from, to - 1).push(to - 1));
    } else {
        assert(counting(from, to) =~= Seq::empty());
    }
}

proof fn lemma_rows_show_cards(stream: StreamModel, from: int, card: int)
    requires
        0 <= from <= stream.traces.len(),
        0 <= card <= stream.cards.len(),
    ensures
        shown_cards(stream.rows_from(from, card)) == counting(card, stream.cards.len() as int),
    decreases stream.traces.len() - from,
{
    let total = stream.cards.len() as int;
    if from == stream.traces.len() {
        lemma_card_rows_show(stream.cards, card, total);
    } else if stream.traces[from].kind is Model {
        lemma_rows_show_cards(stream, from + 1, card);
    } else {
        let time = stream.traces[from].created_at;
        lemma_cards_until(stream.cards, card, time);
        let next_card = cards_until(stream.cards, card, time);
        let asked = card_rows(stream.cards, card, next_card);
        lemma_card_rows_show(stream.cards, card, next_card);
        let (row, next) = if stream.traces[from].kind is Tool {
            lemma_run_end(stream.traces, from + 1);
            let end = run_end(stream.traces, from + 1);
            (stream.group_row(from, end), end)
        } else {
            (stream.trace_row(from), from + 1)
        };
        let rest = stream.rows_from(next, next_card);
        lemma_rows_show_cards(stream, next, next_card);
        let one = seq![row];
        reveal_with_fuel(shown_cards, 2);
        assert(one.drop_last() =~= Seq::empty());
        assert(shown_cards(one) =~= Seq::<int>::empty());
        lemma_shown_cards_concat(asked, one);
        lemma_shown_cards_concat(asked + one, rest);
        assert(counting(card, total) =~= counting(card, next_card) + Seq::<int>::empty() + counting(
            next_card,
            total,
        ));
    }
}

/// Every card is shown once, and the cards keep their order.
pub proof fn law_every_card_is_shown(stream: StreamModel)
    ensures
        shown_cards(stream.rows()) == counting(0, stream.cards.len() as int),
{
    let first = seq![ItemModel::Question];
    let last = seq![ItemModel::Spacer];
    lemma_rows_show_cards(stream, 0, 0);
    reveal_with_fuel(shown_cards, 2);
    assert(first.drop_last() =~= Seq::empty());
    assert(last.drop_last() =~= Seq::empty());
    assert(shown_cards(first) =~= Seq::<int>::empty());
    assert(shown_cards(last) =~= Seq::<int>::empty());
    lemma_shown_cards_concat(first, stream.rows_from(0, 0));
    lemma_shown_cards_concat(first + stream.rows_from(0, 0), last);
    assert(shown_cards(stream.rows()) =~= counting(0, stream.cards.len() as int));
}

/// The question comes first, and the room at the end comes last.
pub proof fn law_rows_are_framed(stream: StreamModel)
    ensures
        stream.rows().len() >= 2,
        stream.rows()[0] is Question,
        stream.rows().last() is Spacer,
{
}

/// Replacing what one splice names turns the old rows into the new ones.
pub proof fn law_middle_splice_gives_new_rows(
    old_rows: Seq<ItemModel>,
    new_rows: Seq<ItemModel>,
    splice: RowSplice,
)
    requires
        is_middle_splice(old_rows, new_rows, splice),
    ensures
        old_rows.take(splice.old_range.start as int) + new_rows.subrange(
            splice.old_range.start as int,
            splice.old_range.start + splice.new_count,
        ) + old_rows.skip(splice.old_range.end as int) == new_rows,
{
    let prefix = splice.old_range.start as int;
    let suffix = old_rows.len() - splice.old_range.end;
    assert(old_rows.skip(old_rows.len() - suffix) == new_rows.skip(new_rows.len() - suffix));
    assert(new_rows.take(prefix) + new_rows.subrange(prefix, new_rows.len() - suffix)
        + new_rows.skip(new_rows.len() - suffix) =~= new_rows);
}

} // verus!
