//! What holds of the rows that show an analysis.

use vstd::prelude::*;
use crate::agent::{
    AgentSessionStatus, AgentTraceEntry, AgentTraceKind, BashApprovalCard, CardModel, TraceModel,
};
use crate::agent_stream::{
    bytes_between, card_rows, cards_until, last_working, run_end, shows_trace, splices_are_runs,
    stream_model, trace_models, working_trace, ItemModel, RowSplice, StreamModel,
};
use crate::agent_window::{describes_change, WindowModel};
use crate::analysis_laws::is_over;
use crate::clock::TraceTime;
use crate::text::{lemma_utf8_len_concat, utf8_len};

verus! {

/// Whether a trace tells of work that a session does.
pub open spec fn tells_of_work(kind: AgentTraceKind) -> bool {
    match kind {
        AgentTraceKind::Status => true,
        AgentTraceKind::Reasoning => true,
        AgentTraceKind::Output => true,
        AgentTraceKind::Tool => true,
        _ => false,
    }
}

/// Whether a row is marked as being at work.
pub open spec fn is_marked(row: ItemModel) -> bool {
    match row {
        ItemModel::Trace { is_active, .. } => is_active,
        ItemModel::ToolGroup { is_active, .. } => is_active,
        _ => false,
    }
}

/// Whether a trace is the last one that tells of work.
pub open spec fn is_last_work(traces: Seq<TraceModel>, at: int) -> bool {
    &&& 0 <= at < traces.len()
    &&& tells_of_work(traces[at].kind)
    &&& forall|i: int| at < i < traces.len() ==> !tells_of_work((#[trigger] traces[i]).kind)
}

/// Whether the marks of some rows are right for a history and a status: none where the session is
/// over or no trace tells of work; else exactly on the row of the last trace that does.
pub open spec fn marks_are_right(
    rows: Seq<ItemModel>,
    traces: Seq<TraceModel>,
    status: AgentSessionStatus,
) -> bool {
    forall|r: int|
        0 <= r < rows.len() ==> (is_marked(#[trigger] rows[r]) <==> !is_over(status) && exists|
            at: int,
        |
            #[trigger] is_last_work(traces, at) && shows_trace(rows[r], at))
}

proof fn lemma_last_working(traces: Seq<TraceModel>)
    ensures
        match last_working(traces) {
            Some(at) => is_last_work(traces, at),
            None => forall|i: int|
                0 <= i < traces.len() ==> !tells_of_work((#[trigger] traces[i]).kind),
        },
    decreases traces.len(),
{
    if traces.len() > 0 && !tells_of_work(traces.last().kind) {
        lemma_last_working(traces.drop_last());
        let shorter = traces.drop_last();
        assert forall|i: int| 0 <= i < shorter.len() implies shorter[i] == traces[i] by {}
    }
}

/// Whether a number is that of a moment: its nanoseconds, where they fit in 64 bits.
pub open spec fn is_number_of(number: i64, moment: TraceTime) -> bool {
    let nanos = moment.seconds * 1_000_000_000 + moment.nanos;
    -0x8000_0000_0000_0000 <= nanos <= 0x7fff_ffff_ffff_ffff ==> number == nanos
}

/// What holds of each row: it shows what stands in its place in the history.
pub open spec fn row_is_true(row: ItemModel, stream: StreamModel) -> bool {
    match row {
        ItemModel::Trace { trace_index, trace_id, content_bytes, .. } => {
            let trace = stream.traces[trace_index];
            &&& 0 <= trace_index < stream.traces.len()
            &&& is_number_of(trace_id, trace.created_at)
            &&& !(trace.kind is Model)
            &&& !(trace.kind is Tool)
            &&& utf8_len(trace.title) + utf8_len(trace.detail) <= usize::MAX ==> content_bytes
                == utf8_len(trace.title) + utf8_len(trace.detail)
        },
        ItemModel::ToolGroup { start, end, group_id, content_bytes, is_expanded, .. } => {
            let first = stream.traces[start];
            &&& 0 <= start < end <= stream.traces.len()
            &&& is_number_of(group_id, first.created_at)
            &&& end == start + 1 && utf8_len(first.title) + utf8_len(first.detail) <= usize::MAX
                ==> content_bytes == utf8_len(first.title) + utf8_len(first.detail)
            &&& forall|i: int| start <= i < end ==> (#[trigger] stream.traces[i]).kind is Tool
            &&& end < stream.traces.len() ==> !(stream.traces[end].kind is Tool)
            &&& start > 0 ==> !(stream.traces[start - 1].kind is Tool)
            &&& is_expanded == stream.expanded.contains(group_id)
        },
        ItemModel::BashApproval { approval_index, status } => {
            &&& 0 <= approval_index < stream.cards.len()
            &&& status == stream.cards[approval_index].status
        },
        _ => true,
    }
}

/// The first trace that a row shows, where it shows one.
pub open spec fn first_shown(row: ItemModel) -> Option<int> {
    match row {
        ItemModel::Trace { trace_index, .. } => Some(trace_index),
        ItemModel::ToolGroup { start, .. } => Some(start),
        _ => None,
    }
}

/// The card that a row shows, where it shows one.
pub open spec fn card_shown(row: ItemModel) -> Option<int> {
    match row {
        ItemModel::BashApproval { approval_index, .. } => Some(approval_index),
        _ => None,
    }
}

proof fn lemma_card_rows(cards: Seq<CardModel>, from: int, to: int)
    requires
        0 <= from <= to <= cards.len(),
    ensures
        card_rows(cards, from, to).len() == to - from,
        forall|r: int|
            0 <= r < to - from ==> #[trigger] card_rows(cards, from, to)[r]
                == (ItemModel::BashApproval {
                approval_index: from + r,
                status: cards[from + r].status,
            }),
    decreases to - from,
{
    if from < to {
        lemma_card_rows(cards, from, to - 1);
    }
}

proof fn lemma_cards_before(cards: Seq<CardModel>, from: int, time: TraceTime)
    requires
        0 <= from <= cards.len(),
    ensures
        from <= cards_until(cards, from, time) <= cards.len(),
        forall|c: int|
            from <= c < cards_until(cards, from, time) ==> (
            #[trigger] cards[c]).created_at.no_later_than(time),
        cards_until(cards, from, time) < cards.len() ==> !cards[cards_until(
            cards,
            from,
            time,
        )].created_at.no_later_than(time),
    decreases cards.len() - from,
{
    if from < cards.len() && cards[from].created_at.no_later_than(time) {
        lemma_cards_before(cards, from + 1, time);
    }
}

proof fn lemma_run(traces: Seq<TraceModel>, start: int)
    requires
        0 <= start <= traces.len(),
    ensures
        start <= run_end(traces, start) <= traces.len(),
        forall|i: int|
            start <= i < run_end(traces, start) ==> (#[trigger] traces[i]).kind is Tool,
        run_end(traces, start) < traces.len() ==> !(traces[run_end(traces, start)].kind is Tool),
    decreases traces.len() - start,
{
    if start < traces.len() && traces[start].kind is Tool {
        lemma_run(traces, start + 1);
    }
}

/// How rows follow each other from a trace and a card on.
spec fn rows_are_right(stream: StreamModel, rows: Seq<ItemModel>, from: int, card: int) -> bool {
    &&& forall|r: int|
        0 <= r < rows.len() ==> {
            let row = #[trigger] rows[r];
            &&& row is Trace || row is ToolGroup || row is BashApproval
            &&& row_is_true(row, stream)
            &&& first_shown(row) is Some ==> from <= first_shown(row)->0
            &&& card_shown(row) is Some ==> card <= card_shown(row)->0
            &&& is_marked(row) == (stream.active is Some && shows_trace(row, stream.active->0))
        }
    &&& forall|r: int, s: int|
        0 <= r < s < rows.len() && first_shown(#[trigger] rows[r]) is Some && first_shown(
            #[trigger] rows[s],
        ) is Some ==> first_shown(rows[r])->0 < first_shown(rows[s])->0
    &&& forall|r: int, s: int|
        0 <= r < s < rows.len() && card_shown(#[trigger] rows[r]) is Some && card_shown(
            #[trigger] rows[s],
        ) is Some ==> card_shown(rows[r])->0 < card_shown(rows[s])->0
}

proof fn lemma_rows_are_right(stream: StreamModel, from: int, card: int)
    requires
        0 <= from <= stream.traces.len(),
        0 <= card <= stream.cards.len(),
        from == 0 || from == stream.traces.len() || !(stream.traces[from - 1].kind is Tool) || !(
        stream.traces[from].kind is Tool),
    ensures
        rows_are_right(stream, stream.rows_from(from, card), from, card),
    decreases stream.traces.len() - from,
{
    let rows = stream.rows_from(from, card);
    if from == stream.traces.len() {
        lemma_card_rows(stream.cards, card, stream.cards.len() as int);
    } else if stream.traces[from].kind is Model {
        lemma_rows_are_right(stream, from + 1, card);
    } else {
        let time = stream.traces[from].created_at;
        lemma_cards_before(stream.cards, card, time);
        let next_card = cards_until(stream.cards, card, time);
        let asked = card_rows(stream.cards, card, next_card);
        lemma_card_rows(stream.cards, card, next_card);
        let (row, next) = if stream.traces[from].kind is Tool {
            lemma_run(stream.traces, from + 1);
            let end = run_end(stream.traces, from + 1);
            (stream.group_row(from, end), end)
        } else {
            (stream.trace_row(from), from + 1)
        };
        let rest = stream.rows_from(next, next_card);
        lemma_rows_are_right(stream, next, next_card);
        assert(rows == asked + seq![row] + rest);
        assert(bytes_between(stream.traces, from, from) == 0);
        assert(row_is_true(row, stream));
        let count = asked.len() as int;
        assert forall|r: int| 0 <= r < rows.len() implies (#[trigger] rows[r]) == (if r < count {
            asked[r]
        } else if r == count {
            row
        } else {
            rest[r - count - 1]
        }) by {}
    }
}

/// The rows between the question and the space at the end tell the history: each shows what
/// stands at its place, runs of tool traces are shown as one row each, and traces and cards come
/// in their order.
pub proof fn law_rows_tell_the_history(stream: StreamModel)
    ensures
        forall|r: int|
            0 <= r < stream.rows().len() ==> row_is_true(#[trigger] stream.rows()[r], stream),
        forall|r: int, s: int|
            0 <= r < s < stream.rows().len() && first_shown(#[trigger] stream.rows()[r]) is Some
                && first_shown(#[trigger] stream.rows()[s]) is Some ==> first_shown(
                stream.rows()[r],
            )->0 < first_shown(stream.rows()[s])->0,
        forall|r: int, s: int|
            0 <= r < s < stream.rows().len() && card_shown(#[trigger] stream.rows()[r]) is Some
                && card_shown(#[trigger] stream.rows()[s]) is Some ==> card_shown(
                stream.rows()[r],
            )->0 < card_shown(stream.rows()[s])->0,
{
    lemma_rows_are_right(stream, 0, 0);
    lemma_framed(stream);
}

proof fn lemma_framed(stream: StreamModel)
    ensures
        forall|r: int|
            0 <= r < stream.rows().len() ==> #[trigger] stream.rows()[r] == (if r == 0 {
                ItemModel::Question
            } else if r == stream.rows().len() - 1 {
                ItemModel::Spacer
            } else {
                stream.rows_from(0, 0)[r - 1]
            }),
{
}

proof fn lemma_marks(stream: StreamModel, status: AgentSessionStatus)
    requires
        stream.active == working_trace(stream.traces, status),
    ensures
        marks_are_right(stream.rows(), stream.traces, status),
{
    lemma_rows_are_right(stream, 0, 0);
    lemma_framed(stream);
    lemma_last_working(stream.traces);
    let rows = stream.rows();
    assert forall|r: int| 0 <= r < rows.len() implies (is_marked(#[trigger] rows[r])
        <==> !is_over(status) && exists|at: int|
        #[trigger] is_last_work(stream.traces, at) && shows_trace(rows[r], at)) by {
        if !is_over(status) && stream.active is Some {
            let last = stream.active->0;
            assert(is_last_work(stream.traces, last));
            assert forall|at: int| #[trigger] is_last_work(stream.traces, at) implies at
                == last by {
                if at < last {
                    assert(!tells_of_work(stream.traces[last].kind));
                }
                if last < at {
                    assert(!tells_of_work(stream.traces[at].kind));
                }
            }
        }
    }
}

/// In the rows of a session that is over no row is marked as being at work. In those of any other
/// session the row of the last trace that tells of work is marked, and no other row is.
pub proof fn law_only_the_last_work_is_marked(
    traces: Seq<AgentTraceEntry>,
    status: AgentSessionStatus,
    expanded: Set<i64>,
    cards: Seq<BashApprovalCard>,
)
    ensures
        marks_are_right(
            stream_model(traces, status, expanded, cards).rows(),
            Seq::new(traces.len(), |i: int| traces[i]@),
            status,
        ),
{
    let stream = stream_model(traces, status, expanded, cards);
    lemma_marks(stream, status);
    assert(trace_models(traces) =~= Seq::new(traces.len(), |i: int| traces[i]@));
}

/// The same holds of the rows of a window.
pub proof fn law_window_marks_only_the_last_work(window: WindowModel)
    ensures
        marks_are_right(window.current_rows(), window.traces, window.status),
        marks_are_right(window.synced().trace_items, window.traces, window.status),
{
    let stream = StreamModel {
        traces: window.traces,
        cards: window.bash_approvals,
        active: working_trace(window.traces, window.status),
        expanded: window.expanded_tool_groups,
    };
    lemma_marks(stream, window.status);
}

/// Whether a moment is no later than another.
pub open spec fn is_not_after(first: TraceTime, second: TraceTime) -> bool {
    first.seconds < second.seconds || (first.seconds == second.seconds && first.nanos
        <= second.nanos)
}

/// Whether traces and cards were made in the order in which they stand.
pub open spec fn came_in_order(traces: Seq<TraceModel>, cards: Seq<CardModel>) -> bool {
    &&& forall|i: int, j: int|
        0 <= i <= j < traces.len() ==> is_not_after(
            (#[trigger] traces[i]).created_at,
            (#[trigger] traces[j]).created_at,
        )
    &&& forall|i: int, j: int|
        0 <= i <= j < cards.len() ==> is_not_after(
            (#[trigger] cards[i]).created_at,
            (#[trigger] cards[j]).created_at,
        )
}

/// Whether each card stands in front of a row of traces exactly where it is no later than the
/// first of them.
pub open spec fn cards_stand_by_time(rows: Seq<ItemModel>, stream: StreamModel) -> bool {
    forall|r: int, s: int|
        0 <= r < rows.len() && 0 <= s < rows.len() && card_shown(#[trigger] rows[r]) is Some
            && first_shown(#[trigger] rows[s]) is Some ==> (r < s <==> is_not_after(
            stream.cards[card_shown(rows[r])->0].created_at,
            stream.traces[first_shown(rows[s])->0].created_at,
        ))
}

proof fn lemma_cards_stand_by_time(stream: StreamModel, from: int, card: int)
    requires
        0 <= from <= stream.traces.len(),
        0 <= card <= stream.cards.len(),
        from == 0 || from == stream.traces.len() || !(stream.traces[from - 1].kind is Tool) || !(
        stream.traces[from].kind is Tool),
        came_in_order(stream.traces, stream.cards),
    ensures
        cards_stand_by_time(stream.rows_from(from, card), stream),
    decreases stream.traces.len() - from,
{
    let rows = stream.rows_from(from, card);
    if from == stream.traces.len() {
        lemma_card_rows(stream.cards, card, stream.cards.len() as int);
    } else if stream.traces[from].kind is Model {
        lemma_cards_stand_by_time(stream, from + 1, card);
    } else {
        let time = stream.traces[from].created_at;
        lemma_cards_before(stream.cards, card, time);
        let next_card = cards_until(stream.cards, card, time);
        let asked = card_rows(stream.cards, card, next_card);
        lemma_card_rows(stream.cards, card, next_card);
        let (row, next) = if stream.traces[from].kind is Tool {
            lemma_run(stream.traces, from + 1);
            let end = run_end(stream.traces, from + 1);
            (stream.group_row(from, end), end)
        } else {
            (stream.trace_row(from), from + 1)
        };
        let rest = stream.rows_from(next, next_card);
        lemma_rows_are_right(stream, next, next_card);
        lemma_cards_stand_by_time(stream, next, next_card);
        assert(rows == asked + seq![row] + rest);
        let count = asked.len() as int;
        assert forall|r: int| 0 <= r < rows.len() implies (#[trigger] rows[r]) == (if r < count {
            asked[r]
        } else if r == count {
            row
        } else {
            rest[r - count - 1]
        }) by {}
        assert forall|r: int, s: int|
            0 <= r < rows.len() && 0 <= s < rows.len() && card_shown(#[trigger] rows[r]) is Some
                && first_shown(#[trigger] rows[s]) is Some implies (r < s <==> is_not_after(
            stream.cards[card_shown(rows[r])->0].created_at,
            stream.traces[first_shown(rows[s])->0].created_at,
        )) by {
            let c = card_shown(rows[r])->0;
            let t = first_shown(rows[s])->0;
            if r < count {
                assert(is_not_after(stream.cards[c].created_at, time));
                assert(from <= t && is_not_after(time, stream.traces[t].created_at));
            } else if s == count {
                assert(next_card <= c);
                assert(is_not_after(
                    stream.cards[next_card].created_at,
                    stream.cards[c].created_at,
                ));
            } else {
                assert(rest[r - count - 1] == rows[r] && rest[s - count - 1] == rows[s]);
            }
        }
    }
}

/// Where traces and cards came in order, a card stands in front of every row of traces that is not
/// earlier than it, and behind every other.
pub proof fn law_cards_stand_by_time(stream: StreamModel)
    requires
        came_in_order(stream.traces, stream.cards),
    ensures
        cards_stand_by_time(stream.rows(), stream),
{
    lemma_cards_stand_by_time(stream, 0, 0);
    lemma_framed(stream);
    let rows = stream.rows();
    assert forall|r: int, s: int|
        0 <= r < rows.len() && 0 <= s < rows.len() && card_shown(#[trigger] rows[r]) is Some
            && first_shown(#[trigger] rows[s]) is Some implies (r < s <==> is_not_after(
        stream.cards[card_shown(rows[r])->0].created_at,
        stream.traces[first_shown(rows[s])->0].created_at,
    )) by {
        assert(rows[r] == stream.rows_from(0, 0)[r - 1]);
        assert(rows[s] == stream.rows_from(0, 0)[s - 1]);
    }
}

proof fn lemma_grown_run(traces: Seq<TraceModel>, start: int, end: int, at: int, piece: Seq<char>)
    requires
        0 <= start <= at < end <= traces.len(),
    ensures
        bytes_between(
            traces.update(
                at,
                TraceModel { detail: traces[at].detail + piece, ..traces[at] },
            ),
            start,
            end,
        ) == bytes_between(traces, start, end) + utf8_len(piece),
    decreases end - start,
{
    let grown = traces.update(
        at,
        TraceModel { detail: traces[at].detail + piece, ..traces[at] },
    );
    lemma_utf8_len_concat(traces[at].detail, piece);
    if at < end - 1 {
        lemma_grown_run(traces, start, end - 1, at, piece);
    } else {
        lemma_same_bytes(traces, grown, start, end - 1);
    }
}

proof fn lemma_same_bytes(left: Seq<TraceModel>, right: Seq<TraceModel>, start: int, end: int)
    requires
        forall|i: int| start <= i < end ==> #[trigger] left[i] == right[i],
    ensures
        bytes_between(left, start, end) == bytes_between(right, start, end),
    decreases end - start,
{
    if start < end {
        lemma_same_bytes(left, right, start, end - 1);
    }
}

/// The row of a run counts the bytes of all its traces: where the text of one of them grows, the
/// count grows by as much.
pub proof fn law_run_counts_all_its_text(
    stream: StreamModel,
    start: int,
    end: int,
    at: int,
    piece: Seq<char>,
)
    requires
        0 <= start <= at < end <= stream.traces.len(),
        bytes_between(stream.traces, start, end) + utf8_len(piece) <= usize::MAX,
    ensures
        ({
            let trace = stream.traces[at];
            let grown = StreamModel {
                traces: stream.traces.update(
                    at,
                    TraceModel { detail: trace.detail + piece, ..trace },
                ),
                ..stream
            };
            grown.group_row(start, end)->ToolGroup_content_bytes == stream.group_row(
                start,
                end,
            )->ToolGroup_content_bytes + utf8_len(piece)
        }),
{
    lemma_grown_run(stream.traces, start, end, at, piece);
}

/// Whether a splice covers a row.
pub open spec fn covers(splice: RowSplice, row: int) -> bool {
    splice.old_range.start <= row < splice.old_range.end
}

/// The splices that describe a change name what changed. Where the number of rows stays, they
/// cover exactly the rows that differ, each row by itself or in a run, and replace as many rows as
/// they cover. Where it does not, the one splice turns the old rows into the new ones.
pub proof fn law_splices_name_what_changed(
    old_rows: Seq<ItemModel>,
    new_rows: Seq<ItemModel>,
    splices: Seq<RowSplice>,
)
    requires
        describes_change(old_rows, new_rows, splices),
    ensures
        old_rows.len() == new_rows.len() ==> {
            &&& forall|s: int|
                0 <= s < splices.len() ==> (#[trigger] splices[s]).new_count
                    == splices[s].old_range.end - splices[s].old_range.start
            &&& forall|s: int, t: int|
                0 <= s < t < splices.len() ==> (#[trigger] splices[s]).old_range.end < (
                #[trigger] splices[t]).old_range.start
            &&& forall|i: int|
                0 <= i < old_rows.len() ==> ((#[trigger] old_rows[i]) == new_rows[i] <==> forall|
                    s: int,
                |
                    0 <= s < splices.len() ==> !covers(#[trigger] splices[s], i))
        },
        old_rows.len() != new_rows.len() ==> {
            let start = splices[0].old_range.start as int;
            let end = splices[0].old_range.end as int;
            &&& splices.len() == 1
            &&& 0 <= start <= end <= old_rows.len()
            &&& old_rows.take(start) + new_rows.subrange(start, start + splices[0].new_count)
                + old_rows.skip(end) == new_rows
        },
{
    if old_rows.len() == new_rows.len() {
        assert(splices_are_runs(old_rows, new_rows, splices));
    } else {
        crate::agent_stream::law_middle_splice_gives_new_rows(old_rows, new_rows, splices[0]);
    }
}

} // verus!
