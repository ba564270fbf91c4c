//! What holds of an analysis session as its window follows it, report by report.

use vstd::prelude::*;
use crate::agent::{
    reason_label, AgentBudgetSnapshot, AgentSessionStatus, AgentStreamKind, AgentTraceKind,
    AgentUserMessageStatus, ApprovalModel, CardModel, TraceModel, UserMessageModel,
};
use crate::agent_event::EventModel;
use crate::agent_window::{
    first_card, first_message, message_bytes, with_message_status, WindowModel,
};
use crate::clock::TraceTime;
use crate::text::{behind_last, trimmed, utf8_len};

verus! {

/// Whether a session has come to its end.
pub open spec fn is_over(status: AgentSessionStatus) -> bool {
    match status {
        AgentSessionStatus::Completed => true,
        AgentSessionStatus::Cancelled => true,
        AgentSessionStatus::Failed => true,
        _ => false,
    }
}

/// Whether a history is another one with one entry more at its end, and without its oldest entry
/// where it would hold more than a thousand.
pub open spec fn gains_entry(
    before: Seq<TraceModel>,
    after: Seq<TraceModel>,
    entry: TraceModel,
) -> bool {
    &&& after.len() == (if before.len() < 1000 {
        before.len() + 1
    } else {
        1000
    })
    &&& after[after.len() - 1] == entry
    &&& forall|i: int|
        0 <= i < after.len() - 1 ==> #[trigger] after[i] == before[before.len() + 1 - after.len()
            + i]
}

/// Whether two windows differ in their history at most.
pub open spec fn differ_in_history(before: WindowModel, after: WindowModel) -> bool {
    after == (WindowModel { traces: after.traces, ..before })
}

/// A reported trace becomes the last entry of the history; the entries before it are the old
/// ones, less the oldest where the limit is reached; nothing else changes.
pub proof fn law_reported_trace_is_the_last_entry(
    window: WindowModel,
    trace: TraceModel,
    now: TraceTime,
    elapsed_seconds: u64,
)
    requires
        window.traces.len() <= 1000,
    ensures
        ({
            let after = window.after_event(EventModel::Trace(trace), now, elapsed_seconds);
            &&& gains_entry(window.traces, after.traces, trace)
            &&& differ_in_history(window, after)
        }),
{
}

/// A reported status is the session's status from then on and is written down with its label and
/// its time. The time that the analysis took is taken when the session ends, and only the first
/// time.
pub proof fn law_reported_status_is_taken_over(
    window: WindowModel,
    status: AgentSessionStatus,
    label: Seq<char>,
    now: TraceTime,
    elapsed_seconds: u64,
)
    requires
        window.traces.len() <= 1000,
    ensures
        ({
            let after = window.after_event(
                EventModel::Status(status, label),
                now,
                elapsed_seconds,
            );
            &&& after.status == status
            &&& gains_entry(
                window.traces,
                after.traces,
                (TraceModel {
                    kind: AgentTraceKind::Status,
                    title: "状态："@ + label,
                    detail: "会话状态已更新"@,
                    created_at: now,
                }),
            )
            &&& is_over(status) && window.analysis_finished_elapsed_seconds is None
                ==> after.analysis_finished_elapsed_seconds == Some(elapsed_seconds)
            &&& !is_over(status) || window.analysis_finished_elapsed_seconds is Some
                ==> after.analysis_finished_elapsed_seconds
                == window.analysis_finished_elapsed_seconds
            &&& after == (WindowModel {
                status,
                traces: after.traces,
                analysis_finished_elapsed_seconds: after.analysis_finished_elapsed_seconds,
                ..window
            })
        }),
{
}

/// What a session has spent is what it last reported, and a budget report changes nothing else.
pub proof fn law_last_budget_is_shown(
    window: WindowModel,
    first: AgentBudgetSnapshot,
    second: AgentBudgetSnapshot,
    now: TraceTime,
    later: TraceTime,
    elapsed_seconds: u64,
)
    ensures
        ({
            let after = window.after_event(EventModel::Budget(first), now, elapsed_seconds);
            &&& after.budget == first
            &&& after.traces == window.traces
            &&& after.status == window.status
            &&& (WindowModel { budget: window.budget, ..after }) == window
            &&& after.after_event(EventModel::Budget(second), later, elapsed_seconds)
                == window.after_event(EventModel::Budget(second), now, elapsed_seconds)
        }),
{
}

/// A piece of streamed text continues the last entry where that entry streams the same kind of
/// text; otherwise it begins an entry of its own. An empty piece changes nothing.
pub proof fn law_streamed_text_is_kept(
    window: WindowModel,
    kind: AgentStreamKind,
    piece: Seq<char>,
    now: TraceTime,
    elapsed_seconds: u64,
)
    requires
        window.traces.len() <= 1000,
    ensures
        ({
            let after = window.after_event(
                EventModel::StreamDelta(kind, piece),
                now,
                elapsed_seconds,
            );
            let last = window.traces[window.traces.len() - 1];
            let continues = window.traces.len() > 0 && (kind is Reasoning && last.kind is Reasoning
                || kind is Output && last.kind is Output);
            &&& differ_in_history(window, after)
            &&& piece.len() == 0 ==> after == window
            &&& piece.len() > 0 && continues ==> {
                &&& after.traces.len() == window.traces.len()
                &&& after.traces[after.traces.len() - 1].detail == last.detail + piece
                &&& after.traces[after.traces.len() - 1].kind == last.kind
                &&& after.traces[after.traces.len() - 1].title == last.title
                &&& after.traces[after.traces.len() - 1].created_at == last.created_at
                &&& forall|i: int|
                    0 <= i < after.traces.len() - 1 ==> #[trigger] after.traces[i]
                        == window.traces[i]
            }
            &&& piece.len() > 0 && !continues && kind is Reasoning ==> gains_entry(
                window.traces,
                after.traces,
                (TraceModel {
                    kind: AgentTraceKind::Reasoning,
                    title: "思考过程"@,
                    detail: piece,
                    created_at: now,
                }),
            )
            &&& piece.len() > 0 && !continues && kind is Output ==> gains_entry(
                window.traces,
                after.traces,
                (TraceModel {
                    kind: AgentTraceKind::Output,
                    title: "AI 输出"@,
                    detail: piece,
                    created_at: now,
                }),
            )
        }),
{
}

/// Starting an answer over drops the entries of streamed text at the end of the history, back to
/// the last entry that is none, and nothing else.
pub proof fn law_starting_over_drops_the_streamed_end(
    window: WindowModel,
    kept: int,
    now: TraceTime,
    elapsed_seconds: u64,
)
    requires
        0 <= kept <= window.traces.len(),
        kept > 0 ==> !(window.traces[kept - 1].kind is Reasoning) && !(window.traces[kept - 1].kind
            is Output),
        forall|i: int|
            kept <= i < window.traces.len() ==> (#[trigger] window.traces[i]).kind is Reasoning
                || window.traces[i].kind is Output,
    ensures
        ({
            let after = window.after_event(
                EventModel::AssistantAttemptReset,
                now,
                elapsed_seconds,
            );
            &&& after.traces == window.traces.take(kept)
            &&& differ_in_history(window, after)
        }),
{
    lemma_streamed_end(window.traces, kept);
}

proof fn lemma_streamed_end(traces: Seq<TraceModel>, kept: int)
    requires
        0 <= kept <= traces.len(),
        kept > 0 ==> !(traces[kept - 1].kind is Reasoning) && !(traces[kept - 1].kind is Output),
        forall|i: int|
            kept <= i < traces.len() ==> (#[trigger] traces[i]).kind is Reasoning || traces[i].kind
                is Output,
    ensures
        crate::agent_window::without_stream_text(traces) == traces.take(kept),
    decreases traces.len(),
{
    if kept < traces.len() {
        lemma_streamed_end(traces.drop_last(), kept);
        assert(traces.drop_last().take(kept) =~= traces.take(kept));
    } else {
        assert(traces.take(kept) =~= traces);
    }
}

/// Whether two lists of messages differ in one message at most: the first with an id, which has
/// the given status in the second list.
pub open spec fn first_is_marked(
    before: Seq<UserMessageModel>,
    after: Seq<UserMessageModel>,
    id: Seq<char>,
    status: AgentUserMessageStatus,
) -> bool {
    &&& after.len() == before.len()
    &&& forall|i: int|
        0 <= i < before.len() ==> {
            let is_first = before[i].message_id == id && forall|j: int|
                0 <= j < i ==> (#[trigger] before[j]).message_id != id;
            &&& (#[trigger] after[i]).message_id == before[i].message_id
            &&& after[i].content == before[i].content
            &&& after[i].status == (if is_first {
                status
            } else {
                before[i].status
            })
        }
}

proof fn lemma_first_message_is(messages: Seq<UserMessageModel>, id: Seq<char>)
    ensures
        match first_message(messages, id) {
            Some(index) => 0 <= index < messages.len() && messages[index].message_id == id
                && forall|j: int| 0 <= j < index ==> (#[trigger] messages[j]).message_id != id,
            None => forall|j: int|
                0 <= j < messages.len() ==> (#[trigger] messages[j]).message_id != id,
        },
    decreases messages.len(),
{
    if messages.len() > 0 && messages[0].message_id != id {
        let rest = messages.skip(1);
        lemma_first_message_is(rest, id);
        assert forall|j: int| 0 < j < messages.len() implies messages[j] == rest[j - 1] by {}
    }
}

proof fn lemma_first_is_marked(
    messages: Seq<UserMessageModel>,
    id: Seq<char>,
    status: AgentUserMessageStatus,
)
    ensures
        first_is_marked(messages, with_message_status(messages, id, status), id, status),
{
    lemma_first_message_is(messages, id);
}

/// A message that went into a request is marked as consumed, one that did not as rejected: the
/// message with the reported id and no other. What happened, and why, is written down.
pub proof fn law_reported_message_is_marked(
    window: WindowModel,
    id: Seq<char>,
    reason: Seq<char>,
    now: TraceTime,
    elapsed_seconds: u64,
)
    requires
        window.traces.len() <= 1000,
    ensures
        ({
            let consumed = window.after_event(
                EventModel::UserMessageConsumed(id),
                now,
                elapsed_seconds,
            );
            let rejected = window.after_event(
                EventModel::UserMessageRejected(id, reason),
                now,
                elapsed_seconds,
            );
            &&& first_is_marked(
                window.user_messages,
                consumed.user_messages,
                id,
                AgentUserMessageStatus::Consumed,
            )
            &&& first_is_marked(
                window.user_messages,
                rejected.user_messages,
                id,
                AgentUserMessageStatus::Rejected,
            )
            &&& gains_entry(
                window.traces,
                consumed.traces,
                (TraceModel {
                    kind: AgentTraceKind::User,
                    title: "追加提示已消费"@,
                    detail: "提示已串行注入下一次模型请求"@,
                    created_at: now,
                }),
            )
            &&& gains_entry(
                window.traces,
                rejected.traces,
                (TraceModel {
                    kind: AgentTraceKind::Warning,
                    title: "追加提示未发送"@,
                    detail: reason,
                    created_at: now,
                }),
            )
            &&& (WindowModel { user_messages: window.user_messages, ..consumed }) == (WindowModel {
                traces: consumed.traces,
                ..window
            })
            &&& (WindowModel { user_messages: window.user_messages, ..rejected }) == (WindowModel {
                traces: rejected.traces,
                ..window
            })
        }),
{
    lemma_first_is_marked(window.user_messages, id, AgentUserMessageStatus::Consumed);
    lemma_first_is_marked(window.user_messages, id, AgentUserMessageStatus::Rejected);
}

/// A command that needs consent gets a card behind the others, which waits for an answer.
pub proof fn law_new_command_waits(
    window: WindowModel,
    request_id: Seq<char>,
    command: Seq<char>,
    now: TraceTime,
    elapsed_seconds: u64,
)
    ensures
        ({
            let after = window.after_event(
                EventModel::BashApprovalRequired { request_id, command },
                now,
                elapsed_seconds,
            );
            let card = after.bash_approvals[after.bash_approvals.len() - 1];
            &&& after.bash_approvals.len() == window.bash_approvals.len() + 1
            &&& card.request_id == request_id
            &&& card.command == command
            &&& card.created_at == now
            &&& card.status is Pending
            &&& forall|i: int|
                0 <= i < window.bash_approvals.len() ==> #[trigger] after.bash_approvals[i]
                    == window.bash_approvals[i]
            &&& (WindowModel { bash_approvals: window.bash_approvals, ..after }) == window
        }),
{
}

proof fn lemma_first_card_with(cards: Seq<CardModel>, id: Seq<char>)
    ensures
        match first_card(cards, id) {
            Some(index) => 0 <= index < cards.len() && cards[index].request_id == id && forall|
                j: int,
            |
                0 <= j < index ==> (#[trigger] cards[j]).request_id != id,
            None => forall|j: int| 0 <= j < cards.len() ==> (#[trigger] cards[j]).request_id != id,
        },
    decreases cards.len(),
{
    if cards.len() > 0 && cards[0].request_id != id {
        let rest = cards.skip(1);
        lemma_first_card_with(rest, id);
        assert forall|j: int| 0 < j < cards.len() implies cards[j] == rest[j - 1] by {}
    }
}

/// Whether a card is the first with an id and still waits for its answer.
pub open spec fn is_asked_card(cards: Seq<CardModel>, index: int, id: Seq<char>) -> bool {
    &&& cards[index].request_id == id
    &&& cards[index].status is Pending
    &&& forall|j: int| 0 <= j < index ==> (#[trigger] cards[j]).request_id != id
}

/// An outcome answers the card that asked, while it waits, and no other: with consent where there
/// was consent, else with a refusal. Cards keep their places, commands and times.
pub proof fn law_outcome_answers_its_card(
    window: WindowModel,
    request_id: Seq<char>,
    approved: bool,
    reason: Seq<char>,
    now: TraceTime,
    elapsed_seconds: u64,
)
    ensures
        ({
            let after = window.after_event(
                EventModel::BashApprovalOutcome { request_id, approved, reason },
                now,
                elapsed_seconds,
            );
            &&& after.bash_approvals.len() == window.bash_approvals.len()
            &&& forall|i: int|
                0 <= i < window.bash_approvals.len() ==> {
                    let old_card = window.bash_approvals[i];
                    let card = #[trigger] after.bash_approvals[i];
                    &&& card.request_id == old_card.request_id
                    &&& card.command == old_card.command
                    &&& card.created_at == old_card.created_at
                    &&& is_asked_card(window.bash_approvals, i, request_id) ==> (if approved {
                        card.status is Approved
                    } else {
                        card.status == ApprovalModel::Denied(reason_label(reason))
                    })
                    &&& !is_asked_card(window.bash_approvals, i, request_id) ==> card.status
                        == old_card.status
                }
            &&& (WindowModel { bash_approvals: window.bash_approvals, ..after }) == window
        }),
{
    lemma_first_card_with(window.bash_approvals, request_id);
}

proof fn lemma_behind_last(front: Seq<char>, tail: Seq<char>)
    requires
        !tail.contains('|'),
    ensures
        behind_last(front + seq!['|'] + tail, '|') == tail,
        behind_last(tail, '|') == tail,
    decreases tail.len(),
{
    let whole = front + seq!['|'] + tail;
    if tail.len() == 0 {
        assert(whole.last() == '|');
        assert(behind_last(whole, '|') =~= tail);
        assert(behind_last(tail, '|') =~= tail);
    } else {
        let shorter = tail.drop_last();
        assert(whole.drop_last() =~= front + seq!['|'] + shorter);
        assert(whole.last() == tail.last());
        assert(tail.contains(tail.last()));
        assert forall|c: char| shorter.contains(c) implies tail.contains(c) by {
            let at = shorter.index_of(c);
            assert(tail[at] == c);
        }
        lemma_behind_last(front, shorter);
        assert(shorter.push(tail.last()) =~= tail);
    }
}

/// A refusal is explained by what stands behind the last bar of its reason: a known code by its
/// own sentence, anything else by itself.
pub proof fn law_refusal_is_explained(front: Seq<char>, code: Seq<char>)
    requires
        !code.contains('|'),
    ensures
        reason_label(front + seq!['|'] + code) == reason_label(code),
        code == "user_decision"@ ==> reason_label(code) == "用户未批准这条命令"@,
        code == "approval_timeout"@ ==> reason_label(code) == "长时间未答复，已自动拒绝"@,
        code == "session_cancelled"@ ==> reason_label(code) == "会话已取消，按拒绝处理"@,
        code == "session_ended"@ ==> reason_label(code) == "会话已结束，按拒绝处理"@,
        code == "session_closed"@ ==> reason_label(code) == "会话界面已关闭，按拒绝处理"@,
        code != "user_decision"@ && code != "approval_timeout"@ && code != "session_cancelled"@
            && code != "session_ended"@ && code != "session_closed"@ ==> reason_label(code)
            == code,
{
    lemma_behind_last(front, code);
    reveal_strlit("user_decision");
    reveal_strlit("approval_timeout");
    reveal_strlit("session_cancelled");
    reveal_strlit("session_ended");
    reveal_strlit("session_closed");
    assert("user_decision"@.len() == 13 && "approval_timeout"@.len() == 16);
    assert("session_cancelled"@.len() == 17 && "session_ended"@.len() == 13);
    assert("session_closed"@.len() == 14);
    assert("user_decision"@[0] == 'u' && "session_ended"@[0] == 's');
}

/// A failure is shown as the window's error and written down as a warning with its message.
pub proof fn law_failure_is_told(
    window: WindowModel,
    message: Seq<char>,
    now: TraceTime,
    elapsed_seconds: u64,
)
    requires
        window.traces.len() <= 1000,
    ensures
        ({
            let after = window.after_event(EventModel::Failed(message), now, elapsed_seconds);
            &&& after.input_error == Some(message)
            &&& gains_entry(
                window.traces,
                after.traces,
                (TraceModel {
                    kind: AgentTraceKind::Warning,
                    title: "分析失败"@,
                    detail: message,
                    created_at: now,
                }),
            )
            &&& (WindowModel { input_error: window.input_error, ..after }) == (WindowModel {
                traces: after.traces,
                ..window
            })
        }),
{
}

/// A report on a stage, on a finished text or of a whole answer changes nothing in the window.
pub proof fn law_other_reports_change_nothing(
    window: WindowModel,
    event: EventModel,
    now: TraceTime,
    elapsed_seconds: u64,
)
    requires
        event is Stage || event is Report || event is AssistantCompleted,
    ensures
        window.after_event(event, now, elapsed_seconds) == window,
{
}

/// A message is refused exactly where it is blank, where the session takes none, where it has more
/// than 4096 bytes, where twenty were sent, or where all of them together would have more than
/// 32768 bytes.
pub proof fn law_message_is_sent_within_limits(window: WindowModel)
    ensures
        ({
            let text = trimmed(window.message_input.value);
            window.message_refusal() is None <==> {
                &&& 0 < text.len()
                &&& !is_over(window.status)
                &&& !(window.status is Cancelling)
                &&& utf8_len(text) <= 4096
                &&& window.user_messages.len() < 20
                &&& message_bytes(window.user_messages) + utf8_len(text) <= 32768
            }
        }),
        trimmed(window.message_input.value).len() == 0 ==> window.message_refusal() == Some(
            "请输入补充提示"@,
        ),
        trimmed(window.message_input.value).len() > 0 && (is_over(window.status)
            || window.status is Cancelling) ==> window.message_refusal() == Some(
            "当前会话已经结束，不能继续发送提示"@,
        ),
        message_bytes(Seq::empty()) == 0,
        forall|messages: Seq<UserMessageModel>, message: UserMessageModel|
            #[trigger] message_bytes(messages.push(message)) == message_bytes(messages) + utf8_len(
                message.content,
            ),
{
    assert forall|messages: Seq<UserMessageModel>, message: UserMessageModel|
        #[trigger] message_bytes(messages.push(message)) == message_bytes(messages) + utf8_len(
            message.content,
        ) by {
        assert(messages.push(message).drop_last() =~= messages);
    }
}

/// A sent message stands behind the others, and its text is written down; the input is empty and
/// keeps the keyboard; no error is left.
pub proof fn law_sent_message_is_kept(
    window: WindowModel,
    message: UserMessageModel,
    now: TraceTime,
)
    requires
        window.traces.len() <= 1000,
    ensures
        ({
            let after = window.with_sent_message(message, now);
            &&& after.user_messages == window.user_messages.push(message)
            &&& gains_entry(
                window.traces,
                after.traces,
                (TraceModel {
                    kind: AgentTraceKind::User,
                    title: "用户追加提示（排队中）"@,
                    detail: message.content,
                    created_at: now,
                }),
            )
            &&& after.message_input.value.len() == 0
            &&& after.message_input.cursor == 0
            &&& after.message_input.is_focused
            &&& after.input_error is None
            &&& after.status == window.status
            &&& after.bash_approvals == window.bash_approvals
            &&& after.trace_items == after.current_rows()
        }),
{
}

/// Cancelling makes a session that still runs stop, and says so in its history; one that is over
/// or stops already stays as it is.
pub proof fn law_cancelling_stops_a_running_session(window: WindowModel, now: TraceTime)
    requires
        window.traces.len() <= 1000,
    ensures
        is_over(window.status) || window.status is Cancelling ==> window.cancelled(now) == window,
        !is_over(window.status) && !(window.status is Cancelling) ==> {
            let after = window.cancelled(now);
            &&& after.status is Cancelling
            &&& gains_entry(
                window.traces,
                after.traces,
                (TraceModel {
                    kind: AgentTraceKind::Status,
                    title: "正在取消"@,
                    detail: "已通知模型和日志工具在最近边界停止"@,
                    created_at: now,
                }),
            )
            &&& after.trace_items == after.current_rows()
            &&& after.user_messages == window.user_messages
            &&& after.bash_approvals == window.bash_approvals
            &&& after.analysis_finished_elapsed_seconds
                == window.analysis_finished_elapsed_seconds
        },
{
}

/// Toggling a run of tool traces turns that run from folded to open or back, leaves every other
/// run as it is, and brings the rows up to date.
pub proof fn law_toggling_turns_one_run(window: WindowModel, group_id: i64, other: i64)
    ensures
        ({
            let after = window.toggled(group_id);
            &&& after.expanded_tool_groups.contains(group_id)
                == !window.expanded_tool_groups.contains(group_id)
            &&& other != group_id ==> after.expanded_tool_groups.contains(other)
                == window.expanded_tool_groups.contains(other)
            &&& after.trace_items == after.current_rows()
            &&& after.traces == window.traces
            &&& after.bash_approvals == window.bash_approvals
            &&& after.status == window.status
        }),
{
}

} // verus!
