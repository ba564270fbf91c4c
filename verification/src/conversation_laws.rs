//! What each report, each answer and each message does to the conversation with the assistant.

use vstd::prelude::*;
use crate::agent::{
    AgentBudgetSnapshot, AgentSessionStatus, AgentStreamKind, AgentTraceKind,
    AgentUserMessageStatus, CitationModel, TraceModel, UserMessageModel,
};
use crate::agent_event::EventModel;
use crate::assistant_model::{
    first_of, is_one_of, last_answer, next_generation, staying,
    with_statuses, EffectModel, MessageModel, PanelModel, TurnModel,
};
use crate::clock::TraceTime;
use crate::text::trimmed;

verus! {

/// Whether two panels differ at most in their messages and in what they ask for.
pub open spec fn differ_in_rows(before: PanelModel, after: PanelModel) -> bool {
    after == (PanelModel { messages: after.messages, outbox: after.outbox, ..before })
}

/// Whether a panel asks for one thing more than before.
pub open spec fn asks_for(before: PanelModel, after: PanelModel, effect: EffectModel) -> bool {
    after.outbox == before.outbox.push(effect)
}

/// Whether a conversation got one message more, at its end, and its view is told so.
pub open spec fn gains_message(
    before: PanelModel,
    after: PanelModel,
    message: MessageModel,
) -> bool {
    let count = before.messages.len() as int;
    &&& after.messages.len() == count + 1
    &&& after.messages[count] == message
    &&& forall|i: int| 0 <= i < count ==> #[trigger] after.messages[i] == before.messages[i]
    &&& asks_for(
        before,
        after,
        (EffectModel::SpliceRows { start: count, end: count, new_count: 1 }),
    )
    &&& differ_in_rows(before, after)
}

/// Whether one message of a conversation became another one, and its view is told so.
pub open spec fn changes_message(
    before: PanelModel,
    after: PanelModel,
    at: int,
    message: MessageModel,
) -> bool {
    &&& 0 <= at < before.messages.len()
    &&& after.messages.len() == before.messages.len()
    &&& after.messages[at] == message
    &&& forall|i: int|
        0 <= i < before.messages.len() && i != at ==> #[trigger] after.messages[i]
            == before.messages[i]
    &&& asks_for(
        before,
        after,
        (EffectModel::SpliceRows { start: at, end: at + 1, new_count: 1 }),
    )
    &&& differ_in_rows(before, after)
}

/// Whether a panel shows one trace more: a tool's in the group of tools at the end or in a new,
/// folded one; any other by itself.
pub open spec fn shows_one_more(before: PanelModel, after: PanelModel, trace: TraceModel) -> bool {
    let last = before.messages[before.messages.len() - 1];
    &&& !(trace.kind is Tool) ==> gains_message(before, after, MessageModel::Trace(trace))
    &&& trace.kind is Tool && before.messages.len() > 0 && last is ToolGroup ==> changes_message(
        before,
        after,
        before.messages.len() - 1,
        (MessageModel::ToolGroup {
            traces: last->traces.push(trace),
            is_expanded: last->is_expanded,
        }),
    )
    &&& trace.kind is Tool && (before.messages.len() == 0 || !(last is ToolGroup))
        ==> gains_message(
        before,
        after,
        (MessageModel::ToolGroup { traces: seq![trace], is_expanded: false }),
    )
}

/// A reported trace is shown at the end of the conversation; the traces of tools that follow each
/// other stand in one group.
pub proof fn law_trace_is_shown(panel: PanelModel, trace: TraceModel, now: TraceTime)
    ensures
        shows_one_more(
            panel,
            panel.after_turn_event(EventModel::Trace(trace), panel.turn_generation, now),
            trace,
        ),
{
}

/// Streamed text continues the last message where that one streams the same kind of text, and
/// begins a message of its own otherwise. An empty piece changes nothing.
pub proof fn law_streamed_text_is_shown(
    panel: PanelModel,
    kind: AgentStreamKind,
    piece: Seq<char>,
    now: TraceTime,
)
    ensures
        ({
            let after = panel.after_turn_event(
                EventModel::StreamDelta(kind, piece),
                panel.turn_generation,
                now,
            );
            let count = panel.messages.len() as int;
            let last = panel.messages[count - 1];
            &&& piece.len() == 0 ==> after == panel
            &&& piece.len() > 0 && kind is Reasoning && count > 0 && last is Reasoning
                ==> changes_message(
                panel,
                after,
                count - 1,
                MessageModel::Reasoning(last->Reasoning_0 + piece),
            )
            &&& piece.len() > 0 && kind is Reasoning && (count == 0 || !(last is Reasoning))
                ==> gains_message(panel, after, MessageModel::Reasoning(piece))
            &&& piece.len() > 0 && kind is Output && count > 0 && last is Answer
                ==> changes_message(
                panel,
                after,
                count - 1,
                (MessageModel::Answer {
                    content: last->content + piece,
                    citations: last->citations,
                }),
            )
            &&& piece.len() > 0 && kind is Output && (count == 0 || !(last is Answer))
                ==> gains_message(
                panel,
                after,
                (MessageModel::Answer { content: piece, citations: Seq::empty() }),
            )
        }),
{
}

/// A reported budget is the panel's budget; nothing else changes.
pub proof fn law_budget_is_shown(panel: PanelModel, budget: AgentBudgetSnapshot, now: TraceTime)
    ensures
        ({
            let after = panel.after_turn_event(
                EventModel::Budget(budget),
                panel.turn_generation,
                now,
            );
            &&& after.budget == budget
            &&& (PanelModel { budget: panel.budget, ..after }) == panel
        }),
{
}

/// Whether the turn's marks are gone: nothing runs, no message belongs to a turn, and the texts
/// kept for the turn's messages are let go while all others stay.
pub open spec fn turn_is_over(before: PanelModel, after: PanelModel) -> bool {
    &&& after.status is Idle
    &&& !after.has_turn
    &&& !after.takes_messages
    &&& after.active_turn_message_start is None
    &&& after.active_turn_user_message_ids.len() == 0
    &&& after.history == before.history
    &&& after.turn_generation == before.turn_generation
    &&& forall|id: Seq<char>|
        #[trigger] after.pending_runtime_messages.contains_key(id) <==> {
            &&& before.pending_runtime_messages.contains_key(id)
            &&& !before.active_turn_user_message_ids.contains(id)
        }
    &&& forall|id: Seq<char>|
        #[trigger] after.pending_runtime_messages.contains_key(id)
            ==> after.pending_runtime_messages[id] == before.pending_runtime_messages[id]
}

proof fn lemma_turn_is_over(panel: PanelModel)
    ensures
        turn_is_over(panel, panel.turn_finished()),
{
    assert forall|id: Seq<char>|
        #[trigger] panel.turn_finished().pending_runtime_messages.contains_key(id) <==> {
            &&& panel.pending_runtime_messages.contains_key(id)
            &&& !panel.active_turn_user_message_ids.contains(id)
        } by {
        crate::assistant_laws::law_binding_lasts_until_consumed(
            panel,
            UserMessageModel {
                message_id: id,
                content: id,
                status: AgentUserMessageStatus::Queued,
            },
            id,
        );
    }
    assert forall|id: Seq<char>|
        #[trigger] panel.turn_finished().pending_runtime_messages.contains_key(
            id,
        ) implies panel.turn_finished().pending_runtime_messages[id]
        == panel.pending_runtime_messages[id] by {
        crate::assistant_laws::law_binding_lasts_until_consumed(
            panel,
            UserMessageModel {
                message_id: id,
                content: id,
                status: AgentUserMessageStatus::Queued,
            },
            id,
        );
    }
}

/// A turn that investigates runs. One that failed is over. One that was cancelled is over and says
/// so, and the next turn is asked for where a message waits. Other statuses change nothing.
pub proof fn law_reported_status_moves_the_panel(
    panel: PanelModel,
    status: AgentSessionStatus,
    label: Seq<char>,
    now: TraceTime,
)
    ensures
        ({
            let after = panel.after_turn_event(
                EventModel::Status(status, label),
                panel.turn_generation,
                now,
            );
            &&& status is Investigating ==> after.status is Running && (PanelModel {
                status: panel.status,
                ..after
            }) == panel
            &&& status is Failed ==> turn_is_over(panel, after) && after.messages == panel.messages
                && after.outbox == panel.outbox
            &&& status is Cancelled ==> {
                &&& turn_is_over(panel, after)
                &&& after.messages == panel.messages.push(
                    MessageModel::Trace(
                        TraceModel {
                            kind: AgentTraceKind::Status,
                            title: "当前回答已停止"@,
                            detail: "对话和已验证引用仍保留，可继续发送新问题"@,
                            created_at: now,
                        },
                    ),
                )
                &&& some_waits(panel.messages) <==> after.outbox.last() is BeginTurn
            }
            &&& !(status is Investigating) && !(status is Failed) && !(status is Cancelled)
                ==> after == panel
        }),
{
    lemma_turn_is_over(panel);
    let ended = panel.turn_finished();
    if status is Cancelled {
        let note = MessageModel::Trace(
            TraceModel {
                kind: AgentTraceKind::Status,
                title: "当前回答已停止"@,
                detail: "对话和已验证引用仍保留，可继续发送新问题"@,
                created_at: now,
            },
        );
        lemma_note_waits_not(panel.messages, note);
    }
}

/// Whether some message of the user waits to be answered.
pub open spec fn some_waits(messages: Seq<MessageModel>) -> bool {
    exists|i: int|
        0 <= i < messages.len() && (#[trigger] messages[i]) is User && messages[i]->User_0.status
            is Queued
}

proof fn lemma_note_waits_not(messages: Seq<MessageModel>, note: MessageModel)
    requires
        !(note is User),
    ensures
        some_waits(messages.push(note)) == some_waits(messages),
        forall|panel: PanelModel| #[trigger] panel.has_waiting() == some_waits(panel.messages),
{
    let longer = messages.push(note);
    if some_waits(messages) {
        let i = choose|i: int|
            0 <= i < messages.len() && (#[trigger] messages[i]) is User
                && messages[i]->User_0.status is Queued;
        assert(longer[i] == messages[i]);
    }
    if some_waits(longer) {
        let i = choose|i: int|
            0 <= i < longer.len() && (#[trigger] longer[i]) is User && longer[i]->User_0.status
                is Queued;
        assert(longer[i] == messages[i]);
    }
    assert forall|panel: PanelModel| #[trigger] panel.has_waiting() == some_waits(
        panel.messages,
    ) by {
        if panel.has_waiting() {
            let i = choose|i: int|
                0 <= i < panel.messages.len() && crate::assistant_model::waits(
                    #[trigger] panel.messages[i],
                );
            assert(panel.messages[i] is User);
        }
        if some_waits(panel.messages) {
            let i = choose|i: int|
                0 <= i < panel.messages.len() && (#[trigger] panel.messages[i]) is User
                    && panel.messages[i]->User_0.status is Queued;
            assert(crate::assistant_model::waits(panel.messages[i]));
        }
    }
}

/// Whether a message is the first of the user's with an id.
pub open spec fn is_first_with(messages: Seq<MessageModel>, at: int, id: Seq<char>) -> bool {
    &&& 0 <= at < messages.len()
    &&& messages[at] is User
    &&& messages[at]->User_0.message_id == id
    &&& forall|j: int|
        0 <= j < at && (#[trigger] messages[j]) is User ==> messages[j]->User_0.message_id != id
}

proof fn lemma_first_of_one(messages: Seq<MessageModel>, id: Seq<char>, at: int)
    requires
        is_first_with(messages, at, id),
    ensures
        first_of(messages, seq![id]) == at,
    decreases messages.len(),
{
    let ids = seq![id];
    assert(ids[0] == id);
    assert(ids.contains(id));
    assert forall|other: Seq<char>| ids.contains(other) implies other == id by {}
    if at > 0 {
        let rest = messages.skip(1);
        assert(!is_one_of(messages[0], ids));
        assert forall|j: int| 0 <= j < rest.len() implies rest[j] == messages[j + 1] by {}
        lemma_first_of_one(rest, id, at - 1);
    }
}

proof fn lemma_first_of_none(messages: Seq<MessageModel>, id: Seq<char>)
    requires
        forall|j: int|
            0 <= j < messages.len() && (#[trigger] messages[j]) is User
                ==> messages[j]->User_0.message_id != id,
    ensures
        first_of(messages, seq![id]) == messages.len(),
    decreases messages.len(),
{
    let ids = seq![id];
    assert forall|other: Seq<char>| ids.contains(other) implies other == id by {}
    if messages.len() > 0 {
        let rest = messages.skip(1);
        assert(!is_one_of(messages[0], ids));
        assert forall|j: int| 0 <= j < rest.len() implies rest[j] == messages[j + 1] by {}
        lemma_first_of_none(rest, id);
    }
}

/// A message that an answer took in is marked as consumed, and belongs to the answer from then on.
pub proof fn law_consumed_message_is_marked(
    panel: PanelModel,
    id: Seq<char>,
    at: int,
    now: TraceTime,
)
    requires
        is_first_with(panel.messages, at, id),
    ensures
        ({
            let after = panel.after_turn_event(
                EventModel::UserMessageConsumed(id),
                panel.turn_generation,
                now,
            );
            let message = panel.messages[at]->User_0;
            &&& changes_message(
                panel,
                (PanelModel {
                    active_turn_user_message_ids: panel.active_turn_user_message_ids,
                    ..after
                }),
                at,
                MessageModel::User(
                    UserMessageModel { status: AgentUserMessageStatus::Consumed, ..message },
                ),
            )
            &&& after.active_turn_user_message_ids.contains(id)
            &&& !panel.active_turn_user_message_ids.contains(id)
                ==> after.active_turn_user_message_ids == panel.active_turn_user_message_ids.push(
                id,
            )
            &&& panel.active_turn_user_message_ids.contains(id)
                ==> after.active_turn_user_message_ids == panel.active_turn_user_message_ids
        }),
{
    lemma_first_of_one(panel.messages, id, at);
    let longer = panel.active_turn_user_message_ids.push(id);
    assert(longer[longer.len() - 1] == id);
}

/// A message that an answer did not take in is marked as rejected, what was kept for it is let go,
/// and the reason is told in a warning.
pub proof fn law_rejected_message_is_marked(
    panel: PanelModel,
    id: Seq<char>,
    reason: Seq<char>,
    at: int,
    now: TraceTime,
)
    requires
        is_first_with(panel.messages, at, id),
    ensures
        ({
            let after = panel.after_turn_event(
                EventModel::UserMessageRejected(id, reason),
                panel.turn_generation,
                now,
            );
            let message = panel.messages[at]->User_0;
            &&& after.messages == panel.messages.update(
                at,
                MessageModel::User(
                    UserMessageModel { status: AgentUserMessageStatus::Rejected, ..message },
                ),
            ).push(
                MessageModel::Trace(
                    TraceModel {
                        kind: AgentTraceKind::Warning,
                        title: "补充消息未进入当前回答"@,
                        detail: reason,
                        created_at: now,
                    },
                ),
            )
            &&& after.pending_runtime_messages == panel.pending_runtime_messages.remove(id)
            &&& after.active_turn_user_message_ids == panel.active_turn_user_message_ids
            &&& after.status == panel.status
        }),
{
    lemma_first_of_one(panel.messages, id, at);
}

/// A report on a message that is not there marks none.
pub proof fn law_unknown_message_is_not_marked(panel: PanelModel, id: Seq<char>, now: TraceTime)
    requires
        forall|j: int|
            0 <= j < panel.messages.len() && (#[trigger] panel.messages[j]) is User
                ==> panel.messages[j]->User_0.message_id != id,
    ensures
        panel.after_turn_event(
            EventModel::UserMessageConsumed(id),
            panel.turn_generation,
            now,
        ).messages == panel.messages,
{
    lemma_first_of_none(panel.messages, id);
}

proof fn lemma_last_answer_is(messages: Seq<MessageModel>, start: int, at: int)
    requires
        0 <= start <= at < messages.len(),
        messages[at] is Answer,
        forall|i: int| at < i < messages.len() ==> !((#[trigger] messages[i]) is Answer),
    ensures
        last_answer(messages, start) == Some(at),
    decreases messages.len(),
{
    if at < messages.len() - 1 {
        let shorter = messages.drop_last();
        assert(!(messages[messages.len() - 1] is Answer));
        assert forall|i: int| 0 <= i < shorter.len() implies shorter[i] == messages[i] by {}
        lemma_last_answer_is(shorter, start, at);
    }
}

proof fn lemma_no_answer(messages: Seq<MessageModel>, start: int)
    requires
        0 <= start <= messages.len(),
        forall|i: int| start <= i < messages.len() ==> !((#[trigger] messages[i]) is Answer),
    ensures
        last_answer(messages, start) is None,
    decreases messages.len(),
{
    if messages.len() > start {
        let shorter = messages.drop_last();
        assert(!(messages[messages.len() - 1] is Answer));
        assert forall|i: int| 0 <= i < shorter.len() implies shorter[i] == messages[i] by {}
        lemma_no_answer(shorter, start);
    }
}

/// A finished answer takes the place of the last answer that its turn streamed, with its
/// citations; a blank one leaves the streamed text. Where the turn streamed none it becomes a
/// message of its own.
pub proof fn law_finished_answer_replaces_the_streamed_one(
    panel: PanelModel,
    start: usize,
    output: Seq<char>,
    citations: Seq<CitationModel>,
    at: int,
)
    requires
        panel.active_turn_message_start == Some(start),
        start <= panel.messages.len(),
    ensures
        ({
            let after = panel.answered(output, citations);
            &&& (start <= at < panel.messages.len() && panel.messages[at] is Answer && forall|
                i: int,
            |
                at < i < panel.messages.len() ==> !((#[trigger] panel.messages[i]) is Answer))
                ==> changes_message(
                panel,
                after,
                at,
                (MessageModel::Answer {
                    content: if trimmed(output).len() > 0 {
                        output
                    } else {
                        panel.messages[at]->content
                    },
                    citations,
                }),
            )
            &&& (forall|i: int|
                start <= i < panel.messages.len() ==> !((#[trigger] panel.messages[i]) is Answer))
                ==> gains_message(
                panel,
                after,
                (MessageModel::Answer { content: output, citations }),
            )
        }),
{
    if start <= at < panel.messages.len() && panel.messages[at] is Answer && forall|i: int|
        at < i < panel.messages.len() ==> !((#[trigger] panel.messages[i]) is Answer) {
        lemma_last_answer_is(panel.messages, start as int, at);
    }
    if forall|i: int|
        start <= i < panel.messages.len() ==> !((#[trigger] panel.messages[i]) is Answer) {
        lemma_no_answer(panel.messages, start as int);
    }
}

/// A completed turn is over; it is remembered with its messages, its text and its citations; where
/// the history was cut the conversation says so; and the next turn is asked for where a message
/// waits.
pub proof fn law_completed_turn_is_remembered(
    panel: PanelModel,
    output: Seq<char>,
    citations: Seq<CitationModel>,
    accepted_user_messages: Seq<Seq<char>>,
    history_was_trimmed: bool,
    now: TraceTime,
)
    ensures
        ({
            let after = panel.after_turn_event(
                EventModel::AssistantCompleted {
                    output,
                    citations,
                    accepted_user_messages,
                    history_was_trimmed,
                },
                panel.turn_generation,
                now,
            );
            let answered = panel.answered(output, citations);
            &&& after.status is Idle
            &&& !after.has_turn
            &&& !after.takes_messages
            &&& after.active_turn_message_start is None
            &&& after.active_turn_user_message_ids.len() == 0
            &&& after.history.len() == panel.history.len() + 1
            &&& forall|i: int|
                0 <= i < panel.history.len() ==> #[trigger] after.history[i] == panel.history[i]
            &&& after.history[panel.history.len() as int] == (TurnModel {
                user_messages: accepted_user_messages,
                assistant_output: output,
                citations,
            })
            &&& !history_was_trimmed ==> after.messages == answered.messages
            &&& history_was_trimmed ==> after.messages == answered.messages.push(
                MessageModel::Trace(
                    TraceModel {
                        kind: AgentTraceKind::Status,
                        title: "上下文窗口已整理"@,
                        detail: "较早对话仍保留在界面中，但已从本轮模型上下文移除"@,
                        created_at: now,
                    },
                ),
            )
            &&& some_waits(answered.messages) ==> after.outbox.last() is BeginTurn
            &&& !some_waits(answered.messages) ==> !(after.outbox.last() is BeginTurn)
        }),
{
    let answered = panel.answered(output, citations);
    let note = MessageModel::Trace(
        TraceModel {
            kind: AgentTraceKind::Status,
            title: "上下文窗口已整理"@,
            detail: "较早对话仍保留在界面中，但已从本轮模型上下文移除"@,
            created_at: now,
        },
    );
    lemma_note_waits_not(answered.messages, note);
}

/// A failure of a turn is the panel's error and a warning in the conversation; the status that
/// follows it ends the turn.
pub proof fn law_failed_turn_is_told(panel: PanelModel, message: Seq<char>, now: TraceTime)
    ensures
        ({
            let after = panel.after_turn_event(
                EventModel::Failed(message),
                panel.turn_generation,
                now,
            );
            &&& after.error == Some(message)
            &&& gains_message(
                panel,
                (PanelModel { error: panel.error, ..after }),
                MessageModel::Trace(
                    TraceModel {
                        kind: AgentTraceKind::Warning,
                        title: "助手回答失败"@,
                        detail: message,
                        created_at: now,
                    },
                ),
            )
        }),
{
}

/// Reports that are not the panel's, and those on commands, change nothing.
pub proof fn law_other_reports_change_nothing(
    panel: PanelModel,
    event: EventModel,
    generation: u64,
    now: TraceTime,
)
    requires
        generation != panel.turn_generation || event is Stage || event is Report || event
            is BashApprovalRequired || event is BashApprovalOutcome,
    ensures
        panel.after_turn_event(event, generation, now) == panel,
{
}

proof fn lemma_staying_is_filter(messages: Seq<MessageModel>)
    ensures
        staying(messages, true) == messages.filter(|message: MessageModel| message is User),
        staying(messages, false) == messages.filter(
            |message: MessageModel| !(message is Reasoning) && !(message is Answer),
        ),
    decreases messages.len(),
{
    reveal(Seq::filter);
    if messages.len() > 0 {
        lemma_staying_is_filter(messages.drop_last());
    }
}

/// Starting an answer over takes the model's texts out of its turn: what it thought and what it
/// answered. Everything else, and everything before the turn, stays in its order.
pub proof fn law_starting_over_takes_out_model_text(
    panel: PanelModel,
    start: usize,
    now: TraceTime,
)
    requires
        panel.active_turn_message_start == Some(start),
        start <= panel.messages.len(),
    ensures
        ({
            let after = panel.after_turn_event(
                EventModel::AssistantAttemptReset,
                panel.turn_generation,
                now,
            );
            &&& after.messages == panel.messages.take(start as int) + panel.messages.skip(
                start as int,
            ).filter(|message: MessageModel| !(message is Reasoning) && !(message is Answer))
            &&& differ_in_rows(panel, after)
            &&& start < panel.messages.len() ==> after.outbox[panel.outbox.len() as int]
                == (EffectModel::ResetRows { row_count: after.messages.len() as int })
            &&& start < panel.messages.len() && panel.is_following_latest ==> after.outbox.last()
                is ScrollToLatest
            &&& start == panel.messages.len() ==> after == panel
        }),
{
    let turn = panel.messages.skip(start as int);
    lemma_staying_is_filter(turn);
    if start == panel.messages.len() {
        reveal(Seq::filter);
        assert(turn =~= Seq::<MessageModel>::empty());
        assert(panel.messages.take(start as int) + turn.filter(
            |message: MessageModel| !(message is Reasoning) && !(message is Answer),
        ) =~= panel.messages);
    }
}

/// Taking a running turn back puts its messages into the queue again and leaves nothing of it but
/// the user's own messages, in their order.
pub proof fn law_taken_back_turn_leaves_user_messages(panel: PanelModel, start: usize)
    requires
        panel.active_turn_message_start == Some(start),
        start <= panel.messages.len(),
    ensures
        ({
            let marked = Seq::new(
                panel.messages.len(),
                |i: int|
                    if panel.messages[i] is User && panel.active_turn_user_message_ids.contains(
                        panel.messages[i]->User_0.message_id,
                    ) {
                        MessageModel::User(
                            UserMessageModel {
                                status: AgentUserMessageStatus::Queued,
                                ..panel.messages[i]->User_0
                            },
                        )
                    } else {
                        panel.messages[i]
                    },
            );
            &&& panel.status is Running ==> panel.taken_back().messages == marked.take(
                start as int,
            ) + marked.skip(start as int).filter(|message: MessageModel| message is User)
            &&& !(panel.status is Running) ==> panel.taken_back().messages == panel.messages
            &&& panel.status is Running ==> panel.taken_back().pending_runtime_messages
                == panel.pending_runtime_messages
            &&& panel.taken_back().active_turn_user_message_ids.len() == 0
            &&& panel.taken_back().active_turn_message_start is None
            &&& !panel.taken_back().takes_messages
            &&& !panel.taken_back().has_turn
            &&& !panel.taken_back().has_scan
        }),
{
    let marked = Seq::new(
        panel.messages.len(),
        |i: int|
            if panel.messages[i] is User && panel.active_turn_user_message_ids.contains(
                panel.messages[i]->User_0.message_id,
            ) {
                MessageModel::User(
                    UserMessageModel {
                        status: AgentUserMessageStatus::Queued,
                        ..panel.messages[i]->User_0
                    },
                )
            } else {
                panel.messages[i]
            },
    );
    let spec_marked = with_statuses(
        panel.messages,
        panel.active_turn_user_message_ids,
        AgentUserMessageStatus::Queued,
    );
    assert(spec_marked =~= marked);
    lemma_staying_is_filter(marked.skip(start as int));
    if start == panel.messages.len() {
        reveal(Seq::filter);
        let rest = marked.skip(start as int);
        assert(rest =~= Seq::<MessageModel>::empty());
        assert(marked.take(start as int) + rest.filter(|message: MessageModel| message is User)
            =~= marked);
    }
}

/// Stopping asks what runs to stop, and waits for it; nothing else is touched.
pub proof fn law_stopping_asks_what_runs(panel: PanelModel)
    ensures
        ({
            let after = panel.stopped();
            let runs = panel.status is Scanning || panel.status is Running;
            &&& !runs ==> after == panel
            &&& runs ==> after.status is Cancelling
            &&& runs ==> (PanelModel {
                status: panel.status,
                outbox: panel.outbox,
                ..after
            }) == panel
            &&& runs && panel.has_scan && panel.has_turn ==> after.outbox == panel.outbox.push(
                EffectModel::CancelScan,
            ).push(EffectModel::CancelTurn)
            &&& runs && panel.has_scan && !panel.has_turn ==> after.outbox == panel.outbox.push(
                EffectModel::CancelScan,
            )
            &&& runs && !panel.has_scan && panel.has_turn ==> after.outbox == panel.outbox.push(
                EffectModel::CancelTurn,
            )
            &&& runs && !panel.has_scan && !panel.has_turn ==> after.outbox == panel.outbox
        }),
{
}

/// Giving up what runs makes everything it still reports stale.
pub proof fn law_given_up_work_is_outdated(panel: PanelModel, generation: u64)
    ensures
        next_generation(generation) != generation,
        generation < u64::MAX ==> next_generation(generation) == generation + 1,
        panel.given_up().turn_generation != panel.turn_generation,
        panel.given_up().scan_generation != panel.scan_generation,
        !panel.given_up().has_turn,
        !panel.given_up().has_scan,
        !panel.given_up().takes_messages,
        panel.given_up().active_turn_message_start is None,
        panel.given_up().active_turn_user_message_ids.len() == 0,
        panel.given_up().messages == panel.messages,
        panel.has_turn ==> panel.given_up().outbox.last() is CancelTurn,
{
}

} // verus!
