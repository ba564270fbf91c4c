//! The window of one analysis session: what it keeps of the session's reports,
//! what its user may do, and what it shows.

use std::collections::HashSet;
use vstd::prelude::*;
use crate::agent::{
    bash_approval_reason_label, empty_budget, pending_card, queued_message, reason_label,
    trace_model, AgentBudgetSnapshot, AgentSessionStatus, AgentStreamKind, AgentTraceEntry,
    AgentTraceKind, AgentUserMessage, AgentUserMessageStatus, ApprovalModel, BashApprovalCard,
    BashApprovalStatus, CardModel, TraceModel, UserMessageModel,
};
use crate::agent_event::{AgentEvent, EventModel};
use crate::agent_stream::{
    build_agent_stream_items, card_models, changed_stream_item_ranges, is_middle_splice,
    item_models, splices_are_runs, trace_models, traces_are_dated, working_trace, AgentStreamItem,
    ItemModel, RowSplice, StreamModel,
};
use crate::clock::TraceTime;
use crate::input_behavior::{handle_local_input_key, key_has_room, key_step, KeyOutcome, LocalInputAction};
use crate::keystroke::{optional_text, Keystroke};
use crate::text::{byte_len, same_text, trim, trimmed, utf8_len};
use crate::text_input::{InputModel, TextInputState};
use crate::text_selection::NativeTextEdit;

verus! {

broadcast use vstd::std_specs::hash::group_hash_axioms;

/// The most bytes of one added message.
pub const AGENT_MESSAGE_MAX_BYTES: usize = 4096;

/// The most messages that are added to one session.
pub const AGENT_MESSAGE_MAX_COUNT: usize = 20;

/// The most bytes of all added messages.
pub const AGENT_MESSAGE_TOTAL_MAX_BYTES: usize = 32768;

/// The most traces that the window keeps.
pub const AGENT_TRACE_MAX_COUNT: usize = 1000;

/// The most reports that are taken in at once.
pub const AGENT_EVENT_BATCH_SIZE: usize = 128;

/// The window of one session.
#[derive(Debug, PartialEq, Eq)]
pub struct AgentWindow {
    /// The id of the session.
    pub session_id: String,
    /// The question that started it.
    pub question: String,
    /// Where it stands.
    pub status: AgentSessionStatus,
    /// How long it took, once it has ended.
    pub analysis_finished_elapsed_seconds: Option<u64>,
    /// The size of the model's context window.
    pub context_window_tokens: u64,
    /// Its history.
    pub traces: Vec<AgentTraceEntry>,
    /// The runs of tool traces that are shown whole.
    pub expanded_tool_groups: HashSet<i64>,
    /// The rows that are shown.
    pub trace_items: Vec<AgentStreamItem>,
    /// Whether the newest row stays in sight.
    pub is_trace_following: bool,
    /// What the session has spent.
    pub budget: AgentBudgetSnapshot,
    /// The commands that needed consent.
    pub bash_approvals: Vec<BashApprovalCard>,
    /// The input for added messages.
    pub message_input: TextInputState,
    /// The messages that were added.
    pub user_messages: Vec<AgentUserMessage>,
    /// Whether the window asks before it closes.
    pub show_close_confirmation: bool,
    /// Why the last message was refused.
    pub input_error: Option<String>,
}

/// An [`AgentWindow`] with its texts as sequences of characters.
#[verifier::ext_equal]
pub struct WindowModel {
    /// The id of the session.
    pub session_id: Seq<char>,
    /// The question that started it.
    pub question: Seq<char>,
    /// Where it stands.
    pub status: AgentSessionStatus,
    /// How long it took, once it has ended.
    pub analysis_finished_elapsed_seconds: Option<u64>,
    /// The size of the model's context window.
    pub context_window_tokens: u64,
    /// Its history.
    pub traces: Seq<TraceModel>,
    /// The runs of tool traces that are shown whole.
    pub expanded_tool_groups: Set<i64>,
    /// The rows that are shown.
    pub trace_items: Seq<ItemModel>,
    /// Whether the newest row stays in sight.
    pub is_trace_following: bool,
    /// What the session has spent.
    pub budget: AgentBudgetSnapshot,
    /// The commands that needed consent.
    pub bash_approvals: Seq<CardModel>,
    /// The input for added messages.
    pub message_input: InputModel,
    /// The messages that were added.
    pub user_messages: Seq<UserMessageModel>,
    /// Whether the window asks before it closes.
    pub show_close_confirmation: bool,
    /// Why the last message was refused.
    pub input_error: Option<Seq<char>>,
}

/// The models of some messages.
pub open spec fn message_models(messages: Seq<AgentUserMessage>) -> Seq<UserMessageModel> {
    messages.map_values(|message: AgentUserMessage| message@)
}

impl View for AgentWindow {
    type V = WindowModel;

    open spec fn view(&self) -> WindowModel {
        WindowModel {
            session_id: self.session_id@,
            question: self.question@,
            status: self.status,
            analysis_finished_elapsed_seconds: self.analysis_finished_elapsed_seconds,
            context_window_tokens: self.context_window_tokens,
            traces: trace_models(self.traces@),
            expanded_tool_groups: self.expanded_tool_groups@,
            trace_items: item_models(self.trace_items@),
            is_trace_following: self.is_trace_following,
            budget: self.budget,
            bash_approvals: card_models(self.bash_approvals@),
            message_input: self.message_input@,
            user_messages: message_models(self.user_messages@),
            show_close_confirmation: self.show_close_confirmation,
            input_error: optional_text(self.input_error),
        }
    }
}

// ---------------------------------------------------------------------------
// The model of what happens to a window
// ---------------------------------------------------------------------------

/// A history with one more trace, without the oldest where it grew too long.
pub open spec fn with_trace(traces: Seq<TraceModel>, trace: TraceModel) -> Seq<TraceModel> {
    let longer = traces.push(trace);
    if longer.len() > AGENT_TRACE_MAX_COUNT {
        longer.skip(longer.len() - AGENT_TRACE_MAX_COUNT)
    } else {
        longer
    }
}

/// A history without the thoughts and answers at its end.
pub open spec fn without_stream_text(traces: Seq<TraceModel>) -> Seq<TraceModel>
    decreases traces.len(),
{
    if traces.len() > 0 && (traces.last().kind is Reasoning || traces.last().kind is Output) {
        without_stream_text(traces.drop_last())
    } else {
        traces
    }
}

/// The kind of trace that a stream of the model becomes.
pub open spec fn stream_trace_kind(kind: AgentStreamKind) -> AgentTraceKind {
    match kind {
        AgentStreamKind::Reasoning => AgentTraceKind::Reasoning,
        AgentStreamKind::Output => AgentTraceKind::Output,
    }
}

/// The title of the trace that a stream of the model becomes.
pub open spec fn stream_title(kind: AgentStreamKind) -> Seq<char> {
    match kind {
        AgentStreamKind::Reasoning => "思考过程"@,
        AgentStreamKind::Output => "AI 输出"@,
    }
}

/// The first message with an id.
pub open spec fn first_message(messages: Seq<UserMessageModel>, id: Seq<char>) -> Option<int>
    decreases messages.len(),
{
    if messages.len() == 0 {
        None
    } else if messages[0].message_id == id {
        Some(0)
    } else {
        match first_message(messages.skip(1), id) {
            Some(index) => Some(index + 1),
            None => None,
        }
    }
}

/// Messages of which the first with an id has another status.
pub open spec fn with_message_status(
    messages: Seq<UserMessageModel>,
    id: Seq<char>,
    status: AgentUserMessageStatus,
) -> Seq<UserMessageModel> {
    match first_message(messages, id) {
        Some(index) => messages.update(index, UserMessageModel { status, ..messages[index] }),
        None => messages,
    }
}

/// The first card with an id.
pub open spec fn first_card(cards: Seq<CardModel>, id: Seq<char>) -> Option<int>
    decreases cards.len(),
{
    if cards.len() == 0 {
        None
    } else if cards[0].request_id == id {
        Some(0)
    } else {
        match first_card(cards.skip(1), id) {
            Some(index) => Some(index + 1),
            None => None,
        }
    }
}

/// Whether the first card with an id still waits for an answer.
pub open spec fn card_waits(cards: Seq<CardModel>, id: Seq<char>) -> bool {
    first_card(cards, id) is Some && cards[first_card(cards, id)->0].status is Pending
}

/// Cards of which the first with an id was answered. An answer is final.
pub open spec fn with_answer(
    cards: Seq<CardModel>,
    id: Seq<char>,
    status: ApprovalModel,
) -> Seq<CardModel> {
    if card_waits(cards, id) {
        let index = first_card(cards, id)->0;
        cards.update(index, CardModel { status, ..cards[index] })
    } else {
        cards
    }
}

/// The bytes of some messages.
pub open spec fn message_bytes(messages: Seq<UserMessageModel>) -> nat
    decreases messages.len(),
{
    if messages.len() == 0 {
        0
    } else {
        message_bytes(messages.drop_last()) + utf8_len(messages.last().content)
    }
}

impl WindowModel {
    /// The window with one more trace.
    pub open spec fn traced(self, trace: TraceModel) -> WindowModel {
        WindowModel { traces: with_trace(self.traces, trace), ..self }
    }

    /// The window after more text from the model: it continues the last trace, or
    /// begins one.
    pub open spec fn streamed(
        self,
        kind: AgentStreamKind,
        delta: Seq<char>,
        now: TraceTime,
    ) -> WindowModel {
        let trace_kind = stream_trace_kind(kind);
        if delta.len() == 0 {
            self
        } else if self.traces.len() > 0 && self.traces.last().kind == trace_kind {
            let last = self.traces.last();
            WindowModel {
                traces: self.traces.update(
                    self.traces.len() - 1,
                    TraceModel { detail: last.detail + delta, ..last },
                ),
                ..self
            }
        } else {
            self.traced(trace_model(trace_kind, stream_title(kind), delta, now))
        }
    }

    /// The window after a report.
    pub open spec fn after_event(
        self,
        event: EventModel,
        now: TraceTime,
        elapsed_seconds: u64,
    ) -> WindowModel {
        match event {
            EventModel::Status(status, label) => WindowModel {
                status,
                analysis_finished_elapsed_seconds: if status.ends_session()
                    && self.analysis_finished_elapsed_seconds is None {
                    Some(elapsed_seconds)
                } else {
                    self.analysis_finished_elapsed_seconds
                },
                ..self
            }.traced(
                trace_model(AgentTraceKind::Status, "状态："@ + label, "会话状态已更新"@, now),
            ),
            EventModel::Trace(trace) => self.traced(trace),
            EventModel::Budget(budget) => WindowModel { budget, ..self },
            EventModel::StreamDelta(kind, delta) => self.streamed(kind, delta, now),
            EventModel::UserMessageConsumed(id) => WindowModel {
                user_messages: with_message_status(
                    self.user_messages,
                    id,
                    AgentUserMessageStatus::Consumed,
                ),
                ..self
            }.traced(
                trace_model(
                    AgentTraceKind::User,
                    "追加提示已消费"@,
                    "提示已串行注入下一次模型请求"@,
                    now,
                ),
            ),
            EventModel::UserMessageRejected(id, reason) => WindowModel {
                user_messages: with_message_status(
                    self.user_messages,
                    id,
                    AgentUserMessageStatus::Rejected,
                ),
                ..self
            }.traced(trace_model(AgentTraceKind::Warning, "追加提示未发送"@, reason, now)),
            EventModel::AssistantAttemptReset => WindowModel {
                traces: without_stream_text(self.traces),
                ..self
            },
            EventModel::BashApprovalRequired { request_id, command } => WindowModel {
                bash_approvals: self.bash_approvals.push(pending_card(request_id, command, now)),
                ..self
            },
            EventModel::BashApprovalOutcome { request_id, approved, reason } => WindowModel {
                bash_approvals: with_answer(
                    self.bash_approvals,
                    request_id,
                    if approved {
                        ApprovalModel::Approved
                    } else {
                        ApprovalModel::Denied(reason_label(reason))
                    },
                ),
                ..self
            },
            EventModel::Failed(message) => WindowModel {
                input_error: Some(message),
                ..self
            }.traced(trace_model(AgentTraceKind::Warning, "分析失败"@, message, now)),
            EventModel::AssistantCompleted { .. } => self,
            EventModel::Stage => self,
            EventModel::Report => self,
        }
    }

    /// The rows that the window's state stands for.
    pub open spec fn current_rows(self) -> Seq<ItemModel> {
        StreamModel {
            traces: self.traces,
            cards: self.bash_approvals,
            active: working_trace(self.traces, self.status),
            expanded: self.expanded_tool_groups,
        }.rows()
    }

    /// The window with its rows brought up to date.
    pub open spec fn synced(self) -> WindowModel {
        WindowModel { trace_items: self.current_rows(), ..self }
    }

    /// What the user would add.
    pub open spec fn message_text(self) -> Seq<char> {
        trimmed(self.message_input.value)
    }

    /// Why the message in the input cannot be sent, where it cannot.
    pub open spec fn message_refusal(self) -> Option<Seq<char>> {
        let text = self.message_text();
        if text.len() == 0 {
            Some("请输入补充提示"@)
        } else if !self.status.is_steerable() {
            Some("当前会话已经结束，不能继续发送提示"@)
        } else if utf8_len(text) > AGENT_MESSAGE_MAX_BYTES {
            Some("单条提示不能超过 4 KiB"@)
        } else if self.user_messages.len() >= AGENT_MESSAGE_MAX_COUNT {
            Some("当前会话已达到 20 条追加提示上限"@)
        } else if message_bytes(self.user_messages) + utf8_len(text)
            > AGENT_MESSAGE_TOTAL_MAX_BYTES {
            Some("当前会话追加提示已达到累计 32 KiB 上限"@)
        } else {
            None
        }
    }

    /// The window after a message was handed to the session.
    pub open spec fn with_sent_message(
        self,
        message: UserMessageModel,
        now: TraceTime,
    ) -> WindowModel {
        WindowModel {
            user_messages: self.user_messages.push(message),
            message_input: InputModel { is_focused: true, ..InputModel::blank() },
            input_error: None,
            ..self
        }.traced(
            trace_model(AgentTraceKind::User, "用户追加提示（排队中）"@, message.content, now),
        ).synced()
    }

    /// The window after its user asked to stop the session.
    pub open spec fn cancelled(self, now: TraceTime) -> WindowModel {
        if self.status.is_steerable() {
            WindowModel { status: AgentSessionStatus::Cancelling, ..self }.traced(
                trace_model(
                    AgentTraceKind::Status,
                    "正在取消"@,
                    "已通知模型和日志工具在最近边界停止"@,
                    now,
                ),
            ).synced()
        } else {
            self
        }
    }

    /// The window after a run of tool traces was opened or closed.
    pub open spec fn toggled(self, group_id: i64) -> WindowModel {
        WindowModel {
            expanded_tool_groups: if self.expanded_tool_groups.contains(group_id) {
                self.expanded_tool_groups.remove(group_id)
            } else {
                self.expanded_tool_groups.insert(group_id)
            },
            ..self
        }.synced()
    }
}

/// Whether some splices tell how old rows became new ones.
pub open spec fn describes_change(
    old_rows: Seq<ItemModel>,
    new_rows: Seq<ItemModel>,
    splices: Seq<RowSplice>,
) -> bool {
    if old_rows.len() == new_rows.len() {
        splices_are_runs(old_rows, new_rows, splices)
    } else {
        splices.len() == 1 && is_middle_splice(old_rows, new_rows, splices[0])
    }
}

// ---------------------------------------------------------------------------
// What happens to a window
// ---------------------------------------------------------------------------

/// What became of a message that was handed to the session.
#[derive(Clone, Copy, Debug, PartialEq, Eq, Structural)]
pub enum MessageDelivery {
    /// The session has it.
    Sent,
    /// The session's state cannot be read.
    GateBroken,
    /// The session takes no messages any more.
    GateClosed,
    /// The queue is closed.
    QueueClosed,
}

/// Why a message was not delivered.
pub open spec fn delivery_error(delivery: MessageDelivery) -> Option<Seq<char>> {
    match delivery {
        MessageDelivery::Sent => None,
        MessageDelivery::GateBroken => Some("Agent 提示入口状态已损坏"@),
        MessageDelivery::GateClosed => Some("Agent 已进入报告或终止阶段，不能继续发送提示"@),
        MessageDelivery::QueueClosed => Some("Agent 提示队列已经关闭"@),
    }
}

/// The answer to a command that needed consent.
#[derive(Debug, PartialEq, Eq)]
pub struct BashApprovalDecision {
    /// The id of the request.
    pub request_id: String,
    /// Whether it runs.
    pub approved: bool,
}

fn find_message(messages: &Vec<AgentUserMessage>, id: &str) -> (result: Option<usize>)
    ensures
        match result {
            Some(index) => first_message(message_models(messages@), id@) == Some(index as int)
                && index < messages@.len(),
            None => first_message(message_models(messages@), id@) is None,
        },
{
    let ghost models = message_models(messages@);
    let mut i: usize = 0;
    proof {
        assert(models.skip(0) =~= models);
    }
    while i < messages.len()
        invariant
            i <= messages@.len(),
            models == message_models(messages@),
            first_message(models, id@) == (match first_message(models.skip(i as int), id@) {
                Some(index) => Some(index + i),
                None => None,
            }),
        decreases messages@.len() - i,
    {
        proof {
            assert(models.skip(i as int)[0] == messages@[i as int]@);
            assert(models.skip(i as int).skip(1) =~= models.skip(i + 1));
        }
        if same_text(messages[i].message_id.as_str(), id) {
            return Some(i);
        }
        i += 1;
    }
    None
}

fn set_message_status(
    messages: &mut Vec<AgentUserMessage>,
    id: &str,
    status: AgentUserMessageStatus,
)
    ensures
        message_models(final(messages)@) == with_message_status(
            message_models(old(messages)@),
            id@,
            status,
        ),
{
    match find_message(messages, id) {
        Some(index) => {
            messages[index].status = status;
            proof {
                assert(message_models(messages@) =~= with_message_status(
                    message_models(old(messages)@),
                    id@,
                    status,
                ));
            }
        },
        None => {},
    }
}

fn find_card(cards: &Vec<BashApprovalCard>, id: &str) -> (result: Option<usize>)
    ensures
        match result {
            Some(index) => first_card(card_models(cards@), id@) == Some(index as int) && index
                < cards@.len(),
            None => first_card(card_models(cards@), id@) is None,
        },
{
    let ghost models = card_models(cards@);
    let mut i: usize = 0;
    proof {
        assert(models.skip(0) =~= models);
    }
    while i < cards.len()
        invariant
            i <= cards@.len(),
            models == card_models(cards@),
            first_card(models, id@) == (match first_card(models.skip(i as int), id@) {
                Some(index) => Some(index + i),
                None => None,
            }),
        decreases cards@.len() - i,
    {
        proof {
            assert(models.skip(i as int)[0] == cards@[i as int]@);
            assert(models.skip(i as int).skip(1) =~= models.skip(i + 1));
        }
        if same_text(cards[i].request_id.as_str(), id) {
            return Some(i);
        }
        i += 1;
    }
    None
}

/// Answers the first card with an id, where it still waits. Returns whether it did.
fn answer_card(cards: &mut Vec<BashApprovalCard>, id: &str, status: BashApprovalStatus) -> (result:
    bool)
    ensures
        result == card_waits(card_models(old(cards)@), id@),
        card_models(final(cards)@) == with_answer(card_models(old(cards)@), id@, status@),
{
    match find_card(cards, id) {
        Some(index) => {
            proof {
                assert(card_models(cards@)[index as int] == cards@[index as int]@);
            }
            if !cards[index].status.is_pending() {
                return false;
            }
            cards[index].status = status;
            proof {
                assert(card_models(cards@) =~= with_answer(
                    card_models(old(cards)@),
                    id@,
                    status@,
                ));
            }
            true
        },
        None => false,
    }
}

impl AgentWindow {
    /// Whether every trace of the window is dated.
    pub open spec fn is_valid(self) -> bool {
        traces_are_dated(self.traces@)
    }

    /// Opens the window of a session. `source_scan_summary` says what the scan of
    /// the sources found.
    pub fn new(
        session_id: String,
        question: String,
        source_scan_summary: String,
        context_window_tokens: u64,
        now: TraceTime,
    ) -> (result: AgentWindow)
        requires
            now.is_valid(),
        ensures
            result.is_valid(),
            result@ == (WindowModel {
                session_id: session_id@,
                question: question@,
                status: AgentSessionStatus::Created,
                analysis_finished_elapsed_seconds: None,
                context_window_tokens,
                traces: seq![
                    trace_model(
                        AgentTraceKind::Status,
                        "会话已创建"@,
                        source_scan_summary@,
                        now,
                    ),
                ],
                expanded_tool_groups: Set::empty(),
                trace_items: seq![
                    ItemModel::Question,
                    ItemModel::Trace {
                        trace_index: 0,
                        trace_id: 0,
                        content_bytes: 0,
                        is_active: true,
                    },
                ],
                is_trace_following: true,
                budget: empty_budget(),
                bash_approvals: Seq::empty(),
                message_input: InputModel { is_focused: true, ..InputModel::blank() },
                user_messages: Seq::empty(),
                show_close_confirmation: false,
                input_error: None,
            }),
    {
        let trace = AgentTraceEntry::new(
            AgentTraceKind::Status,
            "会话已创建",
            source_scan_summary.as_str(),
            now,
        );
        let mut traces: Vec<AgentTraceEntry> = Vec::new();
        traces.push(trace);
        let mut trace_items: Vec<AgentStreamItem> = Vec::new();
        trace_items.push(AgentStreamItem::Question);
        trace_items.push(
            AgentStreamItem::Trace {
                trace_index: 0,
                trace_id: 0,
                content_bytes: 0,
                is_active: true,
            },
        );
        let mut message_input = TextInputState::new();
        message_input.is_focused = true;
        let result = AgentWindow {
            session_id,
            question,
            status: AgentSessionStatus::Created,
            analysis_finished_elapsed_seconds: None,
            context_window_tokens,
            traces,
            expanded_tool_groups: HashSet::new(),
            trace_items,
            is_trace_following: true,
            budget: AgentBudgetSnapshot::new(),
            bash_approvals: Vec::new(),
            message_input,
            user_messages: Vec::new(),
            show_close_confirmation: false,
            input_error: None,
        };
        proof {
            assert(result@.traces =~= seq![
                trace_model(AgentTraceKind::Status, "会话已创建"@, source_scan_summary@, now),
            ]);
            assert(result@.trace_items =~= seq![
                ItemModel::Question,
                ItemModel::Trace {
                    trace_index: 0,
                    trace_id: 0,
                    content_bytes: 0,
                    is_active: true,
                },
            ]);
            assert(result@.bash_approvals =~= Seq::empty());
            assert(result@.user_messages =~= Seq::empty());
        }
        result
    }

    /// Adds a trace and drops the oldest where there are too many.
    pub fn push_trace(&mut self, trace: AgentTraceEntry)
        requires
            old(self).is_valid(),
            trace.created_at.is_valid(),
        ensures
            final(self).is_valid(),
            final(self)@ == old(self)@.traced(trace@),
    {
        self.traces.push(trace);
        proof {
            assert(trace_models(self.traces@) =~= old(self)@.traces.push(trace@));
        }
        if self.traces.len() > AGENT_TRACE_MAX_COUNT {
            let surplus: usize = self.traces.len() - AGENT_TRACE_MAX_COUNT;
            let ghost longer = self.traces@;
            let kept = self.traces.split_off(surplus);
            self.traces = kept;
            proof {
                assert(self.traces@ =~= longer.skip(surplus as int));
                assert(trace_models(self.traces@) =~= trace_models(longer).skip(surplus as int));
            }
        }
    }

    /// Drops the thoughts and answers at the end of the history: the model writes
    /// them anew.
    pub fn drop_incomplete_stream_text(&mut self)
        requires
            old(self).is_valid(),
        ensures
            final(self).is_valid(),
            final(self)@ == (WindowModel {
                traces: without_stream_text(old(self)@.traces),
                ..old(self)@
            }),
    {
        let ghost before = *self;
        while self.traces.len() > 0 && (self.traces[self.traces.len() - 1].kind
            == AgentTraceKind::Reasoning || self.traces[self.traces.len() - 1].kind
            == AgentTraceKind::Output)
            invariant
                self.is_valid(),
                without_stream_text(self@.traces) == without_stream_text(before@.traces),
                self@ == (WindowModel { traces: self@.traces, ..before@ }),
            decreases self.traces@.len(),
        {
            proof {
                assert(self@.traces.last() == self.traces@.last()@);
            }
            let ghost longer = self.traces@;
            self.traces.pop();
            proof {
                assert(trace_models(self.traces@) =~= trace_models(longer).drop_last());
            }
        }
        proof {
            if self.traces@.len() > 0 {
                assert(self@.traces.last() == self.traces@.last()@);
            }
        }
    }

    /// Takes more text from the model in.
    pub fn apply_stream_delta(&mut self, kind: AgentStreamKind, delta: String, now: TraceTime)
        requires
            old(self).is_valid(),
            now.is_valid(),
        ensures
            final(self).is_valid(),
            final(self)@ == old(self)@.streamed(kind, delta@, now),
    {
        if delta.as_str().is_empty() {
            return;
        }
        let (trace_kind, title) = match kind {
            AgentStreamKind::Reasoning => (AgentTraceKind::Reasoning, "思考过程"),
            AgentStreamKind::Output => (AgentTraceKind::Output, "AI 输出"),
        };
        let length: usize = self.traces.len();
        if length > 0 && self.traces[length - 1].kind == trace_kind {
            proof {
                assert(self@.traces.last() == self.traces@.last()@);
            }
            self.traces[length - 1].detail.push_str(delta.as_str());
            proof {
                assert(self@.traces =~= old(self)@.streamed(kind, delta@, now).traces);
            }
            return;
        }
        proof {
            if length > 0 {
                assert(self@.traces.last() == self.traces@.last()@);
            }
        }
        self.push_trace(AgentTraceEntry::new(trace_kind, title, delta.as_str(), now));
    }

    /// Takes a report of the session in. `now` is the present moment, and
    /// `elapsed_seconds` the time since the question was asked.
    pub fn apply_event(&mut self, event: AgentEvent, now: TraceTime, elapsed_seconds: u64)
        requires
            old(self).is_valid(),
            now.is_valid(),
            event.is_dated(),
        ensures
            final(self).is_valid(),
            final(self)@ == old(self)@.after_event(event@, now, elapsed_seconds),
    {
        match event {
            AgentEvent::Status(status, label) => {
                self.status = status;
                if status.is_terminal() && self.analysis_finished_elapsed_seconds.is_none() {
                    self.analysis_finished_elapsed_seconds = Some(elapsed_seconds);
                }
                let mut title = "状态：".to_owned();
                title.push_str(label.as_str());
                self.push_trace(
                    AgentTraceEntry::new(
                        AgentTraceKind::Status,
                        title.as_str(),
                        "会话状态已更新",
                        now,
                    ),
                );
            },
            AgentEvent::Trace(trace) => {
                self.push_trace(trace);
            },
            AgentEvent::Budget(budget) => {
                self.budget = budget;
            },
            AgentEvent::StreamDelta(kind, delta) => {
                self.apply_stream_delta(kind, delta, now);
            },
            AgentEvent::UserMessageConsumed(message_id) => {
                set_message_status(
                    &mut self.user_messages,
                    message_id.as_str(),
                    AgentUserMessageStatus::Consumed,
                );
                self.push_trace(
                    AgentTraceEntry::new(
                        AgentTraceKind::User,
                        "追加提示已消费",
                        "提示已串行注入下一次模型请求",
                        now,
                    ),
                );
            },
            AgentEvent::UserMessageRejected(message_id, reason) => {
                set_message_status(
                    &mut self.user_messages,
                    message_id.as_str(),
                    AgentUserMessageStatus::Rejected,
                );
                self.push_trace(
                    AgentTraceEntry::new(
                        AgentTraceKind::Warning,
                        "追加提示未发送",
                        reason.as_str(),
                        now,
                    ),
                );
            },
            AgentEvent::AssistantAttemptReset => {
                self.drop_incomplete_stream_text();
            },
            AgentEvent::BashApprovalRequired { request_id, command } => {
                let ghost before = self.bash_approvals@;
                let card = BashApprovalCard::pending(request_id, command, now);
                self.bash_approvals.push(card);
                proof {
                    assert(card_models(self.bash_approvals@) =~= card_models(before).push(card@));
                }
            },
            AgentEvent::BashApprovalOutcome { request_id, approved, reason } => {
                let status = if approved {
                    BashApprovalStatus::Approved
                } else {
                    BashApprovalStatus::Denied(bash_approval_reason_label(reason.as_str()))
                };
                answer_card(&mut self.bash_approvals, request_id.as_str(), status);
            },
            AgentEvent::Failed(message) => {
                self.input_error = Some(message.clone());
                self.push_trace(
                    AgentTraceEntry::new(
                        AgentTraceKind::Warning,
                        "分析失败",
                        message.as_str(),
                        now,
                    ),
                );
            },
            AgentEvent::AssistantCompleted { .. } => {},
            AgentEvent::Stage => {},
            AgentEvent::Report => {},
        }
    }

    /// Whether the session has ended.
    pub fn is_session_terminal(&self) -> (result: bool)
        ensures
            result == self@.status.ends_session(),
    {
        self.status.is_terminal()
    }

    /// Takes the user's answer to a command in. Returns what the session is told;
    /// nothing where the command was answered before.
    pub fn resolve_bash_approval(&mut self, request_id: &str, approved: bool) -> (result: Option<
        BashApprovalDecision,
    >)
        ensures
            final(self).traces == old(self).traces,
            final(self)@ == (WindowModel {
                bash_approvals: with_answer(
                    old(self)@.bash_approvals,
                    request_id@,
                    if approved {
                        ApprovalModel::Approved
                    } else {
                        ApprovalModel::Denied("你拒绝了这条命令"@)
                    },
                ),
                ..old(self)@
            }),
            match result {
                Some(decision) => card_waits(old(self)@.bash_approvals, request_id@)
                    && decision.request_id@ == request_id@ && decision.approved == approved,
                None => !card_waits(old(self)@.bash_approvals, request_id@),
            },
    {
        let status = if approved {
            BashApprovalStatus::Approved
        } else {
            BashApprovalStatus::Denied("你拒绝了这条命令".to_owned())
        };
        if answer_card(&mut self.bash_approvals, request_id, status) {
            Some(BashApprovalDecision { request_id: request_id.to_owned(), approved })
        } else {
            None
        }
    }

    /// Brings the rows up to date. Returns which of them are measured again.
    pub fn sync_trace_items(&mut self) -> (result: Vec<RowSplice>)
        requires
            old(self).is_valid(),
        ensures
            final(self).is_valid(),
            final(self)@ == old(self)@.synced(),
            describes_change(old(self)@.trace_items, final(self)@.trace_items, result@),
    {
        let next_items = build_agent_stream_items(
            &self.traces,
            self.status,
            &self.expanded_tool_groups,
            &self.bash_approvals,
        );
        let splices = changed_stream_item_ranges(&self.trace_items, &next_items);
        self.trace_items = next_items;
        splices
    }

    /// The bytes of the messages that were added, but never more than the machine
    /// counts.
    fn sent_bytes(&self) -> (result: usize)
        ensures
            result == crate::agent_stream::counted(message_bytes(self@.user_messages)),
    {
        let ghost models = self@.user_messages;
        let mut total: usize = 0;
        let mut i: usize = 0;
        proof {
            assert(models.take(0) =~= Seq::empty());
        }
        while i < self.user_messages.len()
            invariant
                i <= self.user_messages@.len(),
                models == message_models(self.user_messages@),
                total == crate::agent_stream::counted(message_bytes(models.take(i as int))),
            decreases self.user_messages@.len() - i,
        {
            proof {
                assert(models[i as int] == self.user_messages@[i as int]@);
                assert(models.take(i + 1).drop_last() =~= models.take(i as int));
            }
            total = total.saturating_add(byte_len(self.user_messages[i].content.as_str()));
            i += 1;
        }
        proof {
            assert(models.take(i as int) =~= models);
        }
        total
    }

    /// Why the message in the input cannot be sent, where it cannot.
    pub fn check_message(&self) -> (result: Option<&'static str>)
        ensures
            match (result, self@.message_refusal()) {
                (Some(error), Some(refusal)) => error@ == refusal,
                (None, None) => true,
                _ => false,
            },
    {
        let content = trim(self.message_input.value.as_str());
        let length: usize = byte_len(content.as_str());
        if content.as_str().is_empty() {
            return Some("请输入补充提示");
        }
        if !self.status.can_be_steered() {
            return Some("当前会话已经结束，不能继续发送提示");
        }
        if length > AGENT_MESSAGE_MAX_BYTES {
            return Some("单条提示不能超过 4 KiB");
        }
        if self.user_messages.len() >= AGENT_MESSAGE_MAX_COUNT {
            return Some("当前会话已达到 20 条追加提示上限");
        }
        if self.sent_bytes().saturating_add(length) > AGENT_MESSAGE_TOTAL_MAX_BYTES {
            return Some("当前会话追加提示已达到累计 32 KiB 上限");
        }
        None
    }

    /// Begins to send the message in the input: gives the message that the session
    /// is to be handed, or notes why there is none. `message_id` is a new id.
    pub fn begin_message(&mut self, message_id: String) -> (result: Option<AgentUserMessage>)
        ensures
            final(self).traces == old(self).traces,
            match result {
                Some(message) => old(self)@.message_refusal() is None && message@
                    == queued_message(message_id@, old(self)@.message_text()) && final(self)@
                    == old(self)@,
                None => old(self)@.message_refusal() is Some && final(self)@ == (WindowModel {
                    input_error: old(self)@.message_refusal(),
                    ..old(self)@
                }),
            },
    {
        match self.check_message() {
            Some(error) => {
                self.input_error = Some(error.to_owned());
                None
            },
            None => {
                let content = trim(self.message_input.value.as_str());
                Some(AgentUserMessage::queued(message_id, content))
            },
        }
    }

    /// Ends the sending of a message: keeps it where the session has it, and notes
    /// why not else. Returns which rows are measured again.
    pub fn finish_message(
        &mut self,
        message: AgentUserMessage,
        delivery: MessageDelivery,
        now: TraceTime,
    ) -> (result: Vec<RowSplice>)
        requires
            old(self).is_valid(),
            now.is_valid(),
        ensures
            final(self).is_valid(),
            final(self)@ == (match delivery_error(delivery) {
                Some(error) => WindowModel { input_error: Some(error), ..old(self)@ },
                None => old(self)@.with_sent_message(message@, now),
            }),
            match delivery_error(delivery) {
                Some(_) => result@.len() == 0,
                None => describes_change(
                    old(self)@.trace_items,
                    final(self)@.trace_items,
                    result@,
                ),
            },
    {
        let error = match delivery {
            MessageDelivery::Sent => None,
            MessageDelivery::GateBroken => Some("Agent 提示入口状态已损坏"),
            MessageDelivery::GateClosed => Some("Agent 已进入报告或终止阶段，不能继续发送提示"),
            MessageDelivery::QueueClosed => Some("Agent 提示队列已经关闭"),
        };
        match error {
            Some(text) => {
                self.input_error = Some(text.to_owned());
                Vec::new()
            },
            None => {
                let trace = AgentTraceEntry::new(
                    AgentTraceKind::User,
                    "用户追加提示（排队中）",
                    message.content.as_str(),
                    now,
                );
                let ghost before = self.user_messages@;
                self.user_messages.push(message);
                proof {
                    assert(message_models(self.user_messages@) =~= message_models(before).push(
                        message@,
                    ));
                }
                self.message_input = TextInputState::new();
                self.message_input.is_focused = true;
                self.input_error = None;
                self.push_trace(trace);
                self.sync_trace_items()
            },
        }
    }

    /// Handles a key press in the input. Where the outcome asks to submit, the view
    /// begins to send the message.
    pub fn handle_message_key(&mut self, keystroke: &Keystroke, clipboard: &Option<String>) -> (result:
        KeyOutcome)
        requires
            key_has_room(old(self)@.message_input, keystroke@, true, optional_text(*clipboard)),
        ensures
            final(self).traces == old(self).traces,
            ({
                let step = key_step(
                    old(self)@.message_input,
                    keystroke@,
                    true,
                    optional_text(*clipboard),
                );
                &&& result.action == step.action
                &&& optional_text(result.copied) == step.copied
                &&& final(self)@ == (WindowModel {
                    message_input: if step.action is Close {
                        step.input.unfocused()
                    } else {
                        step.input
                    },
                    input_error: if step.action is Changed {
                        None
                    } else {
                        old(self)@.input_error
                    },
                    ..old(self)@
                })
            }),
    {
        let outcome = handle_local_input_key(&mut self.message_input, keystroke, true, clipboard);
        match outcome.action {
            LocalInputAction::Changed => {
                self.input_error = None;
            },
            LocalInputAction::Close => {
                self.message_input.clear_focus();
            },
            LocalInputAction::Submit => {},
            LocalInputAction::Ignored => {},
        }
        outcome
    }

    /// Applies an edit of the system's input method to the input.
    pub fn apply_native_edit(&mut self, edit: &NativeTextEdit)
        ensures
            final(self).traces == old(self).traces,
            final(self)@ == (WindowModel {
                message_input: old(self)@.message_input.natively_edited(*edit),
                input_error: None,
                ..old(self)@
            }),
    {
        self.message_input.apply_native_edit(edit);
        self.input_error = None;
    }

    /// Asks the session to stop. Returns whether the session is told, and which
    /// rows are measured again.
    pub fn cancel_session(&mut self, now: TraceTime) -> (result: (bool, Vec<RowSplice>))
        requires
            old(self).is_valid(),
            now.is_valid(),
        ensures
            final(self).is_valid(),
            final(self)@ == old(self)@.cancelled(now),
            result.0 == old(self)@.status.is_steerable(),
            if result.0 {
                describes_change(old(self)@.trace_items, final(self)@.trace_items, result.1@)
            } else {
                result.1@.len() == 0
            },
    {
        if !self.status.can_be_steered() {
            return (false, Vec::new());
        }
        self.status = AgentSessionStatus::Cancelling;
        self.push_trace(
            AgentTraceEntry::new(
                AgentTraceKind::Status,
                "正在取消",
                "已通知模型和日志工具在最近边界停止",
                now,
            ),
        );
        let splices = self.sync_trace_items();
        (true, splices)
    }

    /// How long the session has taken: until its end, or until now.
    pub fn overall_elapsed_seconds(&self, elapsed_seconds: u64) -> (result: u64)
        ensures
            result == (match self@.analysis_finished_elapsed_seconds {
                Some(seconds) => seconds,
                None => elapsed_seconds,
            }),
    {
        match self.analysis_finished_elapsed_seconds {
            Some(seconds) => seconds,
            None => elapsed_seconds,
        }
    }

    /// Asks to close the window. Returns whether it closes at once; a session at
    /// work asks for confirmation first.
    pub fn request_close(&mut self) -> (result: bool)
        ensures
            final(self).traces == old(self).traces,
            result == old(self)@.status.ends_session(),
            final(self)@ == (WindowModel {
                show_close_confirmation: old(self)@.show_close_confirmation || !result,
                ..old(self)@
            }),
    {
        if self.status.is_terminal() {
            true
        } else {
            self.show_close_confirmation = true;
            false
        }
    }

    /// Keeps the window open after all.
    pub fn keep_open(&mut self)
        ensures
            final(self).traces == old(self).traces,
            final(self)@ == (WindowModel { show_close_confirmation: false, ..old(self)@ }),
    {
        self.show_close_confirmation = false;
    }

    /// Opens or closes a run of tool traces. Returns which rows are measured again.
    pub fn toggle_tool_group(&mut self, group_id: i64) -> (result: Vec<RowSplice>)
        requires
            old(self).is_valid(),
        ensures
            final(self).is_valid(),
            final(self)@ == old(self)@.toggled(group_id),
            describes_change(old(self)@.trace_items, final(self)@.trace_items, result@),
    {
        if !self.expanded_tool_groups.remove(&group_id) {
            self.expanded_tool_groups.insert(group_id);
        }
        proof {
            let groups = old(self)@.expanded_tool_groups;
            if !groups.contains(group_id) {
                assert(groups.remove(group_id) =~= groups);
            }
        }
        self.sync_trace_items()
    }

    /// Follows the scrolling of the stream: whoever scrolls away from its end is
    /// left there.
    pub fn follow_scroll(&mut self, is_scrolled: bool)
        ensures
            final(self).traces == old(self).traces,
            final(self)@ == (WindowModel { is_trace_following: !is_scrolled, ..old(self)@ }),
    {
        self.is_trace_following = !is_scrolled;
    }

    /// Goes back to the end of the stream.
    pub fn jump_trace_to_latest(&mut self)
        ensures
            final(self).traces == old(self).traces,
            final(self)@ == (WindowModel { is_trace_following: true, ..old(self)@ }),
    {
        self.is_trace_following = true;
    }
}

// ---------------------------------------------------------------------------
// Laws
// ---------------------------------------------------------------------------

/// A history never grows beyond its limit, and the newest trace is always kept.
pub proof fn law_history_is_bounded(traces: Seq<TraceModel>, trace: TraceModel)
    requires
        traces.len() <= AGENT_TRACE_MAX_COUNT,
    ensures
        with_trace(traces, trace).len() <= AGENT_TRACE_MAX_COUNT,
        with_trace(traces, trace).last() == trace,
        forall|i: int|
            0 <= i < with_trace(traces, trace).len() - 1 ==> #[trigger] with_trace(
                traces,
                trace,
            )[i] == traces[i + traces.len() + 1 - with_trace(traces, trace).len()],
{
}

proof fn lemma_reset_shortens(traces: Seq<TraceModel>)
    ensures
        without_stream_text(traces).len() <= traces.len(),
        without_stream_text(traces) == traces.take(without_stream_text(traces).len() as int),
        without_stream_text(traces).len() > 0 ==> !(without_stream_text(traces).last().kind
            is Reasoning) && !(without_stream_text(traces).last().kind is Output),
        forall|i: int|
            without_stream_text(traces).len() <= i < traces.len() ==> (#[trigger] traces[i]).kind
                is Reasoning || traces[i].kind is Output,
    decreases traces.len(),
{
    if traces.len() > 0 && (traces.last().kind is Reasoning || traces.last().kind is Output) {
        let shorter = traces.drop_last();
        lemma_reset_shortens(shorter);
        assert(shorter.take(without_stream_text(shorter).len() as int) =~= traces.take(
            without_stream_text(shorter).len() as int,
        ));
        assert forall|i: int|
            without_stream_text(traces).len() <= i < traces.len() implies (
        #[trigger] traces[i]).kind is Reasoning || traces[i].kind is Output by {
            if i < shorter.len() {
                assert(shorter[i] == traces[i]);
            }
        }
    } else {
        assert(traces.take(traces.len() as int) =~= traces);
    }
}

/// No report makes a window's history longer than its limit.
pub proof fn law_reports_keep_history_bounded(
    window: WindowModel,
    event: EventModel,
    now: TraceTime,
    elapsed_seconds: u64,
)
    requires
        window.traces.len() <= AGENT_TRACE_MAX_COUNT,
    ensures
        window.after_event(event, now, elapsed_seconds).traces.len() <= AGENT_TRACE_MAX_COUNT,
{
    lemma_reset_shortens(window.traces);
}

/// When the model starts over, exactly the thoughts and answers at the end of the
/// history go: what is left is a beginning of the history that ends in neither,
/// and all that went was of these kinds. A second reset changes nothing.
pub proof fn law_reset_drops_unfinished_text(traces: Seq<TraceModel>)
    ensures
        without_stream_text(traces).len() <= traces.len(),
        without_stream_text(traces) == traces.take(without_stream_text(traces).len() as int),
        without_stream_text(traces).len() > 0 ==> !(without_stream_text(traces).last().kind
            is Reasoning) && !(without_stream_text(traces).last().kind is Output),
        forall|i: int|
            without_stream_text(traces).len() <= i < traces.len() ==> (#[trigger] traces[i]).kind
                is Reasoning || traces[i].kind is Output,
        without_stream_text(without_stream_text(traces)) == without_stream_text(traces),
{
    lemma_reset_shortens(traces);
}

/// Text that arrives in two pieces is shown as if it had arrived in one.
pub proof fn law_pieces_of_text_merge(
    window: WindowModel,
    kind: AgentStreamKind,
    first: Seq<char>,
    second: Seq<char>,
    now: TraceTime,
    later: TraceTime,
)
    requires
        first.len() > 0,
    ensures
        window.streamed(kind, first, now).streamed(kind, second, later) == window.streamed(
            kind,
            first + second,
            now,
        ),
{
    let once = window.streamed(kind, first, now);
    let twice = once.streamed(kind, second, later);
    let whole = window.streamed(kind, first + second, now);
    if second.len() == 0 {
        assert(first + second =~= first);
    } else {
        let trace_kind = stream_trace_kind(kind);
        if window.traces.len() > 0 && window.traces.last().kind == trace_kind {
            let detail = window.traces.last().detail;
            assert(detail + (first + second) =~= detail + first + second);
        }
        assert(once.traces.last().kind == trace_kind);
        assert(twice.traces =~= whole.traces);
    }
}

proof fn lemma_first_card(cards: Seq<CardModel>, id: Seq<char>)
    ensures
        match first_card(cards, id) {
            Some(index) => 0 <= index < cards.len() && cards[index].request_id == id && (forall|
                i: int,
            |
                0 <= i < index ==> (#[trigger] cards[i]).request_id != id),
            None => forall|i: int| 0 <= i < cards.len() ==> (#[trigger] cards[i]).request_id != id,
        },
    decreases cards.len(),
{
    if cards.len() > 0 && cards[0].request_id != id {
        let rest = cards.skip(1);
        lemma_first_card(rest, id);
        match first_card(rest, id) {
            Some(index) => {
                assert(cards[index + 1] == rest[index]);
                assert forall|i: int| 0 <= i < index + 1 implies (#[trigger] cards[i]).request_id
                    != id by {
                    if i > 0 {
                        assert(cards[i] == rest[i - 1]);
                    }
                }
            },
            None => {
                assert forall|i: int| 0 <= i < cards.len() implies (#[trigger] cards[i]).request_id
                    != id by {
                    if i > 0 {
                        assert(cards[i] == rest[i - 1]);
                    }
                }
            },
        }
    }
}

proof fn lemma_first_card_is(cards: Seq<CardModel>, id: Seq<char>, index: int)
    requires
        0 <= index < cards.len(),
        cards[index].request_id == id,
        forall|i: int| 0 <= i < index ==> (#[trigger] cards[i]).request_id != id,
    ensures
        first_card(cards, id) == Some(index),
    decreases cards.len(),
{
    if index > 0 {
        let rest = cards.skip(1);
        assert(cards[0].request_id != id);
        assert forall|i: int| 0 <= i < index - 1 implies (#[trigger] rest[i]).request_id != id by {
            assert(rest[i] == cards[i + 1]);
        }
        lemma_first_card_is(rest, id, index - 1);
    }
}

/// The first answer to a command stands: every later answer changes nothing.
pub proof fn law_first_answer_stands(
    cards: Seq<CardModel>,
    id: Seq<char>,
    first: ApprovalModel,
    second: ApprovalModel,
)
    requires
        !(first is Pending),
    ensures
        with_answer(with_answer(cards, id, first), id, second) == with_answer(cards, id, first),
{
    lemma_first_card(cards, id);
    if card_waits(cards, id) {
        let index = first_card(cards, id)->0;
        let answered = with_answer(cards, id, first);
        assert forall|i: int| 0 <= i < index implies (#[trigger] answered[i]).request_id != id by {
            assert(answered[i] == cards[i]);
        }
        lemma_first_card_is(answered, id, index);
    }
}

/// An answer changes at most one card, and only what became of it.
pub proof fn law_answer_changes_one_card(cards: Seq<CardModel>, id: Seq<char>, status: ApprovalModel)
    ensures
        with_answer(cards, id, status).len() == cards.len(),
        forall|i: int|
            0 <= i < cards.len() ==> {
                let card = #[trigger] with_answer(cards, id, status)[i];
                card == cards[i] || (first_card(cards, id) == Some(i) && cards[i].request_id == id
                    && cards[i].status is Pending && card == (CardModel { status, ..cards[i] }))
            },
{
    lemma_first_card(cards, id);
}

/// Messages that were sent one after the other stay within the limits on their
/// number and on their bytes.
pub proof fn law_sent_messages_stay_within_limits(
    window: WindowModel,
    message_id: Seq<char>,
    now: TraceTime,
)
    requires
        window.message_refusal() is None,
    ensures
        ({
            let message = queued_message(message_id, window.message_text());
            let sent = window.with_sent_message(message, now);
            &&& sent.user_messages == window.user_messages.push(message)
            &&& sent.user_messages.len() <= AGENT_MESSAGE_MAX_COUNT
            &&& message_bytes(sent.user_messages) <= AGENT_MESSAGE_TOTAL_MAX_BYTES
            &&& 0 < message.content.len()
            &&& utf8_len(message.content) <= AGENT_MESSAGE_MAX_BYTES
        }),
{
    let message = queued_message(message_id, window.message_text());
    assert(window.user_messages.push(message).drop_last() =~= window.user_messages);
}

/// Stopping a session twice is the same as stopping it once.
pub proof fn law_cancelling_is_idempotent(window: WindowModel, now: TraceTime, later: TraceTime)
    ensures
        window.cancelled(now).cancelled(later) == window.cancelled(now),
{
}

/// The time that a session took is fixed when it ends: no later report changes it.
pub proof fn law_final_time_stands(
    window: WindowModel,
    event: EventModel,
    now: TraceTime,
    elapsed_seconds: u64,
)
    requires
        window.analysis_finished_elapsed_seconds is Some,
    ensures
        window.after_event(event, now, elapsed_seconds).analysis_finished_elapsed_seconds
            == window.analysis_finished_elapsed_seconds,
{
}

/// Opening and closing a run of tool traces leads back to where it began.
pub proof fn law_toggling_twice_restores(window: WindowModel, group_id: i64)
    ensures
        window.toggled(group_id).toggled(group_id).expanded_tool_groups
            == window.expanded_tool_groups,
{
    assert(window.toggled(group_id).toggled(group_id).expanded_tool_groups
        =~= window.expanded_tool_groups);
}

} // verus!
