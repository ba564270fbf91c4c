//! The conversation with the assistant: what the panel keeps, and what each step
//! makes of it. Outside work is asked for through an outbox.

use vstd::hash_map::StringHashMap;
use vstd::prelude::*;
use crate::agent::{
    citation_models, empty_budget, queued_message, trace_model, AgentBudgetSnapshot,
    AgentSessionStatus, AgentStreamKind, AgentTraceEntry, AgentTraceKind, AgentUserMessage,
    AgentUserMessageStatus, AssistantCitation, CitationModel, TraceModel, UserMessageModel,
};
use crate::agent_event::{text_models, EventModel};
use crate::agent_stream::trace_models;
use crate::ai_config::{
    enabled_models, model_profiles, profile_place, AiModelProfile, ModelProfileModel,
};
use crate::clock::TraceTime;
use crate::input_behavior::{key_step, KeyStep};
use crate::keystroke::{optional_text, KeystrokeModel};
use crate::mention_query::{
    offered, optional_query, query_at_cursor, runtime_message, AssistantMentionQuery, QueryModel,
};
use crate::mentions::{
    candidate_models, selected_models, AssistantMentionCandidate, AssistantSelectedMention,
    CandidateModel, ScopeSource, SelectedModel, SourceScope, ASSISTANT_MENTION_RESULT_LIMIT,
};
use crate::text::{ascii_lower_case, contains_part, decimal_text, trimmed, utf8_len};
use crate::text_input::{InputModel, TextInputState};
use crate::text_selection::{least, with_replaced};

verus! {

/// The most bytes of one message.
pub const ASSISTANT_MESSAGE_MAX_BYTES: usize = 32768;

/// What the assistant is doing.
#[derive(Clone, Copy, Debug, PartialEq, Eq, Structural)]
pub enum AssistantPanelStatus {
    /// Nothing.
    Idle,
    /// It scans the sources.
    Scanning,
    /// It answers.
    Running,
    /// It stops.
    Cancelling,
}

/// The name of what the assistant is doing.
pub open spec fn status_name(status: AssistantPanelStatus) -> Seq<char> {
    match status {
        AssistantPanelStatus::Idle => "就绪"@,
        AssistantPanelStatus::Scanning => "扫描来源"@,
        AssistantPanelStatus::Running => "回答中"@,
        AssistantPanelStatus::Cancelling => "正在停止"@,
    }
}

impl AssistantPanelStatus {
    /// The name of what the assistant is doing.
    pub fn label(self) -> (result: &'static str)
        ensures
            result@ == status_name(self),
    {
        match self {
            AssistantPanelStatus::Idle => "就绪",
            AssistantPanelStatus::Scanning => "扫描来源",
            AssistantPanelStatus::Running => "回答中",
            AssistantPanelStatus::Cancelling => "正在停止",
        }
    }

    /// Whether the assistant is doing anything.
    pub fn is_busy(self) -> (result: bool)
        ensures
            result == !(self is Idle),
    {
        match self {
            AssistantPanelStatus::Idle => false,
            _ => true,
        }
    }
}

/// One message of the conversation.
#[derive(Debug, PartialEq, Eq)]
pub enum AssistantPanelMessage {
    /// What the user wrote.
    User(AgentUserMessage),
    /// A note on what happens.
    Trace(AgentTraceEntry),
    /// Tools at work, one after the other.
    ToolGroup {
        /// What they did.
        traces: Vec<AgentTraceEntry>,
        /// Whether all of it is shown.
        is_expanded: bool,
    },
    /// What the model thinks.
    Reasoning(String),
    /// What the model answers.
    Answer {
        /// The answer.
        content: String,
        /// What it rests on.
        citations: Vec<AssistantCitation>,
    },
}

/// An [`AssistantPanelMessage`] with its texts as sequences of characters.
#[verifier::ext_equal]
pub enum MessageModel {
    /// What the user wrote.
    User(UserMessageModel),
    /// A note on what happens.
    Trace(TraceModel),
    /// Tools at work.
    ToolGroup {
        /// What they did.
        traces: Seq<TraceModel>,
        /// Whether all of it is shown.
        is_expanded: bool,
    },
    /// What the model thinks.
    Reasoning(Seq<char>),
    /// What the model answers.
    Answer {
        /// The answer.
        content: Seq<char>,
        /// What it rests on.
        citations: Seq<CitationModel>,
    },
}

impl View for AssistantPanelMessage {
    type V = MessageModel;

    open spec fn view(&self) -> MessageModel {
        match self {
            AssistantPanelMessage::User(message) => MessageModel::User(message@),
            AssistantPanelMessage::Trace(trace) => MessageModel::Trace(trace@),
            AssistantPanelMessage::ToolGroup { traces, is_expanded } => MessageModel::ToolGroup {
                traces: trace_models(traces@),
                is_expanded: *is_expanded,
            },
            AssistantPanelMessage::Reasoning(content) => MessageModel::Reasoning(content@),
            AssistantPanelMessage::Answer { content, citations } => MessageModel::Answer {
                content: content@,
                citations: citation_models(citations@),
            },
        }
    }
}

/// The models of some messages.
pub open spec fn panel_messages(messages: Seq<AssistantPanelMessage>) -> Seq<MessageModel> {
    messages.map_values(|message: AssistantPanelMessage| message@)
}

/// A question and its answer that later questions build on.
#[derive(Debug, PartialEq, Eq)]
pub struct AssistantHistoryTurn {
    /// What the user wrote.
    pub user_messages: Vec<String>,
    /// What the model answered.
    pub assistant_output: String,
    /// What the answer rests on.
    pub citations: Vec<AssistantCitation>,
}

/// An [`AssistantHistoryTurn`] with its texts as sequences of characters.
#[verifier::ext_equal]
pub struct TurnModel {
    /// What the user wrote.
    pub user_messages: Seq<Seq<char>>,
    /// What the model answered.
    pub assistant_output: Seq<char>,
    /// What the answer rests on.
    pub citations: Seq<CitationModel>,
}

impl View for AssistantHistoryTurn {
    type V = TurnModel;

    open spec fn view(&self) -> TurnModel {
        TurnModel {
            user_messages: text_models(self.user_messages@),
            assistant_output: self.assistant_output@,
            citations: citation_models(self.citations@),
        }
    }
}

/// The models of some turns.
pub open spec fn turn_models(turns: Seq<AssistantHistoryTurn>) -> Seq<TurnModel> {
    turns.map_values(|turn: AssistantHistoryTurn| turn@)
}

/// A [`ScopeSource`] with its texts as sequences of characters.
#[verifier::ext_equal]
pub struct SourceModel {
    /// What it is called by in tools.
    pub source_ref: Seq<char>,
    /// Its number in the application.
    pub source_id: u64,
    /// Its path below the roots.
    pub relative_path: Seq<char>,
}

/// A [`SourceScope`] with its texts as sequences of characters.
#[verifier::ext_equal]
pub struct ScopeModel {
    /// The log files.
    pub sources: Seq<SourceModel>,
    /// How many log types were recognised.
    pub profile_count: usize,
}

impl View for ScopeSource {
    type V = SourceModel;

    open spec fn view(&self) -> SourceModel {
        SourceModel {
            source_ref: self.source_ref@,
            source_id: self.source_id,
            relative_path: self.relative_path@,
        }
    }
}

impl View for SourceScope {
    type V = ScopeModel;

    open spec fn view(&self) -> ScopeModel {
        ScopeModel {
            sources: self.sources@.map_values(|source: ScopeSource| source@),
            profile_count: self.profile_count,
        }
    }
}

/// The model of a scope that may be missing.
pub open spec fn optional_scope(scope: Option<SourceScope>) -> Option<ScopeModel> {
    match scope {
        Some(present) => Some(present@),
        None => None,
    }
}

/// Outside work that the panel asks for.
#[derive(Debug, PartialEq, Eq)]
pub enum PanelEffect {
    /// Measure some rows anew.
    SpliceRows {
        /// The first row that goes.
        start: usize,
        /// Behind the last row that goes.
        end: usize,
        /// How many rows come.
        new_count: usize,
    },
    /// Measure all rows anew.
    ResetRows {
        /// How many rows there are.
        row_count: usize,
    },
    /// Scroll to the newest row.
    ScrollToLatest,
    /// Look whether the chosen model's key is there.
    CheckCredential,
    /// Start a scan a moment later, unless the generation is gone by then.
    ScheduleScan {
        /// The generation.
        generation: u64,
    },
    /// Start a scan now.
    BeginScan,
    /// Run a scan in the background.
    RunScan {
        /// Its generation.
        generation: u64,
    },
    /// Stop the scan.
    CancelScan,
    /// Start answering now.
    BeginTurn,
    /// Run an answer in the background.
    RunTurn {
        /// Its generation.
        generation: u64,
        /// What the model is asked.
        initial_messages: Vec<String>,
    },
    /// Stop the answer.
    CancelTurn,
    /// Hand a message to the running answer.
    SendMessage(AgentUserMessage),
}

/// A [`PanelEffect`] with its texts as sequences of characters.
#[verifier::ext_equal]
pub enum EffectModel {
    /// Measure some rows anew.
    SpliceRows {
        /// The first row that goes.
        start: int,
        /// Behind the last row that goes.
        end: int,
        /// How many rows come.
        new_count: int,
    },
    /// Measure all rows anew.
    ResetRows {
        /// How many rows there are.
        row_count: int,
    },
    /// Scroll to the newest row.
    ScrollToLatest,
    /// Look whether the chosen model's key is there.
    CheckCredential,
    /// Start a scan a moment later.
    ScheduleScan {
        /// The generation.
        generation: u64,
    },
    /// Start a scan now.
    BeginScan,
    /// Run a scan in the background.
    RunScan {
        /// Its generation.
        generation: u64,
    },
    /// Stop the scan.
    CancelScan,
    /// Start answering now.
    BeginTurn,
    /// Run an answer in the background.
    RunTurn {
        /// Its generation.
        generation: u64,
        /// What the model is asked.
        initial_messages: Seq<Seq<char>>,
    },
    /// Stop the answer.
    CancelTurn,
    /// Hand a message to the running answer.
    SendMessage(UserMessageModel),
}

impl View for PanelEffect {
    type V = EffectModel;

    open spec fn view(&self) -> EffectModel {
        match self {
            PanelEffect::SpliceRows { start, end, new_count } => EffectModel::SpliceRows {
                start: *start as int,
                end: *end as int,
                new_count: *new_count as int,
            },
            PanelEffect::ResetRows { row_count } => EffectModel::ResetRows {
                row_count: *row_count as int,
            },
            PanelEffect::ScrollToLatest => EffectModel::ScrollToLatest,
            PanelEffect::CheckCredential => EffectModel::CheckCredential,
            PanelEffect::ScheduleScan { generation } => EffectModel::ScheduleScan {
                generation: *generation,
            },
            PanelEffect::BeginScan => EffectModel::BeginScan,
            PanelEffect::RunScan { generation } => EffectModel::RunScan { generation: *generation },
            PanelEffect::CancelScan => EffectModel::CancelScan,
            PanelEffect::BeginTurn => EffectModel::BeginTurn,
            PanelEffect::RunTurn { generation, initial_messages } => EffectModel::RunTurn {
                generation: *generation,
                initial_messages: text_models(initial_messages@),
            },
            PanelEffect::CancelTurn => EffectModel::CancelTurn,
            PanelEffect::SendMessage(message) => EffectModel::SendMessage(message@),
        }
    }
}

/// The models of some effects.
pub open spec fn effect_models(effects: Seq<PanelEffect>) -> Seq<EffectModel> {
    effects.map_values(|effect: PanelEffect| effect@)
}

/// The panel of the assistant.
pub struct AssistantPanel {
    /// The models that may be asked.
    pub models: Vec<AiModelProfile>,
    /// The chosen one.
    pub selected_model_id: Option<String>,
    /// Why its key cannot be had.
    pub credential_error: Option<String>,
    /// Whether any logs are loaded.
    pub has_loaded_sources: bool,
    /// What the last scan found.
    pub scope: Option<SourceScope>,
    /// What can be named in a question.
    pub mention_candidates: Vec<AssistantMentionCandidate>,
    /// What is being typed behind an `@`.
    pub mention_query: Option<AssistantMentionQuery>,
    /// The candidates that are offered.
    pub mention_results: Vec<usize>,
    /// The one that the keyboard is on.
    pub mention_highlighted_index: usize,
    /// The candidates that were chosen.
    pub selected_mentions: Vec<AssistantSelectedMention>,
    /// What the model gets for each message that waits.
    pub pending_runtime_messages: StringHashMap<String>,
    /// The revision of the sources that the panel knows.
    pub scope_revision: Option<u64>,
    /// What later questions build on.
    pub history: Vec<AssistantHistoryTurn>,
    /// The conversation.
    pub messages: Vec<AssistantPanelMessage>,
    /// Whether the newest row stays in sight.
    pub is_following_latest: bool,
    /// The input.
    pub input: TextInputState,
    /// What the assistant is doing.
    pub status: AssistantPanelStatus,
    /// What went wrong last.
    pub error: Option<String>,
    /// What the answer has spent.
    pub budget: AgentBudgetSnapshot,
    /// Whether the running answer takes messages.
    pub takes_messages: bool,
    /// Whether an answer can be stopped.
    pub has_turn: bool,
    /// Whether a scan can be stopped.
    pub has_scan: bool,
    /// Which scan counts.
    pub scan_generation: u64,
    /// Which answer counts.
    pub turn_generation: u64,
    /// Where the running answer begins.
    pub active_turn_message_start: Option<usize>,
    /// The messages that the running answer is about.
    pub active_turn_user_message_ids: Vec<String>,
    /// The outside work that is asked for.
    pub outbox: Vec<PanelEffect>,
}

/// An [`AssistantPanel`] with its texts as sequences of characters.
#[verifier::ext_equal]
pub struct PanelModel {
    /// The models that may be asked.
    pub models: Seq<ModelProfileModel>,
    /// The chosen one.
    pub selected_model_id: Option<Seq<char>>,
    /// Why its key cannot be had.
    pub credential_error: Option<Seq<char>>,
    /// Whether any logs are loaded.
    pub has_loaded_sources: bool,
    /// What the last scan found.
    pub scope: Option<ScopeModel>,
    /// What can be named in a question.
    pub mention_candidates: Seq<CandidateModel>,
    /// What is being typed behind an `@`.
    pub mention_query: Option<QueryModel>,
    /// The candidates that are offered.
    pub mention_results: Seq<usize>,
    /// The one that the keyboard is on.
    pub mention_highlighted_index: usize,
    /// The candidates that were chosen.
    pub selected_mentions: Seq<SelectedModel>,
    /// What the model gets for each message that waits.
    pub pending_runtime_messages: Map<Seq<char>, Seq<char>>,
    /// The revision of the sources that the panel knows.
    pub scope_revision: Option<u64>,
    /// What later questions build on.
    pub history: Seq<TurnModel>,
    /// The conversation.
    pub messages: Seq<MessageModel>,
    /// Whether the newest row stays in sight.
    pub is_following_latest: bool,
    /// The input.
    pub input: InputModel,
    /// What the assistant is doing.
    pub status: AssistantPanelStatus,
    /// What went wrong last.
    pub error: Option<Seq<char>>,
    /// What the answer has spent.
    pub budget: AgentBudgetSnapshot,
    /// Whether the running answer takes messages.
    pub takes_messages: bool,
    /// Whether an answer can be stopped.
    pub has_turn: bool,
    /// Whether a scan can be stopped.
    pub has_scan: bool,
    /// Which scan counts.
    pub scan_generation: u64,
    /// Which answer counts.
    pub turn_generation: u64,
    /// Where the running answer begins.
    pub active_turn_message_start: Option<usize>,
    /// The messages that the running answer is about.
    pub active_turn_user_message_ids: Seq<Seq<char>>,
    /// The outside work that is asked for.
    pub outbox: Seq<EffectModel>,
}

/// A map to texts as a map to sequences of characters.
pub open spec fn text_map(texts: Map<Seq<char>, String>) -> Map<Seq<char>, Seq<char>> {
    texts.map_values(|text: String| text@)
}

impl View for AssistantPanel {
    type V = PanelModel;

    open spec fn view(&self) -> PanelModel {
        PanelModel {
            models: model_profiles(self.models@),
            selected_model_id: optional_text(self.selected_model_id),
            credential_error: optional_text(self.credential_error),
            has_loaded_sources: self.has_loaded_sources,
            scope: optional_scope(self.scope),
            mention_candidates: candidate_models(self.mention_candidates@),
            mention_query: optional_query(self.mention_query),
            mention_results: self.mention_results@,
            mention_highlighted_index: self.mention_highlighted_index,
            selected_mentions: selected_models(self.selected_mentions@),
            pending_runtime_messages: text_map(self.pending_runtime_messages@),
            scope_revision: self.scope_revision,
            history: turn_models(self.history@),
            messages: panel_messages(self.messages@),
            is_following_latest: self.is_following_latest,
            input: self.input@,
            status: self.status,
            error: optional_text(self.error),
            budget: self.budget,
            takes_messages: self.takes_messages,
            has_turn: self.has_turn,
            has_scan: self.has_scan,
            scan_generation: self.scan_generation,
            turn_generation: self.turn_generation,
            active_turn_message_start: self.active_turn_message_start,
            active_turn_user_message_ids: text_models(self.active_turn_user_message_ids@),
            outbox: effect_models(self.outbox@),
        }
    }
}

// ---------------------------------------------------------------------------
// Messages
// ---------------------------------------------------------------------------

/// Whether a message is one of the user's with one of some ids.
pub open spec fn is_one_of(message: MessageModel, ids: Seq<Seq<char>>) -> bool {
    message is User && ids.contains(message->User_0.message_id)
}

/// What choosing a candidate puts into the input: its mark, and a space.
pub open spec fn mention_text(candidate: CandidateModel) -> Seq<char> {
    seq!['@'] + candidate.display_path + seq![' ']
}

/// Whether some messages hold one of the user's with one of some ids.
pub open spec fn has_one_of(messages: Seq<MessageModel>, ids: Seq<Seq<char>>) -> bool {
    exists|i: int| 0 <= i < messages.len() && is_one_of(#[trigger] messages[i], ids)
}

/// Whether a message of the user waits for an answer.
pub open spec fn waits(message: MessageModel) -> bool {
    message is User && message->User_0.status is Queued
}

/// A message of the user with another status; any other message as it is.
pub open spec fn with_status(message: MessageModel, status: AgentUserMessageStatus) -> MessageModel {
    match message {
        MessageModel::User(user) => MessageModel::User(UserMessageModel { status, ..user }),
        _ => message,
    }
}

/// Messages of which those with some ids have another status.
pub open spec fn with_statuses(
    messages: Seq<MessageModel>,
    ids: Seq<Seq<char>>,
    status: AgentUserMessageStatus,
) -> Seq<MessageModel> {
    messages.map_values(
        |message: MessageModel|
            if is_one_of(message, ids) {
                with_status(message, status)
            } else {
                message
            },
    )
}

/// The first message of the user with one of some ids; behind the last message
/// where there is none.
pub open spec fn first_of(messages: Seq<MessageModel>, ids: Seq<Seq<char>>) -> int
    decreases messages.len(),
{
    if messages.len() == 0 || is_one_of(messages[0], ids) {
        0
    } else {
        1 + first_of(messages.skip(1), ids)
    }
}

/// The ids of the messages that wait, in their order.
pub open spec fn waiting_ids(messages: Seq<MessageModel>) -> Seq<Seq<char>>
    decreases messages.len(),
{
    if messages.len() == 0 {
        Seq::empty()
    } else {
        let earlier = waiting_ids(messages.drop_last());
        if waits(messages.last()) {
            earlier.push(messages.last()->User_0.message_id)
        } else {
            earlier
        }
    }
}

/// What the model gets for a message: what is kept for it, or its own text.
pub open spec fn text_for_model(
    message: UserMessageModel,
    pending: Map<Seq<char>, Seq<char>>,
) -> Seq<char> {
    if pending.contains_key(message.message_id) {
        pending[message.message_id]
    } else {
        message.content
    }
}

/// What the model gets for the messages that wait, in their order.
pub open spec fn waiting_texts(
    messages: Seq<MessageModel>,
    pending: Map<Seq<char>, Seq<char>>,
) -> Seq<Seq<char>>
    decreases messages.len(),
{
    if messages.len() == 0 {
        Seq::empty()
    } else {
        let earlier = waiting_texts(messages.drop_last(), pending);
        if waits(messages.last()) {
            earlier.push(text_for_model(messages.last()->User_0, pending))
        } else {
            earlier
        }
    }
}

/// Whether a message stays: one of the user's, or, where the model only starts
/// over, anything but its thoughts and answers.
pub open spec fn stays(message: MessageModel, users_only: bool) -> bool {
    if users_only {
        message is User
    } else {
        !(message is Reasoning) && !(message is Answer)
    }
}

/// The messages that stay, in their order.
pub open spec fn staying(messages: Seq<MessageModel>, users_only: bool) -> Seq<MessageModel>
    decreases messages.len(),
{
    if messages.len() == 0 {
        Seq::empty()
    } else {
        let earlier = staying(messages.drop_last(), users_only);
        if stays(messages.last(), users_only) {
            earlier.push(messages.last())
        } else {
            earlier
        }
    }
}

/// The last answer that is not in front of a message.
pub open spec fn last_answer(messages: Seq<MessageModel>, start: int) -> Option<int>
    decreases messages.len(),
{
    if messages.len() == 0 || messages.len() <= start {
        None
    } else if messages.last() is Answer {
        Some(messages.len() - 1)
    } else {
        last_answer(messages.drop_last(), start)
    }
}

/// A map without some keys.
pub open spec fn without_keys(
    texts: Map<Seq<char>, Seq<char>>,
    keys: Seq<Seq<char>>,
) -> Map<Seq<char>, Seq<char>>
    decreases keys.len(),
{
    if keys.len() == 0 {
        texts
    } else {
        without_keys(texts, keys.drop_last()).remove(keys.last())
    }
}

/// A generation's successor.
pub open spec fn next_generation(generation: u64) -> u64 {
    if generation == u64::MAX {
        0
    } else {
        (generation + 1) as u64
    }
}

// ---------------------------------------------------------------------------
// The steps
// ---------------------------------------------------------------------------

impl PanelModel {
    /// The panel with more outside work asked for.
    pub open spec fn asking(self, effect: EffectModel) -> PanelModel {
        PanelModel { outbox: self.outbox.push(effect), ..self }
    }

    /// The panel with outside work asked for where a condition holds.
    pub open spec fn asking_if(self, condition: bool, effect: EffectModel) -> PanelModel {
        if condition {
            self.asking(effect)
        } else {
            self
        }
    }

    /// The panel after a row changed.
    pub open spec fn remeasured(self, index: int) -> PanelModel {
        self.asking(EffectModel::SpliceRows { start: index, end: index + 1, new_count: 1 })
    }

    /// The panel with one more message.
    pub open spec fn pushed(self, message: MessageModel) -> PanelModel {
        let length = self.messages.len() as int;
        PanelModel { messages: self.messages.push(message), ..self }.asking(
            EffectModel::SpliceRows { start: length, end: length, new_count: 1 },
        )
    }

    /// The panel with one more trace. Tool traces in a row share a message.
    pub open spec fn traced(self, trace: TraceModel) -> PanelModel {
        let last = self.messages.len() - 1;
        if !(trace.kind is Tool) {
            self.pushed(MessageModel::Trace(trace))
        } else if self.messages.len() > 0 && self.messages.last() is ToolGroup {
            let group = self.messages.last();
            PanelModel {
                messages: self.messages.update(
                    last,
                    MessageModel::ToolGroup {
                        traces: group->traces.push(trace),
                        is_expanded: group->is_expanded,
                    },
                ),
                ..self
            }.remeasured(last)
        } else {
            self.pushed(MessageModel::ToolGroup { traces: seq![trace], is_expanded: false })
        }
    }

    /// The panel after more text from the model: it continues the last message
    /// where that is of the same kind.
    pub open spec fn streamed(self, kind: AgentStreamKind, delta: Seq<char>) -> PanelModel {
        let last = self.messages.len() - 1;
        if delta.len() == 0 {
            self
        } else {
            match kind {
                AgentStreamKind::Reasoning => if self.messages.len() > 0
                    && self.messages.last() is Reasoning {
                    PanelModel {
                        messages: self.messages.update(
                            last,
                            MessageModel::Reasoning(self.messages.last()->Reasoning_0 + delta),
                        ),
                        ..self
                    }.remeasured(last)
                } else {
                    self.pushed(MessageModel::Reasoning(delta))
                },
                AgentStreamKind::Output => if self.messages.len() > 0
                    && self.messages.last() is Answer {
                    PanelModel {
                        messages: self.messages.update(
                            last,
                            MessageModel::Answer {
                                content: self.messages.last()->content + delta,
                                citations: self.messages.last()->citations,
                            },
                        ),
                        ..self
                    }.remeasured(last)
                } else {
                    self.pushed(
                        MessageModel::Answer { content: delta, citations: Seq::empty() },
                    )
                },
            }
        }
    }

    /// Where the running answer begins among the messages.
    pub open spec fn turn_start(self) -> int {
        match self.active_turn_message_start {
            Some(start) => least(start as int, self.messages.len() as int),
            None => self.messages.len() as int,
        }
    }

    /// The panel after an answer is complete: it replaces the last one of the
    /// running turn, or is a new message.
    pub open spec fn answered(
        self,
        output: Seq<char>,
        citations: Seq<CitationModel>,
    ) -> PanelModel {
        match last_answer(self.messages, self.turn_start()) {
            Some(index) => PanelModel {
                messages: self.messages.update(
                    index,
                    MessageModel::Answer {
                        content: if trimmed(output).len() > 0 {
                            output
                        } else {
                            self.messages[index]->content
                        },
                        citations,
                    },
                ),
                ..self
            }.remeasured(index),
            None => self.pushed(MessageModel::Answer { content: output, citations }),
        }
    }

    /// The panel after a message of the user changed its status.
    pub open spec fn with_message_status(
        self,
        id: Seq<char>,
        status: AgentUserMessageStatus,
    ) -> PanelModel {
        let index = first_of(self.messages, seq![id]);
        if index < self.messages.len() {
            PanelModel {
                messages: self.messages.update(index, with_status(self.messages[index], status)),
                ..self
            }.remeasured(index)
        } else {
            self
        }
    }

    /// Whether a message of the user still waits.
    pub open spec fn has_waiting(self) -> bool {
        exists|i: int| 0 <= i < self.messages.len() && waits(#[trigger] self.messages[i])
    }

    /// The panel after its work was asked to stop.
    pub open spec fn stopped(self) -> PanelModel {
        if self.status is Scanning || self.status is Running {
            PanelModel { status: AssistantPanelStatus::Cancelling, ..self }.asking_if(
                self.has_scan,
                EffectModel::CancelScan,
            ).asking_if(self.has_turn, EffectModel::CancelTurn)
        } else {
            self
        }
    }

    /// The panel after its running answer ended.
    pub open spec fn turn_finished(self) -> PanelModel {
        PanelModel {
            pending_runtime_messages: without_keys(
                self.pending_runtime_messages,
                self.active_turn_user_message_ids,
            ),
            active_turn_user_message_ids: Seq::empty(),
            status: AssistantPanelStatus::Idle,
            takes_messages: false,
            has_turn: false,
            active_turn_message_start: None,
            ..self
        }
    }

    /// The panel after everything in the background was stopped, and no result of
    /// it counts any more.
    pub open spec fn background_stopped(self) -> PanelModel {
        PanelModel {
            has_scan: false,
            has_turn: false,
            scan_generation: next_generation(self.scan_generation),
            turn_generation: next_generation(self.turn_generation),
            ..self
        }.asking_if(self.has_scan, EffectModel::CancelScan).asking_if(
            self.has_turn,
            EffectModel::CancelTurn,
        )
    }

    /// The panel after everything in the background was given up.
    pub open spec fn given_up(self) -> PanelModel {
        PanelModel {
            pending_runtime_messages: without_keys(
                self.pending_runtime_messages,
                self.active_turn_user_message_ids,
            ),
            active_turn_user_message_ids: Seq::empty(),
            active_turn_message_start: None,
            takes_messages: false,
            ..self.background_stopped()
        }
    }

    /// The messages after the running answer was taken back: what it is about
    /// waits again, and of what came since only the user's messages stay.
    pub open spec fn messages_taken_back(self) -> Seq<MessageModel> {
        let marked = with_statuses(
            self.messages,
            self.active_turn_user_message_ids,
            AgentUserMessageStatus::Queued,
        );
        match self.active_turn_message_start {
            Some(start) => if start < marked.len() {
                marked.take(start as int) + staying(marked.skip(start as int), true)
            } else {
                marked
            },
            None => marked,
        }
    }

    /// The panel after everything in the background was stopped and the running
    /// answer taken back.
    pub open spec fn taken_back(self) -> PanelModel {
        let stopped = self.background_stopped();
        let rest = PanelModel {
            active_turn_user_message_ids: Seq::empty(),
            active_turn_message_start: None,
            takes_messages: false,
            ..stopped
        };
        if self.status is Running {
            PanelModel { messages: self.messages_taken_back(), ..rest }.asking(
                EffectModel::ResetRows { row_count: self.messages_taken_back().len() as int },
            )
        } else {
            PanelModel {
                pending_runtime_messages: without_keys(
                    self.pending_runtime_messages,
                    self.active_turn_user_message_ids,
                ),
                ..rest
            }
        }
    }

    /// Whether a question was taken back with the running answer: one of its
    /// messages is still there to wait again.
    pub open spec fn takes_back_question(self) -> bool {
        self.status is Running && has_one_of(self.messages, self.active_turn_user_message_ids)
    }

    /// The panel after the model starts over: its thoughts and answers of the
    /// running turn go.
    pub open spec fn attempt_reset(self) -> PanelModel {
        match self.active_turn_message_start {
            Some(start) => if start < self.messages.len() {
                let kept = self.messages.take(start as int) + staying(
                    self.messages.skip(start as int),
                    false,
                );
                PanelModel { messages: kept, ..self }.asking(
                    EffectModel::ResetRows { row_count: kept.len() as int },
                ).asking_if(self.is_following_latest, EffectModel::ScrollToLatest)
            } else {
                self
            },
            None => self,
        }
    }

    /// The panel without anything that rests on an older scan.
    pub open spec fn mentions_cleared(self) -> PanelModel {
        PanelModel {
            mention_candidates: Seq::empty(),
            mention_query: None,
            mention_results: Seq::empty(),
            mention_highlighted_index: 0,
            selected_mentions: Seq::empty(),
            pending_runtime_messages: Map::empty(),
            ..self
        }
    }

    /// The panel after it looked anew at what is being typed behind an `@`.
    pub open spec fn mentions_refreshed(self) -> PanelModel {
        let query = query_at_cursor(self.input);
        PanelModel {
            mention_query: query,
            mention_results: match query {
                Some(present) => offered(self.mention_candidates, present.text),
                None => Seq::empty(),
            },
            mention_highlighted_index: 0,
            ..self
        }
    }

    /// The panel without the picker.
    pub open spec fn picker_closed(self) -> PanelModel {
        PanelModel { mention_query: None, mention_results: Seq::empty(), ..self }
    }

    /// Whether a candidate was chosen already.
    pub open spec fn has_chosen(self, candidate: CandidateModel) -> bool {
        exists|i: int|
            0 <= i < self.selected_mentions.len() && (
            #[trigger] self.selected_mentions[i]).candidate.kind == candidate.kind
                && self.selected_mentions[i].candidate.display_path == candidate.display_path
    }

    /// The panel after a candidate was chosen: its mark takes the place of what
    /// was typed.
    pub open spec fn mention_chosen(self, query: QueryModel, index: int) -> PanelModel {
        let candidate = self.mention_candidates[index];
        let marker = seq!['@'] + candidate.display_path;
        let replacement = mention_text(candidate);
        PanelModel {
            input: InputModel {
                value: with_replaced(self.input.value, query.range, replacement),
                cursor: (query.range.start + replacement.len()) as usize,
                selection_anchor: None,
                marked_range: None,
                ..self.input
            },
            selected_mentions: if self.has_chosen(candidate) {
                self.selected_mentions
            } else {
                self.selected_mentions.push(SelectedModel { marker, candidate })
            },
            mention_highlighted_index: 0,
            error: None,
            ..self
        }.picker_closed()
    }

    /// The panel after a scan was asked for, where one makes sense.
    pub open spec fn scan_scheduled(self) -> PanelModel {
        self.asking_if(
            self.has_loaded_sources && self.status is Idle,
            EffectModel::ScheduleScan { generation: self.scan_generation },
        )
    }

    /// The panel after the sources grew. A scan that is under way starts over.
    pub open spec fn revision_accepted(self, revision: u64, has_loaded_sources: bool) -> PanelModel {
        let known = PanelModel { has_loaded_sources, scope_revision: Some(revision), ..self };
        if self.status is Scanning {
            PanelModel {
                has_scan: false,
                scan_generation: next_generation(self.scan_generation),
                scope: None,
                status: AssistantPanelStatus::Idle,
                ..known
            }.asking_if(self.has_scan, EffectModel::CancelScan).mentions_cleared().scan_scheduled()
        } else if self.scope is None && self.status is Idle && has_loaded_sources {
            known.scan_scheduled()
        } else {
            known
        }
    }

    /// The panel after the settings of the analysis changed: the conversation
    /// stays, the scan is done anew, and the running question waits again.
    pub open spec fn invalidated(
        self,
        revision: u64,
        reason: Seq<char>,
        now: TraceTime,
    ) -> PanelModel {
        PanelModel {
            scope: None,
            scope_revision: Some(revision),
            status: AssistantPanelStatus::Idle,
            error: None,
            ..self.taken_back().mentions_cleared()
        }.traced(
            trace_model(
                AgentTraceKind::Status,
                "智能分析配置已更新"@,
                reason + "，正在重新扫描日志范围；现有对话上下文继续保留"@
                    + (if self.takes_back_question() {
                    "，当前问题已重新排队"@
                } else {
                    Seq::empty()
                }) + "。"@,
                now,
            ),
        ).scan_scheduled()
    }

    /// The place of the chosen model.
    pub open spec fn chosen_place(self) -> Option<int> {
        match self.selected_model_id {
            Some(id) => profile_place(self.models, id),
            None => None,
        }
    }

    /// The panel after the models changed: the choice stays where it can.
    pub open spec fn configured(self, profiles: Seq<ModelProfileModel>) -> PanelModel {
        let models = enabled_models(profiles);
        let stays = self.selected_model_id is Some && profile_place(
            models,
            self.selected_model_id->0,
        ) is Some;
        PanelModel {
            models,
            selected_model_id: if stays {
                self.selected_model_id
            } else if models.len() > 0 {
                Some(models[0].profile_id)
            } else {
                None
            },
            ..self
        }.asking(EffectModel::CheckCredential)
    }

    /// The panel after the user went on to the next model.
    pub open spec fn next_model_chosen(self) -> PanelModel {
        if !(self.status is Idle) || self.models.len() <= 1 {
            self
        } else {
            let current = match self.chosen_place() {
                Some(index) => index,
                None => 0,
            };
            PanelModel {
                selected_model_id: Some(
                    self.models[(current + 1) % (self.models.len() as int)].profile_id,
                ),
                error: None,
                ..self
            }.asking(EffectModel::CheckCredential)
        }
    }

    /// The panel after it learned whether the chosen model's key can be had.
    pub open spec fn credential_known(self, error: Option<Seq<char>>) -> PanelModel {
        PanelModel {
            credential_error: if self.chosen_place() is Some {
                error
            } else {
                None
            },
            ..self
        }
    }

    /// Why nothing can be sent.
    pub open spec fn unavailable(self) -> Option<Seq<char>> {
        if self.chosen_place() is None {
            Some("尚未配置已启用模型，请先完成模型配置。"@)
        } else {
            self.credential_error
        }
    }

    /// Why the message in the input cannot be sent.
    pub open spec fn submission_error(self) -> Option<Seq<char>> {
        let content = trimmed(self.input.value);
        if content.len() == 0 {
            Some("请输入需要分析的问题"@)
        } else if utf8_len(content) > ASSISTANT_MESSAGE_MAX_BYTES {
            Some("单条消息不能超过 32 KiB"@)
        } else if self.models.len() == 0 {
            Some("尚未配置已启用模型"@)
        } else {
            None
        }
    }

    /// The panel after a message was handed to the running answer.
    pub open spec fn message_handed_over(self, message: UserMessageModel) -> PanelModel {
        self.asking_if(
            self.takes_messages,
            EffectModel::SendMessage(
                UserMessageModel {
                    content: text_for_model(message, self.pending_runtime_messages),
                    ..message
                },
            ),
        )
    }

    /// The panel before a message is taken in: a newer revision of the sources is
    /// taken in first.
    pub open spec fn up_to_date(self, revision: u64) -> PanelModel {
        if self.scope_revision is Some && self.scope_revision->0 != revision {
            self.revision_accepted(revision, true)
        } else {
            self
        }
    }

    /// The panel after a message was taken out of the input: it waits, and with it
    /// what the model gets for it.
    pub open spec fn message_taken(self, message_id: Seq<char>, content: Seq<char>) -> PanelModel {
        let sent = PanelModel {
            pending_runtime_messages: self.pending_runtime_messages.insert(
                message_id,
                runtime_message(content, self.selected_mentions),
            ),
            ..self
        }.pushed(MessageModel::User(queued_message(message_id, content)));
        PanelModel {
            input: InputModel { is_focused: true, ..InputModel::blank() },
            selected_mentions: Seq::empty(),
            error: None,
            ..sent
        }.picker_closed()
    }

    /// The panel after it decided what happens to a message that waits.
    pub open spec fn message_routed(self, message: UserMessageModel) -> PanelModel {
        match self.status {
            AssistantPanelStatus::Scanning => self,
            AssistantPanelStatus::Running => self.message_handed_over(message),
            AssistantPanelStatus::Cancelling => self,
            AssistantPanelStatus::Idle => if self.scope is None {
                self.asking(EffectModel::BeginScan)
            } else {
                self.asking(EffectModel::BeginTurn)
            },
        }
    }

    /// The panel after the message in the input was sent. `message_id` is its new
    /// id, `revision` the present revision of the sources.
    pub open spec fn submitted(self, message_id: Seq<char>, revision: u64) -> PanelModel {
        let content = trimmed(self.input.value);
        match self.submission_error() {
            Some(error) => PanelModel { error: Some(error), ..self },
            None => self.up_to_date(revision).message_taken(message_id, content).message_routed(
                queued_message(message_id, content),
            ),
        }
    }

    /// The panel after a scan began.
    pub open spec fn scan_begun(self, has_roots: bool, now: TraceTime) -> PanelModel {
        if !(self.status is Idle) {
            self
        } else if !has_roots {
            PanelModel { error: Some("尚未加载日志来源"@), ..self }
        } else {
            let generation = next_generation(self.scan_generation);
            PanelModel {
                scan_generation: generation,
                has_scan: true,
                status: AssistantPanelStatus::Scanning,
                ..self
            }.traced(
                trace_model(
                    AgentTraceKind::Status,
                    "正在扫描全部来源"@,
                    "正在补齐未展开目录和归档，并匹配日志类型说明"@,
                    now,
                ),
            ).asking(EffectModel::RunScan { generation })
        }
    }

    /// The panel after a moment that a scan was put off to.
    pub open spec fn scheduled_scan_due(self, generation: u64) -> PanelModel {
        self.asking_if(
            self.scan_generation == generation && self.status is Idle && self.scope is None
                && self.has_loaded_sources,
            EffectModel::BeginScan,
        )
    }

    /// The panel after a scan failed.
    pub open spec fn scan_failed(self, error: Seq<char>, now: TraceTime) -> PanelModel {
        let ended = PanelModel { has_scan: false, status: AssistantPanelStatus::Idle, ..self };
        if contains_part(error, "已取消"@) {
            ended
        } else {
            PanelModel { error: Some("来源树完整扫描失败："@ + error), ..ended }.traced(
                trace_model(AgentTraceKind::Warning, "来源扫描失败"@, error, now),
            )
        }
    }

    /// The panel after the application refused what a scan found.
    pub open spec fn scan_refused(
        self,
        error: Seq<char>,
        revision: u64,
        now: TraceTime,
    ) -> PanelModel {
        PanelModel { status: AssistantPanelStatus::Idle, ..self }.revision_accepted(
            revision,
            true,
        ).traced(trace_model(AgentTraceKind::Status, "来源扫描已重新调度"@, error, now))
    }

    /// The panel after the application took what a scan found.
    pub open spec fn scan_completed(
        self,
        scope: ScopeModel,
        candidates: Seq<CandidateModel>,
        warning_count: usize,
        revision: u64,
        now: TraceTime,
    ) -> PanelModel {
        PanelModel {
            scope_revision: Some(revision),
            has_loaded_sources: scope.sources.len() > 0,
            status: AssistantPanelStatus::Idle,
            ..PanelModel {
                scope: Some(scope),
                mention_candidates: candidates,
                ..self
            }.mentions_refreshed()
        }.traced(
            trace_model(
                AgentTraceKind::Status,
                "全部来源扫描完成"@,
                "已固化 "@ + decimal_text(scope.sources.len()) + " 个日志文件，匹配 "@
                    + decimal_text(scope.profile_count as nat) + " 种日志类型说明"@
                    + (if warning_count == 0 {
                    Seq::empty()
                } else {
                    "，包含 "@ + decimal_text(warning_count as nat) + " 项可容忍警告"@
                }),
                now,
            ),
        ).asking(EffectModel::BeginTurn)
    }

    /// Whether an answer can begin, but for the model's key.
    pub open spec fn turn_is_ready(self) -> bool {
        self.status is Idle && self.has_waiting() && self.scope is Some && self.chosen_place()
            is Some
    }

    /// The panel after an answer began: everything that waits goes to the model.
    /// `key_error` says why the model's key cannot be had.
    pub open spec fn turn_begun(self, key_error: Option<Seq<char>>) -> PanelModel {
        if !(self.status is Idle) || !self.has_waiting() {
            self
        } else if self.scope is None {
            PanelModel { error: Some("来源范围尚未准备完成"@), ..self }
        } else if self.chosen_place() is None {
            PanelModel { error: Some("当前模型配置已经失效"@), ..self }
        } else if key_error is Some {
            PanelModel { error: key_error, ..self }
        } else {
            let ids = waiting_ids(self.messages);
            let length = self.messages.len() as int;
            let first = first_of(self.messages, ids);
            let generation = next_generation(self.turn_generation);
            PanelModel {
                messages: with_statuses(self.messages, ids, AgentUserMessageStatus::Consumed),
                turn_generation: generation,
                has_turn: true,
                takes_messages: true,
                status: AssistantPanelStatus::Running,
                active_turn_message_start: Some(length as usize),
                active_turn_user_message_ids: ids,
                error: None,
                budget: empty_budget(),
                ..self
            }.asking(
                EffectModel::SpliceRows { start: first, end: length, new_count: length - first },
            ).asking(
                EffectModel::RunTurn {
                    generation,
                    initial_messages: waiting_texts(
                        self.messages,
                        self.pending_runtime_messages,
                    ),
                },
            )
        }
    }

    /// The panel after an answer ended: what waits is answered next.
    pub open spec fn next_turn_asked(self) -> PanelModel {
        self.asking_if(self.has_waiting(), EffectModel::BeginTurn)
    }

    /// The panel after the running answer was stopped.
    pub open spec fn turn_cancelled(self, now: TraceTime) -> PanelModel {
        self.turn_finished().traced(
            trace_model(
                AgentTraceKind::Status,
                "当前回答已停止"@,
                "对话和已验证引用仍保留，可继续发送新问题"@,
                now,
            ),
        ).next_turn_asked()
    }

    /// The panel after the model got a message of the user.
    pub open spec fn message_consumed(self, id: Seq<char>) -> PanelModel {
        PanelModel {
            active_turn_user_message_ids: if self.active_turn_user_message_ids.contains(id) {
                self.active_turn_user_message_ids
            } else {
                self.active_turn_user_message_ids.push(id)
            },
            ..self.with_message_status(id, AgentUserMessageStatus::Consumed)
        }
    }

    /// The panel after a message of the user was refused.
    pub open spec fn message_rejected(
        self,
        id: Seq<char>,
        reason: Seq<char>,
        now: TraceTime,
    ) -> PanelModel {
        PanelModel {
            pending_runtime_messages: self.pending_runtime_messages.remove(id),
            ..self.with_message_status(id, AgentUserMessageStatus::Rejected)
        }.traced(trace_model(AgentTraceKind::Warning, "补充消息未进入当前回答"@, reason, now))
    }

    /// The panel after an answer was written down for later questions.
    pub open spec fn remembered(self, turn: TurnModel) -> PanelModel {
        PanelModel { history: self.history.push(turn), ..self }
    }

    /// The panel after the running answer is complete.
    pub open spec fn turn_completed(
        self,
        turn: TurnModel,
        history_was_trimmed: bool,
        now: TraceTime,
    ) -> PanelModel {
        let ended = self.answered(turn.assistant_output, turn.citations).remembered(
            turn,
        ).turn_finished();
        (if history_was_trimmed {
            ended.traced(
                trace_model(
                    AgentTraceKind::Status,
                    "上下文窗口已整理"@,
                    "较早对话仍保留在界面中，但已从本轮模型上下文移除"@,
                    now,
                ),
            )
        } else {
            ended
        }).next_turn_asked()
    }

    /// The panel after the running answer failed.
    pub open spec fn turn_failed(self, message: Seq<char>, now: TraceTime) -> PanelModel {
        PanelModel { error: Some(message), ..self }.traced(
            trace_model(AgentTraceKind::Warning, "助手回答失败"@, message, now),
        )
    }

    /// The panel after a report of the running answer. Reports of other answers
    /// count for nothing.
    pub open spec fn after_turn_event(
        self,
        event: EventModel,
        generation: u64,
        now: TraceTime,
    ) -> PanelModel {
        if generation != self.turn_generation {
            self
        } else {
            match event {
                EventModel::Status(status, _) => match status {
                    AgentSessionStatus::Investigating => PanelModel {
                        status: AssistantPanelStatus::Running,
                        ..self
                    },
                    AgentSessionStatus::Cancelled => self.turn_cancelled(now),
                    AgentSessionStatus::Failed => self.turn_finished(),
                    _ => self,
                },
                EventModel::Trace(trace) => self.traced(trace),
                EventModel::Budget(budget) => PanelModel { budget, ..self },
                EventModel::StreamDelta(kind, delta) => self.streamed(kind, delta),
                EventModel::UserMessageConsumed(id) => self.message_consumed(id),
                EventModel::UserMessageRejected(id, reason) => self.message_rejected(
                    id,
                    reason,
                    now,
                ),
                EventModel::AssistantCompleted {
                    output,
                    citations,
                    accepted_user_messages,
                    history_was_trimmed,
                } => self.turn_completed(
                    TurnModel {
                        user_messages: accepted_user_messages,
                        assistant_output: output,
                        citations,
                    },
                    history_was_trimmed,
                    now,
                ),
                EventModel::AssistantAttemptReset => self.attempt_reset(),
                EventModel::Failed(message) => self.turn_failed(message, now),
                EventModel::BashApprovalRequired { .. } => self,
                EventModel::BashApprovalOutcome { .. } => self,
                EventModel::Stage => self,
                EventModel::Report => self,
            }
        }
    }

    /// The panel after a run of tool traces was opened or closed.
    pub open spec fn group_toggled(self, index: int) -> PanelModel {
        if 0 <= index < self.messages.len() && self.messages[index] is ToolGroup {
            PanelModel {
                messages: self.messages.update(
                    index,
                    MessageModel::ToolGroup {
                        traces: self.messages[index]->traces,
                        is_expanded: !self.messages[index]->is_expanded,
                    },
                ),
                ..self
            }.remeasured(index)
        } else {
            self
        }
    }

    /// The panel after it went back to the newest row.
    pub open spec fn jumped(self) -> PanelModel {
        PanelModel { is_following_latest: true, ..self }.asking(EffectModel::ScrollToLatest)
    }

    /// The panel after the keyboard moved to the next candidate that is offered, or
    /// to the one before; behind the last comes the first.
    pub open spec fn highlight_moved(self, goes_down: bool) -> PanelModel {
        let count = self.mention_results.len();
        let place = self.mention_highlighted_index;
        PanelModel {
            mention_highlighted_index: (if goes_down {
                (place + 1) % (count as int)
            } else if place == 0 {
                count - 1
            } else {
                place - 1
            }) as usize,
            ..self
        }
    }

    /// What a key press does to the picker; nothing where it is not for the picker.
    pub open spec fn picker_step(self, keystroke: KeystrokeModel) -> Option<PanelModel> {
        let key = ascii_lower_case(keystroke.key);
        let count = self.mention_results.len();
        let place = self.mention_highlighted_index;
        if self.mention_query is None {
            None
        } else if (key == "up"@ || key == "arrowup"@) && count > 0 {
            Some(self.highlight_moved(false))
        } else if (key == "down"@ || key == "arrowdown"@) && count > 0 {
            Some(self.highlight_moved(true))
        } else if (key == "enter"@ || key == "tab"@) && !keystroke.modifiers.secondary {
            if place < count && self.mention_results[place as int] < self.mention_candidates.len() {
                Some(
                    self.mention_chosen(
                        self.mention_query->0,
                        self.mention_results[place as int] as int,
                    ),
                )
            } else {
                None
            }
        } else if key == "escape"@ {
            Some(self.picker_closed())
        } else {
            None
        }
    }

    /// What a key press does to the input.
    pub open spec fn input_step(
        self,
        keystroke: KeystrokeModel,
        clipboard: Option<Seq<char>>,
    ) -> KeyStep {
        key_step(self.input, keystroke, true, clipboard)
    }

    /// The panel after a key press.
    pub open spec fn keyed(
        self,
        keystroke: KeystrokeModel,
        clipboard: Option<Seq<char>>,
        message_id: Seq<char>,
        revision: u64,
    ) -> PanelModel {
        match self.picker_step(keystroke) {
            Some(panel) => panel,
            None => {
                let step = self.input_step(keystroke, clipboard);
                let typed = PanelModel { input: step.input, ..self };
                match step.action {
                    crate::input_behavior::LocalInputAction::Submit => typed.submitted(
                        message_id,
                        revision,
                    ),
                    crate::input_behavior::LocalInputAction::Changed => PanelModel {
                        error: None,
                        ..typed
                    }.mentions_refreshed(),
                    crate::input_behavior::LocalInputAction::Close => PanelModel {
                        input: typed.input.unfocused(),
                        ..typed
                    }.picker_closed(),
                    crate::input_behavior::LocalInputAction::Ignored => typed,
                }
            },
        }
    }

    // -----------------------------------------------------------------------
    // What always holds
    // -----------------------------------------------------------------------

    /// Whether the panel is as its own steps leave it: every trace is dated, no
    /// run of tool traces is empty, what is offered exists, and a query is that of
    /// the input.
    pub open spec fn is_sound(self) -> bool {
        &&& messages_are_sound(self.messages)
        &&& self.mention_highlighted_index < ASSISTANT_MENTION_RESULT_LIMIT
        &&& self.mention_results.len() <= ASSISTANT_MENTION_RESULT_LIMIT
        &&& self.mention_results.len() > 0 ==> self.mention_highlighted_index
            < self.mention_results.len()
        &&& forall|i: int|
            0 <= i < self.mention_results.len() ==> (#[trigger] self.mention_results[i])
                < self.mention_candidates.len()
        &&& self.mention_query is Some ==> self.mention_query == query_at_cursor(self.input)
    }

}

/// Whether a message can be shown: its traces are dated, and a run is not empty.
pub open spec fn message_is_sound(message: MessageModel) -> bool {
    match message {
        MessageModel::Trace(trace) => trace.created_at.is_valid(),
        MessageModel::ToolGroup { traces, .. } => traces.len() > 0 && forall|i: int|
            0 <= i < traces.len() ==> (#[trigger] traces[i]).created_at.is_valid(),
        _ => true,
    }
}

/// Whether some messages can be shown.
pub open spec fn messages_are_sound(messages: Seq<MessageModel>) -> bool {
    forall|i: int| 0 <= i < messages.len() ==> message_is_sound(#[trigger] messages[i])
}

} // verus!
