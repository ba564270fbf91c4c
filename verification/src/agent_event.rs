//! What a session in the background reports to its window.

use vstd::prelude::*;
use crate::agent::{
    citation_models, AgentBudgetSnapshot, AgentSessionStatus, AgentStreamKind, AgentTraceEntry,
    AssistantCitation, CitationModel, TraceModel,
};

verus! {

/// One report of a session.
#[derive(Debug, PartialEq, Eq)]
pub enum AgentEvent {
    /// Its status changed. The label names the new one.
    Status(AgentSessionStatus, String),
    /// Something for its history.
    Trace(AgentTraceEntry),
    /// What it has spent.
    Budget(AgentBudgetSnapshot),
    /// More text from the model.
    StreamDelta(AgentStreamKind, String),
    /// The model has a message of the user.
    UserMessageConsumed(String),
    /// A message of the user was refused, and why.
    UserMessageRejected(String, String),
    /// An answer is complete.
    AssistantCompleted {
        /// The answer.
        output: String,
        /// What it rests on.
        citations: Vec<AssistantCitation>,
        /// The messages that it answers.
        accepted_user_messages: Vec<String>,
        /// Whether older turns were left out.
        history_was_trimmed: bool,
    },
    /// The model starts over.
    AssistantAttemptReset,
    /// A command needs consent.
    BashApprovalRequired {
        /// The id of the request.
        request_id: String,
        /// The command.
        command: String,
    },
    /// A command was answered.
    BashApprovalOutcome {
        /// The id of the request.
        request_id: String,
        /// Whether it runs.
        approved: bool,
        /// Why.
        reason: String,
    },
    /// It failed, and why.
    Failed(String),
    /// A stage of a fixed analysis.
    Stage,
    /// The report of a fixed analysis.
    Report,
}

/// An [`AgentEvent`] with its texts as sequences of characters.
#[verifier::ext_equal]
pub enum EventModel {
    /// Its status changed.
    Status(AgentSessionStatus, Seq<char>),
    /// Something for its history.
    Trace(TraceModel),
    /// What it has spent.
    Budget(AgentBudgetSnapshot),
    /// More text from the model.
    StreamDelta(AgentStreamKind, Seq<char>),
    /// The model has a message of the user.
    UserMessageConsumed(Seq<char>),
    /// A message of the user was refused, and why.
    UserMessageRejected(Seq<char>, Seq<char>),
    /// An answer is complete.
    AssistantCompleted {
        /// The answer.
        output: Seq<char>,
        /// What it rests on.
        citations: Seq<CitationModel>,
        /// The messages that it answers.
        accepted_user_messages: Seq<Seq<char>>,
        /// Whether older turns were left out.
        history_was_trimmed: bool,
    },
    /// The model starts over.
    AssistantAttemptReset,
    /// A command needs consent.
    BashApprovalRequired {
        /// The id of the request.
        request_id: Seq<char>,
        /// The command.
        command: Seq<char>,
    },
    /// A command was answered.
    BashApprovalOutcome {
        /// The id of the request.
        request_id: Seq<char>,
        /// Whether it runs.
        approved: bool,
        /// Why.
        reason: Seq<char>,
    },
    /// It failed, and why.
    Failed(Seq<char>),
    /// A stage of a fixed analysis.
    Stage,
    /// The report of a fixed analysis.
    Report,
}

/// The characters of some texts.
pub open spec fn text_models(texts: Seq<String>) -> Seq<Seq<char>> {
    texts.map_values(|text: String| text@)
}

impl View for AgentEvent {
    type V = EventModel;

    open spec fn view(&self) -> EventModel {
        match self {
            AgentEvent::Status(status, label) => EventModel::Status(*status, label@),
            AgentEvent::Trace(trace) => EventModel::Trace(trace@),
            AgentEvent::Budget(budget) => EventModel::Budget(*budget),
            AgentEvent::StreamDelta(kind, delta) => EventModel::StreamDelta(*kind, delta@),
            AgentEvent::UserMessageConsumed(id) => EventModel::UserMessageConsumed(id@),
            AgentEvent::UserMessageRejected(id, reason) => EventModel::UserMessageRejected(
                id@,
                reason@,
            ),
            AgentEvent::AssistantCompleted {
                output,
                citations,
                accepted_user_messages,
                history_was_trimmed,
            } => EventModel::AssistantCompleted {
                output: output@,
                citations: citation_models(citations@),
                accepted_user_messages: text_models(accepted_user_messages@),
                history_was_trimmed: *history_was_trimmed,
            },
            AgentEvent::AssistantAttemptReset => EventModel::AssistantAttemptReset,
            AgentEvent::BashApprovalRequired { request_id, command } =>
                EventModel::BashApprovalRequired { request_id: request_id@, command: command@ },
            AgentEvent::BashApprovalOutcome { request_id, approved, reason } =>
                EventModel::BashApprovalOutcome {
                request_id: request_id@,
                approved: *approved,
                reason: reason@,
            },
            AgentEvent::Failed(message) => EventModel::Failed(message@),
            AgentEvent::Stage => EventModel::Stage,
            AgentEvent::Report => EventModel::Report,
        }
    }
}

impl AgentEvent {
    /// Whether everything that the event dates lies in the calendar.
    pub open spec fn is_dated(self) -> bool {
        match self {
            AgentEvent::Trace(trace) => trace.created_at.is_valid(),
            _ => true,
        }
    }
}

} // verus!
