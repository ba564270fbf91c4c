//! What the models that everything is stated over hold of the values that they stand for.

use vstd::prelude::*;
use crate::agent::{
    AgentSessionStatus, AgentTraceEntry, AgentUserMessage, BashApprovalCard,
};
use crate::agent_event::{AgentEvent, EventModel};
use crate::agent_window::AgentWindow;
use crate::analysis_laws::is_over;
use crate::keystroke::Keystroke;
use crate::markdown::{node_models, KindModel, MarkdownNode, MarkdownNodeKind};
use crate::markdown_events::{HeadingDepth, MarkdownEvent, MarkdownEventModel, MarkdownTag, TagModel};
use crate::text_input::TextInputState;

verus! {

/// A report is read as what it is, with everything that it says.
pub proof fn law_reports_are_read_as_they_are(event: AgentEvent)
    ensures
        match event {
            AgentEvent::Status(status, label) => event@ == EventModel::Status(status, label@),
            AgentEvent::Trace(trace) => event@ == EventModel::Trace(trace@),
            AgentEvent::Budget(budget) => event@ == EventModel::Budget(budget),
            AgentEvent::StreamDelta(kind, piece) => event@ == EventModel::StreamDelta(kind, piece@),
            AgentEvent::UserMessageConsumed(id) => event@ == EventModel::UserMessageConsumed(id@),
            AgentEvent::UserMessageRejected(id, reason) => event@
                == EventModel::UserMessageRejected(id@, reason@),
            AgentEvent::AssistantCompleted { output, history_was_trimmed, .. } => event@
                is AssistantCompleted && event@->output == output@ && event@->history_was_trimmed
                == history_was_trimmed,
            AgentEvent::AssistantAttemptReset => event@ is AssistantAttemptReset,
            AgentEvent::BashApprovalRequired { request_id, command } => event@
                == (EventModel::BashApprovalRequired {
                request_id: request_id@,
                command: command@,
            }),
            AgentEvent::BashApprovalOutcome { request_id, approved, reason } => event@
                == (EventModel::BashApprovalOutcome {
                request_id: request_id@,
                approved,
                reason: reason@,
            }),
            AgentEvent::Failed(message) => event@ == EventModel::Failed(message@),
            AgentEvent::Stage => event@ is Stage,
            AgentEvent::Report => event@ is Report,
        },
{
}

/// An entry of the history, a message and a card are known by what they say.
pub proof fn law_entries_are_read_as_they_are(
    trace: AgentTraceEntry,
    message: AgentUserMessage,
    card: BashApprovalCard,
)
    ensures
        trace@.kind == trace.kind,
        trace@.title == trace.title@,
        trace@.detail == trace.detail@,
        trace@.created_at == trace.created_at,
        message@.message_id == message.message_id@,
        message@.content == message.content@,
        message@.status == message.status,
        card@.request_id == card.request_id@,
        card@.command == card.command@,
        card@.created_at == card.created_at,
        card.status is Pending <==> card@.status is Pending,
        card.status is Approved <==> card@.status is Approved,
        card.status is Denied ==> card@.status is Denied && card@.status->Denied_0
            == card.status->Denied_0@,
{
}

/// A window's history, messages and cards are read in their order.
pub proof fn law_windows_are_read_as_they_are(window: AgentWindow, i: int)
    ensures
        window@.status == window.status,
        window@.question == window.question@,
        window@.session_id == window.session_id@,
        window@.budget == window.budget,
        window@.message_input == window.message_input@,
        window@.traces.len() == window.traces@.len(),
        0 <= i < window.traces@.len() ==> window@.traces[i] == window.traces@[i]@,
        window@.bash_approvals.len() == window.bash_approvals@.len(),
        0 <= i < window.bash_approvals@.len() ==> window@.bash_approvals[i]
            == window.bash_approvals@[i]@,
        window@.user_messages.len() == window.user_messages@.len(),
        0 <= i < window.user_messages@.len() ==> window@.user_messages[i]
            == window.user_messages@[i]@,
{
}

/// An input and a key press are read field by field.
pub proof fn law_inputs_are_read_as_they_are(input: TextInputState, keystroke: Keystroke)
    ensures
        input@.value == input.value@,
        input@.cursor == input.cursor,
        input@.selection_anchor == input.selection_anchor,
        input@.marked_range == input.marked_range,
        input@.is_focused == input.is_focused,
        keystroke@.key == keystroke.key@,
        keystroke.key_char is Some <==> keystroke@.key_char is Some,
        keystroke.key_char is Some ==> keystroke@.key_char->0 == keystroke.key_char->0@,
        keystroke@.modifiers == keystroke.modifiers,
{
}

/// A session is over in three of its statuses, and can be steered while it is neither over nor
/// being cancelled.
pub proof fn law_statuses(status: AgentSessionStatus)
    ensures
        status.ends_session() <==> is_over(status),
        status.is_steerable() <==> !is_over(status) && !(status is Cancelling),
{
}

proof fn lemma_nodes_are_read_in_order(nodes: Seq<MarkdownNode>)
    ensures
        node_models(nodes).len() == nodes.len(),
        forall|i: int| 0 <= i < nodes.len() ==> #[trigger] node_models(nodes)[i] == nodes[i]@,
    decreases nodes.len(),
{
    if nodes.len() > 0 {
        lemma_nodes_are_read_in_order(nodes.drop_last());
    }
}

/// The parts of a node are read in their order.
pub proof fn law_nodes_are_read_in_order(node: MarkdownNode, i: int)
    ensures
        node@.kind == node.kind@,
        node@.children.len() == node.children@.len(),
        0 <= i < node.children@.len() ==> node@.children[i] == node.children@[i]@,
{
    lemma_nodes_are_read_in_order(node.children@);
}

/// A heading is read with its depth, a list with its first number, code with its fence and a text
/// with its characters; a node of the tree has the level, the number, the language and the text of
/// its model.
pub proof fn law_mark_up_is_read_as_it_is(
    depth: HeadingDepth,
    first: Option<u64>,
    fence: String,
    text: String,
    level: u8,
)
    ensures
        MarkdownTag::Heading(depth)@ == TagModel::Heading(depth),
        MarkdownTag::List(first)@ == TagModel::List(first),
        MarkdownTag::FencedCode(fence)@ == TagModel::FencedCode(fence@),
        MarkdownEvent::Text(text)@ == MarkdownEventModel::Text(text@),
        MarkdownEvent::Code(text)@ == MarkdownEventModel::Code(text@),
        MarkdownEvent::Start(MarkdownTag::Heading(depth))@ == MarkdownEventModel::Start(
            TagModel::Heading(depth),
        ),
        MarkdownEvent::End@ is End,
        MarkdownNodeKind::Heading(level)@ == KindModel::Heading(level),
        MarkdownNodeKind::List(first)@ == KindModel::List(first),
        MarkdownNodeKind::Text(text)@ == KindModel::Text(text@),
        MarkdownNodeKind::Code(text)@ == KindModel::Code(text@),
        MarkdownNodeKind::CodeBlock(Some(text))@ == KindModel::CodeBlock(Some(text@)),
{
}

} // verus!
