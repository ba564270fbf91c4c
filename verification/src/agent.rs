//! What an analysis session reports: its status, its traces, the messages that
//! its user adds, the commands that it asks to run and what it has spent.

use vstd::prelude::*;
use crate::clock::TraceTime;
use crate::text::{behind_last, last_segment, same_text};
use crate::theme::ThemeColor;

verus! {

/// Where a session stands.
#[derive(Clone, Copy, Debug, PartialEq, Eq, Structural)]
pub enum AgentSessionStatus {
    /// It was created.
    Created,
    /// It is at work.
    Investigating,
    /// It was asked to stop.
    Cancelling,
    /// It finished.
    Completed,
    /// It was stopped.
    Cancelled,
    /// It failed.
    Failed,
}

impl AgentSessionStatus {
    /// Whether nothing follows.
    pub open spec fn ends_session(self) -> bool {
        self is Completed || self is Cancelled || self is Failed
    }

    /// Whether the session can still be steered: it neither ended nor was asked
    /// to stop.
    pub open spec fn is_steerable(self) -> bool {
        !self.ends_session() && !(self is Cancelling)
    }

    /// Whether nothing follows.
    pub fn is_terminal(self) -> (result: bool)
        ensures
            result == self.ends_session(),
    {
        match self {
            AgentSessionStatus::Completed => true,
            AgentSessionStatus::Cancelled => true,
            AgentSessionStatus::Failed => true,
            _ => false,
        }
    }

    /// Whether the session can still be steered.
    pub fn can_be_steered(self) -> (result: bool)
        ensures
            result == self.is_steerable(),
    {
        !self.is_terminal() && self != AgentSessionStatus::Cancelling
    }
}

/// What a trace is about.
#[derive(Clone, Copy, Debug, PartialEq, Eq, Structural)]
pub enum AgentTraceKind {
    /// The session's status.
    Status,
    /// A request to the model.
    Model,
    /// What the model thinks.
    Reasoning,
    /// What the model answers.
    Output,
    /// A tool at work.
    Tool,
    /// The user.
    User,
    /// A report.
    Report,
    /// A warning.
    Warning,
}

/// Which stream of the model a piece of text belongs to.
#[derive(Clone, Copy, Debug, PartialEq, Eq, Structural)]
pub enum AgentStreamKind {
    /// What it thinks.
    Reasoning,
    /// What it answers.
    Output,
}

/// One entry of a session's history.
#[derive(Debug, PartialEq, Eq)]
pub struct AgentTraceEntry {
    /// What it is about.
    pub kind: AgentTraceKind,
    /// Its title.
    pub title: String,
    /// Its text.
    pub detail: String,
    /// When it was made.
    pub created_at: TraceTime,
}

/// An [`AgentTraceEntry`] with its texts as sequences of characters.
#[verifier::ext_equal]
pub struct TraceModel {
    /// What it is about.
    pub kind: AgentTraceKind,
    /// Its title.
    pub title: Seq<char>,
    /// Its text.
    pub detail: Seq<char>,
    /// When it was made.
    pub created_at: TraceTime,
}

impl View for AgentTraceEntry {
    type V = TraceModel;

    open spec fn view(&self) -> TraceModel {
        TraceModel {
            kind: self.kind,
            title: self.title@,
            detail: self.detail@,
            created_at: self.created_at,
        }
    }
}

impl AgentTraceEntry {
    /// Makes an entry.
    pub fn new(kind: AgentTraceKind, title: &str, detail: &str, created_at: TraceTime) -> (result:
        AgentTraceEntry)
        ensures
            result@ == trace_model(kind, title@, detail@, created_at),
    {
        AgentTraceEntry { kind, title: title.to_owned(), detail: detail.to_owned(), created_at }
    }

    /// A second copy.
    pub fn copy(&self) -> (result: AgentTraceEntry)
        ensures
            result@ == self@,
    {
        AgentTraceEntry {
            kind: self.kind,
            title: self.title.clone(),
            detail: self.detail.clone(),
            created_at: self.created_at,
        }
    }
}

/// An entry from its parts.
pub open spec fn trace_model(
    kind: AgentTraceKind,
    title: Seq<char>,
    detail: Seq<char>,
    created_at: TraceTime,
) -> TraceModel {
    TraceModel { kind, title, detail, created_at }
}

/// What became of a message that the user added.
#[derive(Clone, Copy, Debug, PartialEq, Eq, Structural)]
pub enum AgentUserMessageStatus {
    /// It waits.
    Queued,
    /// The model has it.
    Consumed,
    /// It was refused.
    Rejected,
}

/// A message of the user.
#[derive(Debug, PartialEq, Eq)]
pub struct AgentUserMessage {
    /// The id by which it is known.
    pub message_id: String,
    /// Its text.
    pub content: String,
    /// What became of it.
    pub status: AgentUserMessageStatus,
}

/// An [`AgentUserMessage`] with its texts as sequences of characters.
#[verifier::ext_equal]
pub struct UserMessageModel {
    /// The id by which it is known.
    pub message_id: Seq<char>,
    /// Its text.
    pub content: Seq<char>,
    /// What became of it.
    pub status: AgentUserMessageStatus,
}

impl View for AgentUserMessage {
    type V = UserMessageModel;

    open spec fn view(&self) -> UserMessageModel {
        UserMessageModel {
            message_id: self.message_id@,
            content: self.content@,
            status: self.status,
        }
    }
}

impl AgentUserMessage {
    /// A message that waits.
    pub fn queued(message_id: String, content: String) -> (result: AgentUserMessage)
        ensures
            result@ == queued_message(message_id@, content@),
    {
        AgentUserMessage { message_id, content, status: AgentUserMessageStatus::Queued }
    }

    /// A second copy.
    pub fn copy(&self) -> (result: AgentUserMessage)
        ensures
            result@ == self@,
    {
        AgentUserMessage {
            message_id: self.message_id.clone(),
            content: self.content.clone(),
            status: self.status,
        }
    }
}

/// A message that waits.
pub open spec fn queued_message(message_id: Seq<char>, content: Seq<char>) -> UserMessageModel {
    UserMessageModel { message_id, content, status: AgentUserMessageStatus::Queued }
}

/// What a session has spent.
#[derive(Clone, Copy, Debug, PartialEq, Eq, Structural)]
pub struct AgentBudgetSnapshot {
    /// Requests to the model.
    pub model_requests: u64,
    /// Calls of tools.
    pub tool_calls: u64,
    /// Tokens sent to the model.
    pub input_tokens: u64,
    /// Tokens that the model wrote.
    pub output_tokens: u64,
    /// Tokens that the model thought.
    pub reasoning_tokens: u64,
    /// All tokens.
    pub total_tokens: u64,
    /// Tokens of the last request.
    pub latest_input_tokens: Option<u64>,
    /// Bytes that were read here.
    pub local_scan_bytes: u64,
    /// Bytes of log text that were sent.
    pub raw_log_bytes: u64,
}

/// Nothing spent yet.
pub open spec fn empty_budget() -> AgentBudgetSnapshot {
    AgentBudgetSnapshot {
        model_requests: 0,
        tool_calls: 0,
        input_tokens: 0,
        output_tokens: 0,
        reasoning_tokens: 0,
        total_tokens: 0,
        latest_input_tokens: None,
        local_scan_bytes: 0,
        raw_log_bytes: 0,
    }
}

impl AgentBudgetSnapshot {
    /// Nothing spent yet.
    pub fn new() -> (result: AgentBudgetSnapshot)
        ensures
            result == empty_budget(),
    {
        AgentBudgetSnapshot {
            model_requests: 0,
            tool_calls: 0,
            input_tokens: 0,
            output_tokens: 0,
            reasoning_tokens: 0,
            total_tokens: 0,
            latest_input_tokens: None,
            local_scan_bytes: 0,
            raw_log_bytes: 0,
        }
    }
}

// ---------------------------------------------------------------------------
// Commands that need the user's consent
// ---------------------------------------------------------------------------

/// What became of a command that needs consent.
#[derive(Debug, PartialEq, Eq)]
pub enum BashApprovalStatus {
    /// The user has not answered.
    Pending,
    /// The user agreed.
    Approved,
    /// It was refused, and why.
    Denied(String),
}

/// A [`BashApprovalStatus`] with its text as a sequence of characters.
#[verifier::ext_equal]
pub enum ApprovalModel {
    /// The user has not answered.
    Pending,
    /// The user agreed.
    Approved,
    /// It was refused, and why.
    Denied(Seq<char>),
}

impl View for BashApprovalStatus {
    type V = ApprovalModel;

    open spec fn view(&self) -> ApprovalModel {
        match self {
            BashApprovalStatus::Pending => ApprovalModel::Pending,
            BashApprovalStatus::Approved => ApprovalModel::Approved,
            BashApprovalStatus::Denied(reason) => ApprovalModel::Denied(reason@),
        }
    }
}

impl BashApprovalStatus {
    /// Whether the user has not answered.
    pub fn is_pending(&self) -> (result: bool)
        ensures
            result == (self@ is Pending),
    {
        match self {
            BashApprovalStatus::Pending => true,
            _ => false,
        }
    }

    /// A second copy.
    pub fn copy(&self) -> (result: BashApprovalStatus)
        ensures
            result@ == self@,
    {
        match self {
            BashApprovalStatus::Pending => BashApprovalStatus::Pending,
            BashApprovalStatus::Approved => BashApprovalStatus::Approved,
            BashApprovalStatus::Denied(reason) => BashApprovalStatus::Denied(reason.clone()),
        }
    }

    /// Whether two are the same.
    pub fn same(&self, other: &BashApprovalStatus) -> (result: bool)
        ensures
            result == (self@ == other@),
    {
        match (self, other) {
            (BashApprovalStatus::Pending, BashApprovalStatus::Pending) => true,
            (BashApprovalStatus::Approved, BashApprovalStatus::Approved) => true,
            (BashApprovalStatus::Denied(left), BashApprovalStatus::Denied(right)) => same_text(
                left.as_str(),
                right.as_str(),
            ),
            _ => false,
        }
    }
}

/// A command that needs consent.
#[derive(Debug, PartialEq, Eq)]
pub struct BashApprovalCard {
    /// The id of the request.
    pub request_id: String,
    /// The command.
    pub command: String,
    /// When it was asked.
    pub created_at: TraceTime,
    /// What became of it.
    pub status: BashApprovalStatus,
}

/// A [`BashApprovalCard`] with its texts as sequences of characters.
#[verifier::ext_equal]
pub struct CardModel {
    /// The id of the request.
    pub request_id: Seq<char>,
    /// The command.
    pub command: Seq<char>,
    /// When it was asked.
    pub created_at: TraceTime,
    /// What became of it.
    pub status: ApprovalModel,
}

impl View for BashApprovalCard {
    type V = CardModel;

    open spec fn view(&self) -> CardModel {
        CardModel {
            request_id: self.request_id@,
            command: self.command@,
            created_at: self.created_at,
            status: self.status@,
        }
    }
}

impl BashApprovalCard {
    /// A command that nobody has answered yet.
    pub fn pending(request_id: String, command: String, created_at: TraceTime) -> (result:
        BashApprovalCard)
        ensures
            result@ == pending_card(request_id@, command@, created_at),
    {
        BashApprovalCard { request_id, command, created_at, status: BashApprovalStatus::Pending }
    }
}

/// A command that nobody has answered yet.
pub open spec fn pending_card(
    request_id: Seq<char>,
    command: Seq<char>,
    created_at: TraceTime,
) -> CardModel {
    CardModel { request_id, command, created_at, status: ApprovalModel::Pending }
}

/// How a refusal is explained: by the last part of its reason, in words for the
/// reasons that are known.
pub open spec fn reason_label(reason: Seq<char>) -> Seq<char> {
    let tail = behind_last(reason, '|');
    if tail == "user_decision"@ {
        "用户未批准这条命令"@
    } else if tail == "approval_timeout"@ {
        "长时间未答复，已自动拒绝"@
    } else if tail == "session_cancelled"@ {
        "会话已取消，按拒绝处理"@
    } else if tail == "session_ended"@ {
        "会话已结束，按拒绝处理"@
    } else if tail == "session_closed"@ {
        "会话界面已关闭，按拒绝处理"@
    } else {
        tail
    }
}

/// Explains a refusal.
pub fn bash_approval_reason_label(reason: &str) -> (result: String)
    ensures
        result@ == reason_label(reason@),
{
    let tail = last_segment(reason, '|');
    if same_text(tail.as_str(), "user_decision") {
        "用户未批准这条命令".to_owned()
    } else if same_text(tail.as_str(), "approval_timeout") {
        "长时间未答复，已自动拒绝".to_owned()
    } else if same_text(tail.as_str(), "session_cancelled") {
        "会话已取消，按拒绝处理".to_owned()
    } else if same_text(tail.as_str(), "session_ended") {
        "会话已结束，按拒绝处理".to_owned()
    } else if same_text(tail.as_str(), "session_closed") {
        "会话界面已关闭，按拒绝处理".to_owned()
    } else {
        tail
    }
}

/// What the card of a command shows.
#[derive(Debug, PartialEq, Eq)]
pub struct ApprovalCardAppearance {
    /// The id of its element.
    pub element_id: String,
    /// The command.
    pub command: String,
    /// Whether it offers to agree or refuse.
    pub offers_decision: bool,
    /// What it says about a command that was answered.
    pub verdict: Option<String>,
    /// The colour of that.
    pub verdict_color: ThemeColor,
}

/// What a card says about a command that was answered.
pub open spec fn verdict_text(status: ApprovalModel) -> Option<Seq<char>> {
    match status {
        ApprovalModel::Pending => None,
        ApprovalModel::Approved => Some("已批准执行"@),
        ApprovalModel::Denied(reason) => Some("已拒绝："@ + reason),
    }
}

/// Whether an appearance is that of a card.
pub open spec fn shows_card(appearance: ApprovalCardAppearance, card: CardModel) -> bool {
    &&& appearance.element_id@ == "bash-approval-"@ + card.request_id
    &&& appearance.command@ == card.command
    &&& appearance.offers_decision == (card.status is Pending)
    &&& crate::keystroke::optional_text(appearance.verdict) == verdict_text(card.status)
    &&& appearance.verdict_color == (if card.status is Denied {
        ThemeColor::Error
    } else {
        ThemeColor::Info
    })
}

/// Works out what the card of a command shows: the command, its buttons while
/// nobody has answered, and the answer afterwards.
pub fn approval_card_appearance(card: &BashApprovalCard) -> (result: ApprovalCardAppearance)
    ensures
        shows_card(result, card@),
{
    let mut element_id = "bash-approval-".to_owned();
    element_id.push_str(card.request_id.as_str());
    let verdict = match &card.status {
        BashApprovalStatus::Pending => None,
        BashApprovalStatus::Approved => Some("已批准执行".to_owned()),
        BashApprovalStatus::Denied(reason) => {
            let mut text = "已拒绝：".to_owned();
            text.push_str(reason.as_str());
            Some(text)
        },
    };
    ApprovalCardAppearance {
        element_id,
        command: card.command.clone(),
        offers_decision: card.status.is_pending(),
        verdict,
        verdict_color: match &card.status {
            BashApprovalStatus::Denied(_) => ThemeColor::Error,
            _ => ThemeColor::Info,
        },
    }
}

// ---------------------------------------------------------------------------
// Where an answer comes from
// ---------------------------------------------------------------------------

/// One line of quoted log text.
#[derive(Debug, PartialEq, Eq)]
pub struct ExcerptLine {
    /// Its number.
    pub line_number: u64,
    /// Its text.
    pub text: String,
}

/// A place in a log that an answer rests on.
#[derive(Debug, PartialEq, Eq)]
pub struct AssistantCitation {
    /// The log.
    pub source_ref: String,
    /// The first line.
    pub start_line: u64,
    /// The last line.
    pub end_line: u64,
    /// Why it matters.
    pub rationale: String,
    /// The lines themselves.
    pub display_excerpt: Option<Vec<ExcerptLine>>,
}

/// A [`ExcerptLine`] with its text as a sequence of characters.
#[verifier::ext_equal]
pub struct ExcerptLineModel {
    /// Its number.
    pub line_number: u64,
    /// Its text.
    pub text: Seq<char>,
}

/// An [`AssistantCitation`] with its texts as sequences of characters.
#[verifier::ext_equal]
pub struct CitationModel {
    /// The log.
    pub source_ref: Seq<char>,
    /// The first line.
    pub start_line: u64,
    /// The last line.
    pub end_line: u64,
    /// Why it matters.
    pub rationale: Seq<char>,
    /// The lines themselves.
    pub display_excerpt: Option<Seq<ExcerptLineModel>>,
}

impl View for ExcerptLine {
    type V = ExcerptLineModel;

    open spec fn view(&self) -> ExcerptLineModel {
        ExcerptLineModel { line_number: self.line_number, text: self.text@ }
    }
}

impl View for AssistantCitation {
    type V = CitationModel;

    open spec fn view(&self) -> CitationModel {
        CitationModel {
            source_ref: self.source_ref@,
            start_line: self.start_line,
            end_line: self.end_line,
            rationale: self.rationale@,
            display_excerpt: match self.display_excerpt {
                Some(lines) => Some(lines@.map_values(|line: ExcerptLine| line@)),
                None => None,
            },
        }
    }
}

/// The models of some citations.
pub open spec fn citation_models(citations: Seq<AssistantCitation>) -> Seq<CitationModel> {
    citations.map_values(|citation: AssistantCitation| citation@)
}

fn copy_excerpt(lines: &Vec<ExcerptLine>) -> (result: Vec<ExcerptLine>)
    ensures
        result@.map_values(|line: ExcerptLine| line@) == lines@.map_values(
            |line: ExcerptLine| line@,
        ),
{
    let mut result: Vec<ExcerptLine> = Vec::new();
    let mut i: usize = 0;
    while i < lines.len()
        invariant
            i <= lines@.len(),
            result@.len() == i,
            forall|k: int| 0 <= k < i ==> (#[trigger] result@[k])@ == lines@[k]@,
        decreases lines@.len() - i,
    {
        result.push(
            ExcerptLine { line_number: lines[i].line_number, text: lines[i].text.clone() },
        );
        i += 1;
    }
    proof {
        assert(result@.map_values(|line: ExcerptLine| line@) =~= lines@.map_values(
            |line: ExcerptLine| line@,
        ));
    }
    result
}

impl AssistantCitation {
    /// A second copy.
    pub fn copy(&self) -> (result: AssistantCitation)
        ensures
            result@ == self@,
    {
        AssistantCitation {
            source_ref: self.source_ref.clone(),
            start_line: self.start_line,
            end_line: self.end_line,
            rationale: self.rationale.clone(),
            display_excerpt: match &self.display_excerpt {
                Some(lines) => Some(copy_excerpt(lines)),
                None => None,
            },
        }
    }
}

/// A second copy of some citations.
pub fn copy_citations(citations: &Vec<AssistantCitation>) -> (result: Vec<AssistantCitation>)
    ensures
        citation_models(result@) == citation_models(citations@),
{
    let mut result: Vec<AssistantCitation> = Vec::new();
    let mut i: usize = 0;
    while i < citations.len()
        invariant
            i <= citations@.len(),
            result@.len() == i,
            forall|k: int| 0 <= k < i ==> (#[trigger] result@[k])@ == citations@[k]@,
        decreases citations@.len() - i,
    {
        result.push(citations[i].copy());
        i += 1;
    }
    proof {
        assert(citation_models(result@) =~= citation_models(citations@));
    }
    result
}

} // verus!
