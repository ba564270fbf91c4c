//! What the panel of the assistant shows of its state.

use vstd::prelude::*;
use crate::agent::{
    AgentTraceEntry, AgentTraceKind, AgentUserMessage, AgentUserMessageStatus, AssistantCitation,
};
use crate::agent_view::{leading_of, trace_icon, RowLeading};
use crate::assistant_model::{
    message_is_sound, optional_scope, status_name, AssistantPanel, AssistantPanelMessage,
    AssistantPanelStatus, PanelModel, ScopeModel, SourceModel,
};
use crate::clock::{clock_text, time_of_day};
use crate::icon::ArgusIcon;
use crate::keystroke::optional_text;
use crate::mentions::{AssistantMentionCandidate, AssistantMentionKind, CandidateModel, SourceScope};
use crate::text::{decimal, decimal_text, same_text, trim, trimmed};
use crate::theme::ThemeColor;

verus! {

// ---------------------------------------------------------------------------
// Around the conversation
// ---------------------------------------------------------------------------

/// What the button in the input does.
#[derive(Clone, Copy, Debug, PartialEq, Eq, Structural)]
pub enum ComposerAction {
    /// It stops the work.
    Stop,
    /// It sends the message.
    Send,
}

/// The id of the button's element.
pub open spec fn composer_id(action: ComposerAction) -> Seq<char> {
    match action {
        ComposerAction::Stop => "assistant-stop"@,
        ComposerAction::Send => "assistant-send"@,
    }
}

/// What the button says when the pointer rests on it.
pub open spec fn composer_hint(action: ComposerAction) -> Seq<char> {
    match action {
        ComposerAction::Stop => "停止当前任务"@,
        ComposerAction::Send => "发送消息"@,
    }
}

impl ComposerAction {
    /// The id of the button's element.
    pub fn element_id(self) -> (result: &'static str)
        ensures
            result@ == composer_id(self),
    {
        match self {
            ComposerAction::Stop => "assistant-stop",
            ComposerAction::Send => "assistant-send",
        }
    }

    /// What the button says when the pointer rests on it.
    pub fn tooltip(self) -> (result: &'static str)
        ensures
            result@ == composer_hint(self),
    {
        match self {
            ComposerAction::Stop => "停止当前任务",
            ComposerAction::Send => "发送消息",
        }
    }
}

/// What the panel shows.
#[derive(Debug, PartialEq, Eq)]
pub enum PanelFrame {
    /// No logs are loaded: a request to load some, and nothing of the conversation.
    Empty {
        /// What is to be done.
        title: &'static str,
        /// What comes of it.
        note: &'static str,
    },
    /// The conversation, with what stands around it.
    Conversation(ConversationFrame),
}

/// What the panel shows around the conversation.
#[derive(Debug, PartialEq, Eq)]
pub struct ConversationFrame {
    /// What the assistant is doing.
    pub status: String,
    /// Why nothing can be sent.
    pub unavailable_reason: Option<String>,
    /// What the button in the input does.
    pub composer_action: ComposerAction,
    /// Whether the button does it.
    pub composer_is_active: bool,
    /// Whether the input takes nothing.
    pub is_input_disabled: bool,
    /// Whether the picker is open.
    pub shows_picker: bool,
    /// Whether the way back to the newest row is offered.
    pub show_jump: bool,
    /// The name of the chosen model.
    pub model_name: String,
    /// The size of its context window.
    pub context_window: u64,
    /// Whether another model can be chosen.
    pub can_switch_model: bool,
    /// The message that is being written.
    pub active_message: Option<usize>,
}

/// Whether a frame is that of a panel. Without logs nothing of the conversation is
/// shown.
pub open spec fn frames(frame: PanelFrame, panel: PanelModel) -> bool {
    match frame {
        PanelFrame::Empty { title, note } => !panel.has_loaded_sources && title@ == "请先加载日志"@
            && note@ == "Agent 助手会话随日志加载自动创建，加载完成后即可提问。"@,
        PanelFrame::Conversation(around) => panel.has_loaded_sources && frames_conversation(
            around,
            panel,
        ),
    }
}

/// Whether a frame is that of a panel's conversation.
pub open spec fn frames_conversation(frame: ConversationFrame, panel: PanelModel) -> bool {
    let is_busy = !(panel.status is Idle);
    &&& frame.status@ == status_name(panel.status)
    &&& optional_text(frame.unavailable_reason) == panel.unavailable()
    &&& frame.composer_action == (if is_busy {
        ComposerAction::Stop
    } else {
        ComposerAction::Send
    })
    &&& frame.composer_is_active == (if is_busy {
        !(panel.status is Cancelling)
    } else {
        panel.unavailable() is None && trimmed(panel.input.value).len() > 0
    })
    &&& frame.is_input_disabled == (panel.status is Cancelling || panel.unavailable() is Some)
    &&& frame.shows_picker == (panel.mention_query is Some)
    &&& frame.show_jump == !panel.is_following_latest
    &&& match panel.chosen_place() {
        Some(index) => frame.model_name@ == panel.models[index].name && frame.context_window
            == panel.models[index].context_window_tokens,
        None => frame.model_name@ == "未配置模型"@ && frame.context_window == 0,
    }
    &&& frame.can_switch_model == (!is_busy && panel.models.len() > 1)
    &&& frame.active_message == (if panel.status is Running {
        Some(
            (if panel.messages.len() == 0 {
                0
            } else {
                panel.messages.len() - 1
            }) as usize,
        )
    } else {
        None
    })
}

/// Works out what the panel shows.
pub fn panel_frame(panel: &AssistantPanel) -> (result: PanelFrame)
    ensures
        frames(result, panel@),
{
    if panel.has_loaded_sources {
        PanelFrame::Conversation(conversation_frame(panel))
    } else {
        PanelFrame::Empty {
            title: "请先加载日志",
            note: "Agent 助手会话随日志加载自动创建，加载完成后即可提问。",
        }
    }
}

/// Works out what the panel shows around the conversation.
fn conversation_frame(panel: &AssistantPanel) -> (result: ConversationFrame)
    ensures
        frames_conversation(result, panel@),
{
    let unavailable_reason = panel.unavailable_reason();
    let is_busy = panel.status.is_busy();
    let is_cancelling = match panel.status {
        AssistantPanelStatus::Cancelling => true,
        _ => false,
    };
    let content = trim(panel.input.value.as_str());
    let has_text = !content.as_str().is_empty();
    let is_available = unavailable_reason.is_none();
    let (model_name, context_window) = match panel.selected_model() {
        Some(model) => (model.name.clone(), model.context_window_tokens),
        None => ("未配置模型".to_owned(), 0u64),
    };
    let count: usize = panel.messages.len();
    ConversationFrame {
        status: panel.status.label().to_owned(),
        unavailable_reason,
        composer_action: if is_busy {
            ComposerAction::Stop
        } else {
            ComposerAction::Send
        },
        composer_is_active: if is_busy {
            !is_cancelling
        } else {
            is_available && has_text
        },
        is_input_disabled: is_cancelling || !is_available,
        shows_picker: panel.mention_query.is_some(),
        show_jump: !panel.is_following_latest,
        model_name,
        context_window,
        can_switch_model: !is_busy && panel.models.len() > 1,
        active_message: match panel.status {
            AssistantPanelStatus::Running => Some(
                if count == 0 {
                    0
                } else {
                    count - 1
                },
            ),
            _ => None,
        },
    }
}

// ---------------------------------------------------------------------------
// The picker
// ---------------------------------------------------------------------------

/// One row of the picker.
#[derive(Debug, PartialEq, Eq)]
pub struct PickerRow {
    /// The candidate's place.
    pub candidate_index: usize,
    /// Its icon.
    pub icon: ArgusIcon,
    /// Its path.
    pub path: String,
    /// What it stands for.
    pub note: String,
    /// Whether the keyboard is on it.
    pub is_highlighted: bool,
}

/// Whether a row of the picker is that of a candidate.
pub open spec fn shows_candidate(
    row: PickerRow,
    candidate: CandidateModel,
    index: usize,
    is_highlighted: bool,
) -> bool {
    &&& row.candidate_index == index
    &&& row.icon == (if candidate.kind is Folder {
        ArgusIcon::Folder
    } else {
        ArgusIcon::FileText
    })
    &&& row.path@ == candidate.display_path
    &&& row.note@ == (if candidate.kind is Folder {
        decimal_text(candidate.matching_source_count as nat) + " 个日志"@
    } else {
        "文件"@
    })
    &&& row.is_highlighted == is_highlighted
}

/// Whether some rows of the picker are those of the candidates that are offered.
pub open spec fn shows_offered(rows: Seq<PickerRow>, panel: PanelModel) -> bool {
    &&& rows.len() == panel.mention_results.len()
    &&& forall|i: int|
        0 <= i < rows.len() ==> shows_candidate(
            #[trigger] rows[i],
            panel.mention_candidates[panel.mention_results[i] as int],
            panel.mention_results[i],
            i == panel.mention_highlighted_index,
        )
}

fn picker_row(candidate: &AssistantMentionCandidate, index: usize, is_highlighted: bool) -> (result:
    PickerRow)
    ensures
        shows_candidate(result, candidate@, index, is_highlighted),
{
    let (icon, note) = match candidate.kind {
        AssistantMentionKind::Folder => {
            let mut note = decimal(candidate.matching_source_count as u64);
            note.push_str(" 个日志");
            (ArgusIcon::Folder, note)
        },
        AssistantMentionKind::File => (ArgusIcon::FileText, "文件".to_owned()),
    };
    PickerRow {
        candidate_index: index,
        icon,
        path: candidate.display_path.clone(),
        note,
        is_highlighted,
    }
}

/// Works out the rows of the picker.
pub fn picker_rows(panel: &AssistantPanel) -> (result: Vec<PickerRow>)
    requires
        panel@.is_sound(),
    ensures
        shows_offered(result@, panel@),
{
    let mut rows: Vec<PickerRow> = Vec::new();
    let mut i: usize = 0;
    while i < panel.mention_results.len()
        invariant
            i <= panel.mention_results@.len(),
            panel@.is_sound(),
            rows@.len() == i,
            forall|k: int|
                0 <= k < i ==> shows_candidate(
                    #[trigger] rows@[k],
                    panel@.mention_candidates[panel@.mention_results[k] as int],
                    panel@.mention_results[k],
                    k == panel@.mention_highlighted_index,
                ),
        decreases panel.mention_results@.len() - i,
    {
        proof {
            assert(panel@.mention_results[i as int] < panel@.mention_candidates.len());
        }
        let index: usize = panel.mention_results[i];
        let row = picker_row(
            &panel.mention_candidates[index],
            index,
            i == panel.mention_highlighted_index,
        );
        proof {
            assert(panel@.mention_candidates[index as int]
                == panel.mention_candidates@[index as int]@);
        }
        rows.push(row);
        i += 1;
    }
    rows
}

/// What an empty picker says.
pub fn empty_picker_note(panel: &AssistantPanel) -> (result: &'static str)
    ensures
        result@ == (if panel@.mention_candidates.len() == 0 {
            "正在准备完整日志来源…"@
        } else {
            "没有匹配的文件或文件夹"@
        }),
{
    if panel.mention_candidates.len() == 0 {
        "正在准备完整日志来源…"
    } else {
        "没有匹配的文件或文件夹"
    }
}

// ---------------------------------------------------------------------------
// Messages
// ---------------------------------------------------------------------------

/// What a message of the user says about its status; nothing where it was taken in.
pub open spec fn status_note(status: AgentUserMessageStatus) -> Option<Seq<char>> {
    match status {
        AgentUserMessageStatus::Queued => Some("排队中"@),
        AgentUserMessageStatus::Consumed => None,
        AgentUserMessageStatus::Rejected => Some("未发送"@),
    }
}

/// What a message of the user shows.
#[derive(Debug, PartialEq, Eq)]
pub struct UserAppearance {
    /// Who writes.
    pub actor: String,
    /// What it says about its status.
    pub note: Option<String>,
    /// The text.
    pub content: String,
}

/// Works out what a message of the user shows.
pub fn user_appearance(message: &AgentUserMessage) -> (result: UserAppearance)
    ensures
        result.actor@ == "你"@,
        optional_text(result.note) == status_note(message.status),
        result.content@ == message@.content,
{
    UserAppearance {
        actor: "你".to_owned(),
        note: match message.status {
            AgentUserMessageStatus::Queued => Some("排队中".to_owned()),
            AgentUserMessageStatus::Consumed => None,
            AgentUserMessageStatus::Rejected => Some("未发送".to_owned()),
        },
        content: message.content.clone(),
    }
}

/// What a note on what happens shows.
#[derive(Debug, PartialEq, Eq)]
pub struct NoteAppearance {
    /// What stands in front.
    pub leading: RowLeading,
    /// The colour of that and of the text.
    pub color: ThemeColor,
    /// The title.
    pub title: String,
    /// The time of day.
    pub time: String,
    /// The text.
    pub detail: String,
}

/// Whether an appearance is that of a note.
pub open spec fn shows_note(
    appearance: NoteAppearance,
    trace: AgentTraceEntry,
    is_active: bool,
) -> bool {
    &&& appearance.leading == leading_of(trace.kind, is_active)
    &&& appearance.color == (if trace.kind is Warning {
        ThemeColor::Warning
    } else {
        ThemeColor::ForegroundMuted
    })
    &&& appearance.title@ == trace.title@
    &&& appearance.time@ == time_of_day(trace.created_at)
    &&& appearance.detail@ == trace.detail@
}

/// Works out what a note shows.
pub fn note_appearance(trace: &AgentTraceEntry, is_active: bool) -> (result: NoteAppearance)
    requires
        trace.created_at.is_valid(),
    ensures
        shows_note(result, *trace, is_active),
{
    NoteAppearance {
        leading: if is_active {
            RowLeading::Spinner
        } else {
            RowLeading::Icon(trace_icon(trace.kind))
        },
        color: match trace.kind {
            AgentTraceKind::Warning => ThemeColor::Warning,
            _ => ThemeColor::ForegroundMuted,
        },
        title: trace.title.clone(),
        time: clock_text(trace.created_at),
        detail: trace.detail.clone(),
    }
}

/// What a run of tool traces shows.
#[derive(Debug, PartialEq, Eq)]
pub struct ToolsAppearance {
    /// What stands in front.
    pub leading: RowLeading,
    /// How many there are.
    pub heading: String,
    /// The title of the last.
    pub title: String,
    /// The icon that opens or closes the run.
    pub toggle_icon: ArgusIcon,
    /// The text of the last.
    pub detail: String,
    /// Title and text of each, where the run is open.
    pub details: Vec<(String, String)>,
}

/// Whether an appearance is that of a run of tool traces.
pub open spec fn shows_tools(
    appearance: ToolsAppearance,
    traces: Seq<AgentTraceEntry>,
    is_expanded: bool,
    is_active: bool,
) -> bool {
    &&& appearance.leading == leading_of(AgentTraceKind::Tool, is_active)
    &&& appearance.heading@ == "工具 · "@ + decimal_text(traces.len()) + " 条"@
    &&& appearance.title@ == traces.last().title@
    &&& appearance.detail@ == traces.last().detail@
    &&& appearance.toggle_icon == (if is_expanded {
        ArgusIcon::Collapse
    } else {
        ArgusIcon::Expand
    })
    &&& appearance.details@.len() == (if is_expanded {
        traces.len()
    } else {
        0
    })
    &&& forall|i: int|
        0 <= i < appearance.details@.len() ==> (#[trigger] appearance.details@[i]).0@
            == traces[i].title@ && appearance.details@[i].1@ == traces[i].detail@
}

/// Works out what a run of tool traces shows.
pub fn tools_appearance(traces: &Vec<AgentTraceEntry>, is_expanded: bool, is_active: bool) -> (result:
    ToolsAppearance)
    requires
        traces@.len() > 0,
    ensures
        shows_tools(result, traces@, is_expanded, is_active),
{
    let mut details: Vec<(String, String)> = Vec::new();
    if is_expanded {
        let mut i: usize = 0;
        while i < traces.len()
            invariant
                i <= traces@.len(),
                details@.len() == i,
                forall|k: int|
                    0 <= k < i ==> (#[trigger] details@[k]).0@ == traces@[k].title@
                        && details@[k].1@ == traces@[k].detail@,
            decreases traces@.len() - i,
        {
            details.push((traces[i].title.clone(), traces[i].detail.clone()));
            i += 1;
        }
    }
    let last = &traces[traces.len() - 1];
    let mut heading = "工具 · ".to_owned();
    heading.push_str(decimal(traces.len() as u64).as_str());
    heading.push_str(" 条");
    ToolsAppearance {
        leading: if is_active {
            RowLeading::Spinner
        } else {
            RowLeading::Icon(ArgusIcon::Settings)
        },
        heading,
        title: last.title.clone(),
        toggle_icon: if is_expanded {
            ArgusIcon::Collapse
        } else {
            ArgusIcon::Expand
        },
        detail: last.detail.clone(),
        details,
    }
}

/// What a quoted place in the logs shows.
#[derive(Debug, PartialEq, Eq)]
pub struct CitationAppearance {
    /// The line that names it.
    pub heading: String,
    /// The colour of that line.
    pub heading_color: ThemeColor,
    /// Where a click leads: the file's number and the line.
    pub target: Option<(u64, u64)>,
    /// Why it is quoted.
    pub rationale: String,
    /// The quoted lines, each with its number.
    pub lines: Vec<(String, String)>,
}

/// The first log file that tools call by a name.
pub open spec fn source_named(sources: Seq<SourceModel>, source_ref: Seq<char>) -> Option<
    SourceModel,
>
    decreases sources.len(),
{
    if sources.len() == 0 {
        None
    } else if sources[0].source_ref == source_ref {
        Some(sources[0])
    } else {
        source_named(sources.skip(1), source_ref)
    }
}

/// The log file that a citation speaks of, where the last scan knows it.
pub open spec fn cited_source(scope: Option<ScopeModel>, source_ref: Seq<char>) -> Option<
    SourceModel,
> {
    match scope {
        Some(present) => source_named(present.sources, source_ref),
        None => None,
    }
}

/// The line that names a quoted place.
pub open spec fn citation_heading(
    index: int,
    path: Seq<char>,
    start_line: u64,
    end_line: u64,
) -> Seq<char> {
    "[E"@ + decimal_text((index + 1) as nat) + "] "@ + path + " · 第 "@ + decimal_text(
        start_line as nat,
    ) + "-"@ + decimal_text(end_line as nat) + " 行"@
}

/// Whether an appearance is that of a citation.
pub open spec fn shows_citation(
    appearance: CitationAppearance,
    index: int,
    citation: AssistantCitation,
    scope: Option<ScopeModel>,
) -> bool {
    let source = cited_source(scope, citation.source_ref@);
    &&& appearance.heading@ == citation_heading(
        index,
        match source {
            Some(known) => known.relative_path,
            None => "来源已失效"@,
        },
        citation.start_line,
        citation.end_line,
    )
    &&& appearance.heading_color == (if source is Some {
        ThemeColor::Info
    } else {
        ThemeColor::ForegroundMuted
    })
    &&& appearance.target == (match source {
        Some(known) => Some((known.source_id, citation.start_line)),
        None => None,
    })
    &&& appearance.rationale@ == citation.rationale@
    &&& match citation.display_excerpt {
        Some(excerpt) => appearance.lines@.len() == excerpt@.len() && forall|i: int|
            0 <= i < excerpt@.len() ==> (#[trigger] appearance.lines@[i]).0@ == decimal_text(
                excerpt@[i].line_number as nat,
            ) && appearance.lines@[i].1@ == excerpt@[i].text@,
        None => appearance.lines@.len() == 0,
    }
}

/// Finds the log file that a citation speaks of.
fn find_source(scope: &Option<SourceScope>, source_ref: &str) -> (result: Option<usize>)
    ensures
        match result {
            Some(index) => scope is Some && index < scope->0.sources@.len() && cited_source(
                optional_scope(*scope),
                source_ref@,
            ) == Some(scope->0.sources@[index as int]@),
            None => cited_source(optional_scope(*scope), source_ref@) is None,
        },
{
    match scope {
        None => None,
        Some(present) => {
            let ghost models = present@.sources;
            let mut i: usize = 0;
            proof {
                assert(models.skip(0) =~= models);
            }
            while i < present.sources.len()
                invariant
                    i <= present.sources@.len(),
                    scope is Some && scope->0 == *present,
                    models == present@.sources,
                    source_named(models, source_ref@) == source_named(
                        models.skip(i as int),
                        source_ref@,
                    ),
                decreases present.sources@.len() - i,
            {
                proof {
                    assert(models.skip(i as int)[0] == present.sources@[i as int]@);
                    assert(models.skip(i as int).skip(1) =~= models.skip(i + 1));
                }
                if same_text(present.sources[i].source_ref.as_str(), source_ref) {
                    return Some(i);
                }
                i += 1;
            }
            None
        },
    }
}

/// Works out what a quoted place in the logs shows.
pub fn citation_appearance(
    index: usize,
    citation: &AssistantCitation,
    scope: &Option<SourceScope>,
) -> (result: CitationAppearance)
    requires
        index < usize::MAX,
    ensures
        shows_citation(result, index as int, *citation, optional_scope(*scope)),
{
    let (path, heading_color, target) = match (
        find_source(scope, citation.source_ref.as_str()),
        scope,
    ) {
        (Some(place), Some(present)) => {
            let source = &present.sources[place];
            (
                source.relative_path.clone(),
                ThemeColor::Info,
                Some((source.source_id, citation.start_line)),
            )
        },
        _ => ("来源已失效".to_owned(), ThemeColor::ForegroundMuted, None),
    };
    let mut heading = "[E".to_owned();
    heading.push_str(decimal((index + 1) as u64).as_str());
    heading.push_str("] ");
    heading.push_str(path.as_str());
    heading.push_str(" · 第 ");
    heading.push_str(decimal(citation.start_line).as_str());
    heading.push_str("-");
    heading.push_str(decimal(citation.end_line).as_str());
    heading.push_str(" 行");
    let mut lines: Vec<(String, String)> = Vec::new();
    match &citation.display_excerpt {
        Some(excerpt) => {
            let mut i: usize = 0;
            while i < excerpt.len()
                invariant
                    i <= excerpt@.len(),
                    lines@.len() == i,
                    forall|k: int|
                        0 <= k < i ==> (#[trigger] lines@[k]).0@ == decimal_text(
                            excerpt@[k].line_number as nat,
                        ) && lines@[k].1@ == excerpt@[k].text@,
                decreases excerpt@.len() - i,
            {
                lines.push((decimal(excerpt[i].line_number), excerpt[i].text.clone()));
                i += 1;
            }
        },
        None => {},
    }
    CitationAppearance {
        heading,
        heading_color,
        target,
        rationale: citation.rationale.clone(),
        lines,
    }
}

/// What a text of the model shows.
#[derive(Debug, PartialEq, Eq)]
pub struct ModelTextAppearance {
    /// The title.
    pub title: String,
    /// What stands in front.
    pub leading: RowLeading,
    /// The colour of the icon and the title.
    pub title_color: ThemeColor,
    /// The colour of a turning wheel.
    pub spinner_color: ThemeColor,
    /// The colour of the text.
    pub text_color: ThemeColor,
    /// The text.
    pub content: String,
    /// What the text rests on.
    pub citations: Vec<CitationAppearance>,
}

/// Whether an appearance is that of a text of the model.
pub open spec fn shows_model_text(
    appearance: ModelTextAppearance,
    content: Seq<char>,
    is_reasoning: bool,
    is_active: bool,
    citations: Seq<AssistantCitation>,
    scope: Option<ScopeModel>,
) -> bool {
    &&& appearance.title@ == (if is_reasoning {
        "思考过程"@
    } else {
        "AI 回答"@
    })
    &&& appearance.leading == (if is_active {
        RowLeading::Spinner
    } else {
        RowLeading::Icon(ArgusIcon::SmartAnalysis)
    })
    &&& appearance.title_color == (if is_reasoning {
        ThemeColor::ForegroundMuted
    } else {
        ThemeColor::Info
    })
    &&& appearance.spinner_color == ThemeColor::Info
    &&& appearance.text_color == (if is_reasoning {
        ThemeColor::ForegroundMuted
    } else {
        ThemeColor::Foreground
    })
    &&& appearance.content@ == content
    &&& appearance.citations@.len() == citations.len()
    &&& forall|i: int|
        0 <= i < citations.len() ==> shows_citation(
            #[trigger] appearance.citations@[i],
            i,
            citations[i],
            scope,
        )
}

/// Works out what a text of the model shows.
pub fn model_text_appearance(
    content: &str,
    is_reasoning: bool,
    is_active: bool,
    citations: &Vec<AssistantCitation>,
    scope: &Option<SourceScope>,
) -> (result: ModelTextAppearance)
    ensures
        shows_model_text(
            result,
            content@,
            is_reasoning,
            is_active,
            citations@,
            optional_scope(*scope),
        ),
{
    let mut cards: Vec<CitationAppearance> = Vec::new();
    let mut i: usize = 0;
    while i < citations.len()
        invariant
            i <= citations@.len(),
            cards@.len() == i,
            forall|k: int|
                0 <= k < i ==> shows_citation(
                    #[trigger] cards@[k],
                    k,
                    citations@[k],
                    optional_scope(*scope),
                ),
        decreases citations@.len() - i,
    {
        cards.push(citation_appearance(i, &citations[i], scope));
        i += 1;
    }
    ModelTextAppearance {
        title: if is_reasoning {
            "思考过程".to_owned()
        } else {
            "AI 回答".to_owned()
        },
        leading: if is_active {
            RowLeading::Spinner
        } else {
            RowLeading::Icon(ArgusIcon::SmartAnalysis)
        },
        title_color: if is_reasoning {
            ThemeColor::ForegroundMuted
        } else {
            ThemeColor::Info
        },
        spinner_color: ThemeColor::Info,
        text_color: if is_reasoning {
            ThemeColor::ForegroundMuted
        } else {
            ThemeColor::Foreground
        },
        content: content.to_owned(),
        citations: cards,
    }
}

/// What a message shows.
#[derive(Debug, PartialEq, Eq)]
pub enum MessageAppearance {
    /// Nothing: there is no such message.
    Nothing,
    /// A message of the user.
    User(UserAppearance),
    /// A note on what happens.
    Note(NoteAppearance),
    /// Tools at work.
    Tools(ToolsAppearance),
    /// A text of the model.
    ModelText(ModelTextAppearance),
}

/// Whether an appearance is that of a message of a panel.
pub open spec fn shows_message(
    appearance: MessageAppearance,
    panel: AssistantPanel,
    index: int,
) -> bool {
    let is_active = panel.status is Running && index == panel.messages@.len() - 1;
    if index >= panel.messages@.len() {
        appearance is Nothing
    } else {
        match panel.messages@[index] {
            AssistantPanelMessage::User(message) => appearance matches MessageAppearance::User(
                row,
            ) && row.actor@ == "你"@ && optional_text(row.note) == status_note(message.status)
                && row.content@ == message.content@,
            AssistantPanelMessage::Trace(trace) => appearance matches MessageAppearance::Note(row)
                && shows_note(row, trace, is_active),
            AssistantPanelMessage::ToolGroup { traces, is_expanded } =>
                appearance matches MessageAppearance::Tools(row) && shows_tools(
                row,
                traces@,
                is_expanded,
                is_active,
            ),
            AssistantPanelMessage::Reasoning(content) =>
                appearance matches MessageAppearance::ModelText(row) && shows_model_text(
                row,
                content@,
                true,
                is_active,
                Seq::empty(),
                optional_scope(panel.scope),
            ),
            AssistantPanelMessage::Answer { content, citations } =>
                appearance matches MessageAppearance::ModelText(row) && shows_model_text(
                row,
                content@,
                false,
                is_active,
                citations@,
                optional_scope(panel.scope),
            ),
        }
    }
}

/// Works out what a message shows. The last one is at work while an answer is
/// being written.
pub fn message_appearance(panel: &AssistantPanel, index: usize) -> (result: MessageAppearance)
    requires
        panel@.is_sound(),
    ensures
        shows_message(result, *panel, index as int),
{
    if index >= panel.messages.len() {
        return MessageAppearance::Nothing;
    }
    let is_running = match panel.status {
        AssistantPanelStatus::Running => true,
        _ => false,
    };
    let is_active = is_running && index == panel.messages.len() - 1;
    proof {
        assert(panel@.messages[index as int] == panel.messages@[index as int]@);
        assert(message_is_sound(panel@.messages[index as int]));
    }
    match &panel.messages[index] {
        AssistantPanelMessage::User(message) => MessageAppearance::User(user_appearance(message)),
        AssistantPanelMessage::Trace(trace) => MessageAppearance::Note(
            note_appearance(trace, is_active),
        ),
        AssistantPanelMessage::ToolGroup { traces, is_expanded } => MessageAppearance::Tools(
            tools_appearance(traces, *is_expanded, is_active),
        ),
        AssistantPanelMessage::Reasoning(content) => {
            let citations: Vec<AssistantCitation> = Vec::new();
            MessageAppearance::ModelText(
                model_text_appearance(content.as_str(), true, is_active, &citations, &panel.scope),
            )
        },
        AssistantPanelMessage::Answer { content, citations } => MessageAppearance::ModelText(
            model_text_appearance(content.as_str(), false, is_active, citations, &panel.scope),
        ),
    }
}

} // verus!
