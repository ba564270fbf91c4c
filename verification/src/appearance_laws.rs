//! What a user sees: of an analysis, of the conversation with the assistant and of the settings.

use vstd::prelude::*;
use crate::agent::{
    shows_card, AgentTraceEntry, AgentTraceKind, AgentUserMessageStatus, ApprovalCardAppearance,
    AssistantCitation, CardModel,
};
use crate::agent_stream::AgentStreamItem;
use crate::agent_view::{
    shortened, shows_row, shows_tool_group, shows_trace_entry, RowAppearance, RowLeading,
    ToolGroupAppearance, TraceAppearance,
};
use crate::agent_window::{delivery_error, AgentWindow, MessageDelivery};
use crate::ai_settings::{AiDraftField, AiSettingsEditorKind, DraftModel};
use crate::ai_settings_editor::ProbeModel;
use crate::ai_settings_view::{
    shows_log_type, shows_probe, texts_of, title_of, LogTypePage, ProbeAppearance,
};
use crate::assistant_model::{
    AssistantPanel, AssistantPanelMessage, PanelModel, ScopeModel, SourceModel,
};
use crate::assistant_view::{
    composer_hint, frames, shows_candidate, shows_citation, shows_message, shows_offered,
    source_named, CitationAppearance, ComposerAction, MessageAppearance, PanelFrame, PickerRow,
};
use crate::connection_dialog::{
    are_directory_texts, are_link_texts, input_id, ConnectionDirectoryWindowMode,
    ConnectionFormInputTarget, ConnectionLinkKind, ConnectionLinkWindowMode, WindowTexts,
};
use crate::clock::time_of_day;
use crate::dialogs::{activity_hint, activity_id, password_text, ArchivePasswordErrorKind, Workspace};
use crate::icon::ArgusIcon;
use crate::keystroke::optional_text;
use crate::mentions::CandidateModel;
use crate::text::{decimal_text, trimmed};

verus! {

// ---------------------------------------------------------------------------
// An analysis
// ---------------------------------------------------------------------------

/// The icon that belongs to a kind of trace.
pub open spec fn has_icon(icon: ArgusIcon, kind: AgentTraceKind) -> bool {
    match kind {
        AgentTraceKind::Status => icon is Info,
        AgentTraceKind::Warning => icon is Info,
        AgentTraceKind::Tool => icon is Settings,
        AgentTraceKind::User => icon is ArrowRight,
        AgentTraceKind::Model => icon is SmartAnalysis,
        AgentTraceKind::Reasoning => icon is SmartAnalysis,
        AgentTraceKind::Output => icon is SmartAnalysis,
        AgentTraceKind::Report => icon is SmartAnalysis,
    }
}

/// A trace is shown with its title, its time and its text; it is led by a spinner while it is at
/// work and by the icon of its kind otherwise; it names who acts; warnings stand out; what the
/// model or the user wrote is read as Markdown.
pub proof fn law_trace_is_shown_as_it_is(
    appearance: TraceAppearance,
    trace: AgentTraceEntry,
    is_active: bool,
)
    requires
        shows_trace_entry(appearance, trace, is_active),
    ensures
        appearance.title@ == trace.title@,
        appearance.detail@ == trace.detail@,
        appearance.time@ == time_of_day(trace.created_at),
        is_active ==> appearance.leading is Spinner,
        !is_active ==> appearance.leading is Icon && has_icon(
            appearance.leading->Icon_0,
            trace.kind,
        ),
        trace.kind is Warning ==> appearance.color is Warning && appearance.detail_color is Warning
            && appearance.actor@ == "提示"@,
        trace.kind is Status ==> appearance.color is ForegroundMuted && appearance.actor@
            == "状态"@,
        trace.kind is Tool ==> appearance.color is ForegroundMuted && appearance.actor@ == "工具"@,
        trace.kind is User ==> appearance.color is ForegroundMuted && appearance.actor@ == "你"@,
        trace.kind is Reasoning ==> appearance.color is Info && appearance.actor@ == "Argus"@
            && appearance.detail_color is ForegroundMuted,
        trace.kind is Output ==> appearance.color is Info && appearance.actor@ == "Argus"@
            && appearance.detail_color is Foreground,
        trace.kind is Model || trace.kind is Report ==> appearance.color is ForegroundMuted
            && appearance.actor@ == "Argus"@,
        appearance.is_markdown <==> trace.kind is Reasoning || trace.kind is Output || trace.kind
            is User,
{
}

/// A folded run of tools shows its last trace; an open one says how many there are and shows all
/// of them in order. Its button says what it would do.
pub proof fn law_run_is_shown_folded_or_open(
    appearance: ToolGroupAppearance,
    group: Seq<AgentTraceEntry>,
    is_expanded: bool,
    is_active: bool,
    i: int,
)
    requires
        shows_tool_group(appearance, group, is_expanded, is_active),
        0 <= i < group.len(),
    ensures
        is_active ==> appearance.leading is Spinner,
        !is_active ==> appearance.leading == RowLeading::Icon(ArgusIcon::Settings),
        appearance.time@ == time_of_day(group[group.len() - 1].created_at),
        !is_expanded ==> {
            &&& appearance.title@ == group[group.len() - 1].title@
            &&& appearance.detail@ == group[group.len() - 1].detail@
            &&& appearance.details@.len() == 0
            &&& appearance.toggle_icon is Expand
        },
        is_expanded ==> {
            &&& appearance.title@ == "连续工具轨迹 · "@ + decimal_text(group.len()) + " 条"@
            &&& appearance.details@.len() == group.len()
            &&& appearance.details@[i].title@ == group[i].title@
            &&& appearance.details@[i].detail@ == group[i].detail@
            &&& appearance.details@[i].time@ == time_of_day(group[i].created_at)
            &&& appearance.toggle_icon is Collapse
        },
{
}

/// A card shows its command. While it waits it asks for a decision; afterwards it says which one
/// was taken, a refusal in the colour of errors and with its reason.
pub proof fn law_card_asks_or_tells(appearance: ApprovalCardAppearance, card: CardModel)
    requires
        shows_card(appearance, card),
    ensures
        appearance.command@ == card.command,
        appearance.element_id@ == "bash-approval-"@ + card.request_id,
        appearance.offers_decision <==> card.status is Pending,
        card.status is Pending ==> appearance.verdict is None,
        card.status is Approved ==> optional_text(appearance.verdict) == Some("已批准执行"@)
            && appearance.verdict_color is Info,
        card.status is Denied ==> optional_text(appearance.verdict) == Some(
            "已拒绝："@ + card.status->Denied_0,
        ) && appearance.verdict_color is Error,
{
}

/// Each row shows what it stands for: the question, its trace, its run of traces, its card. A row
/// whose place is not there shows nothing.
pub proof fn law_row_shows_what_it_stands_for(
    appearance: RowAppearance,
    window: AgentWindow,
    item: AgentStreamItem,
)
    requires
        shows_row(appearance, window, item),
    ensures
        match item {
            AgentStreamItem::Question => appearance matches RowAppearance::Question {
                actor,
                question,
            } && actor@ == "你"@ && question@ == window.question@,
            AgentStreamItem::Trace { trace_index, .. } => {
                &&& trace_index < window.traces@.len() ==> (
                appearance matches RowAppearance::Trace(row) && row.title@
                    == window.traces@[trace_index as int].title@ && row.detail@
                    == window.traces@[trace_index as int].detail@)
                &&& trace_index >= window.traces@.len() ==> appearance is Nothing
            },
            AgentStreamItem::ToolGroup { start, end, .. } => {
                &&& start < end <= window.traces@.len() ==> appearance is ToolGroup
                &&& !(start < end <= window.traces@.len()) ==> appearance is Nothing
            },
            AgentStreamItem::BashApproval { approval_index, .. } => {
                &&& approval_index < window.bash_approvals@.len() ==> (
                appearance matches RowAppearance::Card(row) && row.command@
                    == window.bash_approvals@[approval_index as int].command@)
                &&& approval_index >= window.bash_approvals@.len() ==> appearance is Nothing
            },
            AgentStreamItem::Spacer => appearance is Spacer,
        },
{
}

/// A session is shown by the first eight characters of its id.
pub proof fn law_sessions_are_shown_by_their_first_characters(id: Seq<char>)
    ensures
        id.len() <= 8 ==> shortened(id) == id,
        id.len() > 8 ==> shortened(id) == id.take(8),
{
}

/// What a user is told of a message that could not be handed over.
pub proof fn law_failed_delivery_is_told()
    ensures
        delivery_error(MessageDelivery::Sent) is None,
        delivery_error(MessageDelivery::GateBroken) == Some("Agent 提示入口状态已损坏"@),
        delivery_error(MessageDelivery::GateClosed) == Some(
            "Agent 已进入报告或终止阶段，不能继续发送提示"@,
        ),
        delivery_error(MessageDelivery::QueueClosed) == Some("Agent 提示队列已经关闭"@),
{
}

// ---------------------------------------------------------------------------
// The conversation
// ---------------------------------------------------------------------------

/// Without sources the panel asks for some. With sources it shows where it stands, why it cannot
/// answer, and a button: to stop while something runs and does not stop yet, to send while a
/// question is typed and can be answered.
pub proof fn law_panel_shows_where_it_stands(frame: PanelFrame, panel: PanelModel)
    requires
        frames(frame, panel),
    ensures
        !panel.has_loaded_sources ==> frame is Empty,
        panel.has_loaded_sources ==> frame is Conversation,
        panel.has_loaded_sources ==> {
            let shown = frame->Conversation_0;
            &&& panel.status is Idle ==> shown.status@ == "就绪"@
            &&& panel.status is Scanning ==> shown.status@ == "扫描来源"@
            &&& panel.status is Running ==> shown.status@ == "回答中"@
            &&& panel.status is Cancelling ==> shown.status@ == "正在停止"@
            &&& optional_text(shown.unavailable_reason) == panel.unavailable()
            &&& panel.status is Idle ==> shown.composer_action is Send
            &&& !(panel.status is Idle) ==> shown.composer_action is Stop
            &&& panel.status is Idle ==> shown.composer_is_active == (panel.unavailable() is None
                && trimmed(panel.input.value).len() > 0)
            &&& panel.status is Scanning || panel.status is Running ==> shown.composer_is_active
            &&& panel.status is Cancelling ==> !shown.composer_is_active
            &&& shown.is_input_disabled <==> panel.status is Cancelling || panel.unavailable()
                is Some
            &&& shown.shows_picker <==> panel.mention_query is Some
            &&& shown.show_jump <==> !panel.is_following_latest
            &&& shown.can_switch_model <==> panel.status is Idle && panel.models.len() > 1
            &&& panel.status is Running && panel.messages.len() > 0
                && panel.messages.len() <= usize::MAX ==> shown.active_message == Some(
                (panel.messages.len() - 1) as usize,
            )
            &&& !(panel.status is Running) ==> shown.active_message is None
        },
        composer_hint(ComposerAction::Stop) == "停止当前任务"@,
        composer_hint(ComposerAction::Send) == "发送消息"@,
{
}

/// A candidate is shown by its path; a folder with a folder's icon and the number of its logs, a
/// file with a file's icon.
pub proof fn law_candidate_is_shown_by_its_path(
    row: PickerRow,
    candidate: CandidateModel,
    index: usize,
    is_highlighted: bool,
)
    requires
        shows_candidate(row, candidate, index, is_highlighted),
    ensures
        row.path@ == candidate.display_path,
        row.candidate_index == index,
        row.is_highlighted == is_highlighted,
        candidate.kind is Folder ==> row.icon is Folder && row.note@ == decimal_text(
            candidate.matching_source_count as nat,
        ) + " 个日志"@,
        candidate.kind is File ==> row.icon is FileText && row.note@ == "文件"@,
{
}

/// The picker shows one row for each result, in order, and highlights the chosen one.
pub proof fn law_picker_shows_every_result(rows: Seq<PickerRow>, panel: PanelModel, i: int)
    requires
        shows_offered(rows, panel),
        0 <= i < panel.mention_results.len(),
    ensures
        rows.len() == panel.mention_results.len(),
        rows[i].candidate_index == panel.mention_results[i],
        rows[i].path@
            == panel.mention_candidates[panel.mention_results[i] as int].display_path,
        rows[i].is_highlighted <==> i == panel.mention_highlighted_index,
{
}

/// A message is shown as what it is, with its text; only the last one can be at work, and only
/// while a turn runs. A user's message says whether it waits or was not sent.
pub proof fn law_message_is_shown_as_it_is(
    appearance: MessageAppearance,
    panel: AssistantPanel,
    index: int,
)
    requires
        shows_message(appearance, panel, index),
        0 <= index,
    ensures
        index >= panel.messages@.len() ==> appearance is Nothing,
        index < panel.messages@.len() ==> {
            let is_last = index == panel.messages@.len() - 1;
            let is_active = panel.status is Running && is_last;
            match panel.messages@[index] {
                AssistantPanelMessage::User(message) => appearance matches MessageAppearance::User(
                    row,
                ) && row.content@ == message.content@ && row.actor@ == "你"@ && (match message.status {
                    AgentUserMessageStatus::Queued => optional_text(row.note) == Some("排队中"@),
                    AgentUserMessageStatus::Consumed => row.note is None,
                    AgentUserMessageStatus::Rejected => optional_text(row.note) == Some("未发送"@),
                }),
                AssistantPanelMessage::Trace(trace) => appearance matches MessageAppearance::Note(
                    row,
                ) && row.title@ == trace.title@ && row.detail@ == trace.detail@ && row.time@
                    == time_of_day(trace.created_at) && (row.leading is Spinner <==> is_active)
                    && (trace.kind is Warning <==> row.color is Warning),
                AssistantPanelMessage::ToolGroup { traces, is_expanded } =>
                    appearance matches MessageAppearance::Tools(row) && row.heading@ == "工具 · "@
                    + decimal_text(traces@.len()) + " 条"@ && row.title@
                    == traces@[traces@.len() - 1].title@ && row.detail@
                    == traces@[traces@.len() - 1].detail@ && (row.leading is Spinner <==> is_active)
                    && (is_expanded <==> row.toggle_icon is Collapse) && row.details@.len() == (
                if is_expanded {
                    traces@.len()
                } else {
                    0
                }) && (forall|i: int|
                    0 <= i < row.details@.len() ==> (#[trigger] row.details@[i]).0@
                        == traces@[i].title@ && row.details@[i].1@ == traces@[i].detail@),
                AssistantPanelMessage::Reasoning(content) =>
                    appearance matches MessageAppearance::ModelText(row) && row.content@
                    == content@ && row.title@ == "思考过程"@ && row.citations@.len() == 0
                    && row.title_color is ForegroundMuted && row.text_color is ForegroundMuted
                    && row.spinner_color is Info && (row.leading is Spinner <==> is_active),
                AssistantPanelMessage::Answer { content, citations } =>
                    appearance matches MessageAppearance::ModelText(row) && row.content@
                    == content@ && row.title@ == "AI 回答"@ && row.citations@.len()
                    == citations@.len() && row.title_color is Info && row.text_color is Foreground
                    && row.spinner_color is Info && (row.leading is Spinner <==> is_active),
            }
        },
{
}

proof fn lemma_source_named(sources: Seq<SourceModel>, source_ref: Seq<char>)
    ensures
        match source_named(sources, source_ref) {
            Some(source) => exists|i: int|
                0 <= i < sources.len() && (#[trigger] sources[i]) == source && source.source_ref
                    == source_ref && forall|j: int|
                    0 <= j < i ==> (#[trigger] sources[j]).source_ref != source_ref,
            None => forall|i: int|
                0 <= i < sources.len() ==> (#[trigger] sources[i]).source_ref != source_ref,
        },
    decreases sources.len(),
{
    if sources.len() > 0 {
        if sources[0].source_ref == source_ref {
            assert(sources[0] == source_named(sources, source_ref)->0);
        } else {
            let rest = sources.skip(1);
            lemma_source_named(rest, source_ref);
            assert forall|j: int| 0 < j < sources.len() implies sources[j] == rest[j - 1] by {}
            if source_named(rest, source_ref) is Some {
                let i = choose|i: int|
                    0 <= i < rest.len() && (#[trigger] rest[i]) == source_named(
                        rest,
                        source_ref,
                    )->0 && rest[i].source_ref == source_ref && forall|j: int|
                        0 <= j < i ==> (#[trigger] rest[j]).source_ref != source_ref;
                assert(sources[i + 1] == rest[i]);
                assert forall|j: int| 0 <= j < i + 1 implies (#[trigger] sources[j]).source_ref
                    != source_ref by {
                    if j > 0 {
                        assert(rest[j - 1].source_ref != source_ref);
                    }
                }
            }
        }
    }
}

/// A citation leads to the first line of its place in the source that it names, while the scope
/// has that source; its number, its path and its lines are told. A citation whose source is gone
/// leads nowhere and says so.
pub proof fn law_citation_leads_to_its_source(
    appearance: CitationAppearance,
    index: int,
    citation: AssistantCitation,
    scope: ScopeModel,
    at: int,
)
    requires
        shows_citation(appearance, index, citation, Some(scope)),
    ensures
        appearance.rationale@ == citation.rationale@,
        0 <= at < scope.sources.len() && scope.sources[at].source_ref == citation.source_ref@ && (
        forall|j: int|
            0 <= j < at ==> (#[trigger] scope.sources[j]).source_ref != citation.source_ref@) ==> {
            &&& appearance.target == Some((scope.sources[at].source_id, citation.start_line))
            &&& appearance.heading_color is Info
            &&& appearance.heading@ == "[E"@ + decimal_text((index + 1) as nat) + "] "@
                + scope.sources[at].relative_path + " · 第 "@ + decimal_text(
                citation.start_line as nat,
            ) + "-"@ + decimal_text(citation.end_line as nat) + " 行"@
        },
        (forall|j: int|
            0 <= j < scope.sources.len() ==> (#[trigger] scope.sources[j]).source_ref
                != citation.source_ref@) ==> {
            &&& appearance.target is None
            &&& appearance.heading_color is ForegroundMuted
            &&& appearance.heading@ == "[E"@ + decimal_text((index + 1) as nat) + "] "@
                + "来源已失效"@ + " · 第 "@ + decimal_text(citation.start_line as nat) + "-"@
                + decimal_text(citation.end_line as nat) + " 行"@
        },
        citation.display_excerpt is None ==> appearance.lines@.len() == 0,
        citation.display_excerpt is Some ==> appearance.lines@.len()
            == citation.display_excerpt->0@.len(),
{
    lemma_source_named(scope.sources, citation.source_ref@);
    let found = source_named(scope.sources, citation.source_ref@);
    if 0 <= at < scope.sources.len() && scope.sources[at].source_ref == citation.source_ref@ && (
    forall|j: int|
        0 <= j < at ==> (#[trigger] scope.sources[j]).source_ref != citation.source_ref@) {
        assert(found is Some);
        let i = choose|i: int|
            0 <= i < scope.sources.len() && (#[trigger] scope.sources[i]) == found->0
                && found->0.source_ref == citation.source_ref@ && forall|j: int|
                0 <= j < i ==> (#[trigger] scope.sources[j]).source_ref != citation.source_ref@;
        if i < at {
            assert(scope.sources[i].source_ref != citation.source_ref@);
        }
        if at < i {
            assert(scope.sources[at].source_ref != citation.source_ref@);
        }
    }
    if forall|j: int|
        0 <= j < scope.sources.len() ==> (#[trigger] scope.sources[j]).source_ref
            != citation.source_ref@ {
        assert(found is None);
    }
}

// ---------------------------------------------------------------------------
// The settings and the windows of connections
// ---------------------------------------------------------------------------

/// A trial is told by its state: not made, running, or by its answer, a failure in the colour of
/// errors.
pub proof fn law_trial_is_told(appearance: ProbeAppearance, state: ProbeModel)
    requires
        shows_probe(appearance, state),
    ensures
        state is Testing ==> appearance.button@ == "测试中…"@ && appearance.text@
            == "正在发送固定无日志请求"@,
        !(state is Testing) ==> appearance.button@ == "测试连接与工具调用"@,
        state is Idle ==> appearance.text@ == "尚未探测"@,
        state is Succeeded ==> appearance.text@ == state->Succeeded_0 && appearance.color is Info,
        state is Failed ==> appearance.text@ == state->Failed_0 && appearance.color is Error,
        state is Idle || state is Testing ==> appearance.color is ForegroundMuted,
{
}

/// The page of a log type shows its switch, its priority and one tab for each rule, of which the
/// chosen one stands out; and the chosen rule.
pub proof fn law_log_type_page_shows_its_rules(page: LogTypePage, draft: DraftModel, at: usize, i: int)
    requires
        shows_log_type(page, draft),
        draft.selected_profile == Some(at),
        at < draft.profiles.len(),
        0 <= i < draft.profiles[at as int].matchers.len(),
    ensures
        ({
            let profile = draft.profiles[at as int];
            &&& page.enabled == profile.enabled
            &&& page.priority@ == "优先级："@ + decimal_text(profile.priority as nat)
                + "（数值越大越优先）"@
            &&& page.tabs@.len() == profile.matchers.len()
            &&& page.tabs@[i].text@ == "规则 "@ + decimal_text((i + 1) as nat)
            &&& page.tabs@[i].is_selected <==> i == draft.selected_matcher
            &&& page.rule is Some <==> draft.selected_matcher < profile.matchers.len()
            &&& page.rule is Some ==> page.rule->0.is_case_sensitive
                == profile.matchers[draft.selected_matcher as int].case_sensitive
        }),
{
}

/// What the pages of the settings are called, and which field hides what is typed.
pub proof fn law_settings_pages_have_their_titles(at: usize, field: AiDraftField)
    ensures
        title_of(AiSettingsEditorKind::Model(Some(at))) == "编辑模型"@,
        title_of(AiSettingsEditorKind::Model(None)) == "新增模型"@,
        title_of(AiSettingsEditorKind::LogProfile(Some(at))) == "编辑日志类型"@,
        title_of(AiSettingsEditorKind::LogProfile(None)) == "新增日志类型"@,
        title_of(AiSettingsEditorKind::SystemPrompt) == "默认系统提示词"@,
        texts_of(field).is_secret <==> field is ApiKey,
        field is ProfileDescription ==> texts_of(field).visible_lines == 7,
        field is SystemPrompt ==> texts_of(field).visible_lines == 16,
        !(field is ProfileDescription) && !(field is SystemPrompt) ==> texts_of(field).visible_lines
            == 1,
        texts_of(AiDraftField::ModelName).label == "配置名称"@,
        texts_of(AiDraftField::BaseUrl).label == "服务地址"@,
        texts_of(AiDraftField::Model).label == "模型 ID"@,
        texts_of(AiDraftField::ContextWindow).label == "上下文大小"@,
        texts_of(AiDraftField::ApiKey).label == "API Key"@,
        texts_of(AiDraftField::ProfileName).label == "日志类型名称"@,
        texts_of(AiDraftField::MatcherPattern).label == "名称或路径模式"@,
        texts_of(AiDraftField::ModelName).id == "ai-model-name-input"@,
        texts_of(AiDraftField::BaseUrl).id == "ai-base-url-input"@,
        texts_of(AiDraftField::Model).id == "ai-model-input"@,
        texts_of(AiDraftField::ContextWindow).id == "ai-model-context-window-input"@,
        texts_of(AiDraftField::ApiKey).id == "ai-api-key-input"@,
        texts_of(AiDraftField::ProfileName).id == "ai-profile-name-input"@,
        texts_of(AiDraftField::MatcherPattern).id == "ai-matcher-pattern-input"@,
        texts_of(AiDraftField::ProfileDescription).id == "ai-profile-description"@,
        texts_of(AiDraftField::SystemPrompt).id == "ai-system-prompt"@,
{
}

/// The windows of connections are titled by what they make or change.
pub proof fn law_connection_windows_have_their_titles(
    texts: WindowTexts,
    directory: ConnectionDirectoryWindowMode,
    link: ConnectionLinkWindowMode,
    kind: ConnectionLinkKind,
)
    ensures
        are_directory_texts(texts, directory) && directory is Create ==> texts.title@ == "新增目录"@
            && texts.submit_label@ == "创建目录"@,
        are_directory_texts(texts, directory) && directory is Edit ==> texts.title@ == "编辑目录"@
            && texts.submit_label@ == "保存目录"@,
        are_link_texts(texts, link, kind) && link is Create && kind is Ssh ==> texts.title@
            == "新增 SSH 链接"@ && texts.submit_label@ == "创建链接"@,
        are_link_texts(texts, link, kind) && link is Create && kind is Smb ==> texts.title@
            == "新增 SMB 链接"@ && texts.submit_label@ == "创建链接"@,
        are_link_texts(texts, link, kind) && link is Edit && kind is Ssh ==> texts.title@
            == "编辑 SSH 链接"@ && texts.submit_label@ == "保存链接"@,
        are_link_texts(texts, link, kind) && link is Edit && kind is Smb ==> texts.title@
            == "编辑 SMB 链接"@ && texts.submit_label@ == "保存链接"@,
        input_id(ConnectionFormInputTarget::DirectoryName) == "connection-directory-name-input"@,
        input_id(ConnectionFormInputTarget::LinkName) == "connection-link-name-input"@,
        input_id(ConnectionFormInputTarget::LinkHost) == "connection-link-host-input"@,
        input_id(ConnectionFormInputTarget::LinkPort) == "connection-link-port-input"@,
        input_id(ConnectionFormInputTarget::LinkUsername) == "connection-link-username-input"@,
        input_id(ConnectionFormInputTarget::LinkPassword) == "connection-link-password-input"@,
        input_id(ConnectionFormInputTarget::LinkShare) == "connection-link-share-input"@,
        input_id(ConnectionFormInputTarget::LinkInitialDir)
            == "connection-link-initial-dir-input"@,
        input_id(ConnectionFormInputTarget::LinkDomain) == "connection-link-domain-input"@,
        input_id(ConnectionFormInputTarget::LinkPrivateKeyPath)
            == "connection-link-private-key-input"@,
        input_id(ConnectionFormInputTarget::LinkPrivateKeyPassphrase)
            == "connection-link-private-key-passphrase-input"@,
{
}

/// What the buttons of the workspaces and the question for a password say.
pub proof fn law_buttons_and_questions_say_what_they_mean()
    ensures
        activity_id(Workspace::LogAnalysis) == "activity-log-analysis"@,
        activity_id(Workspace::Settings) == "activity-settings"@,
        activity_hint(Workspace::LogAnalysis) == "日志分析"@,
        activity_hint(Workspace::Settings) == "设置"@,
        password_text(ArchivePasswordErrorKind::Required) == "该压缩包已加密，需要输入密码后继续。"@,
        password_text(ArchivePasswordErrorKind::Invalid)
            == "上一次密码无法解锁该压缩包，请重新输入。"@,
        password_text(ArchivePasswordErrorKind::Unsupported)
            == "该压缩包使用了暂不支持的加密方式。"@,
{
}

} // verus!
