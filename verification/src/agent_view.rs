//! What the window of an analysis session shows of its state.

use vstd::prelude::*;
use crate::agent::{
    approval_card_appearance, shows_card, AgentTraceEntry, AgentTraceKind,
    ApprovalCardAppearance,
};
use crate::agent_stream::AgentStreamItem;
use crate::agent_window::AgentWindow;
use crate::clock::{clock_text, time_of_day};
use crate::icon::ArgusIcon;
use crate::text::{chars_of, decimal, decimal_text, string_of, trim};
use crate::theme::ThemeColor;

verus! {

/// The icon of a kind of trace.
pub open spec fn icon_of_trace(kind: AgentTraceKind) -> ArgusIcon {
    match kind {
        AgentTraceKind::Status | AgentTraceKind::Warning => ArgusIcon::Info,
        AgentTraceKind::Model
        | AgentTraceKind::Reasoning
        | AgentTraceKind::Output
        | AgentTraceKind::Report => ArgusIcon::SmartAnalysis,
        AgentTraceKind::Tool => ArgusIcon::Settings,
        AgentTraceKind::User => ArgusIcon::ArrowRight,
    }
}

/// Picks the icon of a kind of trace.
pub fn trace_icon(kind: AgentTraceKind) -> (result: ArgusIcon)
    ensures
        result == icon_of_trace(kind),
{
    match kind {
        AgentTraceKind::Status | AgentTraceKind::Warning => ArgusIcon::Info,
        AgentTraceKind::Model
        | AgentTraceKind::Reasoning
        | AgentTraceKind::Output
        | AgentTraceKind::Report => ArgusIcon::SmartAnalysis,
        AgentTraceKind::Tool => ArgusIcon::Settings,
        AgentTraceKind::User => ArgusIcon::ArrowRight,
    }
}

/// The colour of a kind of trace.
pub open spec fn color_of_trace(kind: AgentTraceKind) -> ThemeColor {
    match kind {
        AgentTraceKind::Warning => ThemeColor::Warning,
        AgentTraceKind::Reasoning | AgentTraceKind::Output => ThemeColor::Info,
        _ => ThemeColor::ForegroundMuted,
    }
}

/// Picks the colour of a kind of trace.
pub fn trace_color(kind: AgentTraceKind) -> (result: ThemeColor)
    ensures
        result == color_of_trace(kind),
{
    match kind {
        AgentTraceKind::Warning => ThemeColor::Warning,
        AgentTraceKind::Reasoning | AgentTraceKind::Output => ThemeColor::Info,
        _ => ThemeColor::ForegroundMuted,
    }
}

/// Who speaks in a kind of trace.
pub open spec fn actor_of_trace(kind: AgentTraceKind) -> Seq<char> {
    match kind {
        AgentTraceKind::Status => "状态"@,
        AgentTraceKind::Model
        | AgentTraceKind::Reasoning
        | AgentTraceKind::Output
        | AgentTraceKind::Report => "Argus"@,
        AgentTraceKind::Tool => "工具"@,
        AgentTraceKind::User => "你"@,
        AgentTraceKind::Warning => "提示"@,
    }
}

/// Says who speaks in a kind of trace.
pub fn trace_actor_label(kind: AgentTraceKind) -> (result: &'static str)
    ensures
        result@ == actor_of_trace(kind),
{
    match kind {
        AgentTraceKind::Status => "状态",
        AgentTraceKind::Model
        | AgentTraceKind::Reasoning
        | AgentTraceKind::Output
        | AgentTraceKind::Report => "Argus",
        AgentTraceKind::Tool => "工具",
        AgentTraceKind::User => "你",
        AgentTraceKind::Warning => "提示",
    }
}

/// How many characters of an id are shown.
pub const SHORT_ID_CHARS: usize = 8;

/// The beginning of an id.
pub open spec fn shortened(id: Seq<char>) -> Seq<char> {
    if id.len() > SHORT_ID_CHARS {
        id.take(SHORT_ID_CHARS as int)
    } else {
        id
    }
}

/// Shortens an id.
pub fn short_id(value: &str) -> (result: String)
    ensures
        result@ == shortened(value@),
{
    let mut characters = chars_of(value);
    if characters.len() > SHORT_ID_CHARS {
        characters.truncate(SHORT_ID_CHARS);
    }
    string_of(characters.as_slice())
}

// ---------------------------------------------------------------------------
// Rows
// ---------------------------------------------------------------------------

/// What stands in front of a row.
#[derive(Clone, Copy, Debug, PartialEq, Eq, Structural)]
pub enum RowLeading {
    /// A turning wheel: the row is at work.
    Spinner,
    /// An icon.
    Icon(ArgusIcon),
}

/// What stands in front of a row.
pub open spec fn leading_of(kind: AgentTraceKind, is_active: bool) -> RowLeading {
    if is_active {
        RowLeading::Spinner
    } else {
        RowLeading::Icon(icon_of_trace(kind))
    }
}

fn row_leading(kind: AgentTraceKind, is_active: bool) -> (result: RowLeading)
    ensures
        result == leading_of(kind, is_active),
{
    if is_active {
        RowLeading::Spinner
    } else {
        RowLeading::Icon(trace_icon(kind))
    }
}

/// What the row of a trace shows.
#[derive(Debug, PartialEq, Eq)]
pub struct TraceAppearance {
    /// What stands in front.
    pub leading: RowLeading,
    /// The colour of that and of the title.
    pub color: ThemeColor,
    /// Who speaks.
    pub actor: String,
    /// The title.
    pub title: String,
    /// The time of day.
    pub time: String,
    /// The text.
    pub detail: String,
    /// The colour of the text.
    pub detail_color: ThemeColor,
    /// Whether the text is set as Markdown.
    pub is_markdown: bool,
}

/// The colour of a trace's text.
pub open spec fn color_of_detail(kind: AgentTraceKind) -> ThemeColor {
    match kind {
        AgentTraceKind::Warning => ThemeColor::Warning,
        AgentTraceKind::Output => ThemeColor::Foreground,
        _ => ThemeColor::ForegroundMuted,
    }
}

/// Whether an appearance is that of a trace.
pub open spec fn shows_trace_entry(
    appearance: TraceAppearance,
    trace: AgentTraceEntry,
    is_active: bool,
) -> bool {
    &&& appearance.leading == leading_of(trace.kind, is_active)
    &&& appearance.color == color_of_trace(trace.kind)
    &&& appearance.actor@ == actor_of_trace(trace.kind)
    &&& appearance.title@ == trace.title@
    &&& appearance.time@ == time_of_day(trace.created_at)
    &&& appearance.detail@ == trace.detail@
    &&& appearance.detail_color == color_of_detail(trace.kind)
    &&& appearance.is_markdown == (trace.kind is Reasoning || trace.kind is Output
        || trace.kind is User)
}

/// Works out what the row of a trace shows.
pub fn trace_appearance(trace: &AgentTraceEntry, is_active: bool) -> (result: TraceAppearance)
    requires
        trace.created_at.is_valid(),
    ensures
        shows_trace_entry(result, *trace, is_active),
{
    TraceAppearance {
        leading: row_leading(trace.kind, is_active),
        color: trace_color(trace.kind),
        actor: trace_actor_label(trace.kind).to_owned(),
        title: trace.title.clone(),
        time: clock_text(trace.created_at),
        detail: trace.detail.clone(),
        detail_color: match trace.kind {
            AgentTraceKind::Warning => ThemeColor::Warning,
            AgentTraceKind::Output => ThemeColor::Foreground,
            _ => ThemeColor::ForegroundMuted,
        },
        is_markdown: match trace.kind {
            AgentTraceKind::Reasoning | AgentTraceKind::Output | AgentTraceKind::User => true,
            _ => false,
        },
    }
}

/// One trace of an open run of tool traces.
#[derive(Debug, PartialEq, Eq)]
pub struct ToolDetail {
    /// The title.
    pub title: String,
    /// The time of day.
    pub time: String,
    /// The text.
    pub detail: String,
}

/// What the row of a run of tool traces shows.
#[derive(Debug, PartialEq, Eq)]
pub struct ToolGroupAppearance {
    /// What stands in front.
    pub leading: RowLeading,
    /// The title: how many traces there are, or that of the last.
    pub title: String,
    /// The time of day of the last.
    pub time: String,
    /// The icon that opens or closes the run.
    pub toggle_icon: ArgusIcon,
    /// The text: that the run is open, or that of the last.
    pub detail: String,
    /// Each trace of an open run.
    pub details: Vec<ToolDetail>,
}

/// Whether some details are those of some traces, in their order.
pub open spec fn details_show(details: Seq<ToolDetail>, traces: Seq<AgentTraceEntry>) -> bool {
    &&& details.len() == traces.len()
    &&& forall|i: int|
        0 <= i < traces.len() ==> (#[trigger] details[i]).title@ == traces[i].title@
            && details[i].time@ == time_of_day(traces[i].created_at) && details[i].detail@
            == traces[i].detail@
}

/// Whether an appearance is that of a run of tool traces.
pub open spec fn shows_tool_group(
    appearance: ToolGroupAppearance,
    group: Seq<AgentTraceEntry>,
    is_expanded: bool,
    is_active: bool,
) -> bool {
    &&& appearance.leading == leading_of(AgentTraceKind::Tool, is_active)
    &&& appearance.time@ == time_of_day(group.last().created_at)
    &&& if is_expanded {
        &&& appearance.title@ == "连续工具轨迹 · "@ + decimal_text(group.len()) + " 条"@
        &&& appearance.detail@ == "已展开全部工具调用和结果"@
        &&& appearance.toggle_icon == ArgusIcon::Collapse
        &&& details_show(appearance.details@, group)
    } else {
        &&& appearance.title@ == group.last().title@
        &&& appearance.detail@ == group.last().detail@
        &&& appearance.toggle_icon == ArgusIcon::Expand
        &&& appearance.details@.len() == 0
    }
}

/// Works out what the row of a run of tool traces shows: the last trace, or all of
/// them where the run is open.
pub fn tool_group_appearance(
    traces: &Vec<AgentTraceEntry>,
    start: usize,
    end: usize,
    is_expanded: bool,
    is_active: bool,
) -> (result: ToolGroupAppearance)
    requires
        start < end <= traces@.len(),
        crate::agent_stream::traces_are_dated(traces@),
    ensures
        shows_tool_group(
            result,
            traces@.subrange(start as int, end as int),
            is_expanded,
            is_active,
        ),
{
    let ghost group = traces@.subrange(start as int, end as int);
    let last = &traces[end - 1];
    proof {
        assert(group.last() == *last);
    }
    let mut details: Vec<ToolDetail> = Vec::new();
    if is_expanded {
        let mut i: usize = start;
        while i < end
            invariant
                start <= i <= end <= traces@.len(),
                crate::agent_stream::traces_are_dated(traces@),
                group == traces@.subrange(start as int, end as int),
                details_show(details@, group.take(i - start)),
            decreases end - i,
        {
            let trace = &traces[i];
            proof {
                assert(group[i - start] == *trace);
                assert(group.take(i + 1 - start) =~= group.take(i - start).push(*trace));
            }
            details.push(
                ToolDetail {
                    title: trace.title.clone(),
                    time: clock_text(trace.created_at),
                    detail: trace.detail.clone(),
                },
            );
            i += 1;
        }
        proof {
            assert(group.take(end - start) =~= group);
        }
    }
    let (title, detail) = if is_expanded {
        let mut title = "连续工具轨迹 · ".to_owned();
        title.push_str(decimal((end - start) as u64).as_str());
        title.push_str(" 条");
        (title, "已展开全部工具调用和结果".to_owned())
    } else {
        (last.title.clone(), last.detail.clone())
    };
    ToolGroupAppearance {
        leading: row_leading(AgentTraceKind::Tool, is_active),
        title,
        time: clock_text(last.created_at),
        toggle_icon: if is_expanded {
            ArgusIcon::Collapse
        } else {
            ArgusIcon::Expand
        },
        detail,
        details,
    }
}

/// What a row shows.
#[derive(Debug, PartialEq, Eq)]
pub enum RowAppearance {
    /// Nothing: what it stood for is gone.
    Nothing,
    /// The question, and who asks.
    Question {
        /// Who asks.
        actor: String,
        /// The question.
        question: String,
    },
    /// A trace.
    Trace(TraceAppearance),
    /// A run of tool traces.
    ToolGroup(ToolGroupAppearance),
    /// A command that needs consent.
    Card(ApprovalCardAppearance),
    /// The room at the end.
    Spacer,
}

/// Whether an appearance is that of a row of a window.
pub open spec fn shows_row(
    appearance: RowAppearance,
    window: AgentWindow,
    item: AgentStreamItem,
) -> bool {
    match item {
        AgentStreamItem::Question => appearance matches RowAppearance::Question { actor, question }
            && actor@ == "你"@ && question@ == window.question@,
        AgentStreamItem::Trace { trace_index, is_active, .. } => if trace_index
            < window.traces@.len() {
            appearance matches RowAppearance::Trace(row) && shows_trace_entry(
                row,
                window.traces@[trace_index as int],
                is_active,
            )
        } else {
            appearance is Nothing
        },
        AgentStreamItem::ToolGroup { start, end, is_expanded, is_active, .. } => if start < end
            <= window.traces@.len() {
            appearance matches RowAppearance::ToolGroup(row) && shows_tool_group(
                row,
                window.traces@.subrange(start as int, end as int),
                is_expanded,
                is_active,
            )
        } else {
            appearance is Nothing
        },
        AgentStreamItem::BashApproval { approval_index, .. } => if approval_index
            < window.bash_approvals@.len() {
            appearance matches RowAppearance::Card(row) && shows_card(
                row,
                window.bash_approvals@[approval_index as int]@,
            )
        } else {
            appearance is Nothing
        },
        AgentStreamItem::Spacer => appearance is Spacer,
    }
}

/// Works out what a row of a window shows. A row that stands for nothing any more
/// shows nothing.
pub fn row_appearance(window: &AgentWindow, item: &AgentStreamItem) -> (result: RowAppearance)
    requires
        window.is_valid(),
    ensures
        shows_row(result, *window, *item),
{
    match item {
        AgentStreamItem::Question => RowAppearance::Question {
            actor: "你".to_owned(),
            question: window.question.clone(),
        },
        AgentStreamItem::Trace { trace_index, is_active, .. } => {
            if *trace_index < window.traces.len() {
                RowAppearance::Trace(trace_appearance(&window.traces[*trace_index], *is_active))
            } else {
                RowAppearance::Nothing
            }
        },
        AgentStreamItem::ToolGroup { start, end, is_expanded, is_active, .. } => {
            if *start < *end && *end <= window.traces.len() {
                RowAppearance::ToolGroup(
                    tool_group_appearance(&window.traces, *start, *end, *is_expanded, *is_active),
                )
            } else {
                RowAppearance::Nothing
            }
        },
        AgentStreamItem::BashApproval { approval_index, .. } => {
            if *approval_index < window.bash_approvals.len() {
                RowAppearance::Card(
                    approval_card_appearance(&window.bash_approvals[*approval_index]),
                )
            } else {
                RowAppearance::Nothing
            }
        },
        AgentStreamItem::Spacer => RowAppearance::Spacer,
    }
}

// ---------------------------------------------------------------------------
// The window around the rows
// ---------------------------------------------------------------------------

/// What the window shows around its rows.
#[derive(Debug, PartialEq, Eq)]
pub struct WindowFrame {
    /// The line beside the window's name.
    pub subtitle: String,
    /// Whether the message can be sent.
    pub can_send_message: bool,
    /// Whether the session can be stopped.
    pub can_cancel_session: bool,
    /// Whether the way back to the newest row is offered.
    pub show_jump_to_latest: bool,
    /// Whether the input takes nothing.
    pub is_input_disabled: bool,
    /// Whether the window asks before it closes.
    pub show_close_confirmation: bool,
    /// Whether the time keeps running.
    pub keeps_time: bool,
}

/// Works out what the window shows around its rows. `status_label` names the
/// session's status.
pub fn window_frame(window: &AgentWindow, status_label: &str) -> (result: WindowFrame)
    ensures
        result.subtitle@ == status_label@ + " · "@ + shortened(window@.session_id),
        result.can_send_message == (window@.status.is_steerable() && window@.message_text().len()
            > 0),
        result.can_cancel_session == window@.status.is_steerable(),
        result.show_jump_to_latest == !window@.is_trace_following,
        result.is_input_disabled == !window@.status.is_steerable(),
        result.show_close_confirmation == window@.show_close_confirmation,
        result.keeps_time == !window@.status.ends_session(),
{
    let mut subtitle = status_label.to_owned();
    subtitle.push_str(" · ");
    subtitle.push_str(short_id(window.session_id.as_str()).as_str());
    let is_steerable = window.status.can_be_steered();
    let content = trim(window.message_input.value.as_str());
    let has_message = !content.as_str().is_empty();
    WindowFrame {
        subtitle,
        can_send_message: is_steerable && has_message,
        can_cancel_session: is_steerable,
        show_jump_to_latest: !window.is_trace_following,
        is_input_disabled: !is_steerable,
        show_close_confirmation: window.show_close_confirmation,
        keeps_time: !window.status.is_terminal(),
    }
}

/// What a small button shows.
#[derive(Clone, Copy, Debug, PartialEq, Eq, Structural)]
pub struct ActionButtonAppearance {
    /// What lies behind its label.
    pub background: ThemeColor,
    /// Whether it fades.
    pub is_faded: bool,
    /// Whether it takes clicks.
    pub takes_clicks: bool,
}

/// Works out what a small button shows.
pub fn action_button(primary: bool, enabled: bool) -> (result: ActionButtonAppearance)
    ensures
        result == (ActionButtonAppearance {
            background: if primary {
                ThemeColor::Selection
            } else {
                ThemeColor::CurrentLine
            },
            is_faded: !enabled,
            takes_clicks: enabled,
        }),
{
    ActionButtonAppearance {
        background: if primary {
            ThemeColor::Selection
        } else {
            ThemeColor::CurrentLine
        },
        is_faded: !enabled,
        takes_clicks: enabled,
    }
}

} // verus!
