//! Small decisions of the bar of workspaces, the question for an archive's
//! password and the floating assistant window.

use vstd::prelude::*;
use crate::icon::ArgusIcon;
use crate::theme::ThemeColor;

verus! {

// ---------------------------------------------------------------------------
// Workspaces
// ---------------------------------------------------------------------------

/// A workspace.
#[derive(Clone, Copy, Debug, PartialEq, Eq, Structural)]
pub enum Workspace {
    /// The analysis of logs.
    LogAnalysis,
    /// The settings.
    Settings,
}

/// A button that leads to a workspace.
#[derive(Clone, Copy, Debug, PartialEq, Eq, Structural)]
pub struct ActivityButton {
    /// Its icon.
    pub icon: ArgusIcon,
    /// Where it leads.
    pub workspace: Workspace,
    /// Whether the workspace is the present one.
    pub is_active: bool,
}

/// The id of a workspace's button.
pub open spec fn activity_id(workspace: Workspace) -> Seq<char> {
    match workspace {
        Workspace::LogAnalysis => "activity-log-analysis"@,
        Workspace::Settings => "activity-settings"@,
    }
}

/// What a workspace's button says when the pointer rests on it.
pub open spec fn activity_hint(workspace: Workspace) -> Seq<char> {
    match workspace {
        Workspace::LogAnalysis => "日志分析"@,
        Workspace::Settings => "设置"@,
    }
}

impl Workspace {
    /// The id of the workspace's button.
    pub fn element_id(self) -> (result: &'static str)
        ensures
            result@ == activity_id(self),
    {
        match self {
            Workspace::LogAnalysis => "activity-log-analysis",
            Workspace::Settings => "activity-settings",
        }
    }

    /// What the workspace's button says when the pointer rests on it.
    pub fn tooltip(self) -> (result: &'static str)
        ensures
            result@ == activity_hint(self),
    {
        match self {
            Workspace::LogAnalysis => "日志分析",
            Workspace::Settings => "设置",
        }
    }
}

/// The button that leads to a workspace, while another, or the same, is shown.
pub fn activity_button(workspace: Workspace, active: Workspace) -> (result: ActivityButton)
    ensures
        result == (ActivityButton {
            icon: match workspace {
                Workspace::LogAnalysis => ArgusIcon::Logs,
                Workspace::Settings => ArgusIcon::Settings,
            },
            workspace,
            is_active: workspace == active,
        }),
{
    ActivityButton {
        icon: match workspace {
            Workspace::LogAnalysis => ArgusIcon::Logs,
            Workspace::Settings => ArgusIcon::Settings,
        },
        workspace,
        is_active: workspace == active,
    }
}

// ---------------------------------------------------------------------------
// Passwords of archives
// ---------------------------------------------------------------------------

/// Why an archive asks for a password.
#[derive(Clone, Copy, Debug, PartialEq, Eq, Structural)]
pub enum ArchivePasswordErrorKind {
    /// It has one.
    Required,
    /// The last one was wrong.
    Invalid,
    /// Its encryption is unknown.
    Unsupported,
}

/// What the question for a password says.
pub open spec fn password_text(kind: ArchivePasswordErrorKind) -> Seq<char> {
    match kind {
        ArchivePasswordErrorKind::Required => "该压缩包已加密，需要输入密码后继续。"@,
        ArchivePasswordErrorKind::Invalid => "上一次密码无法解锁该压缩包，请重新输入。"@,
        ArchivePasswordErrorKind::Unsupported => "该压缩包使用了暂不支持的加密方式。"@,
    }
}

/// Says why an archive asks for a password.
pub fn password_description(kind: ArchivePasswordErrorKind) -> (result: &'static str)
    ensures
        result@ == password_text(kind),
{
    match kind {
        ArchivePasswordErrorKind::Required => "该压缩包已加密，需要输入密码后继续。",
        ArchivePasswordErrorKind::Invalid => "上一次密码无法解锁该压缩包，请重新输入。",
        ArchivePasswordErrorKind::Unsupported => "该压缩包使用了暂不支持的加密方式。",
    }
}

/// What lies behind a button of the question for a password.
pub fn text_button_background(is_primary: bool) -> (result: ThemeColor)
    ensures
        result == (if is_primary {
            ThemeColor::CurrentLine
        } else {
            ThemeColor::Content
        }),
{
    if is_primary {
        ThemeColor::CurrentLine
    } else {
        ThemeColor::Content
    }
}

// ---------------------------------------------------------------------------
// Windows
// ---------------------------------------------------------------------------

/// What a press on a window's title does.
#[derive(Clone, Copy, Debug, PartialEq, Eq, Structural)]
pub enum TitlePress {
    /// It begins to move the window.
    Drag,
    /// It makes the window larger or smaller.
    Zoom,
    /// Nothing.
    Ignored,
}

/// Works out what a press on a window's title does, by how often in a row.
pub fn title_press(click_count: usize) -> (result: TitlePress)
    ensures
        result == (if click_count == 1 {
            TitlePress::Drag
        } else if click_count == 2 {
            TitlePress::Zoom
        } else {
            TitlePress::Ignored
        }),
{
    match click_count {
        1 => TitlePress::Drag,
        2 => TitlePress::Zoom,
        _ => TitlePress::Ignored,
    }
}

} // verus!
