//! The icons of the interface: what each one means, where its file lies, and
//! the SVG document that it stands for.

use icondata::{
    LuArchive, LuArrowDown, LuArrowLeft, LuArrowRight, LuArrowUp, LuCaseSensitive,
    LuChevronDown, LuChevronRight, LuCopy, LuDatabase, LuDownload, LuEllipsis, LuFile,
    LuFileText, LuFolder, LuFolderOpen, LuFolderPlus, LuGitBranch, LuHistory, LuInfo,
    LuKeyRound, LuKeyboard, LuLink, LuListCollapse, LuListFilter, LuLogs, LuMinus, LuPalette,
    LuPanelLeft, LuPencil, LuPlug, LuPlus, LuRefreshCw, LuRegex, LuSave, LuSearch, LuSettings,
    LuSparkles, LuSquare, LuTerminal, LuToggleLeft, LuToggleRight, LuTrash2, LuType, LuUpload,
    LuWholeWord, LuWrapText, LuX, LuZap,
};
use vstd::prelude::*;
use crate::text::same_text;

verus! {

/// What an icon of the interface means.
#[derive(Clone, Copy, Debug, PartialEq, Eq, Structural)]
pub enum ArgusIcon {
    /// The log workspace.
    Logs,
    /// The settings.
    Settings,
    /// Information.
    Info,
    /// Opening a source.
    Open,
    /// Loading a log source.
    FolderPlus,
    /// Searching.
    Search,
    /// The quick search.
    QuickSearch,
    /// The analysis by a model.
    SmartAnalysis,
    /// Filtering the source tree.
    Filter,
    /// The connections.
    Connection,
    /// A link.
    Link,
    /// A Git repository.
    GitBranch,
    /// An SVN repository.
    History,
    /// The terminal.
    Terminal,
    /// Adding or increasing.
    Plus,
    /// Decreasing.
    Minus,
    /// Closing.
    Close,
    /// Maximising a window.
    WindowMaximize,
    /// Restoring a window.
    WindowRestore,
    /// The layout.
    Layout,
    /// More actions.
    More,
    /// Back.
    ArrowLeft,
    /// Up.
    ArrowUp,
    /// Forward.
    ArrowRight,
    /// Down.
    ArrowDown,
    /// Refreshing.
    Refresh,
    /// Uploading.
    Upload,
    /// Downloading.
    Download,
    /// Saving.
    Save,
    /// Renaming.
    Rename,
    /// Deleting.
    Trash,
    /// Collapsing.
    Collapse,
    /// Collapsing a whole tree.
    ListCollapse,
    /// Expanding.
    Expand,
    /// Wrapping lines.
    Wrap,
    /// A directory.
    Folder,
    /// An open directory.
    FolderOpen,
    /// A file.
    File,
    /// A log file.
    FileText,
    /// An archive.
    Archive,
    /// The theme.
    Palette,
    /// The encoding.
    Type,
    /// The cache.
    Database,
    /// The shortcuts.
    Keyboard,
    /// A key.
    Key,
    /// Matching the letter case.
    CaseSensitive,
    /// Regular expressions.
    Regex,
    /// Matching whole words.
    WholeWord,
    /// A switch that is off.
    ToggleLeft,
    /// A switch that is on.
    ToggleRight,
}

/// The Lucide icons that the interface draws.
#[derive(Clone, Copy, Debug, PartialEq, Eq, Structural)]
pub enum LucideIcon {
    /// The Lucide icon `Logs`.
    Logs,
    /// The Lucide icon `Settings`.
    Settings,
    /// The Lucide icon `Info`.
    Info,
    /// The Lucide icon `FolderOpen`.
    FolderOpen,
    /// The Lucide icon `FolderPlus`.
    FolderPlus,
    /// The Lucide icon `Search`.
    Search,
    /// The Lucide icon `Zap`.
    Zap,
    /// The Lucide icon `Sparkles`.
    Sparkles,
    /// The Lucide icon `ListFilter`.
    ListFilter,
    /// The Lucide icon `Plug`.
    Plug,
    /// The Lucide icon `Link`.
    Link,
    /// The Lucide icon `GitBranch`.
    GitBranch,
    /// The Lucide icon `History`.
    History,
    /// The Lucide icon `Terminal`.
    Terminal,
    /// The Lucide icon `Plus`.
    Plus,
    /// The Lucide icon `Minus`.
    Minus,
    /// The Lucide icon `X`.
    X,
    /// The Lucide icon `Square`.
    Square,
    /// The Lucide icon `Copy`.
    Copy,
    /// The Lucide icon `PanelLeft`.
    PanelLeft,
    /// The Lucide icon `Ellipsis`.
    Ellipsis,
    /// The Lucide icon `ArrowLeft`.
    ArrowLeft,
    /// The Lucide icon `ArrowUp`.
    ArrowUp,
    /// The Lucide icon `ArrowRight`.
    ArrowRight,
    /// The Lucide icon `ArrowDown`.
    ArrowDown,
    /// The Lucide icon `RefreshCw`.
    RefreshCw,
    /// The Lucide icon `Upload`.
    Upload,
    /// The Lucide icon `Download`.
    Download,
    /// The Lucide icon `Save`.
    Save,
    /// The Lucide icon `Pencil`.
    Pencil,
    /// The Lucide icon `Trash2`.
    Trash2,
    /// The Lucide icon `ChevronDown`.
    ChevronDown,
    /// The Lucide icon `ListCollapse`.
    ListCollapse,
    /// The Lucide icon `ChevronRight`.
    ChevronRight,
    /// The Lucide icon `WrapText`.
    WrapText,
    /// The Lucide icon `Folder`.
    Folder,
    /// The Lucide icon `File`.
    File,
    /// The Lucide icon `FileText`.
    FileText,
    /// The Lucide icon `Archive`.
    Archive,
    /// The Lucide icon `Palette`.
    Palette,
    /// The Lucide icon `Type`.
    Type,
    /// The Lucide icon `Database`.
    Database,
    /// The Lucide icon `Keyboard`.
    Keyboard,
    /// The Lucide icon `KeyRound`.
    KeyRound,
    /// The Lucide icon `CaseSensitive`.
    CaseSensitive,
    /// The Lucide icon `Regex`.
    Regex,
    /// The Lucide icon `WholeWord`.
    WholeWord,
    /// The Lucide icon `ToggleLeft`.
    ToggleLeft,
    /// The Lucide icon `ToggleRight`.
    ToggleRight,
}

/// The parts of an SVG document that an icon brings.
#[derive(Clone, Copy, Debug, PartialEq, Eq)]
pub struct IconParts {
    /// The width.
    pub width: Option<&'static str>,
    /// The height.
    pub height: Option<&'static str>,
    /// The view box.
    pub view_box: Option<&'static str>,
    /// What fills its shapes.
    pub fill: Option<&'static str>,
    /// What draws its lines.
    pub stroke: Option<&'static str>,
    /// The width of its lines.
    pub stroke_width: Option<&'static str>,
    /// How its lines end.
    pub stroke_linecap: Option<&'static str>,
    /// How its lines meet.
    pub stroke_linejoin: Option<&'static str>,
    /// Its shapes.
    pub data: &'static str,
}

/// [`IconParts`] with its texts as sequences of characters.
#[verifier::ext_equal]
pub struct IconPartsModel {
    /// The width.
    pub width: Option<Seq<char>>,
    /// The height.
    pub height: Option<Seq<char>>,
    /// The view box.
    pub view_box: Option<Seq<char>>,
    /// What fills its shapes.
    pub fill: Option<Seq<char>>,
    /// What draws its lines.
    pub stroke: Option<Seq<char>>,
    /// The width of its lines.
    pub stroke_width: Option<Seq<char>>,
    /// How its lines end.
    pub stroke_linecap: Option<Seq<char>>,
    /// How its lines meet.
    pub stroke_linejoin: Option<Seq<char>>,
    /// Its shapes.
    pub data: Seq<char>,
}

/// The characters of a fixed text that may be missing.
pub open spec fn optional_str(text: Option<&'static str>) -> Option<Seq<char>> {
    match text {
        Some(present) => Some(present@),
        None => None,
    }
}

impl View for IconParts {
    type V = IconPartsModel;

    open spec fn view(&self) -> IconPartsModel {
        IconPartsModel {
            width: optional_str(self.width),
            height: optional_str(self.height),
            view_box: optional_str(self.view_box),
            fill: optional_str(self.fill),
            stroke: optional_str(self.stroke),
            stroke_width: optional_str(self.stroke_width),
            stroke_linecap: optional_str(self.stroke_linecap),
            stroke_linejoin: optional_str(self.stroke_linejoin),
            data: self.data@,
        }
    }
}

/// What the icon collection holds for a Lucide icon.
pub uninterp spec fn lucide_data(icon: LucideIcon) -> IconPartsModel;

/// The constants `icondata::Lu..`, one for each [`LucideIcon`] in its order. Each
/// is fixed data of the icon collection, so it depends on the icon alone.
#[verifier::external_body]
fn lucide_parts(icon: LucideIcon) -> (result: IconParts)
    ensures
        result@ == lucide_data(icon),
{
    let table = [
        LuLogs, LuSettings, LuInfo, LuFolderOpen, LuFolderPlus, LuSearch, LuZap,
        LuSparkles, LuListFilter, LuPlug, LuLink, LuGitBranch, LuHistory, LuTerminal,
        LuPlus, LuMinus, LuX, LuSquare, LuCopy, LuPanelLeft, LuEllipsis, LuArrowLeft,
        LuArrowUp, LuArrowRight, LuArrowDown, LuRefreshCw, LuUpload, LuDownload, LuSave,
        LuPencil, LuTrash2, LuChevronDown, LuListCollapse, LuChevronRight, LuWrapText,
        LuFolder, LuFile, LuFileText, LuArchive, LuPalette, LuType, LuDatabase, LuKeyboard,
        LuKeyRound, LuCaseSensitive, LuRegex, LuWholeWord, LuToggleLeft, LuToggleRight,
    ];
    let i = table[icon as usize];
    IconParts {
        width: i.width, height: i.height, view_box: i.view_box, fill: i.fill, stroke: i.stroke,
        stroke_width: i.stroke_width, stroke_linecap: i.stroke_linecap,
        stroke_linejoin: i.stroke_linejoin, data: i.data,
    }
}

/// A text, or another in its place.
pub open spec fn text_or(text: Option<Seq<char>>, other: Seq<char>) -> Seq<char> {
    match text {
        Some(present) => present,
        None => other,
    }
}

/// The SVG document that an icon's parts make.
pub open spec fn svg_document(parts: IconPartsModel) -> Seq<char> {
    "<svg xmlns=\"http://www.w3.org/2000/svg\" width=\""@ + text_or(parts.width, "24"@)
        + "\" height=\""@ + text_or(parts.height, "24"@) + "\" viewBox=\""@ + text_or(
        parts.view_box,
        "0 0 24 24"@,
    ) + "\" fill=\""@ + text_or(parts.fill, "none"@) + "\" stroke=\""@ + text_or(
        parts.stroke,
        "currentColor"@,
    ) + "\" stroke-width=\""@ + text_or(parts.stroke_width, "2"@) + "\" stroke-linecap=\""@
        + text_or(parts.stroke_linecap, "round"@) + "\" stroke-linejoin=\""@ + text_or(
        parts.stroke_linejoin,
        "round"@,
    ) + "\">"@ + parts.data + "</svg>"@
}

fn push_or(document: &mut String, text: Option<&'static str>, other: &'static str)
    ensures
        final(document)@ == old(document)@ + text_or(optional_str(text), other@),
{
    match text {
        Some(present) => document.push_str(present),
        None => document.push_str(other),
    }
}

/// Makes an SVG document of an icon's parts. What the icon leaves open gets the
/// interface's own value.
pub fn svg_string(parts: &IconParts) -> (result: String)
    ensures
        result@ == svg_document(parts@),
{
    let mut document = "<svg xmlns=\"http://www.w3.org/2000/svg\" width=\"".to_owned();
    push_or(&mut document, parts.width, "24");
    document.push_str("\" height=\"");
    push_or(&mut document, parts.height, "24");
    document.push_str("\" viewBox=\"");
    push_or(&mut document, parts.view_box, "0 0 24 24");
    document.push_str("\" fill=\"");
    push_or(&mut document, parts.fill, "none");
    document.push_str("\" stroke=\"");
    push_or(&mut document, parts.stroke, "currentColor");
    document.push_str("\" stroke-width=\"");
    push_or(&mut document, parts.stroke_width, "2");
    document.push_str("\" stroke-linecap=\"");
    push_or(&mut document, parts.stroke_linecap, "round");
    document.push_str("\" stroke-linejoin=\"");
    push_or(&mut document, parts.stroke_linejoin, "round");
    document.push_str("\">");
    document.push_str(parts.data);
    document.push_str("</svg>");
    document
}

impl ArgusIcon {
    /// Every icon, in the order of its definition.
    pub open spec fn every() -> Seq<ArgusIcon> {
        seq![
            ArgusIcon::Logs,
            ArgusIcon::Settings,
            ArgusIcon::Info,
            ArgusIcon::Open,
            ArgusIcon::FolderPlus,
            ArgusIcon::Search,
            ArgusIcon::QuickSearch,
            ArgusIcon::SmartAnalysis,
            ArgusIcon::Filter,
            ArgusIcon::Connection,
            ArgusIcon::Link,
            ArgusIcon::GitBranch,
            ArgusIcon::History,
            ArgusIcon::Terminal,
            ArgusIcon::Plus,
            ArgusIcon::Minus,
            ArgusIcon::Close,
            ArgusIcon::WindowMaximize,
            ArgusIcon::WindowRestore,
            ArgusIcon::Layout,
            ArgusIcon::More,
            ArgusIcon::ArrowLeft,
            ArgusIcon::ArrowUp,
            ArgusIcon::ArrowRight,
            ArgusIcon::ArrowDown,
            ArgusIcon::Refresh,
            ArgusIcon::Upload,
            ArgusIcon::Download,
            ArgusIcon::Save,
            ArgusIcon::Rename,
            ArgusIcon::Trash,
            ArgusIcon::Collapse,
            ArgusIcon::ListCollapse,
            ArgusIcon::Expand,
            ArgusIcon::Wrap,
            ArgusIcon::Folder,
            ArgusIcon::FolderOpen,
            ArgusIcon::File,
            ArgusIcon::FileText,
            ArgusIcon::Archive,
            ArgusIcon::Palette,
            ArgusIcon::Type,
            ArgusIcon::Database,
            ArgusIcon::Keyboard,
            ArgusIcon::Key,
            ArgusIcon::CaseSensitive,
            ArgusIcon::Regex,
            ArgusIcon::WholeWord,
            ArgusIcon::ToggleLeft,
            ArgusIcon::ToggleRight,
        ]
    }

    /// Every icon that the asset source can load.
    pub fn all() -> (result: Vec<ArgusIcon>)
        ensures
            result@ == ArgusIcon::every(),
    {
        let result: Vec<ArgusIcon> = vec![
            ArgusIcon::Logs,
            ArgusIcon::Settings,
            ArgusIcon::Info,
            ArgusIcon::Open,
            ArgusIcon::FolderPlus,
            ArgusIcon::Search,
            ArgusIcon::QuickSearch,
            ArgusIcon::SmartAnalysis,
            ArgusIcon::Filter,
            ArgusIcon::Connection,
            ArgusIcon::Link,
            ArgusIcon::GitBranch,
            ArgusIcon::History,
            ArgusIcon::Terminal,
            ArgusIcon::Plus,
            ArgusIcon::Minus,
            ArgusIcon::Close,
            ArgusIcon::WindowMaximize,
            ArgusIcon::WindowRestore,
            ArgusIcon::Layout,
            ArgusIcon::More,
            ArgusIcon::ArrowLeft,
            ArgusIcon::ArrowUp,
            ArgusIcon::ArrowRight,
            ArgusIcon::ArrowDown,
            ArgusIcon::Refresh,
            ArgusIcon::Upload,
            ArgusIcon::Download,
            ArgusIcon::Save,
            ArgusIcon::Rename,
            ArgusIcon::Trash,
            ArgusIcon::Collapse,
            ArgusIcon::ListCollapse,
            ArgusIcon::Expand,
            ArgusIcon::Wrap,
            ArgusIcon::Folder,
            ArgusIcon::FolderOpen,
            ArgusIcon::File,
            ArgusIcon::FileText,
            ArgusIcon::Archive,
            ArgusIcon::Palette,
            ArgusIcon::Type,
            ArgusIcon::Database,
            ArgusIcon::Keyboard,
            ArgusIcon::Key,
            ArgusIcon::CaseSensitive,
            ArgusIcon::Regex,
            ArgusIcon::WholeWord,
            ArgusIcon::ToggleLeft,
            ArgusIcon::ToggleRight,
        ];
        proof {
            assert(result@ =~= ArgusIcon::every());
        }
        result
    }

    /// The path under which an icon is asked for.
    pub open spec fn asset_path(self) -> Seq<char> {
        match self {
            ArgusIcon::Logs => "icons/logs.svg"@,
            ArgusIcon::Settings => "icons/settings.svg"@,
            ArgusIcon::Info => "icons/info.svg"@,
            ArgusIcon::Open => "icons/open.svg"@,
            ArgusIcon::FolderPlus => "icons/folder-plus.svg"@,
            ArgusIcon::Search => "icons/search.svg"@,
            ArgusIcon::QuickSearch => "icons/quick-search.svg"@,
            ArgusIcon::SmartAnalysis => "icons/smart-analysis.svg"@,
            ArgusIcon::Filter => "icons/filter.svg"@,
            ArgusIcon::Connection => "icons/connection.svg"@,
            ArgusIcon::Link => "icons/link.svg"@,
            ArgusIcon::GitBranch => "icons/git-branch.svg"@,
            ArgusIcon::History => "icons/history.svg"@,
            ArgusIcon::Terminal => "icons/terminal.svg"@,
            ArgusIcon::Plus => "icons/plus.svg"@,
            ArgusIcon::Minus => "icons/minus.svg"@,
            ArgusIcon::Close => "icons/close.svg"@,
            ArgusIcon::WindowMaximize => "icons/window-maximize.svg"@,
            ArgusIcon::WindowRestore => "icons/window-restore.svg"@,
            ArgusIcon::Layout => "icons/layout.svg"@,
            ArgusIcon::More => "icons/more.svg"@,
            ArgusIcon::ArrowLeft => "icons/arrow-left.svg"@,
            ArgusIcon::ArrowUp => "icons/arrow-up.svg"@,
            ArgusIcon::ArrowRight => "icons/arrow-right.svg"@,
            ArgusIcon::ArrowDown => "icons/arrow-down.svg"@,
            ArgusIcon::Refresh => "icons/refresh.svg"@,
            ArgusIcon::Upload => "icons/upload.svg"@,
            ArgusIcon::Download => "icons/download.svg"@,
            ArgusIcon::Save => "icons/save.svg"@,
            ArgusIcon::Rename => "icons/rename.svg"@,
            ArgusIcon::Trash => "icons/trash.svg"@,
            ArgusIcon::Collapse => "icons/collapse.svg"@,
            ArgusIcon::ListCollapse => "icons/list-collapse.svg"@,
            ArgusIcon::Expand => "icons/expand.svg"@,
            ArgusIcon::Wrap => "icons/wrap.svg"@,
            ArgusIcon::Folder => "icons/folder.svg"@,
            ArgusIcon::FolderOpen => "icons/folder-open.svg"@,
            ArgusIcon::File => "icons/file.svg"@,
            ArgusIcon::FileText => "icons/file-text.svg"@,
            ArgusIcon::Archive => "icons/archive.svg"@,
            ArgusIcon::Palette => "icons/palette.svg"@,
            ArgusIcon::Type => "icons/type.svg"@,
            ArgusIcon::Database => "icons/database.svg"@,
            ArgusIcon::Keyboard => "icons/keyboard.svg"@,
            ArgusIcon::Key => "icons/key.svg"@,
            ArgusIcon::CaseSensitive => "icons/case-sensitive.svg"@,
            ArgusIcon::Regex => "icons/regex.svg"@,
            ArgusIcon::WholeWord => "icons/whole-word.svg"@,
            ArgusIcon::ToggleLeft => "icons/toggle-left.svg"@,
            ArgusIcon::ToggleRight => "icons/toggle-right.svg"@,
        }
    }

    /// The path under which an icon is asked for.
    pub fn path(self) -> (result: &'static str)
        ensures
            result@ == self.asset_path(),
    {
        match self {
            ArgusIcon::Logs => "icons/logs.svg",
            ArgusIcon::Settings => "icons/settings.svg",
            ArgusIcon::Info => "icons/info.svg",
            ArgusIcon::Open => "icons/open.svg",
            ArgusIcon::FolderPlus => "icons/folder-plus.svg",
            ArgusIcon::Search => "icons/search.svg",
            ArgusIcon::QuickSearch => "icons/quick-search.svg",
            ArgusIcon::SmartAnalysis => "icons/smart-analysis.svg",
            ArgusIcon::Filter => "icons/filter.svg",
            ArgusIcon::Connection => "icons/connection.svg",
            ArgusIcon::Link => "icons/link.svg",
            ArgusIcon::GitBranch => "icons/git-branch.svg",
            ArgusIcon::History => "icons/history.svg",
            ArgusIcon::Terminal => "icons/terminal.svg",
            ArgusIcon::Plus => "icons/plus.svg",
            ArgusIcon::Minus => "icons/minus.svg",
            ArgusIcon::Close => "icons/close.svg",
            ArgusIcon::WindowMaximize => "icons/window-maximize.svg",
            ArgusIcon::WindowRestore => "icons/window-restore.svg",
            ArgusIcon::Layout => "icons/layout.svg",
            ArgusIcon::More => "icons/more.svg",
            ArgusIcon::ArrowLeft => "icons/arrow-left.svg",
            ArgusIcon::ArrowUp => "icons/arrow-up.svg",
            ArgusIcon::ArrowRight => "icons/arrow-right.svg",
            ArgusIcon::ArrowDown => "icons/arrow-down.svg",
            ArgusIcon::Refresh => "icons/refresh.svg",
            ArgusIcon::Upload => "icons/upload.svg",
            ArgusIcon::Download => "icons/download.svg",
            ArgusIcon::Save => "icons/save.svg",
            ArgusIcon::Rename => "icons/rename.svg",
            ArgusIcon::Trash => "icons/trash.svg",
            ArgusIcon::Collapse => "icons/collapse.svg",
            ArgusIcon::ListCollapse => "icons/list-collapse.svg",
            ArgusIcon::Expand => "icons/expand.svg",
            ArgusIcon::Wrap => "icons/wrap.svg",
            ArgusIcon::Folder => "icons/folder.svg",
            ArgusIcon::FolderOpen => "icons/folder-open.svg",
            ArgusIcon::File => "icons/file.svg",
            ArgusIcon::FileText => "icons/file-text.svg",
            ArgusIcon::Archive => "icons/archive.svg",
            ArgusIcon::Palette => "icons/palette.svg",
            ArgusIcon::Type => "icons/type.svg",
            ArgusIcon::Database => "icons/database.svg",
            ArgusIcon::Keyboard => "icons/keyboard.svg",
            ArgusIcon::Key => "icons/key.svg",
            ArgusIcon::CaseSensitive => "icons/case-sensitive.svg",
            ArgusIcon::Regex => "icons/regex.svg",
            ArgusIcon::WholeWord => "icons/whole-word.svg",
            ArgusIcon::ToggleLeft => "icons/toggle-left.svg",
            ArgusIcon::ToggleRight => "icons/toggle-right.svg",
        }
    }

    /// The icon that is asked for under a path.
    pub fn from_path(path: &str) -> (result: Option<ArgusIcon>)
        ensures
            match result {
                Some(icon) => icon.asset_path() == path@,
                None => forall|icon: ArgusIcon| icon.asset_path() != path@,
            },
    {
        let icons = ArgusIcon::all();
        let mut i: usize = 0;
        while i < icons.len()
            invariant
                i <= icons@.len(),
                icons@ == ArgusIcon::every(),
                forall|k: int| 0 <= k < i ==> (#[trigger] icons@[k]).asset_path() != path@,
            decreases icons@.len() - i,
        {
            let icon = icons[i];
            if same_text(icon.path(), path) {
                return Some(icon);
            }
            i += 1;
        }
        proof {
            assert forall|icon: ArgusIcon| icon.asset_path() != path@ by {
                lemma_every_icon(icon);
                let k = choose|k: int|
                    0 <= k < ArgusIcon::every().len() && ArgusIcon::every()[k] == icon;
                assert(icons@[k] == icon);
            }
        }
        None
    }

    /// The name of an icon's file: its path without the directory.
    pub open spec fn asset_name(self) -> Seq<char> {
        match self {
            ArgusIcon::Logs => "logs.svg"@,
            ArgusIcon::Settings => "settings.svg"@,
            ArgusIcon::Info => "info.svg"@,
            ArgusIcon::Open => "open.svg"@,
            ArgusIcon::FolderPlus => "folder-plus.svg"@,
            ArgusIcon::Search => "search.svg"@,
            ArgusIcon::QuickSearch => "quick-search.svg"@,
            ArgusIcon::SmartAnalysis => "smart-analysis.svg"@,
            ArgusIcon::Filter => "filter.svg"@,
            ArgusIcon::Connection => "connection.svg"@,
            ArgusIcon::Link => "link.svg"@,
            ArgusIcon::GitBranch => "git-branch.svg"@,
            ArgusIcon::History => "history.svg"@,
            ArgusIcon::Terminal => "terminal.svg"@,
            ArgusIcon::Plus => "plus.svg"@,
            ArgusIcon::Minus => "minus.svg"@,
            ArgusIcon::Close => "close.svg"@,
            ArgusIcon::WindowMaximize => "window-maximize.svg"@,
            ArgusIcon::WindowRestore => "window-restore.svg"@,
            ArgusIcon::Layout => "layout.svg"@,
            ArgusIcon::More => "more.svg"@,
            ArgusIcon::ArrowLeft => "arrow-left.svg"@,
            ArgusIcon::ArrowUp => "arrow-up.svg"@,
            ArgusIcon::ArrowRight => "arrow-right.svg"@,
            ArgusIcon::ArrowDown => "arrow-down.svg"@,
            ArgusIcon::Refresh => "refresh.svg"@,
            ArgusIcon::Upload => "upload.svg"@,
            ArgusIcon::Download => "download.svg"@,
            ArgusIcon::Save => "save.svg"@,
            ArgusIcon::Rename => "rename.svg"@,
            ArgusIcon::Trash => "trash.svg"@,
            ArgusIcon::Collapse => "collapse.svg"@,
            ArgusIcon::ListCollapse => "list-collapse.svg"@,
            ArgusIcon::Expand => "expand.svg"@,
            ArgusIcon::Wrap => "wrap.svg"@,
            ArgusIcon::Folder => "folder.svg"@,
            ArgusIcon::FolderOpen => "folder-open.svg"@,
            ArgusIcon::File => "file.svg"@,
            ArgusIcon::FileText => "file-text.svg"@,
            ArgusIcon::Archive => "archive.svg"@,
            ArgusIcon::Palette => "palette.svg"@,
            ArgusIcon::Type => "type.svg"@,
            ArgusIcon::Database => "database.svg"@,
            ArgusIcon::Keyboard => "keyboard.svg"@,
            ArgusIcon::Key => "key.svg"@,
            ArgusIcon::CaseSensitive => "case-sensitive.svg"@,
            ArgusIcon::Regex => "regex.svg"@,
            ArgusIcon::WholeWord => "whole-word.svg"@,
            ArgusIcon::ToggleLeft => "toggle-left.svg"@,
            ArgusIcon::ToggleRight => "toggle-right.svg"@,
        }
    }

    /// The name of an icon's file.
    pub fn file_name(self) -> (result: &'static str)
        ensures
            result@ == self.asset_name(),
            self.asset_path() == "icons/"@ + result@,
    {
        proof {
            law_path_is_directory_and_name(self);
        }
        match self {
            ArgusIcon::Logs => "logs.svg",
            ArgusIcon::Settings => "settings.svg",
            ArgusIcon::Info => "info.svg",
            ArgusIcon::Open => "open.svg",
            ArgusIcon::FolderPlus => "folder-plus.svg",
            ArgusIcon::Search => "search.svg",
            ArgusIcon::QuickSearch => "quick-search.svg",
            ArgusIcon::SmartAnalysis => "smart-analysis.svg",
            ArgusIcon::Filter => "filter.svg",
            ArgusIcon::Connection => "connection.svg",
            ArgusIcon::Link => "link.svg",
            ArgusIcon::GitBranch => "git-branch.svg",
            ArgusIcon::History => "history.svg",
            ArgusIcon::Terminal => "terminal.svg",
            ArgusIcon::Plus => "plus.svg",
            ArgusIcon::Minus => "minus.svg",
            ArgusIcon::Close => "close.svg",
            ArgusIcon::WindowMaximize => "window-maximize.svg",
            ArgusIcon::WindowRestore => "window-restore.svg",
            ArgusIcon::Layout => "layout.svg",
            ArgusIcon::More => "more.svg",
            ArgusIcon::ArrowLeft => "arrow-left.svg",
            ArgusIcon::ArrowUp => "arrow-up.svg",
            ArgusIcon::ArrowRight => "arrow-right.svg",
            ArgusIcon::ArrowDown => "arrow-down.svg",
            ArgusIcon::Refresh => "refresh.svg",
            ArgusIcon::Upload => "upload.svg",
            ArgusIcon::Download => "download.svg",
            ArgusIcon::Save => "save.svg",
            ArgusIcon::Rename => "rename.svg",
            ArgusIcon::Trash => "trash.svg",
            ArgusIcon::Collapse => "collapse.svg",
            ArgusIcon::ListCollapse => "list-collapse.svg",
            ArgusIcon::Expand => "expand.svg",
            ArgusIcon::Wrap => "wrap.svg",
            ArgusIcon::Folder => "folder.svg",
            ArgusIcon::FolderOpen => "folder-open.svg",
            ArgusIcon::File => "file.svg",
            ArgusIcon::FileText => "file-text.svg",
            ArgusIcon::Archive => "archive.svg",
            ArgusIcon::Palette => "palette.svg",
            ArgusIcon::Type => "type.svg",
            ArgusIcon::Database => "database.svg",
            ArgusIcon::Keyboard => "keyboard.svg",
            ArgusIcon::Key => "key.svg",
            ArgusIcon::CaseSensitive => "case-sensitive.svg",
            ArgusIcon::Regex => "regex.svg",
            ArgusIcon::WholeWord => "whole-word.svg",
            ArgusIcon::ToggleLeft => "toggle-left.svg",
            ArgusIcon::ToggleRight => "toggle-right.svg",
        }
    }

    /// The Lucide icon that draws an icon.
    pub open spec fn drawing(self) -> LucideIcon {
        match self {
            ArgusIcon::Logs => LucideIcon::Logs,
            ArgusIcon::Settings => LucideIcon::Settings,
            ArgusIcon::Info => LucideIcon::Info,
            ArgusIcon::Open => LucideIcon::FolderOpen,
            ArgusIcon::FolderPlus => LucideIcon::FolderPlus,
            ArgusIcon::Search => LucideIcon::Search,
            ArgusIcon::QuickSearch => LucideIcon::Zap,
            ArgusIcon::SmartAnalysis => LucideIcon::Sparkles,
            ArgusIcon::Filter => LucideIcon::ListFilter,
            ArgusIcon::Connection => LucideIcon::Plug,
            ArgusIcon::Link => LucideIcon::Link,
            ArgusIcon::GitBranch => LucideIcon::GitBranch,
            ArgusIcon::History => LucideIcon::History,
            ArgusIcon::Terminal => LucideIcon::Terminal,
            ArgusIcon::Plus => LucideIcon::Plus,
            ArgusIcon::Minus => LucideIcon::Minus,
            ArgusIcon::Close => LucideIcon::X,
            ArgusIcon::WindowMaximize => LucideIcon::Square,
            ArgusIcon::WindowRestore => LucideIcon::Copy,
            ArgusIcon::Layout => LucideIcon::PanelLeft,
            ArgusIcon::More => LucideIcon::Ellipsis,
            ArgusIcon::ArrowLeft => LucideIcon::ArrowLeft,
            ArgusIcon::ArrowUp => LucideIcon::ArrowUp,
            ArgusIcon::ArrowRight => LucideIcon::ArrowRight,
            ArgusIcon::ArrowDown => LucideIcon::ArrowDown,
            ArgusIcon::Refresh => LucideIcon::RefreshCw,
            ArgusIcon::Upload => LucideIcon::Upload,
            ArgusIcon::Download => LucideIcon::Download,
            ArgusIcon::Save => LucideIcon::Save,
            ArgusIcon::Rename => LucideIcon::Pencil,
            ArgusIcon::Trash => LucideIcon::Trash2,
            ArgusIcon::Collapse => LucideIcon::ChevronDown,
            ArgusIcon::ListCollapse => LucideIcon::ListCollapse,
            ArgusIcon::Expand => LucideIcon::ChevronRight,
            ArgusIcon::Wrap => LucideIcon::WrapText,
            ArgusIcon::Folder => LucideIcon::Folder,
            ArgusIcon::FolderOpen => LucideIcon::FolderOpen,
            ArgusIcon::File => LucideIcon::File,
            ArgusIcon::FileText => LucideIcon::FileText,
            ArgusIcon::Archive => LucideIcon::Archive,
            ArgusIcon::Palette => LucideIcon::Palette,
            ArgusIcon::Type => LucideIcon::Type,
            ArgusIcon::Database => LucideIcon::Database,
            ArgusIcon::Keyboard => LucideIcon::Keyboard,
            ArgusIcon::Key => LucideIcon::KeyRound,
            ArgusIcon::CaseSensitive => LucideIcon::CaseSensitive,
            ArgusIcon::Regex => LucideIcon::Regex,
            ArgusIcon::WholeWord => LucideIcon::WholeWord,
            ArgusIcon::ToggleLeft => LucideIcon::ToggleLeft,
            ArgusIcon::ToggleRight => LucideIcon::ToggleRight,
        }
    }

    /// The Lucide icon that draws an icon.
    pub fn icon_data(self) -> (result: LucideIcon)
        ensures
            result == self.drawing(),
    {
        match self {
            ArgusIcon::Logs => LucideIcon::Logs,
            ArgusIcon::Settings => LucideIcon::Settings,
            ArgusIcon::Info => LucideIcon::Info,
            ArgusIcon::Open => LucideIcon::FolderOpen,
            ArgusIcon::FolderPlus => LucideIcon::FolderPlus,
            ArgusIcon::Search => LucideIcon::Search,
            ArgusIcon::QuickSearch => LucideIcon::Zap,
            ArgusIcon::SmartAnalysis => LucideIcon::Sparkles,
            ArgusIcon::Filter => LucideIcon::ListFilter,
            ArgusIcon::Connection => LucideIcon::Plug,
            ArgusIcon::Link => LucideIcon::Link,
            ArgusIcon::GitBranch => LucideIcon::GitBranch,
            ArgusIcon::History => LucideIcon::History,
            ArgusIcon::Terminal => LucideIcon::Terminal,
            ArgusIcon::Plus => LucideIcon::Plus,
            ArgusIcon::Minus => LucideIcon::Minus,
            ArgusIcon::Close => LucideIcon::X,
            ArgusIcon::WindowMaximize => LucideIcon::Square,
            ArgusIcon::WindowRestore => LucideIcon::Copy,
            ArgusIcon::Layout => LucideIcon::PanelLeft,
            ArgusIcon::More => LucideIcon::Ellipsis,
            ArgusIcon::ArrowLeft => LucideIcon::ArrowLeft,
            ArgusIcon::ArrowUp => LucideIcon::ArrowUp,
            ArgusIcon::ArrowRight => LucideIcon::ArrowRight,
            ArgusIcon::ArrowDown => LucideIcon::ArrowDown,
            ArgusIcon::Refresh => LucideIcon::RefreshCw,
            ArgusIcon::Upload => LucideIcon::Upload,
            ArgusIcon::Download => LucideIcon::Download,
            ArgusIcon::Save => LucideIcon::Save,
            ArgusIcon::Rename => LucideIcon::Pencil,
            ArgusIcon::Trash => LucideIcon::Trash2,
            ArgusIcon::Collapse => LucideIcon::ChevronDown,
            ArgusIcon::ListCollapse => LucideIcon::ListCollapse,
            ArgusIcon::Expand => LucideIcon::ChevronRight,
            ArgusIcon::Wrap => LucideIcon::WrapText,
            ArgusIcon::Folder => LucideIcon::Folder,
            ArgusIcon::FolderOpen => LucideIcon::FolderOpen,
            ArgusIcon::File => LucideIcon::File,
            ArgusIcon::FileText => LucideIcon::FileText,
            ArgusIcon::Archive => LucideIcon::Archive,
            ArgusIcon::Palette => LucideIcon::Palette,
            ArgusIcon::Type => LucideIcon::Type,
            ArgusIcon::Database => LucideIcon::Database,
            ArgusIcon::Keyboard => LucideIcon::Keyboard,
            ArgusIcon::Key => LucideIcon::KeyRound,
            ArgusIcon::CaseSensitive => LucideIcon::CaseSensitive,
            ArgusIcon::Regex => LucideIcon::Regex,
            ArgusIcon::WholeWord => LucideIcon::WholeWord,
            ArgusIcon::ToggleLeft => LucideIcon::ToggleLeft,
            ArgusIcon::ToggleRight => LucideIcon::ToggleRight,
        }
    }

    /// The SVG document of an icon.
    pub fn to_svg_string(self) -> (result: String)
        ensures
            result@ == svg_document(lucide_data(self.drawing())),
    {
        let parts = lucide_parts(self.icon_data());
        svg_string(&parts)
    }
}

proof fn lemma_every_icon(icon: ArgusIcon)
    ensures
        exists|k: int| 0 <= k < ArgusIcon::every().len() && ArgusIcon::every()[k] == icon,
{
    let every = ArgusIcon::every();
    match icon {
        ArgusIcon::Logs => assert(every[0] == icon),
        ArgusIcon::Settings => assert(every[1] == icon),
        ArgusIcon::Info => assert(every[2] == icon),
        ArgusIcon::Open => assert(every[3] == icon),
        ArgusIcon::FolderPlus => assert(every[4] == icon),
        ArgusIcon::Search => assert(every[5] == icon),
        ArgusIcon::QuickSearch => assert(every[6] == icon),
        ArgusIcon::SmartAnalysis => assert(every[7] == icon),
        ArgusIcon::Filter => assert(every[8] == icon),
        ArgusIcon::Connection => assert(every[9] == icon),
        ArgusIcon::Link => assert(every[10] == icon),
        ArgusIcon::GitBranch => assert(every[11] == icon),
        ArgusIcon::History => assert(every[12] == icon),
        ArgusIcon::Terminal => assert(every[13] == icon),
        ArgusIcon::Plus => assert(every[14] == icon),
        ArgusIcon::Minus => assert(every[15] == icon),
        ArgusIcon::Close => assert(every[16] == icon),
        ArgusIcon::WindowMaximize => assert(every[17] == icon),
        ArgusIcon::WindowRestore => assert(every[18] == icon),
        ArgusIcon::Layout => assert(every[19] == icon),
        ArgusIcon::More => assert(every[20] == icon),
        ArgusIcon::ArrowLeft => assert(every[21] == icon),
        ArgusIcon::ArrowUp => assert(every[22] == icon),
        ArgusIcon::ArrowRight => assert(every[23] == icon),
        ArgusIcon::ArrowDown => assert(every[24] == icon),
        ArgusIcon::Refresh => assert(every[25] == icon),
        ArgusIcon::Upload => assert(every[26] == icon),
        ArgusIcon::Download => assert(every[27] == icon),
        ArgusIcon::Save => assert(every[28] == icon),
        ArgusIcon::Rename => assert(every[29] == icon),
        ArgusIcon::Trash => assert(every[30] == icon),
        ArgusIcon::Collapse => assert(every[31] == icon),
        ArgusIcon::ListCollapse => assert(every[32] == icon),
        ArgusIcon::Expand => assert(every[33] == icon),
        ArgusIcon::Wrap => assert(every[34] == icon),
        ArgusIcon::Folder => assert(every[35] == icon),
        ArgusIcon::FolderOpen => assert(every[36] == icon),
        ArgusIcon::File => assert(every[37] == icon),
        ArgusIcon::FileText => assert(every[38] == icon),
        ArgusIcon::Archive => assert(every[39] == icon),
        ArgusIcon::Palette => assert(every[40] == icon),
        ArgusIcon::Type => assert(every[41] == icon),
        ArgusIcon::Database => assert(every[42] == icon),
        ArgusIcon::Keyboard => assert(every[43] == icon),
        ArgusIcon::Key => assert(every[44] == icon),
        ArgusIcon::CaseSensitive => assert(every[45] == icon),
        ArgusIcon::Regex => assert(every[46] == icon),
        ArgusIcon::WholeWord => assert(every[47] == icon),
        ArgusIcon::ToggleLeft => assert(every[48] == icon),
        ArgusIcon::ToggleRight => assert(every[49] == icon),
    }
}

/// Every icon can be loaded.
pub proof fn law_every_icon_is_listed(icon: ArgusIcon)
    ensures
        ArgusIcon::every().contains(icon),
{
    lemma_every_icon(icon);
}

/// The path of an icon is the directory of icons and the name of its file.
pub proof fn law_path_is_directory_and_name(icon: ArgusIcon)
    ensures
        icon.asset_path() == "icons/"@ + icon.asset_name(),
{
    reveal_strlit("icons/");
    match icon {
        ArgusIcon::Logs => {
            reveal_strlit("icons/logs.svg");
            reveal_strlit("logs.svg");
        },
        ArgusIcon::Settings => {
            reveal_strlit("icons/settings.svg");
            reveal_strlit("settings.svg");
        },
        ArgusIcon::Info => {
            reveal_strlit("icons/info.svg");
            reveal_strlit("info.svg");
        },
        ArgusIcon::Open => {
            reveal_strlit("icons/open.svg");
            reveal_strlit("open.svg");
        },
        ArgusIcon::FolderPlus => {
            reveal_strlit("icons/folder-plus.svg");
            reveal_strlit("folder-plus.svg");
        },
        ArgusIcon::Search => {
            reveal_strlit("icons/search.svg");
            reveal_strlit("search.svg");
        },
        ArgusIcon::QuickSearch => {
            reveal_strlit("icons/quick-search.svg");
            reveal_strlit("quick-search.svg");
        },
        ArgusIcon::SmartAnalysis => {
            reveal_strlit("icons/smart-analysis.svg");
            reveal_strlit("smart-analysis.svg");
        },
        ArgusIcon::Filter => {
            reveal_strlit("icons/filter.svg");
            reveal_strlit("filter.svg");
        },
        ArgusIcon::Connection => {
            reveal_strlit("icons/connection.svg");
            reveal_strlit("connection.svg");
        },
        ArgusIcon::Link => {
            reveal_strlit("icons/link.svg");
            reveal_strlit("link.svg");
        },
        ArgusIcon::GitBranch => {
            reveal_strlit("icons/git-branch.svg");
            reveal_strlit("git-branch.svg");
        },
        ArgusIcon::History => {
            reveal_strlit("icons/history.svg");
            reveal_strlit("history.svg");
        },
        ArgusIcon::Terminal => {
            reveal_strlit("icons/terminal.svg");
            reveal_strlit("terminal.svg");
        },
        ArgusIcon::Plus => {
            reveal_strlit("icons/plus.svg");
            reveal_strlit("plus.svg");
        },
        ArgusIcon::Minus => {
            reveal_strlit("icons/minus.svg");
            reveal_strlit("minus.svg");
        },
        ArgusIcon::Close => {
            reveal_strlit("icons/close.svg");
            reveal_strlit("close.svg");
        },
        ArgusIcon::WindowMaximize => {
            reveal_strlit("icons/window-maximize.svg");
            reveal_strlit("window-maximize.svg");
        },
        ArgusIcon::WindowRestore => {
            reveal_strlit("icons/window-restore.svg");
            reveal_strlit("window-restore.svg");
        },
        ArgusIcon::Layout => {
            reveal_strlit("icons/layout.svg");
            reveal_strlit("layout.svg");
        },
        ArgusIcon::More => {
            reveal_strlit("icons/more.svg");
            reveal_strlit("more.svg");
        },
        ArgusIcon::ArrowLeft => {
            reveal_strlit("icons/arrow-left.svg");
            reveal_strlit("arrow-left.svg");
        },
        ArgusIcon::ArrowUp => {
            reveal_strlit("icons/arrow-up.svg");
            reveal_strlit("arrow-up.svg");
        },
        ArgusIcon::ArrowRight => {
            reveal_strlit("icons/arrow-right.svg");
            reveal_strlit("arrow-right.svg");
        },
        ArgusIcon::ArrowDown => {
            reveal_strlit("icons/arrow-down.svg");
            reveal_strlit("arrow-down.svg");
        },
        ArgusIcon::Refresh => {
            reveal_strlit("icons/refresh.svg");
            reveal_strlit("refresh.svg");
        },
        ArgusIcon::Upload => {
            reveal_strlit("icons/upload.svg");
            reveal_strlit("upload.svg");
        },
        ArgusIcon::Download => {
            reveal_strlit("icons/download.svg");
            reveal_strlit("download.svg");
        },
        ArgusIcon::Save => {
            reveal_strlit("icons/save.svg");
            reveal_strlit("save.svg");
        },
        ArgusIcon::Rename => {
            reveal_strlit("icons/rename.svg");
            reveal_strlit("rename.svg");
        },
        ArgusIcon::Trash => {
            reveal_strlit("icons/trash.svg");
            reveal_strlit("trash.svg");
        },
        ArgusIcon::Collapse => {
            reveal_strlit("icons/collapse.svg");
            reveal_strlit("collapse.svg");
        },
        ArgusIcon::ListCollapse => {
            reveal_strlit("icons/list-collapse.svg");
            reveal_strlit("list-collapse.svg");
        },
        ArgusIcon::Expand => {
            reveal_strlit("icons/expand.svg");
            reveal_strlit("expand.svg");
        },
        ArgusIcon::Wrap => {
            reveal_strlit("icons/wrap.svg");
            reveal_strlit("wrap.svg");
        },
        ArgusIcon::Folder => {
            reveal_strlit("icons/folder.svg");
            reveal_strlit("folder.svg");
        },
        ArgusIcon::FolderOpen => {
            reveal_strlit("icons/folder-open.svg");
            reveal_strlit("folder-open.svg");
        },
        ArgusIcon::File => {
            reveal_strlit("icons/file.svg");
            reveal_strlit("file.svg");
        },
        ArgusIcon::FileText => {
            reveal_strlit("icons/file-text.svg");
            reveal_strlit("file-text.svg");
        },
        ArgusIcon::Archive => {
            reveal_strlit("icons/archive.svg");
            reveal_strlit("archive.svg");
        },
        ArgusIcon::Palette => {
            reveal_strlit("icons/palette.svg");
            reveal_strlit("palette.svg");
        },
        ArgusIcon::Type => {
            reveal_strlit("icons/type.svg");
            reveal_strlit("type.svg");
        },
        ArgusIcon::Database => {
            reveal_strlit("icons/database.svg");
            reveal_strlit("database.svg");
        },
        ArgusIcon::Keyboard => {
            reveal_strlit("icons/keyboard.svg");
            reveal_strlit("keyboard.svg");
        },
        ArgusIcon::Key => {
            reveal_strlit("icons/key.svg");
            reveal_strlit("key.svg");
        },
        ArgusIcon::CaseSensitive => {
            reveal_strlit("icons/case-sensitive.svg");
            reveal_strlit("case-sensitive.svg");
        },
        ArgusIcon::Regex => {
            reveal_strlit("icons/regex.svg");
            reveal_strlit("regex.svg");
        },
        ArgusIcon::WholeWord => {
            reveal_strlit("icons/whole-word.svg");
            reveal_strlit("whole-word.svg");
        },
        ArgusIcon::ToggleLeft => {
            reveal_strlit("icons/toggle-left.svg");
            reveal_strlit("toggle-left.svg");
        },
        ArgusIcon::ToggleRight => {
            reveal_strlit("icons/toggle-right.svg");
            reveal_strlit("toggle-right.svg");
        },
    }
    assert(icon.asset_path() =~= "icons/"@ + icon.asset_name());
}

/// A number that tells the paths of the icons apart: made of a path's length and
/// of some of its characters.
spec fn path_signature(text: Seq<char>) -> nat {
    (text.len() * 256 + text[6] as nat) * 256 + text[text.len() - 7] as nat
}

/// The signature of each icon's path.
spec fn signature_of(icon: ArgusIcon) -> nat {
    match icon {
        ArgusIcon::Logs => 945263,
        ArgusIcon::Settings => 1209198,
        ArgusIcon::Info => 944494,
        ArgusIcon::Open => 946032,
        ArgusIcon::FolderPlus => 1402476,
        ArgusIcon::Search => 1078130,
        ArgusIcon::QuickSearch => 1470834,
        ArgusIcon::SmartAnalysis => 1602419,
        ArgusIcon::Filter => 1074804,
        ArgusIcon::Connection => 1336169,
        ArgusIcon::Link => 945257,
        ArgusIcon::GitBranch => 1337198,
        ArgusIcon::History => 1140847,
        ArgusIcon::Terminal => 1209454,
        ArgusIcon::Plus => 946284,
        ArgusIcon::Minus => 1011054,
        ArgusIcon::Close => 1008495,
        ArgusIcon::WindowMaximize => 1668969,
        ArgusIcon::WindowRestore => 1603439,
        ArgusIcon::Layout => 1076335,
        ArgusIcon::More => 945519,
        ArgusIcon::ArrowLeft => 1335653,
        ArgusIcon::ArrowUp => 1204525,
        ArgusIcon::ArrowRight => 1401191,
        ArgusIcon::ArrowDown => 1335663,
        ArgusIcon::Refresh => 1143397,
        ArgusIcon::Upload => 1078639,
        ArgusIcon::Download => 1205359,
        ArgusIcon::Save => 947041,
        ArgusIcon::Rename => 1077857,
        ArgusIcon::Trash => 1012833,
        ArgusIcon::Collapse => 1205104,
        ArgusIcon::ListCollapse => 1535088,
        ArgusIcon::Expand => 1074529,
        ArgusIcon::Wrap => 948082,
        ArgusIcon::Folder => 1074788,
        ArgusIcon::FolderOpen => 1402480,
        ArgusIcon::File => 943721,
        ArgusIcon::FileText => 1271397,
        ArgusIcon::Archive => 1139049,
        ArgusIcon::Palette => 1142900,
        ArgusIcon::Type => 947321,
        ArgusIcon::Database => 1205345,
        ArgusIcon::Keyboard => 1207137,
        ArgusIcon::Key => 879467,
        ArgusIcon::CaseSensitive => 1598313,
        ArgusIcon::Regex => 1012327,
        ArgusIcon::WholeWord => 1341295,
        ArgusIcon::ToggleLeft => 1406053,
        ArgusIcon::ToggleRight => 1471591,
    }
}

proof fn lemma_path_signature(icon: ArgusIcon)
    ensures
        path_signature(icon.asset_path()) == signature_of(icon),
{
    match icon {
        ArgusIcon::Logs => {
            reveal_strlit("icons/logs.svg");
        },
        ArgusIcon::Settings => {
            reveal_strlit("icons/settings.svg");
        },
        ArgusIcon::Info => {
            reveal_strlit("icons/info.svg");
        },
        ArgusIcon::Open => {
            reveal_strlit("icons/open.svg");
        },
        ArgusIcon::FolderPlus => {
            reveal_strlit("icons/folder-plus.svg");
        },
        ArgusIcon::Search => {
            reveal_strlit("icons/search.svg");
        },
        ArgusIcon::QuickSearch => {
            reveal_strlit("icons/quick-search.svg");
        },
        ArgusIcon::SmartAnalysis => {
            reveal_strlit("icons/smart-analysis.svg");
        },
        ArgusIcon::Filter => {
            reveal_strlit("icons/filter.svg");
        },
        ArgusIcon::Connection => {
            reveal_strlit("icons/connection.svg");
        },
        ArgusIcon::Link => {
            reveal_strlit("icons/link.svg");
        },
        ArgusIcon::GitBranch => {
            reveal_strlit("icons/git-branch.svg");
        },
        ArgusIcon::History => {
            reveal_strlit("icons/history.svg");
        },
        ArgusIcon::Terminal => {
            reveal_strlit("icons/terminal.svg");
        },
        ArgusIcon::Plus => {
            reveal_strlit("icons/plus.svg");
        },
        ArgusIcon::Minus => {
            reveal_strlit("icons/minus.svg");
        },
        ArgusIcon::Close => {
            reveal_strlit("icons/close.svg");
        },
        ArgusIcon::WindowMaximize => {
            reveal_strlit("icons/window-maximize.svg");
        },
        ArgusIcon::WindowRestore => {
            reveal_strlit("icons/window-restore.svg");
        },
        ArgusIcon::Layout => {
            reveal_strlit("icons/layout.svg");
        },
        ArgusIcon::More => {
            reveal_strlit("icons/more.svg");
        },
        ArgusIcon::ArrowLeft => {
            reveal_strlit("icons/arrow-left.svg");
        },
        ArgusIcon::ArrowUp => {
            reveal_strlit("icons/arrow-up.svg");
        },
        ArgusIcon::ArrowRight => {
            reveal_strlit("icons/arrow-right.svg");
        },
        ArgusIcon::ArrowDown => {
            reveal_strlit("icons/arrow-down.svg");
        },
        ArgusIcon::Refresh => {
            reveal_strlit("icons/refresh.svg");
        },
        ArgusIcon::Upload => {
            reveal_strlit("icons/upload.svg");
        },
        ArgusIcon::Download => {
            reveal_strlit("icons/download.svg");
        },
        ArgusIcon::Save => {
            reveal_strlit("icons/save.svg");
        },
        ArgusIcon::Rename => {
            reveal_strlit("icons/rename.svg");
        },
        ArgusIcon::Trash => {
            reveal_strlit("icons/trash.svg");
        },
        ArgusIcon::Collapse => {
            reveal_strlit("icons/collapse.svg");
        },
        ArgusIcon::ListCollapse => {
            reveal_strlit("icons/list-collapse.svg");
        },
        ArgusIcon::Expand => {
            reveal_strlit("icons/expand.svg");
        },
        ArgusIcon::Wrap => {
            reveal_strlit("icons/wrap.svg");
        },
        ArgusIcon::Folder => {
            reveal_strlit("icons/folder.svg");
        },
        ArgusIcon::FolderOpen => {
            reveal_strlit("icons/folder-open.svg");
        },
        ArgusIcon::File => {
            reveal_strlit("icons/file.svg");
        },
        ArgusIcon::FileText => {
            reveal_strlit("icons/file-text.svg");
        },
        ArgusIcon::Archive => {
            reveal_strlit("icons/archive.svg");
        },
        ArgusIcon::Palette => {
            reveal_strlit("icons/palette.svg");
        },
        ArgusIcon::Type => {
            reveal_strlit("icons/type.svg");
        },
        ArgusIcon::Database => {
            reveal_strlit("icons/database.svg");
        },
        ArgusIcon::Keyboard => {
            reveal_strlit("icons/keyboard.svg");
        },
        ArgusIcon::Key => {
            reveal_strlit("icons/key.svg");
        },
        ArgusIcon::CaseSensitive => {
            reveal_strlit("icons/case-sensitive.svg");
        },
        ArgusIcon::Regex => {
            reveal_strlit("icons/regex.svg");
        },
        ArgusIcon::WholeWord => {
            reveal_strlit("icons/whole-word.svg");
        },
        ArgusIcon::ToggleLeft => {
            reveal_strlit("icons/toggle-left.svg");
        },
        ArgusIcon::ToggleRight => {
            reveal_strlit("icons/toggle-right.svg");
        },
    }
}

proof fn lemma_signatures_differ(first: ArgusIcon, second: ArgusIcon)
    requires
        signature_of(first) == signature_of(second),
    ensures
        first == second,
{
}

/// No two icons share a path, so asking for an icon's path finds that icon.
pub proof fn law_paths_are_distinct(first: ArgusIcon, second: ArgusIcon)
    requires
        first.asset_path() == second.asset_path(),
    ensures
        first == second,
{
    lemma_path_signature(first);
    lemma_path_signature(second);
    lemma_signatures_differ(first, second);
}

} // verus!
