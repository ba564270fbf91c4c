//! Context menus: their entries, what an entry asks for, and how it looks.

use vstd::prelude::*;
use crate::text::{decimal, decimal_text};
use crate::theme::ThemeColor;

verus! {

/// The height of an entry, in pixels.
pub const MENU_ROW_HEIGHT: u32 = 30;

/// The greatest height of a menu, in pixels.
pub const MENU_MAX_HEIGHT: u32 = 280;

/// Which menu is open.
#[derive(Clone, Copy, Debug, PartialEq, Eq, Structural)]
pub enum ActiveMenuKind {
    /// That of a tab.
    TabContext {
        /// The tab.
        tab_id: usize,
    },
    /// That of all tabs.
    TabOverflow,
    /// That of the search results.
    SearchResultsPanel,
    /// That of the source tree.
    SourceTree {
        /// The source.
        source_id: u64,
    },
}

/// What an entry asks for.
#[derive(Clone, Copy, Debug, PartialEq, Eq, Structural)]
pub enum MenuAction {
    /// Show a tab.
    ActivateTab {
        /// The tab.
        tab_id: usize,
    },
    /// Close a tab.
    CloseTab {
        /// The tab.
        tab_id: usize,
    },
    /// Close all tabs but one.
    CloseOtherTabs {
        /// The tab that stays.
        tab_id: usize,
    },
    /// Close all tabs.
    CloseAllTabs,
    /// Open all groups of search results.
    ExpandAllSearchResults,
    /// Close all groups of search results.
    CollapseAllSearchResults,
    /// Analyse a thread dump.
    OpenJstackAnalysis {
        /// The source.
        source_id: u64,
    },
}

/// The end of an entry's element id.
pub open spec fn action_suffix(action: MenuAction) -> Seq<char> {
    match action {
        MenuAction::ActivateTab { tab_id } => "activate-tab-"@ + decimal_text(tab_id as nat),
        MenuAction::CloseTab { tab_id } => "close-tab-"@ + decimal_text(tab_id as nat),
        MenuAction::CloseOtherTabs { tab_id } => "close-other-tabs-"@ + decimal_text(
            tab_id as nat,
        ),
        MenuAction::CloseAllTabs => "close-all-tabs"@,
        MenuAction::ExpandAllSearchResults => "expand-all-search-results"@,
        MenuAction::CollapseAllSearchResults => "collapse-all-search-results"@,
        MenuAction::OpenJstackAnalysis { source_id } => "open-jstack-analysis-"@ + decimal_text(
            source_id as nat,
        ),
    }
}

fn numbered(head: &str, number: u64) -> (result: String)
    ensures
        result@ == head@ + decimal_text(number as nat),
{
    let mut text = head.to_owned();
    text.push_str(decimal(number).as_str());
    text
}

impl MenuAction {
    /// The end of an entry's element id.
    pub fn id_suffix(&self) -> (result: String)
        ensures
            result@ == action_suffix(*self),
    {
        match self {
            MenuAction::ActivateTab { tab_id } => numbered("activate-tab-", *tab_id as u64),
            MenuAction::CloseTab { tab_id } => numbered("close-tab-", *tab_id as u64),
            MenuAction::CloseOtherTabs { tab_id } => numbered("close-other-tabs-", *tab_id as u64),
            MenuAction::CloseAllTabs => "close-all-tabs".to_owned(),
            MenuAction::ExpandAllSearchResults => "expand-all-search-results".to_owned(),
            MenuAction::CollapseAllSearchResults => "collapse-all-search-results".to_owned(),
            MenuAction::OpenJstackAnalysis { source_id } => numbered(
                "open-jstack-analysis-",
                *source_id,
            ),
        }
    }
}

/// An entry of a menu.
#[derive(Debug, PartialEq, Eq)]
pub struct MenuEntry {
    /// What it says.
    pub label: String,
    /// What it asks for.
    pub action: MenuAction,
    /// Whether it is the present choice.
    pub is_selected: bool,
    /// Whether it destroys something.
    pub is_danger: bool,
}

/// A [`MenuEntry`] with its text as a sequence of characters.
#[verifier::ext_equal]
pub struct EntryModel {
    /// What it says.
    pub label: Seq<char>,
    /// What it asks for.
    pub action: MenuAction,
    /// Whether it is the present choice.
    pub is_selected: bool,
    /// Whether it destroys something.
    pub is_danger: bool,
}

impl View for MenuEntry {
    type V = EntryModel;

    open spec fn view(&self) -> EntryModel {
        EntryModel {
            label: self.label@,
            action: self.action,
            is_selected: self.is_selected,
            is_danger: self.is_danger,
        }
    }
}

impl MenuEntry {
    /// A plain entry.
    pub fn new(label: String, action: MenuAction) -> (result: MenuEntry)
        ensures
            result@ == (EntryModel {
                label: label@,
                action,
                is_selected: false,
                is_danger: false,
            }),
    {
        MenuEntry { label, action, is_selected: false, is_danger: false }
    }

    /// The entry, marked as the present choice or not.
    pub fn selected(self, is_selected: bool) -> (result: MenuEntry)
        ensures
            result@ == (EntryModel { is_selected, ..self@ }),
    {
        MenuEntry { is_selected, ..self }
    }

    /// The entry, marked as one that destroys something.
    pub fn danger(self) -> (result: MenuEntry)
        ensures
            result@ == (EntryModel { is_danger: true, ..self@ }),
    {
        MenuEntry { is_danger: true, ..self }
    }
}

/// What an entry shows.
#[derive(Debug, PartialEq, Eq)]
pub struct EntryAppearance {
    /// The id of its element.
    pub element_id: String,
    /// What lies behind it.
    pub background: ThemeColor,
    /// What lies behind it while the pointer is on it.
    pub hover_background: ThemeColor,
    /// The colour of its text.
    pub foreground: ThemeColor,
}

/// Works out what an entry shows.
pub fn entry_appearance(entry: &MenuEntry) -> (result: EntryAppearance)
    ensures
        result.element_id@ == "context-menu-entry-"@ + action_suffix(entry@.action),
        result.background == (if entry@.is_selected {
            ThemeColor::Selection
        } else {
            ThemeColor::Content
        }),
        result.hover_background == (if entry@.is_selected {
            ThemeColor::Selection
        } else {
            ThemeColor::CurrentLine
        }),
        result.foreground == (if entry@.is_danger {
            ThemeColor::Error
        } else {
            ThemeColor::Foreground
        }),
{
    let mut element_id = "context-menu-entry-".to_owned();
    element_id.push_str(entry.action.id_suffix().as_str());
    EntryAppearance {
        element_id,
        background: if entry.is_selected {
            ThemeColor::Selection
        } else {
            ThemeColor::Content
        },
        hover_background: if entry.is_selected {
            ThemeColor::Selection
        } else {
            ThemeColor::CurrentLine
        },
        foreground: if entry.is_danger {
            ThemeColor::Error
        } else {
            ThemeColor::Foreground
        },
    }
}

/// How wide a menu is, in pixels.
pub fn menu_width(kind: ActiveMenuKind) -> (result: u32)
    ensures
        result == (match kind {
            ActiveMenuKind::TabContext { .. } => 132u32,
            ActiveMenuKind::TabOverflow => 220u32,
            ActiveMenuKind::SearchResultsPanel => 132u32,
            ActiveMenuKind::SourceTree { .. } => 178u32,
        }),
{
    match kind {
        ActiveMenuKind::TabContext { .. } => 132,
        ActiveMenuKind::TabOverflow => 220,
        ActiveMenuKind::SearchResultsPanel => 132,
        ActiveMenuKind::SourceTree { .. } => 178,
    }
}

/// How high a list of rows is, in pixels: as its rows need, within limits.
pub open spec fn list_height(row_count: int, row_height: int, most: int) -> int {
    if row_count * row_height > most {
        most
    } else if row_count < 1 {
        row_height
    } else {
        row_count * row_height
    }
}

/// Works out how high a list of rows is.
pub fn bounded_list_height(row_count: usize, row_height: u32, most: u32) -> (result: u32)
    requires
        0 < row_height <= most,
    ensures
        result == list_height(row_count as int, row_height as int, most as int),
{
    let limit: u32 = most / row_height;
    proof {
        assert(limit * row_height <= most < (limit + 1) * row_height) by (nonlinear_arith)
            requires
                limit == most / row_height,
                row_height > 0,
        ;
        if row_count > limit {
            assert(row_count * row_height >= (limit + 1) * row_height) by (nonlinear_arith)
                requires
                    row_count >= limit + 1,
                    row_height > 0,
            ;
        } else {
            assert(row_count * row_height <= limit * row_height) by (nonlinear_arith)
                requires
                    row_count <= limit,
                    row_height > 0,
            ;
        }
    }
    if row_count as u64 > limit as u64 {
        most
    } else if row_count < 1 {
        row_height
    } else {
        row_count as u32 * row_height
    }
}

/// How high a menu is, in pixels.
pub fn menu_height(entry_count: usize) -> (result: u32)
    ensures
        result == list_height(entry_count as int, MENU_ROW_HEIGHT as int, MENU_MAX_HEIGHT as int),
        MENU_ROW_HEIGHT <= result <= MENU_MAX_HEIGHT,
{
    bounded_list_height(entry_count, MENU_ROW_HEIGHT, MENU_MAX_HEIGHT)
}

} // verus!
