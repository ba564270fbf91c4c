//! A field that opens a list of choices.

use vstd::prelude::*;
use crate::context_menu::{bounded_list_height, list_height};
use crate::icon::ArgusIcon;
use crate::text::same_text;
use crate::theme::ThemeColor;

verus! {

/// The height of a choice, in pixels.
pub const DROPDOWN_ROW_HEIGHT: u32 = 30;

/// The greatest height of the list, in pixels.
pub const DROPDOWN_MAX_HEIGHT: u32 = 220;

/// A choice.
#[derive(Debug, PartialEq, Eq)]
pub struct DropdownItem {
    /// Its id.
    pub id: String,
    /// What it says.
    pub label: String,
}

/// The field and its choices.
#[derive(Debug, PartialEq, Eq)]
pub struct Dropdown {
    /// The id of its element.
    pub id: &'static str,
    /// The id of the present choice.
    pub selected_id: String,
    /// What the present choice says.
    pub selected_label: String,
    /// What stands there without a choice.
    pub placeholder: &'static str,
    /// Whether the list is open.
    pub is_open: bool,
    /// The choices.
    pub items: Vec<DropdownItem>,
    /// Whether the list is drawn with the field.
    pub show_inline_menu: bool,
}

/// What a choice shows.
#[derive(Debug, PartialEq, Eq)]
pub struct DropdownRow {
    /// The id of its element.
    pub element_id: String,
    /// The choice's own id.
    pub item_id: String,
    /// What it says.
    pub label: String,
    /// What lies behind it.
    pub background: ThemeColor,
}

/// What the field shows.
#[derive(Debug, PartialEq, Eq)]
pub struct DropdownAppearance {
    /// What the field says.
    pub text: String,
    /// The icon at its end.
    pub icon: ArgusIcon,
    /// The id of its button's element.
    pub button_id: String,
    /// The id of its list's element.
    pub menu_id: String,
    /// Whether the list is shown.
    pub shows_menu: bool,
    /// How high the list is, in pixels.
    pub menu_height: u32,
    /// The choices.
    pub rows: Vec<DropdownRow>,
}

/// Whether a row is that of a choice.
pub open spec fn shows_item(row: DropdownRow, dropdown: Dropdown, item: DropdownItem) -> bool {
    &&& row.element_id@ == dropdown.id@ + "-item-"@ + item.id@
    &&& row.item_id@ == item.id@
    &&& row.label@ == item.label@
    &&& row.background == (if item.id@ == dropdown.selected_id@ {
        ThemeColor::Selection
    } else {
        ThemeColor::Content
    })
}

/// Whether an appearance is that of a field.
pub open spec fn shows_dropdown(appearance: DropdownAppearance, dropdown: Dropdown) -> bool {
    &&& appearance.text@ == (if dropdown.selected_label@.len() == 0 {
        dropdown.placeholder@
    } else {
        dropdown.selected_label@
    })
    &&& appearance.icon == (if dropdown.is_open {
        ArgusIcon::Collapse
    } else {
        ArgusIcon::Expand
    })
    &&& appearance.button_id@ == dropdown.id@ + "-button"@
    &&& appearance.menu_id@ == dropdown.id@ + "-menu"@
    &&& appearance.shows_menu == (dropdown.is_open && dropdown.show_inline_menu)
    &&& appearance.menu_height == list_height(
        dropdown.items@.len() as int,
        DROPDOWN_ROW_HEIGHT as int,
        DROPDOWN_MAX_HEIGHT as int,
    )
    &&& appearance.rows@.len() == dropdown.items@.len()
    &&& forall|i: int|
        0 <= i < dropdown.items@.len() ==> shows_item(
            #[trigger] appearance.rows@[i],
            dropdown,
            dropdown.items@[i],
        )
}

fn joined_id(head: &str, tail: &str) -> (result: String)
    ensures
        result@ == head@ + tail@,
{
    let mut id = head.to_owned();
    id.push_str(tail);
    id
}

/// Works out what a field shows.
pub fn dropdown_appearance(dropdown: &Dropdown) -> (result: DropdownAppearance)
    ensures
        shows_dropdown(result, *dropdown),
{
    let mut rows: Vec<DropdownRow> = Vec::new();
    let mut i: usize = 0;
    while i < dropdown.items.len()
        invariant
            i <= dropdown.items@.len(),
            rows@.len() == i,
            forall|k: int|
                0 <= k < i ==> shows_item(
                    #[trigger] rows@[k],
                    *dropdown,
                    dropdown.items@[k],
                ),
        decreases dropdown.items@.len() - i,
    {
        let item = &dropdown.items[i];
        let head = joined_id(dropdown.id, "-item-");
        rows.push(
            DropdownRow {
                element_id: joined_id(head.as_str(), item.id.as_str()),
                item_id: item.id.clone(),
                label: item.label.clone(),
                background: if same_text(item.id.as_str(), dropdown.selected_id.as_str()) {
                    ThemeColor::Selection
                } else {
                    ThemeColor::Content
                },
            },
        );
        i += 1;
    }
    DropdownAppearance {
        text: if dropdown.selected_label.as_str().is_empty() {
            dropdown.placeholder.to_owned()
        } else {
            dropdown.selected_label.clone()
        },
        icon: if dropdown.is_open {
            ArgusIcon::Collapse
        } else {
            ArgusIcon::Expand
        },
        button_id: joined_id(dropdown.id, "-button"),
        menu_id: joined_id(dropdown.id, "-menu"),
        shows_menu: dropdown.is_open && dropdown.show_inline_menu,
        menu_height: bounded_list_height(
            dropdown.items.len(),
            DROPDOWN_ROW_HEIGHT,
            DROPDOWN_MAX_HEIGHT,
        ),
        rows,
    }
}

} // verus!
