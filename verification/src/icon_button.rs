//! Buttons that show an icon.

use vstd::prelude::*;
use crate::theme::ThemeColor;

verus! {

/// How large a button is.
#[derive(Clone, Copy, Debug, PartialEq, Eq, Structural)]
pub enum IconButtonSize {
    /// As in title bars and toolbars.
    Small,
    /// As in the side bar.
    Tiny,
}

/// What shape a button has.
#[derive(Clone, Copy, Debug, PartialEq, Eq, Structural)]
pub enum IconButtonShape {
    /// Slightly rounded.
    RoundedRectangle,
    /// Round.
    Circle,
}

/// What a button shows.
#[derive(Clone, Copy, Debug, PartialEq, Eq, Structural)]
pub struct IconButtonAppearance {
    /// The length of its sides, in pixels.
    pub button_size: u32,
    /// The length of its icon's sides, in pixels.
    pub icon_size: u32,
    /// What lies behind it.
    pub background: Option<ThemeColor>,
    /// What lies behind it while the pointer is on it.
    pub hover_background: ThemeColor,
    /// The colour of its icon.
    pub foreground: ThemeColor,
    /// What shape it has.
    pub shape: IconButtonShape,
}

/// Works out what a button shows.
pub fn icon_button_appearance(is_selected: bool, size: IconButtonSize, shape: IconButtonShape) -> (result:
    IconButtonAppearance)
    ensures
        result.button_size == (if size == IconButtonSize::Small {
            28u32
        } else {
            24u32
        }),
        result.icon_size == (if size == IconButtonSize::Small {
            16u32
        } else {
            14u32
        }),
        result.background == (if is_selected {
            Some(ThemeColor::Selection)
        } else {
            None
        }),
        result.hover_background == (if is_selected {
            ThemeColor::Selection
        } else {
            ThemeColor::CurrentLine
        }),
        result.foreground == (if is_selected {
            ThemeColor::Foreground
        } else {
            ThemeColor::ForegroundMuted
        }),
        result.shape == shape,
{
    let (button_size, icon_size): (u32, u32) = match size {
        IconButtonSize::Small => (28, 16),
        IconButtonSize::Tiny => (24, 14),
    };
    IconButtonAppearance {
        button_size,
        icon_size,
        background: if is_selected {
            Some(ThemeColor::Selection)
        } else {
            None
        },
        hover_background: if is_selected {
            ThemeColor::Selection
        } else {
            ThemeColor::CurrentLine
        },
        foreground: if is_selected {
            ThemeColor::Foreground
        } else {
            ThemeColor::ForegroundMuted
        },
        shape,
    }
}

} // verus!
