//! One key press, as the window system reports it.

use vstd::prelude::*;
use crate::text::{has_control, is_control_code};

verus! {

/// The modifier keys that were held.
#[derive(Clone, Copy, Debug, PartialEq, Eq, Structural)]
pub struct Modifiers {
    /// The control key.
    pub control: bool,
    /// The command or windows key.
    pub platform: bool,
    /// The shift key.
    pub shift: bool,
    /// The function key.
    pub function: bool,
    /// The key that shortcuts go with here: command on macOS, control elsewhere.
    pub secondary: bool,
}

/// One key press.
#[derive(Debug, PartialEq, Eq)]
pub struct Keystroke {
    /// The key's name, such as `enter` or `a`.
    pub key: String,
    /// What the key would type.
    pub key_char: Option<String>,
    /// The modifier keys that were held.
    pub modifiers: Modifiers,
}

/// A [`Keystroke`] with its texts as sequences of characters.
#[verifier::ext_equal]
pub struct KeystrokeModel {
    /// The key's name.
    pub key: Seq<char>,
    /// What the key would type.
    pub key_char: Option<Seq<char>>,
    /// The modifier keys that were held.
    pub modifiers: Modifiers,
}

/// The characters of a text that may be missing.
pub open spec fn optional_text(text: Option<String>) -> Option<Seq<char>> {
    match text {
        Some(present) => Some(present@),
        None => None,
    }
}

/// A second copy of a text that may be missing.
pub fn copy_optional_text(text: &Option<String>) -> (result: Option<String>)
    ensures
        result == *text,
{
    match text {
        Some(present) => Some(present.clone()),
        None => None,
    }
}

impl View for Keystroke {
    type V = KeystrokeModel;

    open spec fn view(&self) -> KeystrokeModel {
        KeystrokeModel {
            key: self.key@,
            key_char: optional_text(self.key_char),
            modifiers: self.modifiers,
        }
    }
}

/// Whether a text is free of control codes.
pub open spec fn is_printable(text: Seq<char>) -> bool {
    !exists|i: int| 0 <= i < text.len() && is_control_code(#[trigger] text[i])
}

impl KeystrokeModel {
    /// The text that the key types: one without control codes, pressed without
    /// the control and command keys.
    pub open spec fn typed_text(self) -> Option<Seq<char>> {
        match self.key_char {
            Some(text) => if !self.modifiers.control && !self.modifiers.platform && is_printable(
                text,
            ) {
                Some(text)
            } else {
                None
            },
            None => None,
        }
    }

    /// Whether the press is left to the system's input method.
    pub open spec fn is_plain_text(self) -> bool {
        self.typed_text() is Some && !self.modifiers.function
    }
}

/// What a key types, where it types anything.
pub fn typed_text(keystroke: &Keystroke) -> (result: Option<&String>)
    ensures
        match result {
            Some(text) => keystroke@.typed_text() == Some(text@),
            None => keystroke@.typed_text() is None,
        },
{
    match &keystroke.key_char {
        Some(text) => {
            if !keystroke.modifiers.control && !keystroke.modifiers.platform && !has_control(
                text.as_str(),
            ) {
                Some(text)
            } else {
                None
            }
        },
        None => None,
    }
}

/// Whether a key press is plain text, which the system's input method handles.
pub fn is_plain_text_key(keystroke: &Keystroke) -> (result: bool)
    ensures
        result == keystroke@.is_plain_text(),
{
    typed_text(keystroke).is_some() && !keystroke.modifiers.function
}

} // verus!
