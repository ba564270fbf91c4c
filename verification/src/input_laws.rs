//! What keys do to a text input that a view holds itself, told by the characters and places that
//! a user sees.

use vstd::prelude::*;
use crate::input_behavior::key_step;
use crate::keystroke::{KeystrokeModel, Modifiers};
use crate::text::{ascii_lower_case, is_control_code};
use crate::text_input::InputModel;

verus! {

/// Whether exactly the characters from one place to below another are selected.
pub open spec fn is_selected(input: InputModel, start: int, end: int) -> bool {
    &&& 0 <= start < end <= input.value.len() <= usize::MAX
    &&& input.selection_anchor is Some
    &&& (input.selection_anchor->0 == start && input.cursor == end || input.selection_anchor->0
        == end && input.cursor == start)
}

/// Whether nothing is selected and the cursor stands at a place.
pub open spec fn is_cursor_at(input: InputModel, place: int) -> bool {
    &&& input.selection_anchor is None
    &&& input.cursor == place
    &&& place <= input.value.len() <= usize::MAX
}

/// Whether a key has no meaning of its own in an input.
pub open spec fn is_unnamed(key: Seq<char>) -> bool {
    &&& key != "escape"@
    &&& key != "enter"@
    &&& key != "backspace"@
    &&& key != "delete"@
    &&& key != "left"@
    &&& key != "arrowleft"@
    &&& key != "right"@
    &&& key != "arrowright"@
    &&& key != "home"@
    &&& key != "end"@
}

/// Whether a key press types text: it has one to type, without control codes, and neither the
/// control key nor the platform's key is held.
pub open spec fn types(keystroke: KeystrokeModel) -> bool {
    &&& is_unnamed(keystroke.key)
    &&& keystroke.key_char is Some
    &&& 0 < keystroke.key_char->0.len()
    &&& forall|i: int|
        0 <= i < keystroke.key_char->0.len() ==> {
            let code = #[trigger] keystroke.key_char->0[i] as u32;
            0x20 <= code < 0x7f || 0x9f < code
        }
    &&& !keystroke.modifiers.control
    &&& !keystroke.modifiers.platform
    &&& !keystroke.modifiers.secondary
}

/// Whether a text holds a control code.
pub open spec fn has_control_code(text: Seq<char>) -> bool {
    exists|i: int|
        0 <= i < text.len() && (#[trigger] text[i] as u32 <= 0x1f || 0x7f <= text[i] as u32 <= 0x9f)
}

/// The names of the keys that have a meaning are all different, and none is a single letter.
pub proof fn lemma_key_names()
    ensures
        "escape"@.len() == 6 && "escape"@[0] == 'e',
        "enter"@.len() == 5 && "enter"@[0] == 'e',
        "backspace"@.len() == 9 && "backspace"@[0] == 'b',
        "delete"@.len() == 6 && "delete"@[0] == 'd',
        "left"@.len() == 4 && "left"@[0] == 'l',
        "arrowleft"@.len() == 9 && "arrowleft"@[0] == 'a',
        "right"@.len() == 5 && "right"@[0] == 'r',
        "arrowright"@.len() == 10,
        "home"@.len() == 4 && "home"@[0] == 'h',
        "end"@.len() == 3,
        "\n"@ == seq!['\n'],
        "v"@.len() == 1 && "c"@.len() == 1 && "x"@.len() == 1 && "a"@.len() == 1,
{
    reveal_strlit("escape");
    reveal_strlit("enter");
    reveal_strlit("backspace");
    reveal_strlit("delete");
    reveal_strlit("left");
    reveal_strlit("arrowleft");
    reveal_strlit("right");
    reveal_strlit("arrowright");
    reveal_strlit("home");
    reveal_strlit("end");
    reveal_strlit("\n");
    assert("\n"@ =~= seq!['\n']);
    lemma_shortcut_names();
}

/// The letters of the shortcuts are all different.
pub proof fn lemma_shortcut_names()
    ensures
        "v"@ == seq!['v'] && "c"@ == seq!['c'] && "x"@ == seq!['x'] && "a"@ == seq!['a'],
        "v"@[0] == 'v' && "c"@[0] == 'c' && "x"@[0] == 'x' && "a"@[0] == 'a',
{
    reveal_strlit("v");
    reveal_strlit("c");
    reveal_strlit("x");
    reveal_strlit("a");
    assert("v"@ =~= seq!['v'] && "c"@ =~= seq!['c'] && "x"@ =~= seq!['x'] && "a"@ =~= seq!['a']);
}

/// The plain arrow keys move the cursor by one character, as far as the text goes, and the plain
/// home and end keys to its ends. The text stays, and nothing is selected afterwards.
pub proof fn law_arrow_keys_move_one_character(
    input: InputModel,
    keystroke: KeystrokeModel,
    multiline: bool,
    clipboard: Option<Seq<char>>,
)
    requires
        input.cursor <= input.value.len() <= usize::MAX,
        !keystroke.modifiers.shift,
    ensures
        ({
            let step = key_step(input, keystroke, multiline, clipboard);
            let key = keystroke.key;
            &&& key == "left"@ || key == "arrowleft"@ || key == "right"@ || key == "arrowright"@
                || key == "home"@ || key == "end"@ ==> {
                &&& step.action is Changed
                &&& step.copied is None
                &&& step.input.value == input.value
                &&& step.input.selection_anchor is None
                &&& step.input.marked_range is None
                &&& step.input.selection_drag is None
                &&& step.input.is_focused == input.is_focused
            }
            &&& key == "left"@ || key == "arrowleft"@ ==> {
                &&& input.cursor > 0 ==> step.input.cursor == input.cursor - 1
                &&& input.cursor == 0 ==> step.input.cursor == 0
            }
            &&& key == "right"@ || key == "arrowright"@ ==> {
                &&& input.cursor < input.value.len() ==> step.input.cursor == input.cursor + 1
                &&& input.cursor == input.value.len() ==> step.input.cursor == input.cursor
            }
            &&& key == "home"@ ==> step.input.cursor == 0
            &&& key == "end"@ ==> step.input.cursor == input.value.len()
        }),
{
    lemma_key_names();
    assert(ascii_lower_case(keystroke.key).len() == keystroke.key.len());
}

/// Inside the text the right arrow key undoes the left one, and the left one the right one.
pub proof fn law_arrow_keys_undo_each_other(
    input: InputModel,
    left: KeystrokeModel,
    right: KeystrokeModel,
    multiline: bool,
    clipboard: Option<Seq<char>>,
)
    requires
        input.cursor <= input.value.len() <= usize::MAX,
        left.key == "left"@ || left.key == "arrowleft"@,
        right.key == "right"@ || right.key == "arrowright"@,
        !left.modifiers.shift,
        !right.modifiers.shift,
    ensures
        ({
            let went_left = key_step(input, left, multiline, clipboard).input;
            let back_right = key_step(went_left, right, multiline, clipboard).input;
            let went_right = key_step(input, right, multiline, clipboard).input;
            let back_left = key_step(went_right, left, multiline, clipboard).input;
            &&& input.cursor > 0 ==> went_left.cursor < input.cursor && back_right.cursor
                == input.cursor && back_right.value == input.value
            &&& input.cursor < input.value.len() ==> input.cursor < went_right.cursor
                && back_left.cursor == input.cursor && back_left.value == input.value
        }),
{
    lemma_key_names();
    assert(ascii_lower_case(left.key).len() == left.key.len());
    assert(ascii_lower_case(right.key).len() == right.key.len());
}

/// An arrow key, home or end with shift selects from where the cursor stood, or keeps the other
/// end of what was selected; the cursor goes where it would go without shift.
pub proof fn law_shift_keeps_the_other_end(
    input: InputModel,
    keystroke: KeystrokeModel,
    multiline: bool,
    clipboard: Option<Seq<char>>,
)
    requires
        input.cursor <= input.value.len() <= usize::MAX,
        keystroke.modifiers.shift,
        keystroke.key == "left"@ || keystroke.key == "arrowleft"@ || keystroke.key == "right"@
            || keystroke.key == "arrowright"@ || keystroke.key == "home"@ || keystroke.key
            == "end"@,
    ensures
        ({
            let step = key_step(input, keystroke, multiline, clipboard);
            let plain = KeystrokeModel {
                modifiers: Modifiers { shift: false, ..keystroke.modifiers },
                ..keystroke
            };
            &&& step.action is Changed
            &&& step.input.value == input.value
            &&& step.input.cursor == key_step(input, plain, multiline, clipboard).input.cursor
            &&& input.selection_anchor is None ==> step.input.selection_anchor == Some(
                input.cursor,
            )
            &&& input.selection_anchor is Some ==> step.input.selection_anchor
                == input.selection_anchor
        }),
{
    lemma_key_names();
    assert(ascii_lower_case(keystroke.key).len() == keystroke.key.len());
}

/// With nothing selected the backspace key takes away the character in front of the cursor and the
/// delete key the one behind it; every other character stays. At its end of the text each does
/// nothing to the text.
pub proof fn law_erasing_takes_one_character(
    input: InputModel,
    keystroke: KeystrokeModel,
    multiline: bool,
    clipboard: Option<Seq<char>>,
)
    requires
        input.cursor <= input.value.len() <= usize::MAX,
        input.selection_anchor is None,
    ensures
        ({
            let step = key_step(input, keystroke, multiline, clipboard);
            let at = input.cursor as int;
            &&& keystroke.key == "backspace"@ ==> {
                &&& step.action is Changed
                &&& at == 0 ==> step.input.value == input.value && step.input.cursor == 0
                &&& at > 0 ==> step.input.value == input.value.take(at - 1) + input.value.skip(at)
                &&& at > 0 ==> step.input.cursor == at - 1
                &&& step.input.selection_anchor is None
            }
            &&& keystroke.key == "delete"@ ==> {
                &&& step.action is Changed
                &&& at == input.value.len() ==> step.input.value == input.value
                &&& at < input.value.len() ==> step.input.value == input.value.take(at)
                    + input.value.skip(at + 1)
                &&& step.input.cursor == at
                &&& step.input.selection_anchor is None
            }
        }),
{
    lemma_key_names();
    assert(ascii_lower_case(keystroke.key).len() == keystroke.key.len());
}

/// Where characters are selected, backspace and delete take away exactly those, and the cursor
/// stands where they were.
pub proof fn law_erasing_takes_the_selection(
    input: InputModel,
    keystroke: KeystrokeModel,
    multiline: bool,
    clipboard: Option<Seq<char>>,
    start: int,
    end: int,
)
    requires
        is_selected(input, start, end),
        keystroke.key == "backspace"@ || keystroke.key == "delete"@,
    ensures
        ({
            let step = key_step(input, keystroke, multiline, clipboard);
            &&& step.action is Changed
            &&& step.input.value == input.value.take(start) + input.value.skip(end)
            &&& step.input.cursor == start
            &&& step.input.selection_anchor is None
        }),
{
    lemma_key_names();
    assert(ascii_lower_case(keystroke.key).len() == keystroke.key.len());
    assert(input.value.take(start) + Seq::<char>::empty() + input.value.skip(end)
        =~= input.value.take(start) + input.value.skip(end));
}

/// Typed text stands between what was in front of the cursor and what was behind it, with the
/// cursor behind the new text; selected characters give way to it.
pub proof fn law_typed_text_is_put_in(
    input: InputModel,
    keystroke: KeystrokeModel,
    multiline: bool,
    clipboard: Option<Seq<char>>,
    start: int,
    end: int,
)
    requires
        is_selected(input, start, end) || is_cursor_at(input, start) && start == end,
        types(keystroke),
        input.value.len() + keystroke.key_char->0.len() <= usize::MAX,
    ensures
        ({
            let step = key_step(input, keystroke, multiline, clipboard);
            let text = keystroke.key_char->0;
            &&& step.action is Changed
            &&& step.copied is None
            &&& step.input.value == input.value.take(start) + text + input.value.skip(end)
            &&& step.input.cursor == start + text.len()
            &&& step.input.is_focused == input.is_focused
        }),
{
    lemma_key_names();
    assert(ascii_lower_case(keystroke.key).len() == keystroke.key.len());
}

/// A key that types nothing, or control codes, and has no meaning of its own is left alone.
pub proof fn law_other_keys_change_nothing(
    input: InputModel,
    keystroke: KeystrokeModel,
    multiline: bool,
    clipboard: Option<Seq<char>>,
)
    requires
        is_unnamed(keystroke.key),
        keystroke.key_char is None || keystroke.modifiers.control || keystroke.modifiers.platform
            || has_control_code(keystroke.key_char->0),
        !keystroke.modifiers.secondary,
    ensures
        ({
            let step = key_step(input, keystroke, multiline, clipboard);
            &&& step.action is Ignored
            &&& step.input == input
            &&& step.copied is None
        }),
{
    lemma_key_names();
    if keystroke.key_char is Some && has_control_code(keystroke.key_char->0) {
        let text = keystroke.key_char->0;
        let i = choose|i: int|
            0 <= i < text.len() && (#[trigger] text[i] as u32 <= 0x1f || 0x7f <= text[i] as u32
                <= 0x9f);
        assert(is_control_code(text[i]));
    }
    assert(ascii_lower_case(keystroke.key).len() == keystroke.key.len());
}

/// Escape asks to close.
pub proof fn law_escape_asks_to_close(
    input: InputModel,
    keystroke: KeystrokeModel,
    multiline: bool,
    clipboard: Option<Seq<char>>,
)
    requires
        keystroke.key == "escape"@,
    ensures
        key_step(input, keystroke, multiline, clipboard).action is Close,
        key_step(input, keystroke, multiline, clipboard).input == input,
{
    lemma_key_names();
    assert(ascii_lower_case(keystroke.key).len() == keystroke.key.len());
}

/// The shortcuts of the clipboard. Copying and cutting put the selected characters on it; cutting
/// also takes them away; pasting puts its text where the cursor stands or characters are selected;
/// the last one selects the whole text.
pub proof fn law_shortcuts(
    input: InputModel,
    keystroke: KeystrokeModel,
    multiline: bool,
    clipboard: Option<Seq<char>>,
    start: int,
    end: int,
)
    requires
        is_selected(input, start, end) || is_cursor_at(input, start) && start == end,
        keystroke.modifiers.secondary,
        clipboard is Some ==> input.value.len() + clipboard->0.len() <= usize::MAX,
    ensures
        ({
            let step = key_step(input, keystroke, multiline, clipboard);
            let key = ascii_lower_case(keystroke.key);
            let held = input.value.subrange(start, end);
            &&& key == "c"@ ==> {
                &&& step.input == input
                &&& step.action is Ignored
                &&& step.copied == (if start < end {
                    Some(held)
                } else {
                    None
                })
            }
            &&& key == "x"@ ==> {
                &&& step.action is Changed
                &&& step.input.value == input.value.take(start) + input.value.skip(end)
                &&& step.input.cursor == start
                &&& step.copied == (if start < end {
                    Some(held)
                } else {
                    None
                })
            }
            &&& key == "v"@ ==> {
                &&& step.action is Changed
                &&& step.copied is None
                &&& clipboard is None ==> step.input == input
                &&& clipboard is Some && multiline ==> {
                    let text = clipboard->0;
                    &&& step.input.value == input.value.take(start) + text + input.value.skip(end)
                    &&& step.input.cursor == start + text.len()
                }
            }
            &&& key == "a"@ ==> {
                &&& step.action is Changed
                &&& step.copied is None
                &&& step.input.value == input.value
                &&& step.input.selection_anchor == Some(0usize)
                &&& step.input.cursor == input.value.len()
            }
        }),
{
    lemma_shortcut_names();
    assert(input.value.take(start) + Seq::<char>::empty() + input.value.skip(end)
        =~= input.value.take(start) + input.value.skip(end));
    if start == end {
        assert(input.value.take(start) + input.value.skip(end) =~= input.value);
    }
}

/// A key press is plain text where it types text and the function key is not held.
pub proof fn law_plain_text_is_typed(keystroke: KeystrokeModel)
    ensures
        types(keystroke) ==> keystroke.typed_text() == keystroke.key_char,
        types(keystroke) ==> keystroke.is_plain_text() == !keystroke.modifiers.function,
        keystroke.key_char is None || keystroke.modifiers.control || keystroke.modifiers.platform
            ==> keystroke.typed_text() is None && !keystroke.is_plain_text(),
{
}

/// In an input of several lines the enter key puts in a line break; with the shortcut key, or in
/// an input of one line, it asks to submit.
pub proof fn law_enter_breaks_the_line_or_submits(
    input: InputModel,
    keystroke: KeystrokeModel,
    multiline: bool,
    clipboard: Option<Seq<char>>,
    start: int,
    end: int,
)
    requires
        is_selected(input, start, end) || is_cursor_at(input, start) && start == end,
        keystroke.key == "enter"@,
        input.value.len() < usize::MAX,
    ensures
        ({
            let step = key_step(input, keystroke, multiline, clipboard);
            &&& multiline && !keystroke.modifiers.secondary ==> {
                &&& step.action is Changed
                &&& step.input.value == input.value.take(start) + seq!['\n'] + input.value.skip(
                    end,
                )
                &&& step.input.cursor == start + 1
            }
            &&& !multiline || keystroke.modifiers.secondary ==> step.action is Submit && step.input
                == input
        }),
{
    lemma_key_names();
    assert(ascii_lower_case(keystroke.key).len() == keystroke.key.len());
}

/// In an input of one line a pasted text keeps its length and its characters; only its line breaks
/// become spaces.
pub proof fn law_pasted_lines_become_one(
    input: InputModel,
    keystroke: KeystrokeModel,
    text: Seq<char>,
    start: int,
    end: int,
)
    requires
        is_selected(input, start, end) || is_cursor_at(input, start) && start == end,
        keystroke.modifiers.secondary,
        keystroke.key == "v"@ || keystroke.key == "V"@,
        input.value.len() + text.len() <= usize::MAX,
    ensures
        ({
            let after = key_step(input, keystroke, false, Some(text)).input.value;
            &&& after.len() == input.value.len() - (end - start) + text.len()
            &&& after.take(start) == input.value.take(start)
            &&& after.skip(start + text.len()) == input.value.skip(end)
            &&& forall|i: int|
                0 <= i < text.len() ==> {
                    let there = #[trigger] after[start + i];
                    &&& text[i] == '\r' || text[i] == '\n' ==> there == ' '
                    &&& text[i] != '\r' && text[i] != '\n' ==> there == text[i]
                }
        }),
{
    lemma_shortcut_names();
    reveal_strlit("V");
    assert(ascii_lower_case(keystroke.key) =~= "v"@);
}

} // verus!
