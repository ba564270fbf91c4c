//! What keys do in the forms of the connection windows, told by the characters and places that a
//! user sees, and what the forms keep.

use std::ops::Range;
use vstd::prelude::*;
use crate::connection_dialog::{
    form_key_step, link_row_models, ConnectionFormInputTarget, ConnectionLinkFormState,
    ConnectionLinkKind, FormModel,
};
use crate::input_laws::{
    has_control_code, is_cursor_at, is_selected, is_unnamed, lemma_key_names,
    lemma_shortcut_names, types,
};
use crate::keystroke::{KeystrokeModel, Modifiers};
use crate::text::{is_control_code, lower_case};
use crate::text_input::{InputModel, TextInputState};
use crate::text_selection::{NativeTextEdit, TextSelectionGranularity};

verus! {

/// The plain arrow keys move the cursor by one character, as far as the text goes, and the plain
/// home and end keys to its ends. The text stays, and nothing is selected afterwards.
pub proof fn law_form_arrow_keys_move_one_character(
    input: InputModel,
    keystroke: KeystrokeModel,
    clipboard: Option<Seq<char>>,
)
    requires
        input.cursor <= input.value.len() < usize::MAX,
        !keystroke.modifiers.shift,
        !keystroke.modifiers.secondary,
    ensures
        ({
            let step = form_key_step(input, keystroke, clipboard);
            let key = keystroke.key;
            &&& key == "left"@ || key == "arrowleft"@ || key == "right"@ || key == "arrowright"@
                || key == "home"@ || key == "end"@ ==> {
                &&& step.action is Changed
                &&& step.copied is None
                &&& step.input.value == input.value
                &&& step.input.selection_anchor is None
                &&& step.input.marked_range is None
                &&& step.input.selection_drag is None
                &&& step.input.is_focused == input.is_focused
            }
            &&& key == "left"@ || key == "arrowleft"@ ==> {
                &&& input.cursor > 0 ==> step.input.cursor == input.cursor - 1
                &&& input.cursor == 0 ==> step.input.cursor == 0
            }
            &&& key == "right"@ || key == "arrowright"@ ==> {
                &&& input.cursor < input.value.len() ==> step.input.cursor == input.cursor + 1
                &&& input.cursor == input.value.len() ==> step.input.cursor == input.cursor
            }
            &&& key == "home"@ ==> step.input.cursor == 0
            &&& key == "end"@ ==> step.input.cursor == input.value.len()
        }),
{
    lemma_key_names();
}

/// Inside the text the right arrow key undoes the left one, and the left one the right one.
pub proof fn law_form_arrow_keys_undo_each_other(
    input: InputModel,
    left: KeystrokeModel,
    right: KeystrokeModel,
    clipboard: Option<Seq<char>>,
)
    requires
        input.cursor <= input.value.len(),
        left.key == "left"@ || left.key == "arrowleft"@,
        right.key == "right"@ || right.key == "arrowright"@,
        !left.modifiers.shift,
        !right.modifiers.shift,
        !left.modifiers.secondary,
        !right.modifiers.secondary,
        input.value.len() < usize::MAX,
    ensures
        ({
            let went_left = form_key_step(input, left, clipboard).input;
            let back_right = form_key_step(went_left, right, clipboard).input;
            let went_right = form_key_step(input, right, clipboard).input;
            let back_left = form_key_step(went_right, left, clipboard).input;
            &&& input.cursor > 0 ==> went_left.cursor < input.cursor && back_right.cursor
                == input.cursor && back_right.value == input.value
            &&& input.cursor < input.value.len() ==> input.cursor < went_right.cursor
                && back_left.cursor == input.cursor && back_left.value == input.value
        }),
{
    lemma_key_names();
}

/// An arrow key, home or end with shift selects from where the cursor stood, or keeps the other
/// end of what was selected; the cursor goes where it would go without shift.
pub proof fn law_form_shift_keeps_the_other_end(
    input: InputModel,
    keystroke: KeystrokeModel,
    clipboard: Option<Seq<char>>,
)
    requires
        input.cursor <= input.value.len() <= usize::MAX,
        keystroke.modifiers.shift,
        keystroke.key == "left"@ || keystroke.key == "arrowleft"@ || keystroke.key == "right"@
            || keystroke.key == "arrowright"@ || keystroke.key == "home"@ || keystroke.key
            == "end"@,
        !keystroke.modifiers.secondary,
    ensures
        ({
            let step = form_key_step(input, keystroke, clipboard);
            let plain = KeystrokeModel {
                modifiers: Modifiers { shift: false, ..keystroke.modifiers },
                ..keystroke
            };
            &&& step.action is Changed
            &&& step.input.value == input.value
            &&& step.input.cursor == form_key_step(input, plain, clipboard).input.cursor
            &&& input.selection_anchor is None ==> step.input.selection_anchor == Some(
                input.cursor,
            )
            &&& input.selection_anchor is Some ==> step.input.selection_anchor
                == input.selection_anchor
        }),
{
    lemma_key_names();
}

/// With nothing selected the backspace key takes away the character in front of the cursor and the
/// delete key the one behind it; every other character stays. At its end of the text each does
/// nothing to the text.
pub proof fn law_form_erasing_takes_one_character(
    input: InputModel,
    keystroke: KeystrokeModel,
    clipboard: Option<Seq<char>>,
)
    requires
        input.cursor <= input.value.len() <= usize::MAX,
        input.selection_anchor is None,
        !keystroke.modifiers.secondary,
    ensures
        ({
            let step = form_key_step(input, keystroke, clipboard);
            let at = input.cursor as int;
            &&& keystroke.key == "backspace"@ ==> {
                &&& step.action is Changed
                &&& at == 0 ==> step.input.value == input.value && step.input.cursor == 0
                &&& at > 0 ==> step.input.value == input.value.take(at - 1) + input.value.skip(at)
                &&& at > 0 ==> step.input.cursor == at - 1
                &&& step.input.selection_anchor is None
            }
            &&& keystroke.key == "delete"@ ==> {
                &&& step.action is Changed
                &&& at == input.value.len() ==> step.input.value == input.value
                &&& at < input.value.len() ==> step.input.value == input.value.take(at)
                    + input.value.skip(at + 1)
                &&& step.input.cursor == at
                &&& step.input.selection_anchor is None
            }
        }),
{
    lemma_key_names();
}

/// Where characters are selected, backspace and delete take away exactly those, and the cursor
/// stands where they were.
pub proof fn law_form_erasing_takes_the_selection(
    input: InputModel,
    keystroke: KeystrokeModel,
    clipboard: Option<Seq<char>>,
    start: int,
    end: int,
)
    requires
        is_selected(input, start, end),
        keystroke.key == "backspace"@ || keystroke.key == "delete"@,
        !keystroke.modifiers.secondary,
    ensures
        ({
            let step = form_key_step(input, keystroke, clipboard);
            &&& step.action is Changed
            &&& step.input.value == input.value.take(start) + input.value.skip(end)
            &&& step.input.cursor == start
            &&& step.input.selection_anchor is None
        }),
{
    lemma_key_names();
    assert(input.value.take(start) + Seq::<char>::empty() + input.value.skip(end)
        =~= input.value.take(start) + input.value.skip(end));
}

/// Typed text stands between what was in front of the cursor and what was behind it, with the
/// cursor behind the new text; selected characters give way to it.
pub proof fn law_form_typed_text_is_put_in(
    input: InputModel,
    keystroke: KeystrokeModel,
    clipboard: Option<Seq<char>>,
    start: int,
    end: int,
)
    requires
        is_selected(input, start, end) || is_cursor_at(input, start) && start == end,
        types(keystroke),
        input.value.len() + keystroke.key_char->0.len() <= usize::MAX,
        !keystroke.modifiers.secondary,
    ensures
        ({
            let step = form_key_step(input, keystroke, clipboard);
            let text = keystroke.key_char->0;
            &&& step.action is Changed
            &&& step.copied is None
            &&& step.input.value == input.value.take(start) + text + input.value.skip(end)
            &&& step.input.cursor == start + text.len()
            &&& step.input.is_focused == input.is_focused
        }),
{
    lemma_key_names();
    let text = keystroke.key_char->0;
    let front = input.value.take(start);
    let back = input.value.skip(end);
    let rest = front + Seq::<char>::empty() + back;
    assert(rest.take(start) =~= front);
    assert(rest.skip(start) =~= back);
}

/// A key that types nothing, or control codes, and has no meaning of its own is left alone.
pub proof fn law_form_other_keys_change_nothing(
    input: InputModel,
    keystroke: KeystrokeModel,
    clipboard: Option<Seq<char>>,
)
    requires
        is_unnamed(keystroke.key),
        keystroke.key_char is None || keystroke.modifiers.control || keystroke.modifiers.platform
            || has_control_code(keystroke.key_char->0),
        !keystroke.modifiers.secondary,
    ensures
        ({
            let step = form_key_step(input, keystroke, clipboard);
            &&& step.action is Ignored
            &&& step.input == input
            &&& step.copied is None
        }),
{
    lemma_key_names();
    if keystroke.key_char is Some && has_control_code(keystroke.key_char->0) {
        let text = keystroke.key_char->0;
        let i = choose|i: int|
            0 <= i < text.len() && (#[trigger] text[i] as u32 <= 0x1f || 0x7f <= text[i] as u32
                <= 0x9f);
        assert(is_control_code(text[i]));
    }
}

/// Escape asks to close.
pub proof fn law_form_escape_asks_to_close(
    input: InputModel,
    keystroke: KeystrokeModel,
    clipboard: Option<Seq<char>>,
)
    requires
        keystroke.key == "escape"@,
        !keystroke.modifiers.secondary,
    ensures
        form_key_step(input, keystroke, clipboard).action is Close,
        form_key_step(input, keystroke, clipboard).input == input,
{
    lemma_key_names();
}

/// The shortcuts of the clipboard. Copying and cutting put the selected characters on it; cutting
/// also takes them away; pasting puts its text where the cursor stands or characters are selected;
/// the last one selects the whole text.
pub proof fn law_form_shortcuts(
    input: InputModel,
    keystroke: KeystrokeModel,
    clipboard: Option<Seq<char>>,
    start: int,
    end: int,
)
    requires
        is_selected(input, start, end) || is_cursor_at(input, start) && start == end,
        keystroke.modifiers.secondary,
        clipboard is Some ==> input.value.len() + clipboard->0.len() <= usize::MAX,
    ensures
        ({
            let step = form_key_step(input, keystroke, clipboard);
            let key = lower_case(keystroke.key);
            let held = input.value.subrange(start, end);
            &&& key == "c"@ ==> {
                &&& step.input == input
                &&& step.action is Ignored
                &&& step.copied == (if start < end {
                    Some(held)
                } else {
                    None
                })
            }
            &&& key == "x"@ ==> {
                &&& step.action is Changed
                &&& step.input.value == input.value.take(start) + input.value.skip(end)
                &&& step.input.cursor == start
                &&& step.copied == (if start < end {
                    Some(held)
                } else {
                    None
                })
            }
            &&& key == "v"@ ==> {
                &&& step.action is Changed
                &&& step.copied is None
                &&& clipboard is None ==> step.input == input
                &&& clipboard is Some && 0 < clipboard->0.len() ==> {
                    let text = clipboard->0.map_values(
                        |c: char|
                            if c == '\r' || c == '\n' {
                                ' '
                            } else {
                                c
                            },
                    );
                    &&& step.input.value == input.value.take(start) + text + input.value.skip(end)
                    &&& step.input.cursor == start + text.len()
                }
            }
            &&& key == "a"@ ==> {
                &&& step.action is Changed
                &&& step.copied is None
                &&& step.input.value == input.value
                &&& step.input.selection_anchor == Some(0usize)
                &&& step.input.cursor == input.value.len()
            }
        }),
{
    lemma_shortcut_names();
    assert(input.value.take(start) + Seq::<char>::empty() + input.value.skip(end)
        =~= input.value.take(start) + input.value.skip(end));
    if start == end {
        assert(input.value.take(start) + input.value.skip(end) =~= input.value);
    }
    if clipboard is Some {
        let front = input.value.take(start);
        let back = input.value.skip(end);
        let rest = front + Seq::<char>::empty() + back;
        assert(rest.take(start) =~= front);
        assert(rest.skip(start) =~= back);
        let text = clipboard->0.map_values(
            |c: char|
                if c == '\r' || c == '\n' {
                    ' '
                } else {
                    c
                },
        );
        assert(crate::input_behavior::pasted(clipboard->0, false) =~= text);
    }
}

/// Enter asks to submit.
pub proof fn law_form_enter_asks_to_submit(
    input: InputModel,
    keystroke: KeystrokeModel,
    clipboard: Option<Seq<char>>,
)
    requires
        keystroke.key == "enter"@,
        !keystroke.modifiers.secondary,
    ensures
        form_key_step(input, keystroke, clipboard).action is Submit,
        form_key_step(input, keystroke, clipboard).input == input,
{
    lemma_key_names();
}

/// A key press in an input of a form does to that input what it does to it alone, and clears the
/// form's error where it changed something. Every other input, the error otherwise and the
/// protocol stay.
pub proof fn law_key_reaches_one_input(
    form: FormModel,
    target: ConnectionFormInputTarget,
    other: ConnectionFormInputTarget,
    keystroke: KeystrokeModel,
    clipboard: Option<Seq<char>>,
)
    requires
        form.inputs.dom().contains(target),
        form.inputs.dom().contains(other),
    ensures
        ({
            let after = form.after_key(target, keystroke, clipboard);
            let step = form_key_step(form.inputs[target], keystroke, clipboard);
            &&& after.inputs[target] == step.input
            &&& other != target ==> after.inputs[other] == form.inputs[other]
            &&& after.inputs.dom() == form.inputs.dom()
            &&& step.action is Changed ==> after.error_message is None
            &&& !(step.action is Changed) ==> after.error_message == form.error_message
            &&& after.link_kind == form.link_kind
        }),
{
    assert(form.inputs.dom().insert(target) =~= form.inputs.dom());
}

/// A form keeps the keyboard in one input: the one asked for, with the cursor behind its text.
pub proof fn law_focus_goes_to_one_input(
    form: FormModel,
    target: ConnectionFormInputTarget,
    other: ConnectionFormInputTarget,
)
    requires
        form.inputs.dom().contains(target),
        form.inputs.dom().contains(other),
        form.inputs[target].value.len() <= usize::MAX,
    ensures
        ({
            let after = form.focused_on(target);
            &&& after.inputs[other].is_focused <==> other == target
            &&& after.inputs[target].cursor == form.inputs[target].value.len()
            &&& after.inputs[other].value == form.inputs[other].value
            &&& other != target ==> after.inputs[other].cursor == form.inputs[other].cursor
            &&& after.inputs[other].selection_anchor is None
            &&& after.error_message == form.error_message
            &&& after.link_kind == form.link_kind
            &&& forall|any: ConnectionFormInputTarget| #[trigger]
                form.unfocused().inputs.dom().contains(any) ==> !form.unfocused().inputs[any].is_focused
        }),
{
}

/// Edits and the pointer reach the input that they are meant for and leave the text of every other
/// input alone; a native edit also clears the error.
pub proof fn law_pointer_and_edits_reach_one_input(
    form: FormModel,
    target: ConnectionFormInputTarget,
    other: ConnectionFormInputTarget,
    index: usize,
    granularity: TextSelectionGranularity,
    word: Option<Range<usize>>,
    edit: NativeTextEdit,
)
    requires
        form.inputs.dom().contains(target),
        form.inputs.dom().contains(other),
        other != target,
    ensures
        form.pressed(target, index, granularity, word).inputs[target]
            == form.inputs[target].unfocused().focused().pressed(index, granularity, word),
        form.pressed(target, index, granularity, word).inputs[other].value
            == form.inputs[other].value,
        form.dragged(target, index, word).inputs[target] == form.inputs[target].dragged(
            index,
            word,
        ),
        form.dragged(target, index, word).inputs[other] == form.inputs[other],
        form.released(target).inputs[target] == form.inputs[target].released(),
        form.released(target).inputs[other] == form.inputs[other],
        form.natively_edited(target, edit).inputs[target]
            == form.inputs[target].unfocused().focused().natively_edited(edit),
        form.natively_edited(target, edit).inputs[other].value == form.inputs[other].value,
        form.natively_edited(target, edit).error_message is None,
{
}

/// What is put into an input of a link is read from that input again, and every other input of the
/// link reads as before.
pub proof fn law_link_inputs_are_apart(
    link: ConnectionLinkFormState,
    target: ConnectionFormInputTarget,
    other: ConnectionFormInputTarget,
    input: TextInputState,
)
    requires
        !(target is DirectoryName),
        !(other is DirectoryName),
    ensures
        link.with_input(target, input).input(target) == input,
        other != target ==> link.with_input(target, input).input(other) == link.input(other),
        link.with_input(target, input).link_kind == link.link_kind,
{
}

/// The inputs that a link's form asks for. Every link has a name, a host, a port, a user and a
/// password, in this order; a share also has its name, its first folder and a domain; a shell also
/// has a key and the key's password.
pub proof fn law_form_asks_for_what_the_protocol_needs(kind: ConnectionLinkKind)
    ensures
        ({
            let rows = link_row_models(kind);
            &&& rows.len() == (if kind is Smb {
                8int
            } else {
                7int
            })
            &&& rows[0].target is LinkName
            &&& rows[1].target is LinkHost
            &&& rows[2].target is LinkPort
            &&& rows[3].target is LinkUsername
            &&& rows[4].target is LinkPassword
            &&& kind is Smb ==> rows[2].placeholder == "445"@
            &&& kind is Ssh ==> rows[2].placeholder == "22"@
            &&& kind is Smb ==> rows[4].placeholder == "必填"@
            &&& kind is Ssh ==> rows[4].placeholder == "可选"@
            &&& kind is Smb ==> rows[5].target is LinkShare
            &&& kind is Smb ==> rows[6].target is LinkInitialDir
            &&& kind is Smb ==> rows[7].target is LinkDomain
            &&& kind is Ssh ==> rows[5].target is LinkPrivateKeyPath
            &&& kind is Ssh ==> rows[6].target is LinkPrivateKeyPassphrase
            &&& forall|i: int|
                0 <= i < rows.len() ==> (#[trigger] rows[i]).is_secret == (rows[i].target
                    is LinkPassword || rows[i].target is LinkPrivateKeyPassphrase)
        }),
{
}

} // verus!
