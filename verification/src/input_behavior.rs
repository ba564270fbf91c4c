//! What keys do to a text input that a view holds itself: typing, deleting,
//! moving, selecting and the clipboard.

use std::ops::Range;
use vstd::prelude::*;
use crate::keystroke::{optional_text, typed_text, Keystroke, KeystrokeModel};
use crate::text::{ascii_lower_case, chars_of, is_control_code, same_text, to_ascii_lower};
use crate::text_input::{InputModel, TextInputState};
use crate::text_selection::{
    character_count, min_of, remove_character_range, replace_character_range, slice_character_range,
    covered, with_replaced,
};

verus! {

/// What a view does after a key press.
#[derive(Clone, Copy, Debug, PartialEq, Eq, Structural)]
pub enum LocalInputAction {
    /// Nothing.
    Ignored,
    /// The text or the cursor changed.
    Changed,
    /// The input asks to be submitted.
    Submit,
    /// The input asks to be closed.
    Close,
}

/// What a key press asks for beyond the change of the input.
#[derive(Debug, PartialEq, Eq)]
pub struct KeyOutcome {
    /// What the view does.
    pub action: LocalInputAction,
    /// What goes to the clipboard.
    pub copied: Option<String>,
}

/// The whole effect of a key press.
#[verifier::ext_equal]
pub struct KeyStep {
    /// The input afterwards.
    pub input: InputModel,
    /// What the view does.
    pub action: LocalInputAction,
    /// What goes to the clipboard.
    pub copied: Option<Seq<char>>,
}

// ---------------------------------------------------------------------------
// Pasting
// ---------------------------------------------------------------------------

/// A space for a line break, anything else as it is.
pub open spec fn unbroken(character: char) -> char {
    if character == '\r' || character == '\n' {
        ' '
    } else {
        character
    }
}

/// What pasting a text puts into an input: line breaks become spaces where the
/// input has one line only.
pub open spec fn pasted(text: Seq<char>, multiline: bool) -> Seq<char> {
    if multiline {
        text
    } else {
        text.map_values(|c: char| unbroken(c))
    }
}

/// Replaces the line breaks of a text by spaces.
pub fn without_line_breaks(text: &str) -> (result: String)
    ensures
        result@ == pasted(text@, false),
{
    let characters = chars_of(text);
    let mut result = String::new();
    let mut i: usize = 0;
    while i < characters.len()
        invariant
            i <= characters@.len(),
            characters@ == text@,
            result@ == pasted(text@.take(i as int), false),
        decreases characters@.len() - i,
    {
        let character = characters[i];
        proof {
            assert(text@.take(i + 1) =~= text@.take(i as int).push(character));
        }
        if character == '\r' || character == '\n' {
            result.push(' ');
        } else {
            result.push(character);
        }
        i += 1;
    }
    proof {
        assert(text@.take(i as int) =~= text@);
    }
    result
}

// ---------------------------------------------------------------------------
// The model of each key
// ---------------------------------------------------------------------------

impl InputModel {
    /// Where typed text goes: over the selection, or in at the cursor.
    pub open spec fn insertion_range(self) -> Range<usize> {
        match self.selection() {
            Some(range) => range,
            None => Range { start: self.text_cursor(), end: self.text_cursor() },
        }
    }

    /// The input after a text went in.
    pub open spec fn inserted(self, text: Seq<char>) -> InputModel {
        self.with_edit(self.insertion_range(), text)
    }

    /// The input after the backspace key.
    pub open spec fn backspaced(self) -> InputModel {
        match self.selection() {
            Some(range) => self.with_edit(range, Seq::empty()),
            None => if self.cursor == 0 {
                self
            } else {
                let start = (self.cursor - 1) as usize;
                InputModel {
                    value: with_replaced(
                        self.value,
                        Range { start, end: self.cursor },
                        Seq::empty(),
                    ),
                    cursor: start,
                    ..self
                }.settled()
            },
        }
    }

    /// The input after the delete key.
    pub open spec fn forward_deleted(self) -> InputModel {
        match self.selection() {
            Some(range) => self.with_edit(range, Seq::empty()),
            None => if self.cursor >= self.value.len() {
                self
            } else {
                InputModel {
                    value: with_replaced(
                        self.value,
                        Range { start: self.cursor, end: (self.cursor + 1) as usize },
                        Seq::empty(),
                    ),
                    ..self
                }.settled()
            },
        }
    }

    /// What the selection covers, where there is one.
    pub open spec fn selected_text(self) -> Option<Seq<char>> {
        match self.selection() {
            Some(range) => Some(covered(self.value, range)),
            None => None,
        }
    }
}

/// The effect of a clipboard shortcut; none where the press is not one.
pub open spec fn clipboard_step(
    input: InputModel,
    keystroke: KeystrokeModel,
    multiline: bool,
    clipboard: Option<Seq<char>>,
) -> Option<KeyStep> {
    let key = ascii_lower_case(keystroke.key);
    if !keystroke.modifiers.secondary {
        None
    } else if key == "v"@ {
        Some(
            KeyStep {
                input: match clipboard {
                    Some(text) => input.inserted(pasted(text, multiline)),
                    None => input,
                },
                action: LocalInputAction::Changed,
                copied: None,
            },
        )
    } else if key == "c"@ {
        Some(
            KeyStep {
                input,
                action: LocalInputAction::Ignored,
                copied: input.selected_text(),
            },
        )
    } else if key == "x"@ {
        Some(
            KeyStep {
                input: match input.selection() {
                    Some(range) => input.with_edit(range, Seq::empty()),
                    None => input,
                },
                action: LocalInputAction::Changed,
                copied: input.selected_text(),
            },
        )
    } else if key == "a"@ {
        Some(
            KeyStep {
                input: input.all_selected(),
                action: LocalInputAction::Changed,
                copied: None,
            },
        )
    } else {
        None
    }
}

/// A step that only changes the input.
pub open spec fn changed_to(input: InputModel) -> KeyStep {
    KeyStep { input, action: LocalInputAction::Changed, copied: None }
}

/// The effect of a key press.
pub open spec fn key_step(
    input: InputModel,
    keystroke: KeystrokeModel,
    multiline: bool,
    clipboard: Option<Seq<char>>,
) -> KeyStep {
    let key = keystroke.key;
    let shift = keystroke.modifiers.shift;
    match clipboard_step(input, keystroke, multiline, clipboard) {
        Some(step) => step,
        None => if key == "escape"@ {
            KeyStep { input, action: LocalInputAction::Close, copied: None }
        } else if key == "enter"@ {
            if multiline && !keystroke.modifiers.secondary {
                changed_to(input.inserted("\n"@))
            } else {
                KeyStep { input, action: LocalInputAction::Submit, copied: None }
            }
        } else if key == "backspace"@ {
            changed_to(input.backspaced())
        } else if key == "delete"@ {
            changed_to(input.forward_deleted())
        } else if key == "left"@ || key == "arrowleft"@ {
            changed_to(
                input.moved(
                    (if input.cursor == 0 {
                        0
                    } else {
                        input.cursor - 1
                    }) as usize,
                    shift,
                ),
            )
        } else if key == "right"@ || key == "arrowright"@ {
            changed_to(
                input.moved(
                    (if input.cursor == usize::MAX {
                        input.cursor as int
                    } else {
                        input.cursor + 1
                    }) as usize,
                    shift,
                ),
            )
        } else if key == "home"@ {
            changed_to(input.moved(0, shift))
        } else if key == "end"@ {
            changed_to(input.moved(input.value.len() as usize, shift))
        } else {
            match keystroke.typed_text() {
                Some(text) => changed_to(input.inserted(text)),
                None => KeyStep { input, action: LocalInputAction::Ignored, copied: None },
            }
        },
    }
}

/// Whether a key has a meaning of its own in every input: it types nothing.
pub open spec fn is_named_key(key: Seq<char>) -> bool {
    key == "escape"@ || key == "backspace"@ || key == "delete"@ || key == "left"@ || key
        == "arrowleft"@ || key == "right"@ || key == "arrowright"@ || key == "home"@ || key
        == "end"@
}

/// What a key press puts into an input; nothing where it does something else.
pub open spec fn key_insertion(
    keystroke: KeystrokeModel,
    multiline: bool,
    clipboard: Option<Seq<char>>,
) -> Option<Seq<char>> {
    let shortcut = ascii_lower_case(keystroke.key);
    if keystroke.modifiers.secondary && shortcut == "v"@ {
        match clipboard {
            Some(text) => Some(pasted(text, multiline)),
            None => None,
        }
    } else if keystroke.modifiers.secondary && (shortcut == "c"@ || shortcut == "x"@ || shortcut
        == "a"@) {
        None
    } else if keystroke.key == "enter"@ {
        if multiline && !keystroke.modifiers.secondary {
            Some("\n"@)
        } else {
            None
        }
    } else if is_named_key(keystroke.key) {
        None
    } else {
        keystroke.typed_text()
    }
}

/// Whether a text can go in at a position of an input without the cursor leaving
/// the machine's range. In the text it always can.
pub open spec fn fits_at(input: InputModel, start: usize, text: Seq<char>) -> bool {
    start <= input.value.len() || start + text.len() <= usize::MAX
}

/// Whether a text can go into an input. Only a selection that begins far behind the
/// text can be in the way.
pub open spec fn has_room_for(input: InputModel, text: Seq<char>) -> bool {
    fits_at(input, input.insertion_range().start, text)
}

/// Whether there is room for what a key press puts into an input.
pub open spec fn key_has_room(
    input: InputModel,
    keystroke: KeystrokeModel,
    multiline: bool,
    clipboard: Option<Seq<char>>,
) -> bool {
    match key_insertion(keystroke, multiline, clipboard) {
        Some(text) => has_room_for(input, text),
        None => true,
    }
}

// ---------------------------------------------------------------------------
// The keys
// ---------------------------------------------------------------------------

/// Drops what is selected, composed or dragged.
pub fn clear_selection(input: &mut TextInputState)
    ensures
        final(input)@ == old(input)@.settled(),
{
    input.selection_anchor = None;
    input.marked_range = None;
    input.selection_drag = None;
}

/// Replaces a range of an input and puts the cursor behind what is new.
pub fn replace_selection(input: &mut TextInputState, range: Range<usize>, text: &str)
    requires
        fits_at(old(input)@, range.start, text@),
    ensures
        final(input)@ == old(input)@.with_edit(range, text@),
{
    let start: usize = range.start;
    input.value = replace_character_range(input.value.as_str(), &range, text);
    let length: usize = character_count(input.value.as_str());
    assert(start <= old(input)@.value.len() ==> start + text@.len() <= length);
    input.cursor = start + character_count(text);
    clear_selection(input);
}

/// Puts a text over the selection, or in at the cursor.
pub fn insert_text(input: &mut TextInputState, text: &str)
    requires
        has_room_for(old(input)@, text@),
    ensures
        final(input)@ == old(input)@.inserted(text@),
{
    let range = match input.selection_range() {
        Some(range) => range,
        None => {
            let cursor: usize = min_of(input.cursor, character_count(input.value.as_str()));
            cursor..cursor
        },
    };
    replace_selection(input, range, text);
}

/// Deletes the selection, or the character in front of the cursor.
pub fn delete_backward(input: &mut TextInputState)
    ensures
        final(input)@ == old(input)@.backspaced(),
{
    match input.selection_range() {
        Some(range) => {
            let empty = String::new();
            replace_selection(input, range, empty.as_str());
        },
        None => {
            if input.cursor == 0 {
                return;
            }
            let range = input.cursor - 1..input.cursor;
            input.value = remove_character_range(input.value.as_str(), &range);
            input.cursor = range.start;
            clear_selection(input);
        },
    }
}

/// Deletes the selection, or the character behind the cursor.
pub fn delete_forward(input: &mut TextInputState)
    ensures
        final(input)@ == old(input)@.forward_deleted(),
{
    match input.selection_range() {
        Some(range) => {
            let empty = String::new();
            replace_selection(input, range, empty.as_str());
        },
        None => {
            let length: usize = character_count(input.value.as_str());
            if input.cursor >= length {
                return;
            }
            let range = input.cursor..input.cursor + 1;
            input.value = remove_character_range(input.value.as_str(), &range);
            clear_selection(input);
        },
    }
}

/// Moves the cursor; with shift held the selection grows, else it goes.
pub fn move_cursor(input: &mut TextInputState, next: usize, extend_selection: bool)
    ensures
        final(input)@ == old(input)@.moved(next, extend_selection),
{
    if extend_selection && input.selection_anchor.is_none() {
        input.selection_anchor = Some(input.cursor);
    } else if !extend_selection {
        input.selection_anchor = None;
    }
    input.cursor = min_of(next, character_count(input.value.as_str()));
    input.marked_range = None;
    input.selection_drag = None;
}

/// Copy, cut, paste and select all. `clipboard` is the text that the clipboard
/// holds.
pub fn handle_clipboard(
    input: &mut TextInputState,
    keystroke: &Keystroke,
    multiline: bool,
    clipboard: &Option<String>,
) -> (result: Option<KeyOutcome>)
    requires
        key_has_room(old(input)@, keystroke@, multiline, optional_text(*clipboard)),
    ensures
        match (
            result,
            clipboard_step(old(input)@, keystroke@, multiline, optional_text(*clipboard)),
        ) {
            (Some(outcome), Some(step)) => final(input)@ == step.input && outcome.action
                == step.action && optional_text(outcome.copied) == step.copied,
            (None, None) => final(input)@ == old(input)@,
            _ => false,
        },
{
    if !keystroke.modifiers.secondary {
        return None;
    }
    let key = to_ascii_lower(keystroke.key.as_str());
    if same_text(key.as_str(), "v") {
        match clipboard {
            Some(text) => {
                if multiline {
                    insert_text(input, text.as_str());
                } else {
                    let flat = without_line_breaks(text.as_str());
                    insert_text(input, flat.as_str());
                }
            },
            None => {},
        }
        Some(KeyOutcome { action: LocalInputAction::Changed, copied: None })
    } else if same_text(key.as_str(), "c") {
        let copied = selected_text(input);
        Some(KeyOutcome { action: LocalInputAction::Ignored, copied })
    } else if same_text(key.as_str(), "x") {
        let copied = selected_text(input);
        match input.selection_range() {
            Some(range) => {
                let empty = String::new();
                replace_selection(input, range, empty.as_str());
            },
            None => {},
        }
        Some(KeyOutcome { action: LocalInputAction::Changed, copied })
    } else if same_text(key.as_str(), "a") {
        input.cursor = character_count(input.value.as_str());
        input.selection_anchor = Some(0);
        input.marked_range = None;
        input.selection_drag = None;
        Some(KeyOutcome { action: LocalInputAction::Changed, copied: None })
    } else {
        None
    }
}

/// Whether there is room for what a key press puts into an input.
pub fn key_fits(
    input: &TextInputState,
    keystroke: &Keystroke,
    multiline: bool,
    clipboard: &Option<String>,
) -> (result: bool)
    ensures
        result == key_has_room(input@, keystroke@, multiline, optional_text(*clipboard)),
{
    let start: usize = match input.selection_range() {
        Some(range) => range.start,
        None => {
            return true;
        },
    };
    if start <= character_count(input.value.as_str()) {
        return true;
    }
    let room: usize = usize::MAX - start;
    let secondary = keystroke.modifiers.secondary;
    let shortcut = to_ascii_lower(keystroke.key.as_str());
    let key = keystroke.key.as_str();
    if secondary && same_text(shortcut.as_str(), "v") {
        match clipboard {
            Some(text) => character_count(text.as_str()) <= room,
            None => true,
        }
    } else if secondary && (same_text(shortcut.as_str(), "c") || same_text(shortcut.as_str(), "x")
        || same_text(shortcut.as_str(), "a")) {
        true
    } else if same_text(key, "enter") {
        !multiline || secondary || character_count("\n") <= room
    } else if same_text(key, "escape") || same_text(key, "backspace") || same_text(key, "delete")
        || same_text(key, "left") || same_text(key, "arrowleft") || same_text(key, "right")
        || same_text(key, "arrowright") || same_text(key, "home") || same_text(key, "end") {
        true
    } else {
        match typed_text(keystroke) {
            Some(text) => character_count(text.as_str()) <= room,
            None => true,
        }
    }
}

/// Copies what the selection of an input covers.
pub fn selected_text(input: &TextInputState) -> (result: Option<String>)
    ensures
        optional_text(result) == input@.selected_text(),
{
    match input.selection_range() {
        Some(range) => Some(slice_character_range(input.value.as_str(), &range)),
        None => None,
    }
}

/// Handles a key press in a text input. `clipboard` is the text that the
/// clipboard holds.
pub fn handle_local_input_key(
    input: &mut TextInputState,
    keystroke: &Keystroke,
    multiline: bool,
    clipboard: &Option<String>,
) -> (result: KeyOutcome)
    requires
        key_has_room(old(input)@, keystroke@, multiline, optional_text(*clipboard)),
    ensures
        ({
            let step = key_step(old(input)@, keystroke@, multiline, optional_text(*clipboard));
            &&& final(input)@ == step.input
            &&& result.action == step.action
            &&& optional_text(result.copied) == step.copied
        }),
{
    match handle_clipboard(input, keystroke, multiline, clipboard) {
        Some(outcome) => {
            return outcome;
        },
        None => {},
    }
    let key = keystroke.key.as_str();
    let shift = keystroke.modifiers.shift;
    let mut action = LocalInputAction::Changed;
    if same_text(key, "escape") {
        action = LocalInputAction::Close;
    } else if same_text(key, "enter") {
        if multiline && !keystroke.modifiers.secondary {
            insert_text(input, "\n");
        } else {
            action = LocalInputAction::Submit;
        }
    } else if same_text(key, "backspace") {
        delete_backward(input);
    } else if same_text(key, "delete") {
        delete_forward(input);
    } else if same_text(key, "left") || same_text(key, "arrowleft") {
        let next: usize = input.cursor.saturating_sub(1);
        move_cursor(input, next, shift);
    } else if same_text(key, "right") || same_text(key, "arrowright") {
        let length: usize = character_count(input.value.as_str());
        let next: usize = min_of(input.cursor.saturating_add(1), length);
        move_cursor(input, next, shift);
    } else if same_text(key, "home") {
        move_cursor(input, 0, shift);
    } else if same_text(key, "end") {
        let length: usize = character_count(input.value.as_str());
        move_cursor(input, length, shift);
    } else {
        match typed_text(keystroke) {
            Some(text) => {
                insert_text(input, text.as_str());
            },
            None => {
                action = LocalInputAction::Ignored;
            },
        }
    }
    KeyOutcome { action, copied: None }
}

// ---------------------------------------------------------------------------
// Laws
// ---------------------------------------------------------------------------

/// Cutting hands the selection to the clipboard and leaves the cursor where it was.
/// Pasting that gives the text back, with the cursor at the end of what was
/// selected; where the input has one line only, line breaks come back as spaces.
/// Without the modifier of shortcuts neither key is one.
pub proof fn law_paste_undoes_cut(
    input: InputModel,
    cut_key: KeystrokeModel,
    paste_key: KeystrokeModel,
    multiline: bool,
    clipboard: Option<Seq<char>>,
)
    requires
        input.selection() is Some,
        input.selection()->0.end <= input.value.len(),
        input.value.len() <= usize::MAX,
        ascii_lower_case(cut_key.key) == "x"@,
        ascii_lower_case(paste_key.key) == "v"@,
    ensures
        ({
            let range = input.selection()->0;
            let held = covered(input.value, range);
            let front = input.value.take(range.start as int);
            let back = input.value.skip(range.end as int);
            cut_key.modifiers.secondary && paste_key.modifiers.secondary ==> {
                let cut = clipboard_step(input, cut_key, multiline, clipboard);
                &&& cut is Some
                &&& cut->0.action is Changed
                &&& cut->0.copied == Some(held)
                &&& cut->0.input.value == front + back
                &&& cut->0.input.cursor == range.start
                &&& {
                    let back_in = clipboard_step(
                        cut->0.input,
                        paste_key,
                        multiline,
                        cut->0.copied,
                    );
                    &&& back_in is Some
                    &&& back_in->0.action is Changed
                    &&& back_in->0.input.value == front + pasted(held, multiline) + back
                    &&& back_in->0.input.cursor == range.end
                    &&& multiline || is_one_line(held) ==> back_in->0.input.value == input.value
                }
            }
        }),
        !cut_key.modifiers.secondary ==> clipboard_step(input, cut_key, multiline, clipboard)
            is None,
        !paste_key.modifiers.secondary ==> clipboard_step(input, paste_key, multiline, clipboard)
            is None,
{
    reveal_strlit("v");
    reveal_strlit("c");
    reveal_strlit("x");
    assert("x"@[0] != "v"@[0] && "x"@[0] != "c"@[0]);
    let range = input.selection()->0;
    let held = covered(input.value, range);
    let front = input.value.take(range.start as int);
    let back = input.value.skip(range.end as int);
    let cut = input.with_edit(range, Seq::empty());
    assert(cut.value =~= front + back);
    assert(cut.insertion_range() == (Range { start: range.start, end: range.start }));
    let after = cut.inserted(pasted(held, multiline));
    assert(after.value =~= front + pasted(held, multiline) + back);
    assert(pasted(held, multiline).len() == range.end - range.start);
    if multiline || is_one_line(held) {
        assert(pasted(held, multiline) =~= held);
        assert(front + held + back =~= input.value);
    }
}

/// The input after the backspace key was pressed a number of times.
pub open spec fn backspaced_times(input: InputModel, times: nat) -> InputModel
    decreases times,
{
    if times == 0 {
        input
    } else {
        backspaced_times(input.backspaced(), (times - 1) as nat)
    }
}

proof fn lemma_backspaces_take_text_out(front: InputModel, text: Seq<char>, back: Seq<char>)
    requires
        front.selection_anchor is None && front.marked_range is None && front.selection_drag is None,
        front.cursor == front.value.len(),
        front.value.len() + text.len() <= usize::MAX,
    ensures
        backspaced_times(
            InputModel {
                value: front.value + text + back,
                cursor: (front.cursor + text.len()) as usize,
                ..front
            },
            text.len(),
        ) == (InputModel { value: front.value + back, ..front }),
    decreases text.len(),
{
    let whole = InputModel {
        value: front.value + text + back,
        cursor: (front.cursor + text.len()) as usize,
        ..front
    };
    if text.len() == 0 {
        assert(whole.value =~= front.value + back);
    } else {
        let rest = text.drop_last();
        let next = InputModel {
            value: front.value + rest + back,
            cursor: (front.cursor + rest.len()) as usize,
            ..front
        };
        assert(whole.backspaced().value =~= next.value);
        assert(whole.backspaced() == next);
        lemma_backspaces_take_text_out(front, rest, back);
    }
}

/// Pressing backspace once for each character of a text that just went in gives
/// back the input, with nothing composed or dragged. At the start of an input
/// without a selection the key does nothing.
pub proof fn law_backspaces_undo_insertion(input: InputModel, text: Seq<char>)
    requires
        input.selection() is None,
        input.cursor <= input.value.len(),
        input.value.len() + text.len() <= usize::MAX,
    ensures
        backspaced_times(input.inserted(text), text.len()) == input.settled(),
        backspaced_times(input.inserted(text), text.len()).value == input.value,
        backspaced_times(input.inserted(text), text.len()).cursor == input.cursor,
        input.cursor == 0 ==> input.backspaced() == input,
{
    let at = input.cursor as int;
    let back = input.value.skip(at);
    let front = InputModel { value: input.value.take(at), ..input }.settled();
    let inserted = input.inserted(text);
    assert(inserted.value =~= front.value + text + back);
    lemma_backspaces_take_text_out(front, text, back);
    assert(front.value + back =~= input.value);
}

/// Whether a text holds no line break.
pub open spec fn is_one_line(text: Seq<char>) -> bool {
    forall|i: int| 0 <= i < text.len() ==> #[trigger] text[i] != '\n' && text[i] != '\r'
}

proof fn lemma_replacement_is_one_line(text: Seq<char>, range: Range<usize>, new: Seq<char>)
    requires
        is_one_line(text),
        is_one_line(new),
    ensures
        is_one_line(with_replaced(text, range, new)),
{
}

proof fn lemma_insertions_are_one_line(keystroke: KeystrokeModel, clipboard: Seq<char>)
    ensures
        is_one_line(pasted(clipboard, false)),
        keystroke.typed_text() is Some ==> is_one_line(keystroke.typed_text()->0),
{
    if keystroke.typed_text() is Some {
        let text = keystroke.typed_text()->0;
        assert forall|i: int| 0 <= i < text.len() implies #[trigger] text[i] != '\n' && text[i]
            != '\r' by {
            assert(!is_control_code(text[i]));
        }
    }
}

/// A single line input stays a single line: no key brings a line break into it.
pub proof fn law_single_line_stays_single(
    input: InputModel,
    keystroke: KeystrokeModel,
    clipboard: Option<Seq<char>>,
)
    requires
        is_one_line(input.value),
    ensures
        is_one_line(key_step(input, keystroke, false, clipboard).input.value),
{
    let after = key_step(input, keystroke, false, clipboard).input;
    let text = match clipboard {
        Some(text) => text,
        None => Seq::empty(),
    };
    lemma_insertions_are_one_line(keystroke, text);
    lemma_replacement_is_one_line(input.value, input.insertion_range(), pasted(text, false));
    lemma_replacement_is_one_line(input.value, input.insertion_range(), Seq::empty());
    if keystroke.typed_text() is Some {
        lemma_replacement_is_one_line(
            input.value,
            input.insertion_range(),
            keystroke.typed_text()->0,
        );
    }
    if input.cursor > 0 {
        lemma_replacement_is_one_line(
            input.value,
            Range { start: (input.cursor - 1) as usize, end: input.cursor },
            Seq::empty(),
        );
    }
    lemma_replacement_is_one_line(
        input.value,
        Range { start: input.cursor, end: (input.cursor + 1) as usize },
        Seq::empty(),
    );
}

} // verus!
