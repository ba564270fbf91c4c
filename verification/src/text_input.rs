//! The state of one text input: its text, its cursor and what is selected or
//! being composed, and the edits that keep them together.

use std::ops::Range;
use vstd::prelude::*;
use crate::text_selection::{
    character_count, copy_range, greatest, least, max_of, min_of, replace_character_range,
    with_replaced, NativeTextEdit, TextSelectionGranularity,
};

verus! {

/// A selection that a held mouse button is still extending.
#[derive(Debug, PartialEq, Eq)]
pub struct InputTextSelectionDrag {
    /// What was selected where the button went down.
    pub anchor_range: Range<usize>,
    /// How much each step selects.
    pub granularity: TextSelectionGranularity,
}

/// What the mouse does on an input.
#[derive(Clone, Copy, Debug, PartialEq, Eq, Structural)]
pub enum InputPointerAction {
    /// The button went down.
    Begin,
    /// The mouse moved with the button down.
    Extend,
    /// The button went up.
    Finish,
}

/// The mouse did something on an input.
#[derive(Clone, Copy, Debug, PartialEq, Eq, Structural)]
pub struct InputPointerEvent {
    /// What it did.
    pub action: InputPointerAction,
    /// The character that it points at.
    pub character_index: usize,
    /// How much each step selects.
    pub granularity: TextSelectionGranularity,
}

/// The editing state of one text input. Positions count characters.
#[derive(Debug, PartialEq, Eq)]
pub struct TextInputState {
    /// The text itself.
    pub value: String,
    /// Where the cursor stands.
    pub cursor: usize,
    /// The other end of the selection, where there is one.
    pub selection_anchor: Option<usize>,
    /// What an input method is still composing.
    pub marked_range: Option<Range<usize>>,
    /// The selection that the mouse is extending.
    pub selection_drag: Option<InputTextSelectionDrag>,
    /// Whether the input has the keyboard.
    pub is_focused: bool,
}

/// A [`TextInputState`] with its text as a sequence of characters.
#[verifier::ext_equal]
pub struct InputModel {
    /// The text itself.
    pub value: Seq<char>,
    /// Where the cursor stands.
    pub cursor: usize,
    /// The other end of the selection.
    pub selection_anchor: Option<usize>,
    /// What an input method is still composing.
    pub marked_range: Option<Range<usize>>,
    /// The selection that the mouse is extending.
    pub selection_drag: Option<InputTextSelectionDrag>,
    /// Whether the input has the keyboard.
    pub is_focused: bool,
}

impl View for TextInputState {
    type V = InputModel;

    open spec fn view(&self) -> InputModel {
        InputModel {
            value: self.value@,
            cursor: self.cursor,
            selection_anchor: self.selection_anchor,
            marked_range: self.marked_range,
            selection_drag: self.selection_drag,
            is_focused: self.is_focused,
        }
    }
}

// ---------------------------------------------------------------------------
// The model of each edit
// ---------------------------------------------------------------------------

impl InputModel {
    /// An input without text, cursor at its start.
    pub open spec fn blank() -> InputModel {
        InputModel {
            value: Seq::empty(),
            cursor: 0,
            selection_anchor: None,
            marked_range: None,
            selection_drag: None,
            is_focused: false,
        }
    }

    /// An input that holds a text, cursor at its end.
    pub open spec fn holding(value: Seq<char>) -> InputModel {
        InputModel { value, cursor: value.len() as usize, ..InputModel::blank() }
    }

    /// The selection, front end first; none where it is empty.
    pub open spec fn selection(self) -> Option<Range<usize>> {
        match self.selection_anchor {
            None => None,
            Some(anchor) => if anchor == self.cursor {
                None
            } else if anchor < self.cursor {
                Some(Range { start: anchor, end: self.cursor })
            } else {
                Some(Range { start: self.cursor, end: anchor })
            },
        }
    }

    /// The cursor, but never behind the text.
    pub open spec fn text_cursor(self) -> usize {
        least(self.cursor as int, self.value.len() as int) as usize
    }

    /// The same input with nothing selected, composed or dragged.
    pub open spec fn settled(self) -> InputModel {
        InputModel { selection_anchor: None, marked_range: None, selection_drag: None, ..self }
    }

    /// The input after a range gave way to a text, cursor behind it.
    pub open spec fn with_edit(self, range: Range<usize>, text: Seq<char>) -> InputModel {
        InputModel {
            value: with_replaced(self.value, range, text),
            cursor: (range.start + text.len()) as usize,
            ..self
        }.settled()
    }

    /// The input after it got the keyboard: cursor at the end of the text.
    pub open spec fn focused(self) -> InputModel {
        InputModel { cursor: self.value.len() as usize, is_focused: true, ..self }.settled()
    }

    /// The input after it lost the keyboard.
    pub open spec fn unfocused(self) -> InputModel {
        InputModel { is_focused: false, ..self }.settled()
    }

    /// The input after its whole text was selected.
    pub open spec fn all_selected(self) -> InputModel {
        InputModel {
            cursor: self.value.len() as usize,
            selection_anchor: Some(0),
            marked_range: None,
            selection_drag: None,
            ..self
        }
    }

    /// The input after its selection was taken out.
    pub open spec fn without_selection(self) -> InputModel {
        match self.selection() {
            None => self,
            Some(range) => self.with_edit(range, Seq::empty()),
        }
    }

    /// The input after a text was typed: it replaces the selection, or goes in
    /// at the cursor. An empty text changes nothing.
    pub open spec fn typed(self, text: Seq<char>) -> InputModel {
        if text.len() == 0 {
            self
        } else {
            let base = self.without_selection();
            let at = base.text_cursor();
            base.with_edit(Range { start: at, end: at }, text)
        }
    }

    /// The input after the key that deletes backward.
    pub open spec fn erased_backward(self) -> InputModel {
        if self.selection() is Some {
            self.without_selection()
        } else if self.cursor == 0 {
            self
        } else {
            let end = self.text_cursor();
            let start = (end - 1) as usize;
            InputModel {
                value: with_replaced(self.value, Range { start, end }, Seq::empty()),
                cursor: start,
                marked_range: None,
                selection_drag: None,
                ..self
            }
        }
    }

    /// The input after the key that deletes forward.
    pub open spec fn erased_forward(self) -> InputModel {
        if self.selection() is Some {
            self.without_selection()
        } else if self.cursor >= self.value.len() {
            self
        } else {
            InputModel {
                value: with_replaced(
                    self.value,
                    Range { start: self.cursor, end: (self.cursor + 1) as usize },
                    Seq::empty(),
                ),
                marked_range: None,
                selection_drag: None,
                ..self
            }
        }
    }

    /// The input after its cursor moved. Where the move extends the selection,
    /// the anchor stays, or is set to where the cursor was.
    pub open spec fn moved(self, cursor: usize, extend: bool) -> InputModel {
        InputModel {
            cursor: least(cursor as int, self.value.len() as int) as usize,
            selection_anchor: if !extend {
                None
            } else if self.selection_anchor is Some {
                self.selection_anchor
            } else {
                Some(self.cursor)
            },
            marked_range: None,
            selection_drag: None,
            ..self
        }
    }

    /// What a click at a position covers. `word` is the word found there.
    pub open spec fn clicked_range(
        self,
        index: usize,
        granularity: TextSelectionGranularity,
        word: Option<Range<usize>>,
    ) -> Range<usize> {
        let at = least(index as int, self.value.len() as int) as usize;
        match granularity {
            TextSelectionGranularity::Character => Range { start: at, end: at },
            TextSelectionGranularity::Word => match word {
                Some(found) => found,
                None => Range { start: at, end: at },
            },
            TextSelectionGranularity::Line => Range { start: 0, end: self.value.len() as usize },
        }
    }

    /// The input after the mouse button went down.
    pub open spec fn pressed(
        self,
        index: usize,
        granularity: TextSelectionGranularity,
        word: Option<Range<usize>>,
    ) -> InputModel {
        let range = self.clicked_range(index, granularity, word);
        InputModel {
            cursor: range.end,
            selection_anchor: Some(range.start),
            marked_range: None,
            selection_drag: Some(InputTextSelectionDrag { anchor_range: range, granularity }),
            ..self
        }
    }

    /// The input after the mouse moved with its button down. A move in front of
    /// the first click turns the selection round; the click's own range stays
    /// selected either way.
    pub open spec fn dragged(self, index: usize, word: Option<Range<usize>>) -> InputModel {
        match self.selection_drag {
            None => self,
            Some(drag) => {
                let range = self.clicked_range(index, drag.granularity, word);
                if range.start < drag.anchor_range.start {
                    InputModel {
                        cursor: range.start,
                        selection_anchor: Some(drag.anchor_range.end),
                        marked_range: None,
                        ..self
                    }
                } else {
                    InputModel {
                        cursor: range.end,
                        selection_anchor: Some(drag.anchor_range.start),
                        marked_range: None,
                        ..self
                    }
                }
            },
        }
    }

    /// The input after the mouse button went up: an empty selection is dropped.
    pub open spec fn released(self) -> InputModel {
        InputModel {
            selection_drag: None,
            selection_anchor: if self.selection() is None {
                None
            } else {
                self.selection_anchor
            },
            ..self
        }
    }

    /// The input after the mouse did something on it.
    pub open spec fn pointed(self, event: InputPointerEvent, word: Option<Range<usize>>) -> InputModel {
        match event.action {
            InputPointerAction::Begin => self.pressed(
                event.character_index,
                event.granularity,
                word,
            ),
            InputPointerAction::Extend => self.dragged(event.character_index, word),
            InputPointerAction::Finish => self.released(),
        }
    }

    /// The input after an edit of the system's input method.
    pub open spec fn natively_edited(self, edit: NativeTextEdit) -> InputModel {
        let length = self.value.len() as int;
        let value = with_replaced(
            self.value,
            ordered(edit.replacement_range, length),
            edit.text@,
        );
        let selected = ordered(edit.selected_range, value.len() as int);
        InputModel {
            value,
            cursor: selected.end,
            selection_anchor: if selected.start != selected.end {
                Some(selected.start)
            } else {
                None
            },
            marked_range: match edit.marked_range {
                None => None,
                Some(marked) => {
                    let range = ordered(marked, value.len() as int);
                    if range.start < range.end {
                        Some(range)
                    } else {
                        None
                    }
                },
            },
            selection_drag: None,
            ..self
        }
    }

    /// Whether cursor, selection and composition all lie in the text.
    pub open spec fn in_bounds(self) -> bool {
        &&& self.value.len() <= usize::MAX
        &&& self.cursor <= self.value.len()
        &&& self.selection_anchor is Some ==> self.selection_anchor->0 <= self.value.len()
        &&& self.marked_range is Some ==> self.marked_range->0.start <= self.marked_range->0.end
            && self.marked_range->0.end <= self.value.len()
    }
}

/// A range cut to a text's length, front end first.
pub open spec fn ordered(range: Range<usize>, length: int) -> Range<usize> {
    let start = least(range.start as int, length);
    let end = least(range.end as int, length);
    Range { start: least(start, end) as usize, end: greatest(start, end) as usize }
}

// ---------------------------------------------------------------------------
// The edits
// ---------------------------------------------------------------------------

impl TextInputState {
    /// An input without text.
    pub fn new() -> (result: TextInputState)
        ensures
            result@ == InputModel::blank(),
    {
        TextInputState {
            value: String::new(),
            cursor: 0,
            selection_anchor: None,
            marked_range: None,
            selection_drag: None,
            is_focused: false,
        }
    }

    /// An input that holds a text.
    pub fn from_value(value: String) -> (result: TextInputState)
        ensures
            result@ == InputModel::holding(value@),
    {
        let cursor: usize = character_count(value.as_str());
        TextInputState {
            value,
            cursor,
            selection_anchor: None,
            marked_range: None,
            selection_drag: None,
            is_focused: false,
        }
    }

    /// The selection, front end first.
    pub fn selection_range(&self) -> (result: Option<Range<usize>>)
        ensures
            result == self@.selection(),
    {
        input_selection_range(self)
    }

    /// Applies an edit of the system's input method.
    pub fn apply_native_edit(&mut self, edit: &NativeTextEdit)
        ensures
            final(self)@ == old(self)@.natively_edited(*edit),
    {
        apply_native_edit_to_input(self, edit);
    }

    /// The mouse button went down.
    pub fn begin_pointer_selection(
        &mut self,
        character_index: usize,
        granularity: TextSelectionGranularity,
        word: Option<Range<usize>>,
    )
        ensures
            final(self)@ == old(self)@.pressed(character_index, granularity, word),
    {
        begin_input_pointer_selection(self, character_index, granularity, word);
    }

    /// The mouse moved with its button down.
    pub fn update_pointer_selection(&mut self, character_index: usize, word: Option<Range<usize>>)
        ensures
            final(self)@ == old(self)@.dragged(character_index, word),
    {
        update_input_pointer_selection(self, character_index, word);
    }

    /// The mouse button went up.
    pub fn finish_pointer_selection(&mut self)
        ensures
            final(self)@ == old(self)@.released(),
    {
        finish_input_pointer_selection(self);
    }

    /// The input lost the keyboard.
    pub fn clear_focus(&mut self)
        ensures
            final(self)@ == old(self)@.unfocused(),
    {
        clear_input_focus_state(self);
    }
}

/// Gives an input the keyboard.
pub fn focus_input_state(input: &mut TextInputState)
    ensures
        final(input)@ == old(input)@.focused(),
{
    input.is_focused = true;
    input.cursor = character_count(input.value.as_str());
    input.selection_anchor = None;
    input.marked_range = None;
    input.selection_drag = None;
}

/// Takes the keyboard from an input.
pub fn clear_input_focus_state(input: &mut TextInputState)
    ensures
        final(input)@ == old(input)@.unfocused(),
{
    input.is_focused = false;
    input.selection_anchor = None;
    input.marked_range = None;
    input.selection_drag = None;
}

/// The selection of an input, front end first; none where it is empty.
pub fn input_selection_range(input: &TextInputState) -> (result: Option<Range<usize>>)
    ensures
        result == input@.selection(),
{
    match input.selection_anchor {
        None => None,
        Some(anchor) => {
            if anchor == input.cursor {
                None
            } else {
                Some(min_of(anchor, input.cursor)..max_of(anchor, input.cursor))
            }
        },
    }
}

/// What a click covers.
pub fn input_range_for_granularity(
    input: &TextInputState,
    character_index: usize,
    granularity: TextSelectionGranularity,
    word: Option<Range<usize>>,
) -> (result: Range<usize>)
    ensures
        result == input@.clicked_range(character_index, granularity, word),
{
    let text_length: usize = character_count(input.value.as_str());
    let cursor: usize = min_of(character_index, text_length);
    match granularity {
        TextSelectionGranularity::Character => cursor..cursor,
        TextSelectionGranularity::Word => match word {
            Some(found) => found,
            None => cursor..cursor,
        },
        TextSelectionGranularity::Line => 0..text_length,
    }
}

/// Begins a selection with the mouse.
pub fn begin_input_pointer_selection(
    input: &mut TextInputState,
    character_index: usize,
    granularity: TextSelectionGranularity,
    word: Option<Range<usize>>,
)
    ensures
        final(input)@ == old(input)@.pressed(character_index, granularity, word),
{
    let range = input_range_for_granularity(input, character_index, granularity, word);
    input.selection_anchor = Some(range.start);
    input.cursor = range.end;
    input.selection_drag = Some(InputTextSelectionDrag { anchor_range: range, granularity });
    input.marked_range = None;
}

/// Extends a selection with the mouse.
pub fn update_input_pointer_selection(
    input: &mut TextInputState,
    character_index: usize,
    word: Option<Range<usize>>,
)
    ensures
        final(input)@ == old(input)@.dragged(character_index, word),
{
    let (anchor_range, granularity) = match &input.selection_drag {
        None => {
            return;
        },
        Some(drag) => (copy_range(&drag.anchor_range), drag.granularity),
    };
    let focus_range = input_range_for_granularity(input, character_index, granularity, word);
    if focus_range.start < anchor_range.start {
        input.selection_anchor = Some(anchor_range.end);
        input.cursor = focus_range.start;
    } else {
        input.selection_anchor = Some(anchor_range.start);
        input.cursor = focus_range.end;
    }
    input.marked_range = None;
}

/// Ends a selection with the mouse.
pub fn finish_input_pointer_selection(input: &mut TextInputState)
    ensures
        final(input)@ == old(input)@.released(),
{
    input.selection_drag = None;
    if input_selection_range(input).is_none() {
        input.selection_anchor = None;
    }
}

/// Does to an input what the mouse did. `word` is the word that it points at.
pub fn apply_pointer_event(
    input: &mut TextInputState,
    event: &InputPointerEvent,
    word: Option<Range<usize>>,
)
    ensures
        final(input)@ == old(input)@.pointed(*event, word),
{
    match event.action {
        InputPointerAction::Begin => {
            begin_input_pointer_selection(input, event.character_index, event.granularity, word);
        },
        InputPointerAction::Extend => {
            update_input_pointer_selection(input, event.character_index, word);
        },
        InputPointerAction::Finish => {
            finish_input_pointer_selection(input);
        },
    }
}

/// Takes the selection out of an input. Returns whether there was one.
pub fn delete_input_selection(input: &mut TextInputState) -> (result: bool)
    ensures
        result == (old(input)@.selection() is Some),
        final(input)@ == old(input)@.without_selection(),
{
    match input_selection_range(input) {
        None => false,
        Some(range) => {
            let empty = String::new();
            input.value = replace_character_range(input.value.as_str(), &range, empty.as_str());
            input.cursor = range.start;
            input.selection_anchor = None;
            input.marked_range = None;
            input.selection_drag = None;
            true
        },
    }
}

/// Types a text into an input.
pub fn insert_input_text(input: &mut TextInputState, text: &str)
    ensures
        final(input)@ == old(input)@.typed(text@),
{
    if text.is_empty() {
        return;
    }
    delete_input_selection(input);
    let cursor: usize = min_of(input.cursor, character_count(input.value.as_str()));
    let range = cursor..cursor;
    input.value = replace_character_range(input.value.as_str(), &range, text);
    let length: usize = character_count(input.value.as_str());
    assert(cursor + text@.len() <= length);
    input.cursor = cursor + character_count(text);
    input.selection_anchor = None;
    input.marked_range = None;
    input.selection_drag = None;
}

/// Deletes the selection, or the character in front of the cursor. A cursor
/// behind an empty text has nothing in front of it to delete.
pub fn delete_input_backward(input: &mut TextInputState)
    requires
        old(input)@.selection() is None && old(input)@.cursor > 0 ==> old(input)@.value.len() > 0,
    ensures
        final(input)@ == old(input)@.erased_backward(),
{
    if delete_input_selection(input) {
        return;
    }
    if input.cursor == 0 {
        return;
    }
    let cursor: usize = min_of(input.cursor, character_count(input.value.as_str()));
    let range = cursor - 1..cursor;
    let empty = String::new();
    input.value = replace_character_range(input.value.as_str(), &range, empty.as_str());
    input.cursor = cursor - 1;
    input.marked_range = None;
    input.selection_drag = None;
}

/// Deletes the selection, or the character behind the cursor.
pub fn delete_input_forward(input: &mut TextInputState)
    ensures
        final(input)@ == old(input)@.erased_forward(),
{
    if delete_input_selection(input) {
        return;
    }
    let text_length: usize = character_count(input.value.as_str());
    let cursor: usize = min_of(input.cursor, text_length);
    if cursor >= text_length {
        return;
    }
    let range = cursor..cursor + 1;
    let empty = String::new();
    input.value = replace_character_range(input.value.as_str(), &range, empty.as_str());
    input.cursor = cursor;
    input.marked_range = None;
    input.selection_drag = None;
}

/// Moves the cursor one character to the left.
pub fn move_input_left(input: &mut TextInputState, extend_selection: bool)
    ensures
        final(input)@ == old(input)@.moved(
            (if old(input)@.cursor == 0 {
                0
            } else {
                old(input)@.cursor - 1
            }) as usize,
            extend_selection,
        ),
{
    let cursor: usize = input.cursor.saturating_sub(1);
    move_input_cursor(input, cursor, extend_selection);
}

/// Moves the cursor one character to the right.
pub fn move_input_right(input: &mut TextInputState, extend_selection: bool)
    requires
        old(input)@.cursor < usize::MAX,
    ensures
        final(input)@ == old(input)@.moved((old(input)@.cursor + 1) as usize, extend_selection),
{
    let cursor: usize = min_of(input.cursor + 1, character_count(input.value.as_str()));
    move_input_cursor(input, cursor, extend_selection);
}

/// Moves the cursor, and extends the selection where asked to.
pub fn move_input_cursor(input: &mut TextInputState, cursor: usize, extend_selection: bool)
    ensures
        final(input)@ == old(input)@.moved(cursor, extend_selection),
{
    let next: usize = min_of(cursor, character_count(input.value.as_str()));
    if extend_selection {
        if input.selection_anchor.is_none() {
            input.selection_anchor = Some(input.cursor);
        }
    } else {
        input.selection_anchor = None;
    }
    input.cursor = next;
    input.marked_range = None;
    input.selection_drag = None;
}

/// Cuts a range to a text's length and puts its front end first.
pub fn clamp_range(range: &Range<usize>, text_length: usize) -> (result: Range<usize>)
    ensures
        result == ordered(*range, text_length as int),
{
    let start: usize = min_of(range.start, text_length);
    let end: usize = min_of(range.end, text_length);
    min_of(start, end)..max_of(start, end)
}

/// Applies an edit of the system's input method to an input.
pub fn apply_native_edit_to_input(input: &mut TextInputState, edit: &NativeTextEdit)
    ensures
        final(input)@ == old(input)@.natively_edited(*edit),
{
    let text_length: usize = character_count(input.value.as_str());
    let replacement_range = clamp_range(&edit.replacement_range, text_length);
    let next_value = replace_character_range(
        input.value.as_str(),
        &replacement_range,
        edit.text.as_str(),
    );
    let next_length: usize = character_count(next_value.as_str());
    let selected_range = clamp_range(&edit.selected_range, next_length);
    let marked_range = match &edit.marked_range {
        None => None,
        Some(marked) => {
            let range = clamp_range(marked, next_length);
            if range.start < range.end {
                Some(range)
            } else {
                None
            }
        },
    };
    input.value = next_value;
    input.cursor = selected_range.end;
    input.selection_anchor = if selected_range.start != selected_range.end {
        Some(selected_range.start)
    } else {
        None
    };
    input.marked_range = marked_range;
    input.selection_drag = None;
}

// ---------------------------------------------------------------------------
// Laws
// ---------------------------------------------------------------------------

/// Every edit of an input whose positions lie in its text keeps them there. For
/// the deletion backward this takes an anchor that is not an empty selection's:
/// such an anchor stays where it was while the text in front of it shrinks.
pub proof fn law_edits_stay_in_bounds(
    input: InputModel,
    text: Seq<char>,
    cursor: usize,
    extend: bool,
    edit: NativeTextEdit,
)
    requires
        input.in_bounds(),
        input.value.len() + text.len() <= usize::MAX,
        input.value.len() + edit.text@.len() <= usize::MAX,
    ensures
        input.typed(text).in_bounds(),
        input.selection_anchor != Some(input.cursor) ==> input.erased_backward().in_bounds(),
        input.erased_forward().in_bounds(),
        input.moved(cursor, extend).in_bounds(),
        input.all_selected().in_bounds(),
        input.focused().in_bounds(),
        input.unfocused().in_bounds(),
        input.released().in_bounds(),
        input.natively_edited(edit).in_bounds(),
{
}

/// The input after the key that deletes backward was pressed a number of times.
pub open spec fn erased_times(input: InputModel, times: nat) -> InputModel
    decreases times,
{
    if times == 0 {
        input
    } else {
        erased_times(input.erased_backward(), (times - 1) as nat)
    }
}

proof fn lemma_erasing_takes_text_out(front: InputModel, text: Seq<char>, back: Seq<char>)
    requires
        front.selection_anchor is None && front.marked_range is None && front.selection_drag is None,
        front.cursor == front.value.len(),
        front.value.len() + text.len() <= usize::MAX,
    ensures
        erased_times(
            InputModel {
                value: front.value + text + back,
                cursor: (front.cursor + text.len()) as usize,
                ..front
            },
            text.len(),
        ) == (InputModel { value: front.value + back, ..front }),
    decreases text.len(),
{
    let whole = InputModel {
        value: front.value + text + back,
        cursor: (front.cursor + text.len()) as usize,
        ..front
    };
    if text.len() == 0 {
        assert(whole.value =~= front.value + back);
    } else {
        let rest = text.drop_last();
        let next = InputModel {
            value: front.value + rest + back,
            cursor: (front.cursor + rest.len()) as usize,
            ..front
        };
        assert(whole.erased_backward().value =~= next.value);
        assert(whole.erased_backward() == next);
        lemma_erasing_takes_text_out(front, rest, back);
    }
}

/// Deleting backward once for each character of a text that was just typed into an
/// input without a selection gives back its text and its cursor.
pub proof fn law_backspaces_undo_typing(input: InputModel, text: Seq<char>)
    requires
        input.selection() is None,
        input.cursor <= input.value.len(),
        input.value.len() + text.len() <= usize::MAX,
    ensures
        erased_times(input.typed(text), text.len()).value == input.value,
        erased_times(input.typed(text), text.len()).cursor == input.cursor,
        text.len() > 0 ==> erased_times(input.typed(text), text.len()) == input.settled(),
{
    if text.len() > 0 {
        let at = input.cursor as int;
        let back = input.value.skip(at);
        let front = InputModel { value: input.value.take(at), ..input }.settled();
        assert(input.typed(text).value =~= front.value + text + back);
        lemma_erasing_takes_text_out(front, text, back);
        assert(front.value + back =~= input.value);
    }
}

/// Typing over a selected text leaves the typed text alone in the input.
pub proof fn law_typing_over_everything(input: InputModel, text: Seq<char>)
    requires
        text.len() > 0,
        input.value.len() <= usize::MAX,
        text.len() <= usize::MAX,
    ensures
        input.all_selected().typed(text).value == text,
        input.all_selected().typed(text).cursor == text.len(),
        input.all_selected().typed(text).selection() is None,
{
    let all = input.all_selected();
    let base = all.without_selection();
    assert(base.value =~= Seq::<char>::empty());
    assert(all.typed(text).value =~= text);
}

/// Releasing the mouse where it went down, without a word or a line selected,
/// leaves only the cursor moved there.
pub proof fn law_click_places_cursor(input: InputModel, index: usize)
    requires
        input.value.len() <= usize::MAX,
    ensures
        input.pressed(index, TextSelectionGranularity::Character, None).released() == (InputModel {
            cursor: least(index as int, input.value.len() as int) as usize,
            ..input.settled()
        }),
{
}

/// While the mouse extends a selection, what the first click covered stays
/// between the cursor and the anchor.
pub proof fn law_drag_keeps_first_click(
    input: InputModel,
    press: usize,
    granularity: TextSelectionGranularity,
    pressed_word: Option<Range<usize>>,
    drag: usize,
    dragged_word: Option<Range<usize>>,
)
    requires
        input.value.len() <= usize::MAX,
        pressed_word is Some ==> pressed_word->0.start <= pressed_word->0.end,
        dragged_word is Some ==> dragged_word->0.start <= dragged_word->0.end,
        dragged_word is Some && pressed_word is Some ==> dragged_word->0.start
            < pressed_word->0.start || pressed_word->0.end <= dragged_word->0.end,
        granularity is Word ==> pressed_word is Some && dragged_word is Some,
    ensures
        ({
            let first = input.clicked_range(press, granularity, pressed_word);
            let after = input.pressed(press, granularity, pressed_word).dragged(drag, dragged_word);
            &&& least(after.cursor as int, after.selection_anchor->0 as int) <= first.start
            &&& first.end <= greatest(after.cursor as int, after.selection_anchor->0 as int)
        }),
{
}

} // verus!
