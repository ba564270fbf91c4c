//! What the mouse, the keyboard's arrival and native editing do to a text input, and how an
//! input is shown.

use std::ops::Range;
use vstd::prelude::*;
use crate::input_field::{
    field_text, lines_of, non_empty, range_in_line, text_runs, NativeModel, TextRunLength,
};
use crate::input_laws::{is_cursor_at, is_selected};
use crate::text::utf8_len;
use crate::text_input::{InputModel, InputPointerEvent};
use crate::text_selection::{NativeTextEdit, TextSelectionGranularity};

verus! {

/// What is selected lies between the anchor and the cursor, whichever comes first; without an
/// anchor, or with both at one place, nothing is.
pub proof fn law_selection_lies_between_anchor_and_cursor(input: InputModel)
    ensures
        input.selection_anchor is None ==> input.selection() is None,
        input.selection_anchor is Some ==> {
            let anchor = input.selection_anchor->0;
            &&& anchor == input.cursor ==> input.selection() is None
            &&& anchor < input.cursor ==> input.selection() == Some(
                Range { start: anchor, end: input.cursor },
            )
            &&& input.cursor < anchor ==> input.selection() == Some(
                Range { start: input.cursor, end: anchor },
            )
        },
{
}

/// An input that gets the keyboard has its cursor behind its text; one that loses it keeps its
/// cursor. Either way the text stays, and nothing is selected or composed any more.
pub proof fn law_keyboard_comes_and_goes(input: InputModel)
    requires
        input.value.len() <= usize::MAX,
    ensures
        input.focused().is_focused,
        input.focused().cursor == input.value.len(),
        !input.unfocused().is_focused,
        input.unfocused().cursor == input.cursor,
        forall|after: InputModel|
            after == input.focused() || after == input.unfocused() ==> {
                &&& (#[trigger] after.value) == input.value
                &&& after.selection_anchor is None
                &&& after.marked_range is None
                &&& after.selection_drag is None
            },
{
}

/// A new input is empty and has not got the keyboard; one that holds a text has its cursor behind
/// it.
pub proof fn law_new_inputs(value: Seq<char>)
    requires
        value.len() <= usize::MAX,
    ensures
        InputModel::blank().value.len() == 0,
        InputModel::blank().cursor == 0,
        !InputModel::blank().is_focused,
        InputModel::blank().selection_anchor is None,
        InputModel::holding(value).value == value,
        InputModel::holding(value).cursor == value.len(),
        InputModel::holding(value).selection_anchor is None,
        !InputModel::holding(value).is_focused,
{
}

/// Typing puts text where the cursor stands or characters are selected; typing nothing changes
/// nothing. Taking the selection away takes exactly the selected characters.
pub proof fn law_typing_replaces_the_selection(
    input: InputModel,
    text: Seq<char>,
    start: int,
    end: int,
)
    requires
        is_selected(input, start, end) || is_cursor_at(input, start) && start == end,
        input.value.len() + text.len() <= usize::MAX,
    ensures
        text.len() == 0 ==> input.typed(text) == input,
        text.len() > 0 ==> input.typed(text).value == input.value.take(start) + text
            + input.value.skip(end),
        text.len() > 0 ==> input.typed(text).cursor == start + text.len(),
        input.without_selection().value == input.value.take(start) + input.value.skip(end),
        input.without_selection().cursor == start,
{
    let front = input.value.take(start);
    let back = input.value.skip(end);
    let rest = front + Seq::<char>::empty() + back;
    assert(rest =~= front + back);
    assert(rest.take(start) =~= front);
    assert(rest.skip(start) =~= back);
    if start == end {
        assert(front + back =~= input.value);
    }
}

/// A press selects the place, the word or the line that the mouse points at, and remembers it for
/// what follows.
pub proof fn law_press_selects_what_is_pointed_at(
    input: InputModel,
    index: usize,
    word: Range<usize>,
)
    requires
        input.value.len() <= usize::MAX,
        index <= input.value.len(),
    ensures
        ({
            let place = input.pressed(index, TextSelectionGranularity::Character, Some(word));
            let on_word = input.pressed(index, TextSelectionGranularity::Word, Some(word));
            let on_none = input.pressed(index, TextSelectionGranularity::Word, None);
            let line = input.pressed(index, TextSelectionGranularity::Line, Some(word));
            &&& place.cursor == index && place.selection_anchor == Some(index)
            &&& on_word.cursor == word.end && on_word.selection_anchor == Some(word.start)
            &&& on_none.cursor == index && on_none.selection_anchor == Some(index)
            &&& line.cursor == input.value.len() && line.selection_anchor == Some(0usize)
            &&& place.value == input.value && on_word.value == input.value && line.value
                == input.value
            &&& place.selection_drag is Some && place.selection_drag->0.granularity is Character
            &&& on_word.selection_drag is Some && on_word.selection_drag->0.granularity is Word
                && on_word.selection_drag->0.anchor_range == word
            &&& line.selection_drag is Some && line.selection_drag->0.granularity is Line
        }),
{
}

/// A drag over characters selects from the pressed place to the place that the mouse points at, in
/// either direction. Without a press it does nothing.
pub proof fn law_drag_selects_up_to_the_mouse(
    input: InputModel,
    press: usize,
    drag: usize,
    word: Option<Range<usize>>,
)
    requires
        input.value.len() <= usize::MAX,
        press <= input.value.len(),
        drag <= input.value.len(),
    ensures
        ({
            let after = input.pressed(press, TextSelectionGranularity::Character, word).dragged(
                drag,
                word,
            );
            &&& after.cursor == drag
            &&& after.selection_anchor == Some(press)
            &&& after.value == input.value
            &&& press < drag ==> after.selection() == Some(Range { start: press, end: drag })
            &&& drag < press ==> after.selection() == Some(Range { start: drag, end: press })
        }),
        input.selection_drag is None ==> input.dragged(drag, word) == input,
{
}

/// A drag over words selects whole words: from the pressed word to the one that the mouse points
/// at, both of them included.
pub proof fn law_drag_selects_whole_words(
    input: InputModel,
    press: usize,
    first: Range<usize>,
    drag: usize,
    second: Range<usize>,
)
    requires
        input.value.len() <= usize::MAX,
        first.start < first.end,
        second.start < second.end,
        second.end <= first.start || first.end <= second.start || first == second,
    ensures
        ({
            let after = input.pressed(
                press,
                TextSelectionGranularity::Word,
                Some(first),
            ).dragged(drag, Some(second));
            &&& second.end <= first.start ==> after.selection() == Some(
                Range { start: second.start, end: first.end },
            )
            &&& first.end <= second.start ==> after.selection() == Some(
                Range { start: first.start, end: second.end },
            )
            &&& first == second ==> after.selection() == Some(first)
            &&& second.end <= first.start ==> after.cursor == second.start
            &&& first.end <= second.start ==> after.cursor == second.end
        }),
{
}

/// Letting go ends the drag. What is selected stays selected, and the cursor and the text stay.
pub proof fn law_release_keeps_the_selection(input: InputModel)
    ensures
        input.released().selection_drag is None,
        input.released().selection() == input.selection(),
        input.selection() is None ==> input.released().selection_anchor is None,
        input.selection() is Some ==> input.released().selection_anchor == input.selection_anchor,
        input.released().cursor == input.cursor,
        input.released().value == input.value,
        input.released().marked_range == input.marked_range,
{
}

/// The mouse presses, drags and lets go.
pub proof fn law_mouse_does_what_it_says(
    input: InputModel,
    event: InputPointerEvent,
    word: Option<Range<usize>>,
)
    ensures
        event.action is Begin ==> input.pointed(event, word) == input.pressed(
            event.character_index,
            event.granularity,
            word,
        ),
        event.action is Extend ==> input.pointed(event, word) == input.dragged(
            event.character_index,
            word,
        ),
        event.action is Finish ==> input.pointed(event, word) == input.released(),
{
}

/// A native edit puts its text in place of its range, and selects and marks what it says.
pub proof fn law_native_edit_is_carried_out(input: InputModel, edit: NativeTextEdit)
    requires
        input.value.len() + edit.text@.len() <= usize::MAX,
        edit.replacement_range.start <= edit.replacement_range.end <= input.value.len(),
        edit.selected_range.start <= edit.selected_range.end,
        edit.selected_range.end <= input.value.len() - (edit.replacement_range.end
            - edit.replacement_range.start) + edit.text@.len(),
        edit.marked_range is Some ==> edit.marked_range->0.start <= edit.marked_range->0.end
            && edit.marked_range->0.end <= input.value.len() - (edit.replacement_range.end
            - edit.replacement_range.start) + edit.text@.len(),
    ensures
        ({
            let after = input.natively_edited(edit);
            let from = edit.replacement_range.start as int;
            let to = edit.replacement_range.end as int;
            &&& after.value == input.value.take(from) + edit.text@ + input.value.skip(to)
            &&& after.cursor == edit.selected_range.end
            &&& edit.selected_range.start < edit.selected_range.end ==> after.selection()
                == Some(edit.selected_range)
            &&& edit.selected_range.start == edit.selected_range.end ==> after.selection() is None
            &&& edit.marked_range is None ==> after.marked_range is None
            &&& edit.marked_range is Some && edit.marked_range->0.start < edit.marked_range->0.end
                ==> after.marked_range == edit.marked_range
            &&& edit.marked_range is Some && edit.marked_range->0.start == edit.marked_range->0.end
                ==> after.marked_range is None
            &&& after.is_focused == input.is_focused
            &&& after.selection_drag is None
        }),
{
}

/// A native edit whose ranges run backwards does what the same ranges would do forwards.
pub proof fn law_native_ranges_may_run_backwards(input: InputModel, edit: NativeTextEdit)
    requires
        input.value.len() + edit.text@.len() <= usize::MAX,
    ensures
        ({
            let turned = NativeTextEdit {
                replacement_range: Range {
                    start: edit.replacement_range.end,
                    end: edit.replacement_range.start,
                },
                selected_range: Range {
                    start: edit.selected_range.end,
                    end: edit.selected_range.start,
                },
                ..edit
            };
            input.natively_edited(turned) == input.natively_edited(edit)
        }),
{
}

/// A platform's edit replaces what it names; without a name, what is being composed, else what is
/// selected, else nothing at the cursor. Committed text is selected no more and composed no more;
/// composed text is marked.
pub proof fn law_platform_edits_replace_the_right_text(handler: NativeModel, text: Seq<char>)
    requires
        handler.cursor_index <= handler.value.len(),
        handler.value.len() + text.len() <= usize::MAX,
        handler.marked_range is Some ==> handler.marked_range->0.start
            <= handler.marked_range->0.end && handler.marked_range->0.end <= handler.value.len(),
        handler.selection_range is Some ==> handler.selection_range->0.start
            <= handler.selection_range->0.end && handler.selection_range->0.end
            <= handler.value.len(),
    ensures
        ({
            let range = handler.replaced(None);
            let done = handler.after_edit(handler.committing(None, text));
            let begun = handler.after_edit(handler.composing(None, text, None));
            let ended = handler.after_edit(handler.unmarking());
            let expected = handler.value.take(range.start as int) + text + handler.value.skip(
                range.end as int,
            );
            &&& handler.marked_range is Some ==> range == handler.marked_range->0
            &&& handler.marked_range is None && handler.selection_range is Some ==> range
                == handler.selection_range->0
            &&& handler.marked_range is None && handler.selection_range is None ==> range == (Range {
                start: handler.cursor_index,
                end: handler.cursor_index,
            })
            &&& done.value == expected
            &&& done.cursor_index == range.start + text.len()
            &&& done.marked_range is None
            &&& done.selection_range is None
            &&& begun.value == expected
            &&& begun.cursor_index == range.start + text.len()
            &&& text.len() > 0 ==> begun.marked_range == Some(
                Range { start: range.start, end: (range.start + text.len()) as usize },
            )
            &&& text.len() == 0 ==> begun.marked_range is None
            &&& ended.value == handler.value
            &&& ended.marked_range is None
            &&& ended.cursor_index == handler.cursor_index
            &&& ended.selection_range is None
        }),
{
    let at = handler.cursor_index as int;
    assert(handler.value.take(at) + Seq::<char>::empty() + handler.value.skip(at)
        =~= handler.value);
}

/// A field shows its text; a secret one as many dots; an empty one its placeholder.
pub proof fn law_field_shows_its_text(value: Seq<char>, placeholder: Seq<char>, at: int)
    ensures
        value.len() == 0 ==> field_text(value, placeholder, true) == placeholder && field_text(
            value,
            placeholder,
            false,
        ) == placeholder,
        value.len() > 0 ==> field_text(value, placeholder, false) == value,
        value.len() > 0 ==> field_text(value, placeholder, true).len() == value.len(),
        0 <= at < value.len() ==> field_text(value, placeholder, true)[at] == '•',
{
}

/// The characters that are being composed are underlined, and those in front of them and behind
/// them are not: the runs have the bytes of these three parts, without empty ones.
pub proof fn law_composed_text_is_underlined(value: Seq<char>, marked: Range<usize>)
    requires
        utf8_len(value) <= usize::MAX,
        marked.start < marked.end <= value.len(),
    ensures
        ({
            let runs = text_runs(value, Some(marked));
            let front = utf8_len(value.take(marked.start as int));
            let back = utf8_len(value.take(marked.end as int));
            &&& front > 0 && front < back < utf8_len(value) ==> runs == seq![
                TextRunLength { len: front as usize, is_marked: false },
                TextRunLength { len: (back - front) as usize, is_marked: true },
                TextRunLength { len: (utf8_len(value) - back) as usize, is_marked: false },
            ]
            &&& front == 0 && 0 < back < utf8_len(value) ==> runs == seq![
                TextRunLength { len: back as usize, is_marked: true },
                TextRunLength { len: (utf8_len(value) - back) as usize, is_marked: false },
            ]
            &&& front > 0 && front < back == utf8_len(value) ==> runs == seq![
                TextRunLength { len: front as usize, is_marked: false },
                TextRunLength { len: (back - front) as usize, is_marked: true },
            ]
            &&& front == 0 && 0 < back == utf8_len(value) ==> runs == seq![
                TextRunLength { len: back as usize, is_marked: true },
            ]
        }),
        text_runs(value, None) == seq![
            TextRunLength { len: utf8_len(value) as usize, is_marked: false },
        ],
{
    let runs = text_runs(value, Some(marked));
    let front = utf8_len(value.take(marked.start as int));
    let back = utf8_len(value.take(marked.end as int));
    let whole = utf8_len(value);
    if front > 0 && front < back < whole {
        assert(runs =~= seq![
            TextRunLength { len: front as usize, is_marked: false },
            TextRunLength { len: (back - front) as usize, is_marked: true },
            TextRunLength { len: (whole - back) as usize, is_marked: false },
        ]);
    }
    if front == 0 && 0 < back < whole {
        assert(runs =~= seq![
            TextRunLength { len: back as usize, is_marked: true },
            TextRunLength { len: (whole - back) as usize, is_marked: false },
        ]);
    }
    if front > 0 && front < back && back == whole {
        assert(runs =~= seq![
            TextRunLength { len: front as usize, is_marked: false },
            TextRunLength { len: (back - front) as usize, is_marked: true },
        ]);
    }
    if front == 0 && 0 < back && back == whole {
        assert(runs =~= seq![TextRunLength { len: back as usize, is_marked: true }]);
    }
}

/// In each line of a text the part of a range is shown that lies in it: a character of the line is
/// in the line's part exactly where it is in the range. A line without such a character has no part.
pub proof fn law_range_is_shown_line_by_line(
    value: Seq<char>,
    line: int,
    range: Range<usize>,
    column: int,
)
    requires
        value.len() <= usize::MAX,
        range.start <= range.end <= value.len(),
        0 <= line < lines_of(value).len(),
        0 <= column < lines_of(value)[line].end - lines_of(value)[line].start,
    ensures
        ({
            let place = lines_of(value)[line];
            let part = range_in_line(place, Some(range), value.len() as int);
            let is_in_range = range.start <= place.start + column < range.end;
            &&& is_in_range ==> part is Some && part->0.start <= column < part->0.end
            &&& !is_in_range ==> part is None || column < part->0.start || part->0.end <= column
            &&& part is Some ==> part->0.start < part->0.end <= place.end - place.start
        }),
        range_in_line(lines_of(value)[line], None, value.len() as int) is None,
{
    crate::input_field::law_lines_partition_the_text(value, line);
}

/// An empty range is as good as none.
pub proof fn law_empty_ranges_are_none(range: Range<usize>)
    ensures
        range.start < range.end ==> non_empty(Some(range)) == Some(range),
        range.start >= range.end ==> non_empty(Some(range)) is None,
        non_empty(None) is None,
{
}

} // verus!
