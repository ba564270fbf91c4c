//! What input fields and text areas show, how a text area's text falls into
//! lines, and how the system's input method edits either of them.

use std::ops::Range;
use vstd::prelude::*;
use crate::icon::ArgusIcon;
use crate::text::{byte_len, chars_of, utf8_len};
use crate::text_selection::{
    as_character_range, as_utf16_range, byte_index_for_character, character_count,
    character_range_for_utf16_range, copy_range, covered, greatest, least,
    max_of, min_of, replace_character_range, slice_character_range, utf16_range_for_character_range,
    with_replaced, NativeTextEdit, TextSelectionGranularity,
};

verus! {

// ---------------------------------------------------------------------------
// Shared by both
// ---------------------------------------------------------------------------

/// A small icon in an input.
#[derive(Clone, Copy, Debug, PartialEq, Eq)]
pub struct InputAccessory {
    /// The id of its element.
    pub id: &'static str,
    /// The icon.
    pub icon: ArgusIcon,
    /// What it says when the mouse rests on it.
    pub tooltip: &'static str,
}

/// A text that hides another: one dot for each of its characters.
pub open spec fn masked(value: Seq<char>) -> Seq<char> {
    Seq::new(value.len(), |i: int| '•')
}

/// Hides a text behind dots.
pub fn mask_secret_value(value: &str) -> (result: String)
    ensures
        result@ == masked(value@),
{
    let length: usize = character_count(value);
    let mut result = String::new();
    let mut i: usize = 0;
    while i < length
        invariant
            i <= length,
            length == value@.len(),
            result@ == Seq::new(i as nat, |k: int| '•'),
        decreases length - i,
    {
        result.push('•');
        i += 1;
        proof {
            assert(result@ =~= Seq::new(i as nat, |k: int| '•'));
        }
    }
    result
}

/// Whether an input draws its cursor: it must have the keyboard, and so must its
/// window element, where it has one.
pub fn effective_input_focus(is_focused: bool, element_focused: Option<bool>) -> (result: bool)
    ensures
        result == (is_focused && element_focused != Some(false)),
{
    match element_focused {
        Some(element) => is_focused && element,
        None => is_focused,
    }
}

/// How much a number of clicks selects.
pub fn input_granularity_for_click_count(click_count: usize) -> (result: TextSelectionGranularity)
    ensures
        result == (if click_count <= 1 {
            TextSelectionGranularity::Character
        } else if click_count == 2 {
            TextSelectionGranularity::Word
        } else {
            TextSelectionGranularity::Line
        }),
{
    if click_count <= 1 {
        TextSelectionGranularity::Character
    } else if click_count == 2 {
        TextSelectionGranularity::Word
    } else {
        TextSelectionGranularity::Line
    }
}

/// A range that covers something.
pub open spec fn non_empty(range: Option<Range<usize>>) -> Option<Range<usize>> {
    match range {
        Some(present) => if present.start < present.end {
            range
        } else {
            None
        },
        None => None,
    }
}

/// Drops a range that covers nothing.
pub fn non_empty_range(range: &Option<Range<usize>>) -> (result: Option<Range<usize>>)
    ensures
        result == non_empty(*range),
{
    match range {
        Some(present) => {
            if present.start < present.end {
                Some(copy_range(present))
            } else {
                None
            }
        },
        None => None,
    }
}

/// A stretch of a drawn line, counted in bytes.
#[derive(Clone, Copy, Debug, PartialEq, Eq, Structural)]
pub struct TextRunLength {
    /// Its length.
    pub len: usize,
    /// Whether an input method is still composing it, which underlines it.
    pub is_marked: bool,
}

/// A stretch, or nothing where it would be empty.
pub open spec fn run_of(len: int, is_marked: bool) -> Seq<TextRunLength> {
    if len > 0 {
        seq![TextRunLength { len: len as usize, is_marked }]
    } else {
        Seq::empty()
    }
}

/// The stretches of a drawn line: what stands in front of the composed part,
/// that part, and what stands behind it.
pub open spec fn text_runs(value: Seq<char>, marked: Option<Range<usize>>) -> Seq<TextRunLength> {
    match non_empty(marked) {
        None => seq![TextRunLength { len: utf8_len(value) as usize, is_marked: false }],
        Some(range) => {
            let length = value.len() as int;
            let start = utf8_len(value.take(least(range.start as int, length))) as int;
            let end = utf8_len(value.take(least(range.end as int, length))) as int;
            run_of(start, false) + run_of(end - start, true) + run_of(
                utf8_len(value) - end,
                false,
            )
        },
    }
}

/// Cuts a line into the stretches that are drawn alike.
pub fn input_text_runs(value: &str, marked_range: &Option<Range<usize>>) -> (result: Vec<
    TextRunLength,
>)
    ensures
        result@ == text_runs(value@, *marked_range),
{
    let total: usize = byte_len(value);
    let mut runs: Vec<TextRunLength> = Vec::new();
    match non_empty_range(marked_range) {
        None => {
            runs.push(TextRunLength { len: total, is_marked: false });
        },
        Some(range) => {
            let start: usize = byte_index_for_character(value, range.start);
            let end: usize = byte_index_for_character(value, range.end);
            if start > 0 {
                runs.push(TextRunLength { len: start, is_marked: false });
            }
            if end > start {
                runs.push(TextRunLength { len: end - start, is_marked: true });
            }
            if total > end {
                runs.push(TextRunLength { len: total - end, is_marked: false });
            }
        },
    }
    proof {
        assert(runs@ =~= text_runs(value@, *marked_range));
    }
    runs
}

/// The stretches of a line add up to its bytes.
pub open spec fn total_length(runs: Seq<TextRunLength>) -> int
    decreases runs.len(),
{
    if runs.len() == 0 {
        0
    } else {
        total_length(runs.drop_last()) + runs.last().len
    }
}

proof fn lemma_prefix_is_shorter(value: Seq<char>, end: int)
    requires
        0 <= end <= value.len(),
    ensures
        utf8_len(value.take(end)) <= utf8_len(value),
{
    crate::text::lemma_utf8_len_concat(value.take(end), value.skip(end));
    assert(value.take(end) + value.skip(end) =~= value);
}

proof fn lemma_total_of_concat(left: Seq<TextRunLength>, right: Seq<TextRunLength>)
    ensures
        total_length(left + right) == total_length(left) + total_length(right),
    decreases right.len(),
{
    if right.len() == 0 {
        assert(left + right =~= left);
    } else {
        lemma_total_of_concat(left, right.drop_last());
        assert((left + right).drop_last() =~= left + right.drop_last());
    }
}

/// However a line is marked, its stretches cover all of its bytes and no more.
pub proof fn law_runs_cover_the_line(value: Seq<char>, marked: Option<Range<usize>>)
    requires
        utf8_len(value) <= usize::MAX,
    ensures
        total_length(text_runs(value, marked)) == utf8_len(value),
{
    reveal_with_fuel(total_length, 3);
    match non_empty(marked) {
        None => {
            assert(text_runs(value, marked).drop_last() =~= Seq::empty());
        },
        Some(range) => {
            let length = value.len() as int;
            let from = least(range.start as int, length);
            let to = least(range.end as int, length);
            lemma_prefix_is_shorter(value, to);
            lemma_prefix_is_shorter(value.take(to), from);
            assert(value.take(to).take(from) =~= value.take(from));
            let start = utf8_len(value.take(from)) as int;
            let end = utf8_len(value.take(to)) as int;
            let first = run_of(start, false);
            let second = run_of(end - start, true);
            let third = run_of(utf8_len(value) - end, false);
            lemma_total_of_concat(first, second);
            lemma_total_of_concat(first + second, third);
            lemma_total_of_one(start, false);
            lemma_total_of_one(end - start, true);
            lemma_total_of_one(utf8_len(value) - end, false);
        },
    }
}

proof fn lemma_total_of_one(len: int, is_marked: bool)
    requires
        0 <= len <= usize::MAX,
    ensures
        total_length(run_of(len, is_marked)) == len,
{
    reveal_with_fuel(total_length, 2);
    if len > 0 {
        assert(run_of(len, is_marked).drop_last() =~= Seq::empty());
    }
}

// ---------------------------------------------------------------------------
// The input field
// ---------------------------------------------------------------------------

/// An input field as its view describes it.
#[derive(Debug, PartialEq, Eq)]
pub struct Input {
    /// The id of its element.
    pub id: &'static str,
    /// What it shows while it is empty.
    pub placeholder: &'static str,
    /// Its text.
    pub value: String,
    /// Whether it takes no input.
    pub is_disabled: bool,
    /// Whether it has the keyboard.
    pub is_focused: bool,
    /// Where the cursor stands.
    pub cursor_index: usize,
    /// What is selected.
    pub selection_range: Option<Range<usize>>,
    /// What an input method is still composing.
    pub marked_range: Option<Range<usize>>,
    /// Whether its text is hidden.
    pub is_secret: bool,
    /// The icon behind the text.
    pub trailing_accessory: Option<InputAccessory>,
}

/// What an input field draws.
#[derive(Debug, PartialEq, Eq)]
pub struct InputAppearance {
    /// The text.
    pub display_text: String,
    /// Whether that text only says what to type.
    pub is_placeholder: bool,
    /// The text in which the mouse finds characters.
    pub pointer_value: String,
    /// Where the cursor stands.
    pub cursor_index: usize,
    /// What is drawn as selected.
    pub selection_range: Option<Range<usize>>,
    /// What is drawn as being composed.
    pub marked_range: Option<Range<usize>>,
    /// Whether the icon behind the text is there.
    pub shows_trailing_accessory: bool,
}

/// What the input field of a text shows.
pub open spec fn field_text(value: Seq<char>, placeholder: Seq<char>, is_secret: bool) -> Seq<char> {
    if value.len() == 0 {
        placeholder
    } else if is_secret {
        masked(value)
    } else {
        value
    }
}

/// Works out what an input field draws. The icon behind the text is there only
/// while the field is used.
pub fn input_appearance(input: &Input) -> (result: InputAppearance)
    ensures
        result.display_text@ == field_text(input.value@, input.placeholder@, input.is_secret),
        result.is_placeholder == (input.value@.len() == 0),
        result.pointer_value@ == field_text(input.value@, Seq::empty(), input.is_secret),
        result.cursor_index == least(input.cursor_index as int, input.value@.len() as int),
        result.selection_range == non_empty(input.selection_range),
        result.marked_range == non_empty(input.marked_range),
        result.shows_trailing_accessory == (input.trailing_accessory is Some && input.is_focused
            && !input.is_disabled),
{
    let length: usize = character_count(input.value.as_str());
    let is_placeholder = length == 0;
    let display_text = if is_placeholder {
        input.placeholder.to_owned()
    } else if input.is_secret {
        mask_secret_value(input.value.as_str())
    } else {
        input.value.clone()
    };
    let pointer_value = if input.is_secret && !is_placeholder {
        mask_secret_value(input.value.as_str())
    } else {
        input.value.clone()
    };
    proof {
        if input.value@.len() == 0 {
            assert(input.value@ =~= Seq::<char>::empty());
        }
    }
    InputAppearance {
        display_text,
        is_placeholder,
        pointer_value,
        cursor_index: min_of(input.cursor_index, length),
        selection_range: non_empty_range(&input.selection_range),
        marked_range: non_empty_range(&input.marked_range),
        shows_trailing_accessory: input.trailing_accessory.is_some() && input.is_focused
            && !input.is_disabled,
    }
}

/// A hidden text shows as many characters as it has, and nothing else of it: two
/// texts of one length look the same.
pub proof fn law_secret_shows_only_its_length(
    first: Seq<char>,
    second: Seq<char>,
    placeholder: Seq<char>,
)
    requires
        first.len() == second.len(),
    ensures
        field_text(first, placeholder, true) == field_text(second, placeholder, true),
        first.len() > 0 ==> field_text(first, placeholder, true).len() == first.len(),
{
}

// ---------------------------------------------------------------------------
// The text area
// ---------------------------------------------------------------------------

/// How a text area looks.
#[derive(Clone, Copy, Debug, PartialEq, Eq, Structural)]
pub enum TextareaStyle {
    /// In a form.
    Default,
    /// In a conversation.
    Composer,
}

/// Where the icon of a text area floats.
#[derive(Clone, Copy, Debug, PartialEq, Eq, Structural)]
pub enum TextareaAccessoryPosition {
    /// At the top.
    TopRight,
    /// At the bottom.
    BottomRight,
}

/// How much room a text area keeps on its right.
#[derive(Clone, Copy, Debug, PartialEq, Eq, Structural)]
pub enum TextareaRightPadding {
    /// The usual padding.
    Plain,
    /// Room for one icon.
    OneAccessory,
    /// Room for two icons.
    TwoAccessories,
}

/// A text area as its view describes it.
#[derive(Debug, PartialEq, Eq)]
pub struct Textarea {
    /// The id of its element.
    pub id: &'static str,
    /// What it shows while it is empty.
    pub placeholder: &'static str,
    /// Its text.
    pub value: String,
    /// Whether it takes no input.
    pub is_disabled: bool,
    /// Whether it has the keyboard.
    pub is_focused: bool,
    /// Where the cursor stands.
    pub cursor_index: usize,
    /// What is selected.
    pub selection_range: Option<Range<usize>>,
    /// What an input method is still composing.
    pub marked_range: Option<Range<usize>>,
    /// How many lines it shows.
    pub visible_lines: usize,
    /// How it looks.
    pub style: TextareaStyle,
    /// Its icon.
    pub trailing_accessory: Option<InputAccessory>,
    /// Whether the icon is there without the keyboard, too.
    pub trailing_accessory_always_visible: bool,
}

/// One line of a text, with its place in the whole.
#[derive(Debug, PartialEq, Eq)]
pub struct TextareaLine {
    /// The line.
    pub text: String,
    /// Where it begins.
    pub start: usize,
    /// Where it ends.
    pub end: usize,
}

/// A [`TextareaLine`] with its text as a sequence of characters.
#[verifier::ext_equal]
pub struct LineModel {
    /// The line.
    pub text: Seq<char>,
    /// Where it begins.
    pub start: int,
    /// Where it ends.
    pub end: int,
}

impl View for TextareaLine {
    type V = LineModel;

    open spec fn view(&self) -> LineModel {
        LineModel { text: self.text@, start: self.start as int, end: self.end as int }
    }
}

/// The lines of a text: one more than it has line feeds, each with its place.
pub open spec fn lines_of(value: Seq<char>) -> Seq<LineModel>
    decreases value.len(),
{
    if value.len() == 0 {
        seq![LineModel { text: Seq::empty(), start: 0, end: 0 }]
    } else {
        let before = lines_of(value.drop_last());
        if value.last() == '\n' {
            before.push(
                LineModel {
                    text: Seq::empty(),
                    start: value.len() as int,
                    end: value.len() as int,
                },
            )
        } else {
            let last = before.last();
            before.drop_last().push(
                LineModel { text: last.text.push(value.last()), start: last.start, end: last.end + 1 },
            )
        }
    }
}

proof fn lemma_lines_not_empty(value: Seq<char>)
    ensures
        lines_of(value).len() > 0,
    decreases value.len(),
{
    if value.len() > 0 {
        lemma_lines_not_empty(value.drop_last());
    }
}

/// Cuts a text into its lines.
pub fn textarea_text_lines(value: &str) -> (result: Vec<TextareaLine>)
    ensures
        result@.map_values(|line: TextareaLine| line@) == lines_of(value@),
        result@.len() > 0,
{
    let characters = chars_of(value);
    let mut lines: Vec<TextareaLine> = Vec::new();
    let mut current = String::new();
    let mut line_start: usize = 0;
    let mut i: usize = 0;
    proof {
        assert(value@.take(0) =~= Seq::<char>::empty());
        assert(lines@.map_values(|line: TextareaLine| line@).push(
            LineModel { text: current@, start: 0, end: 0 },
        ) =~= lines_of(value@.take(0)));
    }
    while i < characters.len()
        invariant
            i <= characters@.len(),
            characters@ == value@,
            lines@.map_values(|line: TextareaLine| line@).push(
                LineModel { text: current@, start: line_start as int, end: i as int },
            ) == lines_of(value@.take(i as int)),
        decreases characters@.len() - i,
    {
        let ghost done = lines@.map_values(|line: TextareaLine| line@);
        let ghost open = LineModel { text: current@, start: line_start as int, end: i as int };
        proof {
            assert(value@.take(i + 1).drop_last() =~= value@.take(i as int));
            assert(done.push(open).drop_last() =~= done);
        }
        if characters[i] == '\n' {
            let line = TextareaLine { text: current, start: line_start, end: i };
            lines.push(line);
            current = String::new();
            line_start = i + 1;
            proof {
                assert(lines@.map_values(|line: TextareaLine| line@) =~= done.push(open));
            }
        } else {
            current.push(characters[i]);
        }
        i += 1;
    }
    proof {
        assert(value@.take(i as int) =~= value@);
    }
    let ghost done = lines@.map_values(|line: TextareaLine| line@);
    let ghost open = LineModel { text: current@, start: line_start as int, end: i as int };
    lines.push(TextareaLine { text: current, start: line_start, end: characters.len() });
    proof {
        assert(lines@.map_values(|line: TextareaLine| line@) =~= done.push(open));
    }
    lines
}

/// Every line is the part of the text that its place names, holds no line feed,
/// and begins right behind the line feed that ends the line before it; the first
/// begins and the last ends with the text.
pub proof fn law_lines_partition_the_text(value: Seq<char>, i: int)
    requires
        0 <= i < lines_of(value).len(),
    ensures
        ({
            let lines = lines_of(value);
            let line = lines[i];
            &&& 0 <= line.start <= line.end <= value.len()
            &&& line.text == value.subrange(line.start, line.end)
            &&& !line.text.contains('\n')
            &&& i == 0 ==> line.start == 0
            &&& i == lines.len() - 1 ==> line.end == value.len()
            &&& i > 0 ==> line.start == lines[i - 1].end + 1 && value[line.start - 1] == '\n'
        }),
    decreases value.len(),
{
    if value.len() == 0 {
        assert(lines_of(value)[0].text =~= value.subrange(0, 0));
    } else {
        let shorter = value.drop_last();
        let before = lines_of(shorter);
        let lines = lines_of(value);
        lemma_lines_not_empty(shorter);
        let last = before.len() - 1;
        law_lines_partition_the_text(shorter, last);
        if i <= last {
            law_lines_partition_the_text(shorter, i);
            let line = before[i];
            assert(shorter.subrange(line.start, line.end) =~= value.subrange(line.start, line.end));
            if i == last && value.last() != '\n' {
                assert(lines[i].text =~= value.subrange(line.start, line.end + 1));
                assert(!lines[i].text.contains('\n')) by {
                    assert forall|k: int| 0 <= k < lines[i].text.len() implies #[trigger] lines[i].text[k]
                        != '\n' by {
                        if k < line.text.len() {
                            assert(line.text.contains(line.text[k]));
                        }
                    }
                }
            } else {
                assert(lines[i] == line);
            }
            if i > 0 {
                law_lines_partition_the_text(shorter, i - 1);
                assert(lines[i - 1] == before[i - 1]);
                assert(value[line.start - 1] == shorter[line.start - 1]);
            }
        } else {
            assert(lines[i].text =~= value.subrange(value.len() as int, value.len() as int));
            assert(lines[i - 1] == before[last]);
        }
    }
}

/// What a range covers of one line, counted from the line's start; nothing where
/// it covers none of it. A line whose place is stale is cut to the text.
pub open spec fn range_in_line(
    line: LineModel,
    range: Option<Range<usize>>,
    length: int,
) -> Option<Range<usize>> {
    match range {
        None => None,
        Some(whole) => {
            let line_start = least(line.start, length);
            let line_end = greatest(least(line.end, length), line_start);
            let start = greatest(least(whole.start as int, length), line_start);
            let end = least(whole.end as int, line_end);
            if start < end {
                Some(
                    Range { start: (start - line_start) as usize, end: (end - line_start) as usize },
                )
            } else {
                None
            }
        },
    }
}

/// Works out what a range covers of one line.
pub fn textarea_local_range(
    line: &TextareaLine,
    range: &Option<Range<usize>>,
    value: &str,
) -> (result: Option<Range<usize>>)
    ensures
        result == range_in_line(line@, *range, value@.len() as int),
{
    match range {
        None => None,
        Some(whole) => {
            let value_length: usize = character_count(value);
            let line_start: usize = min_of(line.start, value_length);
            let line_end: usize = max_of(min_of(line.end, value_length), line_start);
            let start: usize = max_of(min_of(whole.start, value_length), line_start);
            let end: usize = min_of(min_of(whole.end, value_length), line_end);
            if start >= end {
                return None;
            }
            Some(start - line_start..end - line_start)
        },
    }
}

/// The first line that reaches a position, or the last line.
pub open spec fn line_reaching(lines: Seq<LineModel>, position: int) -> int
    decreases lines.len(),
{
    if lines.len() <= 1 || position <= lines[0].end {
        0
    } else {
        1 + line_reaching(lines.skip(1), position)
    }
}

/// The line and the column of a cursor.
pub open spec fn cursor_place(lines: Seq<LineModel>, cursor: int) -> (int, int) {
    if lines.len() == 0 {
        (0, 0)
    } else {
        let position = least(cursor, lines.last().end);
        let line = line_reaching(lines, position);
        (line, greatest(position - lines[line].start, 0))
    }
}

/// Finds the line and the column of a cursor.
pub fn textarea_cursor_line_and_column(lines: &Vec<TextareaLine>, cursor_index: usize) -> (result: (
    usize,
    usize,
))
    ensures
        (result.0 as int, result.1 as int) == cursor_place(
            lines@.map_values(|line: TextareaLine| line@),
            cursor_index as int,
        ),
        lines@.len() > 0 ==> result.0 < lines@.len(),
{
    let ghost models = lines@.map_values(|line: TextareaLine| line@);
    if lines.len() == 0 {
        return (0, 0);
    }
    let position: usize = min_of(cursor_index, lines[lines.len() - 1].end);
    let mut i: usize = 0;
    proof {
        assert(models.skip(0) =~= models);
    }
    while i < lines.len() - 1 && position > lines[i].end
        invariant
            i < lines@.len(),
            models == lines@.map_values(|line: TextareaLine| line@),
            line_reaching(models, position as int) == i + line_reaching(
                models.skip(i as int),
                position as int,
            ),
        decreases lines@.len() - i,
    {
        proof {
            assert(models.skip(i as int)[0] == lines@[i as int]@);
            assert(models.skip(i as int).skip(1) =~= models.skip(i + 1));
        }
        i += 1;
    }
    proof {
        assert(models.skip(i as int)[0] == lines@[i as int]@);
    }
    (i, position.saturating_sub(lines[i].start))
}

proof fn lemma_line_reaching(lines: Seq<LineModel>, position: int)
    requires
        lines.len() > 0,
    ensures
        0 <= line_reaching(lines, position) < lines.len(),
        line_reaching(lines, position) < lines.len() - 1 ==> position <= lines[line_reaching(
            lines,
            position,
        )].end,
        line_reaching(lines, position) > 0 ==> lines[line_reaching(lines, position) - 1].end
            < position,
    decreases lines.len(),
{
    if lines.len() > 1 && position > lines[0].end {
        lemma_line_reaching(lines.skip(1), position);
    }
}

/// The line and the column of a cursor lead back to it: the column lies in the line,
/// and counted from where the line begins it gives the cursor. A cursor behind the
/// text stands at its end.
pub proof fn law_line_and_column_give_the_cursor(value: Seq<char>, cursor: int)
    requires
        0 <= cursor,
    ensures
        ({
            let lines = lines_of(value);
            let (line, column) = cursor_place(lines, cursor);
            &&& 0 <= line < lines.len()
            &&& 0 <= column <= lines[line].text.len()
            &&& lines[line].start + column == least(cursor, value.len() as int)
        }),
{
    let lines = lines_of(value);
    lemma_lines_not_empty(value);
    law_lines_partition_the_text(value, lines.len() - 1);
    let position = least(cursor, value.len() as int);
    lemma_line_reaching(lines, position);
    law_lines_partition_the_text(value, line_reaching(lines, position));
}

/// The line and the columns between which a composed range is drawn: it is drawn
/// in the line in which it begins.
pub fn textarea_range_place(lines: &Vec<TextareaLine>, range: &Range<usize>) -> (result: Option<(
    usize,
    usize,
    usize,
)>)
    ensures
        ({
            let models = lines@.map_values(|line: TextareaLine| line@);
            let (line, column) = cursor_place(models, range.start as int);
            match result {
                None => lines@.len() == 0,
                Some(place) => lines@.len() > 0 && place.0 == line && place.1 == column && place.2
                    == least(
                    greatest(range.end - models[line].start, 0),
                    models[line].text.len() as int,
                ),
            }
        }),
{
    if lines.len() == 0 {
        return None;
    }
    let (line_index, column) = textarea_cursor_line_and_column(lines, range.start);
    let line = &lines[line_index];
    let end_column: usize = min_of(
        range.end.saturating_sub(line.start),
        character_count(line.text.as_str()),
    );
    Some((line_index, column, end_column))
}

/// What a text area draws.
#[derive(Debug, PartialEq, Eq)]
pub struct TextareaAppearance {
    /// The text.
    pub display_text: String,
    /// Whether the user wrote that text; else it only says what to type, and
    /// neither scrolls nor is scrolled.
    pub has_user_content: bool,
    /// How many lines it shows.
    pub visible_lines: usize,
    /// For how many lines it has room inside.
    pub content_line_count: usize,
    /// The number of characters of its longest line; none while it is empty.
    pub longest_line: usize,
    /// Where the cursor stands.
    pub cursor_index: usize,
    /// What is drawn as selected.
    pub selection_range: Option<Range<usize>>,
    /// What is drawn as being composed.
    pub marked_range: Option<Range<usize>>,
    /// Whether its icon is there.
    pub shows_trailing_accessory: bool,
    /// How much room it keeps on its right.
    pub right_padding: TextareaRightPadding,
    /// Whether its border is drawn as the one in use.
    pub has_active_border: bool,
}

/// The smallest number of lines that a text area shows.
pub const TEXTAREA_MIN_LINES: usize = 3;

/// Whether a number is the largest of the lengths of some lines.
pub open spec fn is_longest(length: int, lines: Seq<LineModel>) -> bool {
    &&& forall|i: int| 0 <= i < lines.len() ==> (#[trigger] lines[i]).text.len() <= length
    &&& length == 0 || exists|i: int|
        0 <= i < lines.len() && (#[trigger] lines[i]).text.len() == length
}

fn longest_line_length(lines: &Vec<TextareaLine>) -> (result: usize)
    ensures
        is_longest(result as int, lines@.map_values(|line: TextareaLine| line@)),
{
    let ghost models = lines@.map_values(|line: TextareaLine| line@);
    let mut longest: usize = 0;
    let mut i: usize = 0;
    while i < lines.len()
        invariant
            i <= lines@.len(),
            models == lines@.map_values(|line: TextareaLine| line@),
            forall|k: int| 0 <= k < i ==> (#[trigger] models[k]).text.len() <= longest,
            longest == 0 || exists|k: int|
                0 <= k < i && (#[trigger] models[k]).text.len() == longest,
        decreases lines@.len() - i,
    {
        let length: usize = character_count(lines[i].text.as_str());
        assert(models[i as int].text.len() == length);
        if length > longest {
            longest = length;
        }
        i += 1;
    }
    longest
}

/// Works out what a text area draws.
pub fn textarea_appearance(textarea: &Textarea) -> (result: TextareaAppearance)
    ensures
        result.display_text@ == field_text(textarea.value@, textarea.placeholder@, false),
        result.has_user_content == (textarea.value@.len() > 0),
        result.visible_lines == greatest(
            textarea.visible_lines as int,
            TEXTAREA_MIN_LINES as int,
        ),
        result.content_line_count == greatest(
            lines_of(result.display_text@).len() as int,
            result.visible_lines as int,
        ),
        if textarea.value@.len() > 0 {
            is_longest(result.longest_line as int, lines_of(textarea.value@))
        } else {
            result.longest_line == 0
        },
        result.cursor_index == least(textarea.cursor_index as int, textarea.value@.len() as int),
        result.selection_range == non_empty(textarea.selection_range),
        result.marked_range == non_empty(textarea.marked_range),
        result.shows_trailing_accessory == (textarea.trailing_accessory is Some
            && !textarea.is_disabled && (textarea.trailing_accessory_always_visible
            || textarea.is_focused)),
        result.right_padding == (if !result.shows_trailing_accessory {
            TextareaRightPadding::Plain
        } else if textarea.style is Composer {
            TextareaRightPadding::TwoAccessories
        } else {
            TextareaRightPadding::OneAccessory
        }),
        result.has_active_border == (textarea.style is Composer && textarea.is_focused),
{
    let length: usize = character_count(textarea.value.as_str());
    let has_user_content = length > 0;
    let display_text = if has_user_content {
        textarea.value.clone()
    } else {
        textarea.placeholder.to_owned()
    };
    let lines = textarea_text_lines(display_text.as_str());
    let visible_lines: usize = max_of(textarea.visible_lines, TEXTAREA_MIN_LINES);
    let content_line_count: usize = max_of(lines.len(), visible_lines);
    let longest_line: usize = if has_user_content {
        longest_line_length(&lines)
    } else {
        0
    };
    let shows_trailing_accessory = textarea.trailing_accessory.is_some() && !textarea.is_disabled
        && (textarea.trailing_accessory_always_visible || textarea.is_focused);
    let is_composer = textarea.style == TextareaStyle::Composer;
    let right_padding = if !shows_trailing_accessory {
        TextareaRightPadding::Plain
    } else if is_composer {
        TextareaRightPadding::TwoAccessories
    } else {
        TextareaRightPadding::OneAccessory
    };
    TextareaAppearance {
        display_text,
        has_user_content,
        visible_lines,
        content_line_count,
        longest_line,
        cursor_index: min_of(textarea.cursor_index, length),
        selection_range: non_empty_range(&textarea.selection_range),
        marked_range: non_empty_range(&textarea.marked_range),
        shows_trailing_accessory,
        right_padding,
        has_active_border: is_composer && textarea.is_focused,
    }
}

// ---------------------------------------------------------------------------
// Following the cursor
// ---------------------------------------------------------------------------

/// What a text area last scrolled to its cursor for.
#[derive(Clone, Copy, Debug, PartialEq, Eq, Structural)]
pub struct TextareaCaretSyncSignature {
    /// The number of characters of the text.
    pub text_length: usize,
    /// Where the cursor stood.
    pub cursor_index: usize,
}

/// How a text area follows its cursor: once for each text and cursor, so that a
/// user can scroll away from it.
#[derive(Clone, Copy, Debug, PartialEq, Eq)]
pub struct TextareaScrollState {
    /// What it last scrolled for.
    pub last_caret_sync: Option<TextareaCaretSyncSignature>,
}

impl TextareaScrollState {
    /// A text area that has not scrolled yet.
    pub fn new() -> (result: TextareaScrollState)
        ensures
            result.last_caret_sync is None,
    {
        TextareaScrollState { last_caret_sync: None }
    }

    /// Forgets what it last scrolled for, as an empty text area does.
    pub fn forget(&mut self)
        ensures
            final(self).last_caret_sync is None,
    {
        self.last_caret_sync = None;
    }

    /// Notes what it scrolled for.
    pub fn record(&mut self, signature: TextareaCaretSyncSignature)
        ensures
            final(self).last_caret_sync == Some(signature),
    {
        self.last_caret_sync = Some(signature);
    }
}

/// Whether a text area scrolls to its cursor.
pub fn textarea_should_sync_caret(
    scroll_state: &TextareaScrollState,
    signature: TextareaCaretSyncSignature,
) -> (result: bool)
    ensures
        result == (scroll_state.last_caret_sync != Some(signature)),
{
    match scroll_state.last_caret_sync {
        Some(last) => !(last == signature),
        None => true,
    }
}

// ---------------------------------------------------------------------------
// The system's input method
// ---------------------------------------------------------------------------

/// What an input or a text area tells the system's input method, which counts in
/// UTF-16 units.
#[derive(Debug, PartialEq, Eq)]
pub struct NativeInputHandler {
    /// The text.
    pub value: String,
    /// Where the cursor stands.
    pub cursor_index: usize,
    /// What is selected.
    pub selection_range: Option<Range<usize>>,
    /// What is being composed.
    pub marked_range: Option<Range<usize>>,
}

/// A [`NativeInputHandler`] with its text as a sequence of characters.
#[verifier::ext_equal]
pub struct NativeModel {
    /// The text.
    pub value: Seq<char>,
    /// Where the cursor stands.
    pub cursor_index: usize,
    /// What is selected.
    pub selection_range: Option<Range<usize>>,
    /// What is being composed.
    pub marked_range: Option<Range<usize>>,
}

impl View for NativeInputHandler {
    type V = NativeModel;

    open spec fn view(&self) -> NativeModel {
        NativeModel {
            value: self.value@,
            cursor_index: self.cursor_index,
            selection_range: self.selection_range,
            marked_range: self.marked_range,
        }
    }
}

/// An edit with its text as a sequence of characters.
#[verifier::ext_equal]
pub struct EditModel {
    /// What the edit replaces.
    pub replacement_range: Range<usize>,
    /// What it puts there.
    pub text: Seq<char>,
    /// What is selected afterwards.
    pub selected_range: Range<usize>,
    /// What is still being composed afterwards.
    pub marked_range: Option<Range<usize>>,
}

impl View for NativeTextEdit {
    type V = EditModel;

    open spec fn view(&self) -> EditModel {
        EditModel {
            replacement_range: self.replacement_range,
            text: self.text@,
            selected_range: self.selected_range,
            marked_range: self.marked_range,
        }
    }
}

impl NativeModel {
    /// What is selected, or the place of the cursor.
    pub open spec fn selected(self) -> Range<usize> {
        match self.selection_range {
            Some(range) => range,
            None => Range { start: self.cursor_index, end: self.cursor_index },
        }
    }

    /// What an edit replaces: the range that it names, or what is being composed,
    /// or what is selected.
    pub open spec fn replaced(self, named: Option<Range<usize>>) -> Range<usize> {
        match named {
            Some(units) => {
                let (start, end) = as_character_range(self.value, units);
                Range { start: start as usize, end: end as usize }
            },
            None => match self.marked_range {
                Some(marked) => marked,
                None => self.selected(),
            },
        }
    }

    /// What is selected after an edit: the part of the new text that the input
    /// method names, or the place behind it.
    pub open spec fn selected_after(
        self,
        start: usize,
        text: Seq<char>,
        named: Option<Range<usize>>,
    ) -> Range<usize> {
        match named {
            Some(units) => {
                let (from, to) = as_character_range(text, units);
                Range { start: (start + from) as usize, end: (start + to) as usize }
            },
            None => Range {
                start: (start + text.len()) as usize,
                end: (start + text.len()) as usize,
            },
        }
    }

    /// What the input method sees after an edit.
    pub open spec fn after_edit(self, edit: EditModel) -> NativeModel {
        let value = with_replaced(self.value, edit.replacement_range, edit.text);
        let length = value.len() as int;
        let start = least(edit.selected_range.start as int, length) as usize;
        let end = least(edit.selected_range.end as int, length) as usize;
        NativeModel {
            value,
            cursor_index: end,
            selection_range: if start != end {
                Some(Range { start, end })
            } else {
                None
            },
            marked_range: match edit.marked_range {
                Some(marked) => non_empty(
                    Some(
                        Range {
                            start: least(marked.start as int, length) as usize,
                            end: least(marked.end as int, length) as usize,
                        },
                    ),
                ),
                None => None,
            },
        }
    }

    /// The edit that puts a finished text in place.
    pub open spec fn committing(self, named: Option<Range<usize>>, text: Seq<char>) -> EditModel {
        let range = self.replaced(named);
        EditModel {
            replacement_range: range,
            text,
            selected_range: self.selected_after(range.start, text, None),
            marked_range: None,
        }
    }

    /// The edit that puts a text in place which is still being composed.
    pub open spec fn composing(
        self,
        named: Option<Range<usize>>,
        text: Seq<char>,
        selected: Option<Range<usize>>,
    ) -> EditModel {
        let range = self.replaced(named);
        EditModel {
            replacement_range: range,
            text,
            selected_range: self.selected_after(range.start, text, selected),
            marked_range: if text.len() > 0 {
                Some(Range { start: range.start, end: (range.start + text.len()) as usize })
            } else {
                None
            },
        }
    }

    /// The edit that ends a composition and changes nothing else.
    pub open spec fn unmarking(self) -> EditModel {
        let here = Range { start: self.cursor_index, end: self.cursor_index };
        EditModel {
            replacement_range: here,
            text: Seq::empty(),
            selected_range: here,
            marked_range: None,
        }
    }
}

impl NativeInputHandler {
    /// What is selected, or the place of the cursor.
    pub fn selected_range(&self) -> (result: Range<usize>)
        ensures
            result == self@.selected(),
    {
        match &self.selection_range {
            Some(range) => copy_range(range),
            None => self.cursor_index..self.cursor_index,
        }
    }

    /// What an edit replaces.
    pub fn replacement_range(&self, range_utf16: &Option<Range<usize>>) -> (result: Range<usize>)
        ensures
            result == self@.replaced(*range_utf16),
    {
        match range_utf16 {
            Some(units) => character_range_for_utf16_range(self.value.as_str(), units),
            None => match &self.marked_range {
                Some(marked) => copy_range(marked),
                None => self.selected_range(),
            },
        }
    }

    /// What is selected after an edit.
    pub fn selected_range_after_edit(
        &self,
        replacement_range: &Range<usize>,
        new_text: &str,
        new_selected_range_utf16: &Option<Range<usize>>,
    ) -> (result: Range<usize>)
        requires
            replacement_range.start + new_text@.len() <= usize::MAX,
        ensures
            result == self@.selected_after(
                replacement_range.start,
                new_text@,
                *new_selected_range_utf16,
            ),
    {
        match new_selected_range_utf16 {
            Some(units) => {
                let relative = character_range_for_utf16_range(new_text, units);
                replacement_range.start + relative.start..replacement_range.start + relative.end
            },
            None => {
                let cursor: usize = replacement_range.start + character_count(new_text);
                cursor..cursor
            },
        }
    }

    /// Puts an edit together.
    pub fn edit_for(
        &self,
        replacement_range: Range<usize>,
        new_text: &str,
        selected_range: Range<usize>,
        marked_range: Option<Range<usize>>,
    ) -> (result: NativeTextEdit)
        ensures
            result@ == (EditModel {
                replacement_range,
                text: new_text@,
                selected_range,
                marked_range,
            }),
    {
        NativeTextEdit { replacement_range, text: new_text.to_owned(), selected_range, marked_range }
    }

    /// Follows an edit, so that the input method reads the text as it is now.
    pub fn apply_edit_snapshot(&mut self, edit: &NativeTextEdit)
        ensures
            final(self)@ == old(self)@.after_edit(edit@),
    {
        self.value = replace_character_range(
            self.value.as_str(),
            &edit.replacement_range,
            edit.text.as_str(),
        );
        let text_length: usize = character_count(self.value.as_str());
        let selection_start: usize = min_of(edit.selected_range.start, text_length);
        let selection_end: usize = min_of(edit.selected_range.end, text_length);
        self.cursor_index = selection_end;
        self.selection_range = if selection_start != selection_end {
            Some(selection_start..selection_end)
        } else {
            None
        };
        self.marked_range = match &edit.marked_range {
            Some(marked) => {
                let start: usize = min_of(marked.start, text_length);
                let end: usize = min_of(marked.end, text_length);
                if start < end {
                    Some(start..end)
                } else {
                    None
                }
            },
            None => None,
        };
    }

    /// What is selected, in UTF-16 units.
    pub fn selected_text_range(&self) -> (result: Range<usize>)
        ensures
            (result.start as int, result.end as int) == as_utf16_range(
                self@.value,
                self@.selected(),
            ),
    {
        utf16_range_for_character_range(self.value.as_str(), &self.selected_range())
    }

    /// What is being composed, in UTF-16 units.
    pub fn marked_text_range(&self) -> (result: Option<Range<usize>>)
        ensures
            match (result, self@.marked_range) {
                (Some(units), Some(marked)) => (units.start as int, units.end as int)
                    == as_utf16_range(self@.value, marked),
                (None, None) => true,
                _ => false,
            },
    {
        match &self.marked_range {
            Some(marked) => Some(utf16_range_for_character_range(self.value.as_str(), marked)),
            None => None,
        }
    }

    /// The text of a range of UTF-16 units, and the range that was really read.
    pub fn text_for_range(&self, range_utf16: &Range<usize>) -> (result: (String, Range<usize>))
        ensures
            ({
                let (start, end) = as_character_range(self@.value, *range_utf16);
                let range = Range { start: start as usize, end: end as usize };
                &&& result.0@ == covered(self@.value, range)
                &&& (result.1.start as int, result.1.end as int) == as_utf16_range(
                    self@.value,
                    range,
                )
            }),
    {
        let range = character_range_for_utf16_range(self.value.as_str(), range_utf16);
        let adjusted = utf16_range_for_character_range(self.value.as_str(), &range);
        (slice_character_range(self.value.as_str(), &range), adjusted)
    }

    /// Puts a finished text in place. Returns the edit for the view.
    pub fn replace_text_in_range(
        &mut self,
        replacement_range_utf16: &Option<Range<usize>>,
        text: &str,
    ) -> (result: NativeTextEdit)
        requires
            old(self)@.replaced(*replacement_range_utf16).start + text@.len() <= usize::MAX,
        ensures
            result@ == old(self)@.committing(*replacement_range_utf16, text@),
            final(self)@ == old(self)@.after_edit(result@),
    {
        let replacement_range = self.replacement_range(replacement_range_utf16);
        let cursor: usize = replacement_range.start + character_count(text);
        let edit = self.edit_for(replacement_range, text, cursor..cursor, None);
        self.apply_edit_snapshot(&edit);
        edit
    }

    /// Puts a text in place that is still being composed. Returns the edit for the
    /// view.
    pub fn replace_and_mark_text_in_range(
        &mut self,
        replacement_range_utf16: &Option<Range<usize>>,
        new_text: &str,
        new_selected_range_utf16: &Option<Range<usize>>,
    ) -> (result: NativeTextEdit)
        requires
            old(self)@.replaced(*replacement_range_utf16).start + new_text@.len() <= usize::MAX,
        ensures
            result@ == old(self)@.composing(
                *replacement_range_utf16,
                new_text@,
                *new_selected_range_utf16,
            ),
            final(self)@ == old(self)@.after_edit(result@),
    {
        let replacement_range = self.replacement_range(replacement_range_utf16);
        let selected_range = self.selected_range_after_edit(
            &replacement_range,
            new_text,
            new_selected_range_utf16,
        );
        let start: usize = replacement_range.start;
        let marked_range = if new_text.is_empty() {
            None
        } else {
            Some(start..start + character_count(new_text))
        };
        let edit = self.edit_for(replacement_range, new_text, selected_range, marked_range);
        self.apply_edit_snapshot(&edit);
        edit
    }

    /// Ends a composition. Returns the edit for the view.
    pub fn unmark_text(&mut self) -> (result: NativeTextEdit)
        ensures
            result@ == old(self)@.unmarking(),
            final(self)@ == (NativeModel { marked_range: None, ..old(self)@ }),
    {
        let cursor: usize = self.cursor_index;
        self.marked_range = None;
        let text = String::new();
        self.edit_for(cursor..cursor, text.as_str(), cursor..cursor, None)
    }
}

/// What the input method composed last stands in the text where it is marked, and
/// committing a text puts it over exactly that part and ends the composition.
pub proof fn law_composition_is_replaced(
    handler: NativeModel,
    composed: Seq<char>,
    committed: Seq<char>,
)
    requires
        handler.replaced(None).start <= handler.replaced(None).end,
        handler.replaced(None).end <= handler.value.len(),
        handler.value.len() + composed.len() + committed.len() <= usize::MAX,
        composed.len() > 0,
    ensures
        ({
            let during = handler.after_edit(handler.composing(None, composed, None));
            let after = during.after_edit(during.committing(None, committed));
            let range = handler.replaced(None);
            &&& during.marked_range == Some(
                Range { start: range.start, end: (range.start + composed.len()) as usize },
            )
            &&& covered(during.value, during.marked_range->0) == composed
            &&& after.value == with_replaced(handler.value, range, committed)
            &&& after.marked_range is None
            &&& after.cursor_index == range.start + committed.len()
        }),
{
    let range = handler.replaced(None);
    let during = handler.after_edit(handler.composing(None, composed, None));
    let marked = Range { start: range.start, end: (range.start + composed.len()) as usize };
    assert(during.value.len() == handler.value.len() - (range.end - range.start) + composed.len());
    assert(during.marked_range == Some(marked));
    assert(covered(during.value, marked) =~= composed);
    let after = during.after_edit(during.committing(None, committed));
    assert(after.value =~= with_replaced(handler.value, range, committed));
}

} // verus!
