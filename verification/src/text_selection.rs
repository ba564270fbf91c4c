//! Ranges of a text counted in characters, and their counterparts in UTF-8
//! bytes and UTF-16 units.

use std::ops::Range;
use vstd::prelude::*;
use crate::text::{chars_of, string_of, utf8_len};

verus! {

/// How much one click selects.
#[derive(Clone, Copy, Debug, PartialEq, Eq, Structural)]
pub enum TextSelectionGranularity {
    /// Single characters.
    Character,
    /// Whole words.
    Word,
    /// Whole lines.
    Line,
}

/// An edit that the system's input method asks for, counted in characters.
#[derive(Debug, PartialEq, Eq)]
pub struct NativeTextEdit {
    /// What the edit replaces.
    pub replacement_range: Range<usize>,
    /// What it puts there.
    pub text: String,
    /// What is selected afterwards.
    pub selected_range: Range<usize>,
    /// What is still being composed afterwards.
    pub marked_range: Option<Range<usize>>,
}

/// The smaller of two positions.
pub open spec fn least(left: int, right: int) -> int {
    if left <= right {
        left
    } else {
        right
    }
}

/// The larger of two positions.
pub open spec fn greatest(left: int, right: int) -> int {
    if left <= right {
        right
    } else {
        left
    }
}

/// The smaller of two positions.
pub fn min_of(left: usize, right: usize) -> (result: usize)
    ensures
        result == least(left as int, right as int),
{
    if left <= right {
        left
    } else {
        right
    }
}

/// The larger of two positions.
pub fn max_of(left: usize, right: usize) -> (result: usize)
    ensures
        result == greatest(left as int, right as int),
{
    if left <= right {
        right
    } else {
        left
    }
}

/// A second copy of a range.
pub fn copy_range(range: &Range<usize>) -> (result: Range<usize>)
    ensures
        result == *range,
{
    range.start..range.end
}

/// A second copy of a range that may be missing.
pub fn copy_optional_range(range: &Option<Range<usize>>) -> (result: Option<Range<usize>>)
    ensures
        result == *range,
{
    match range {
        Some(present) => Some(copy_range(present)),
        None => None,
    }
}

/// Counts the characters of a text.
pub fn character_count(text: &str) -> (result: usize)
    ensures
        result == text@.len(),
{
    chars_of(text).len()
}

// ---------------------------------------------------------------------------
// Cutting and replacing
// ---------------------------------------------------------------------------

/// Where a range begins in a text of a given length.
pub open spec fn clamped_start(range: Range<usize>, length: int) -> int {
    least(range.start as int, length)
}

/// Where a range ends in a text of a given length: never before it begins.
pub open spec fn clamped_end(range: Range<usize>, length: int) -> int {
    greatest(clamped_start(range, length), least(range.end as int, length))
}

/// The part of a text that a range covers.
pub open spec fn covered(text: Seq<char>, range: Range<usize>) -> Seq<char> {
    text.subrange(clamped_start(range, text.len() as int), clamped_end(range, text.len() as int))
}

/// A text in which a range gave way to something else.
pub open spec fn with_replaced(text: Seq<char>, range: Range<usize>, new: Seq<char>) -> Seq<char> {
    text.take(clamped_start(range, text.len() as int)) + new + text.skip(
        clamped_end(range, text.len() as int),
    )
}

/// Copies the part of a text that a range covers.
pub fn slice_character_range(text: &str, range: &Range<usize>) -> (result: String)
    ensures
        result@ == covered(text@, *range),
{
    let characters = chars_of(text);
    let start: usize = min_of(range.start, characters.len());
    let end: usize = max_of(start, min_of(range.end, characters.len()));
    string_of(vstd::slice::slice_subrange(characters.as_slice(), start, end))
}

/// Puts a text in the place of a range.
pub fn replace_character_range(text: &str, range: &Range<usize>, new: &str) -> (result: String)
    ensures
        result@ == with_replaced(text@, *range, new@),
{
    let characters = chars_of(text);
    let start: usize = min_of(range.start, characters.len());
    let end: usize = max_of(start, min_of(range.end, characters.len()));
    let mut result = string_of(vstd::slice::slice_subrange(characters.as_slice(), 0, start));
    result.push_str(new);
    let tail = string_of(vstd::slice::slice_subrange(characters.as_slice(), end, characters.len()));
    result.push_str(tail.as_str());
    result
}

/// Takes a range out of a text.
pub fn remove_character_range(text: &str, range: &Range<usize>) -> (result: String)
    ensures
        result@ == with_replaced(text@, *range, Seq::empty()),
{
    let empty = String::new();
    replace_character_range(text, range, empty.as_str())
}

/// What a replacement puts into a text stands there afterwards, and everything
/// around the range is left as it was.
pub proof fn law_replacement_keeps_surroundings(
    text: Seq<char>,
    range: Range<usize>,
    new: Seq<char>,
)
    ensures
        ({
            let start = clamped_start(range, text.len() as int);
            let end = clamped_end(range, text.len() as int);
            let after = with_replaced(text, range, new);
            &&& after.len() == text.len() - (end - start) + new.len()
            &&& after.take(start) == text.take(start)
            &&& after.subrange(start, start + new.len()) == new
            &&& after.skip(start + new.len()) == text.skip(end)
        }),
{
    let start = clamped_start(range, text.len() as int);
    let end = clamped_end(range, text.len() as int);
    let after = with_replaced(text, range, new);
    assert(after.take(start) =~= text.take(start));
    assert(after.subrange(start, start + new.len()) =~= new);
    assert(after.skip(start + new.len()) =~= text.skip(end));
}

/// Putting back what a range covered restores a text in which the range was
/// replaced.
pub proof fn law_replacement_can_be_undone(
    text: Seq<char>,
    range: Range<usize>,
    new: Seq<char>,
    back: Range<usize>,
)
    requires
        back.start == clamped_start(range, text.len() as int),
        back.end == back.start + new.len(),
    ensures
        with_replaced(with_replaced(text, range, new), back, covered(text, range)) == text,
{
    law_replacement_keeps_surroundings(text, range, new);
    let start = clamped_start(range, text.len() as int);
    let end = clamped_end(range, text.len() as int);
    let after = with_replaced(text, range, new);
    assert(clamped_start(back, after.len() as int) == start);
    assert(clamped_end(back, after.len() as int) == start + new.len());
    assert(text.take(start) + covered(text, range) + text.skip(end) =~= text);
}

// ---------------------------------------------------------------------------
// UTF-8 bytes
// ---------------------------------------------------------------------------

/// The byte at which a character begins; the end of the text for a position
/// behind it.
pub fn byte_index_for_character(text: &str, index: usize) -> (result: usize)
    ensures
        result == utf8_len(text@.take(least(index as int, text@.len() as int))),
{
    let characters = chars_of(text);
    let end: usize = min_of(index, characters.len());
    let head = string_of(vstd::slice::slice_subrange(characters.as_slice(), 0, end));
    proof {
        assert(text@.subrange(0, end as int) =~= text@.take(end as int));
    }
    crate::text::byte_len(head.as_str())
}

// ---------------------------------------------------------------------------
// UTF-16 units
// ---------------------------------------------------------------------------

/// The number of UTF-16 units of a character.
pub open spec fn utf16_width(character: char) -> nat {
    if character as u32 > 0xffff {
        2
    } else {
        1
    }
}

/// The number of UTF-16 units of a text.
pub open spec fn utf16_len(text: Seq<char>) -> nat
    decreases text.len(),
{
    if text.len() == 0 {
        0
    } else {
        utf16_width(text[0]) + utf16_len(text.skip(1))
    }
}

/// How many characters it takes to reach a number of UTF-16 units, or all of
/// them where the text is too short.
pub open spec fn characters_reaching(text: Seq<char>, units: nat) -> nat
    decreases text.len(),
{
    if units == 0 || text.len() == 0 {
        0
    } else {
        let width = utf16_width(text[0]);
        1 + characters_reaching(
            text.skip(1),
            if units <= width {
                0
            } else {
                (units - width) as nat
            },
        )
    }
}

proof fn lemma_utf16_len_bound(text: Seq<char>)
    ensures
        utf16_len(text) <= utf8_len(text),
    decreases text.len(),
{
    reveal_with_fuel(vstd::utf8::encode_utf8, 2);
    if text.len() > 0 {
        assert(text.skip(1) =~= text.drop_first());
        lemma_utf16_len_bound(text.skip(1));
    }
}

proof fn lemma_utf16_len_push(text: Seq<char>, character: char)
    ensures
        utf16_len(text.push(character)) == utf16_len(text) + utf16_width(character),
    decreases text.len(),
{
    reveal_with_fuel(utf16_len, 2);
    if text.len() > 0 {
        assert(text.push(character).skip(1) =~= text.skip(1).push(character));
        lemma_utf16_len_push(text.skip(1), character);
    } else {
        assert(text.push(character).skip(1) =~= Seq::<char>::empty());
    }
}

/// The number of UTF-16 units in front of a character.
fn utf16_offset(text: &str, index: usize) -> (result: usize)
    ensures
        result == utf16_len(text@.take(least(index as int, text@.len() as int))),
{
    let characters = chars_of(text);
    let end: usize = min_of(index, characters.len());
    let bytes: usize = crate::text::byte_len(text);
    let mut units: usize = 0;
    let mut i: usize = 0;
    while i < end
        invariant
            i <= end <= characters@.len(),
            characters@ == text@,
            bytes == utf8_len(text@),
            units == utf16_len(text@.take(i as int)),
        decreases end - i,
    {
        proof {
            lemma_utf16_len_push(text@.take(i as int), text@[i as int]);
            assert(text@.take(i + 1) =~= text@.take(i as int).push(text@[i as int]));
            lemma_utf16_len_bound(text@.take(i + 1));
            crate::text::lemma_utf8_len_concat(text@.take(i + 1), text@.skip(i + 1));
            assert(text@.take(i + 1) + text@.skip(i + 1) =~= text@);
        }
        units += if characters[i] as u32 > 0xffff {
            2
        } else {
            1
        };
        i += 1;
    }
    units
}

/// The character at which a number of UTF-16 units is reached.
fn character_at_utf16(text: &str, units: usize) -> (result: usize)
    ensures
        result == characters_reaching(text@, units as nat),
        result <= text@.len(),
{
    let characters = chars_of(text);
    let mut left: usize = units;
    let mut i: usize = 0;
    proof {
        assert(text@.skip(0) =~= text@);
    }
    while i < characters.len() && left > 0
        invariant
            i <= characters@.len(),
            characters@ == text@,
            characters_reaching(text@, units as nat) == i + characters_reaching(
                text@.skip(i as int),
                left as nat,
            ),
        decreases characters@.len() - i,
    {
        let width: usize = if characters[i] as u32 > 0xffff {
            2
        } else {
            1
        };
        proof {
            assert(text@.skip(i as int).skip(1) =~= text@.skip(i + 1));
        }
        left = if left <= width {
            0
        } else {
            left - width
        };
        i += 1;
    }
    i
}

/// The character range that a range of UTF-16 units stands for.
pub open spec fn as_character_range(text: Seq<char>, range: Range<usize>) -> (int, int) {
    (
        characters_reaching(text, range.start as nat) as int,
        characters_reaching(text, range.end as nat) as int,
    )
}

/// The range of UTF-16 units that a character range stands for.
pub open spec fn as_utf16_range(text: Seq<char>, range: Range<usize>) -> (int, int) {
    (
        utf16_len(text.take(least(range.start as int, text.len() as int))) as int,
        utf16_len(text.take(least(range.end as int, text.len() as int))) as int,
    )
}

/// Turns a range of UTF-16 units into one of characters.
pub fn character_range_for_utf16_range(text: &str, range: &Range<usize>) -> (result: Range<usize>)
    ensures
        (result.start as int, result.end as int) == as_character_range(text@, *range),
        result.start <= text@.len(),
        result.end <= text@.len(),
{
    character_at_utf16(text, range.start)..character_at_utf16(text, range.end)
}

/// Turns a range of characters into one of UTF-16 units.
pub fn utf16_range_for_character_range(text: &str, range: &Range<usize>) -> (result: Range<usize>)
    ensures
        (result.start as int, result.end as int) == as_utf16_range(text@, *range),
{
    utf16_offset(text, range.start)..utf16_offset(text, range.end)
}

proof fn lemma_reaching_a_prefix(text: Seq<char>, index: int)
    requires
        0 <= index <= text.len(),
    ensures
        characters_reaching(text, utf16_len(text.take(index))) == index,
    decreases text.len(),
{
    reveal_with_fuel(utf16_len, 2);
    if index > 0 {
        assert(text.take(index).skip(1) =~= text.skip(1).take(index - 1));
        lemma_reaching_a_prefix(text.skip(1), index - 1);
        let rest = utf16_len(text.skip(1).take(index - 1));
        assert(utf16_len(text.take(index)) == utf16_width(text[0]) + rest);
    }
}

/// A character range that lies in the text comes back unchanged from UTF-16.
pub proof fn law_utf16_round_trip(text: Seq<char>, range: Range<usize>, units: Range<usize>)
    requires
        range.start <= text.len(),
        range.end <= text.len(),
        (units.start as int, units.end as int) == as_utf16_range(text, range),
    ensures
        as_character_range(text, units) == (range.start as int, range.end as int),
{
    lemma_reaching_a_prefix(text, range.start as int);
    lemma_reaching_a_prefix(text, range.end as int);
}

} // verus!
