//! What holds of the texts that everything else is made of: trimming, numbers, positions.

use std::ops::Range;
use vstd::prelude::*;
use crate::text::{
    ascii_lower_case, decimal_text, is_white_space, padded_text, parsed_number,
    signed_padded_text, trimmed, without_leading_space, without_trailing_line_feeds,
    without_trailing_space,
};
use crate::text_selection::{
    as_character_range, as_utf16_range, characters_reaching, covered, utf16_len, with_replaced,
};

verus! {

/// Whether a text is nothing but space.
pub open spec fn is_all_space(text: Seq<char>) -> bool {
    forall|i: int| 0 <= i < text.len() ==> is_white_space(#[trigger] text[i])
}

proof fn lemma_leading_space(front: Seq<char>, text: Seq<char>)
    requires
        is_all_space(front),
        text.len() > 0 ==> !is_white_space(text[0]),
    ensures
        without_leading_space(front + text) == text,
    decreases front.len(),
{
    let whole = front + text;
    if front.len() == 0 {
        assert(whole =~= text);
    } else {
        let rest = front.skip(1);
        assert forall|i: int| 0 <= i < rest.len() implies is_white_space(#[trigger] rest[i]) by {
            assert(rest[i] == front[i + 1]);
        }
        assert(whole.skip(1) =~= rest + text);
        assert(whole[0] == front[0]);
        lemma_leading_space(rest, text);
    }
}

proof fn lemma_trailing_space(text: Seq<char>, back: Seq<char>)
    requires
        is_all_space(back),
        text.len() > 0 ==> !is_white_space(text.last()),
    ensures
        without_trailing_space(text + back) == text,
    decreases back.len(),
{
    let whole = text + back;
    if back.len() == 0 {
        assert(whole =~= text);
    } else {
        let rest = back.drop_last();
        assert forall|i: int| 0 <= i < rest.len() implies is_white_space(#[trigger] rest[i]) by {
            assert(rest[i] == back[i]);
        }
        assert(whole.drop_last() =~= text + rest);
        assert(whole.last() == back.last());
        lemma_trailing_space(text, rest);
    }
}

/// Trimming takes away exactly the space around a text and leaves the text as it is. Blanks, tabs
/// and line breaks are space; letters, digits and signs are not.
pub proof fn law_trimming_takes_only_outer_space(
    front: Seq<char>,
    text: Seq<char>,
    back: Seq<char>,
)
    requires
        is_all_space(front),
        is_all_space(back),
        text.len() > 0 ==> !is_white_space(text[0]) && !is_white_space(text.last()),
    ensures
        trimmed(front + text + back) == text,
        is_white_space(' ') && is_white_space('\t') && is_white_space('\n') && is_white_space(
            '\r',
        ),
        forall|c: char| 0x21 <= c as u32 <= 0x7e ==> !#[trigger] is_white_space(c),
{
    let whole = front + text + back;
    if text.len() == 0 {
        assert(whole =~= (front + back) + text);
        let space = front + back;
        assert forall|i: int| 0 <= i < space.len() implies is_white_space(#[trigger] space[i]) by {
            if i < front.len() {
                assert(space[i] == front[i]);
            } else {
                assert(space[i] == back[i - front.len()]);
            }
        }
        lemma_leading_space(space, text);
        assert(without_trailing_space(text) =~= text);
    } else {
        assert(whole =~= front + (text + back));
        assert((text + back)[0] == text[0]);
        lemma_leading_space(front, text + back);
        lemma_trailing_space(text, back);
    }
}

/// Line feeds at the end of a text are taken away, all of them and nothing else.
pub proof fn law_only_line_feeds_at_the_end_are_cut(text: Seq<char>, count: nat)
    requires
        text.len() > 0 ==> text.last() != '\n',
    ensures
        without_trailing_line_feeds(text + Seq::new(count, |i: int| '\n')) == text,
    decreases count,
{
    let feeds = Seq::new(count, |i: int| '\n');
    let whole = text + feeds;
    if count == 0 {
        assert(whole =~= text);
    } else {
        let fewer = Seq::new((count - 1) as nat, |i: int| '\n');
        assert(whole.drop_last() =~= text + fewer);
        assert(whole.last() == '\n');
        law_only_line_feeds_at_the_end_are_cut(text, (count - 1) as nat);
    }
}

/// Lower case changes ASCII capitals to their small letters and nothing else.
pub proof fn law_lower_case_changes_capitals_only(text: Seq<char>, at: int)
    requires
        0 <= at < text.len(),
    ensures
        ascii_lower_case(text).len() == text.len(),
        !('A' <= text[at] <= 'Z') ==> ascii_lower_case(text)[at] == text[at],
        'A' <= text[at] <= 'Z' ==> ascii_lower_case(text)[at] as u32 == text[at] as u32 + 32,
{
}

/// A number is written digit by digit, the last digit last and without leading zeros.
pub proof fn law_numbers_are_written_in_decimal(number: nat, digit: nat)
    requires
        digit < 10,
    ensures
        decimal_text(digit).len() == 1,
        decimal_text(digit)[0] as u32 == '0' as u32 + digit,
        number > 0 ==> decimal_text(number * 10 + digit) == decimal_text(number) + decimal_text(
            digit,
        ),
        number > 0 ==> decimal_text(number)[0] != '0',
        decimal_text(number).len() > 0,
    decreases number,
{
    lemma_first_digit(number);
    if number > 0 {
        assert((number * 10 + digit) / 10 == number);
        assert((number * 10 + digit) % 10 == digit);
        assert(decimal_text(number * 10 + digit) =~= decimal_text(number) + decimal_text(digit));
    }
}

proof fn lemma_first_digit(number: nat)
    ensures
        decimal_text(number).len() > 0,
        number > 0 ==> decimal_text(number)[0] != '0',
    decreases number,
{
    if number >= 10 {
        lemma_first_digit(number / 10);
    }
}

/// A padded number is the number with zeros in front, as many as are missing to its width; a
/// negative one has its sign in front of them.
pub proof fn law_padding_puts_zeros_in_front(number: nat, width: nat)
    ensures
        ({
            let digits = decimal_text(number);
            let text = padded_text(number, width);
            &&& digits.len() <= width ==> text.len() == width
            &&& digits.len() > width ==> text == digits
            &&& text.skip(text.len() - digits.len()) == digits
            &&& forall|i: int|
                0 <= i < text.len() - digits.len() ==> #[trigger] text[i] == '0'
            &&& signed_padded_text(number as int, width) == text
            &&& number > 0 && width > 0 ==> signed_padded_text(-(number as int), width) == seq![
                '-',
            ] + padded_text(number, (width - 1) as nat)
        }),
{
    let digits = decimal_text(number);
    let text = padded_text(number, width);
    assert(text.skip(text.len() - digits.len()) =~= digits);
}

/// A number is read digit by digit; a plus sign in front is allowed; anything else, nothing at all
/// and a number that needs more than 64 bits are no number.
pub proof fn law_numbers_are_read_digit_by_digit(text: Seq<char>, number: u64, digit: u8, other: char)
    requires
        digit < 10,
        other < '0' || '9' < other,
        text.len() > 0 && '0' <= text[0] <= '9',
    ensures
        parsed_number(Seq::empty()) is None,
        parsed_number(text) == Some(number) && number * 10 + digit <= u64::MAX ==> parsed_number(
            text.push(('0' as u8 + digit) as char),
        ) == Some((number * 10 + digit) as u64),
        parsed_number(text) == Some(number) && number * 10 + digit > u64::MAX ==> parsed_number(
            text.push(('0' as u8 + digit) as char),
        ) is None,
        parsed_number(text.push(other)) is None,
        parsed_number(seq!['+'] + text) == parsed_number(text),
        parsed_number(seq![('0' as u8 + digit) as char]) == Some(digit as u64),
{
    let last = ('0' as u8 + digit) as char;
    let longer = text.push(last);
    assert(crate::text::unsigned_digits(text) == text);
    assert(crate::text::unsigned_digits(longer) == longer);
    assert(longer.drop_last() =~= text);
    if parsed_number(text) == Some(number) {
        assert forall|i: int| 0 <= i < longer.len() implies crate::text::is_digit(
            #[trigger] longer[i],
        ) by {
            if i < text.len() {
                assert(longer[i] == text[i]);
            }
        }
    }
    let wrong = text.push(other);
    assert(!crate::text::is_digit(wrong[wrong.len() - 1]));
    assert((seq!['+'] + text).skip(1) =~= text);
    let single = seq![last];
    assert(crate::text::unsigned_digits(single) == single);
    assert(single.drop_last() =~= Seq::<char>::empty());
    assert(crate::text::digits_value(Seq::<char>::empty()) == 0);
    assert(crate::text::digits_value(single) == digit);
    assert(forall|i: int| 0 <= i < single.len() ==> crate::text::is_digit(#[trigger] single[i]));
    let nothing = Seq::<char>::empty();
    assert(crate::text::unsigned_digits(nothing) == nothing);
}

/// A replacement keeps what stands in front of a range and what stands behind it. A range that
/// reaches beyond the text ends with it; one that ends before it begins is a place to put text in.
pub proof fn law_replacement_is_exact(text: Seq<char>, start: usize, end: usize, new: Seq<char>)
    ensures
        start <= end <= text.len() ==> with_replaced(text, Range { start, end }, new) == text.take(
            start as int,
        ) + new + text.skip(end as int),
        start <= text.len() < end ==> with_replaced(text, Range { start, end }, new) == text.take(
            start as int,
        ) + new,
        start > text.len() ==> with_replaced(text, Range { start, end }, new) == text + new,
        end < start <= text.len() ==> with_replaced(text, Range { start, end }, new) == text.take(
            start as int,
        ) + new + text.skip(start as int),
        start <= end <= text.len() ==> covered(text, Range { start, end }) == text.subrange(
            start as int,
            end as int,
        ),
        start >= text.len() || end <= start ==> covered(text, Range { start, end }).len() == 0,
{
    if start > text.len() {
        assert(with_replaced(text, Range { start, end }, new) =~= text + new);
    }
    if start <= text.len() < end {
        assert(with_replaced(text, Range { start, end }, new) =~= text.take(start as int) + new);
    }
}

/// In UTF-16 a character up to U+FFFF takes one unit and any other two; a text takes the units of
/// its characters.
pub proof fn law_utf16_counts_units(text: Seq<char>, character: char)
    ensures
        utf16_len(Seq::empty()) == 0,
        character as u32 <= 0xffff ==> utf16_len(text.push(character)) == utf16_len(text) + 1,
        character as u32 > 0xffff ==> utf16_len(text.push(character)) == utf16_len(text) + 2,
    decreases text.len(),
{
    if text.len() == 0 {
        assert(text.push(character).skip(1) =~= Seq::<char>::empty());
    } else {
        law_utf16_counts_units(text.skip(1), character);
        assert(text.push(character).skip(1) =~= text.skip(1).push(character));
    }
}

/// A place given in UTF-16 units is the first place whose units reach it, or the end of the text.
pub proof fn law_units_lead_to_the_place_that_reaches_them(text: Seq<char>, units: nat)
    ensures
        ({
            let place = characters_reaching(text, units) as int;
            &&& 0 <= place <= text.len()
            &&& place < text.len() ==> utf16_len(text.take(place)) >= units
            &&& place > 0 ==> utf16_len(text.take(place - 1)) < units
        }),
    decreases text.len(),
{
    if units > 0 && text.len() > 0 {
        let width = crate::text_selection::utf16_width(text[0]);
        let rest = text.skip(1);
        let left: nat = if units <= width {
            0
        } else {
            (units - width) as nat
        };
        law_units_lead_to_the_place_that_reaches_them(rest, left);
        let place = characters_reaching(text, units) as int;
        let inner = characters_reaching(rest, left) as int;
        assert(place == inner + 1);
        assert(text.take(place).skip(1) =~= rest.take(inner));
        assert(text.take(place)[0] == text[0]);
        if inner > 0 {
            assert(text.take(place - 1).skip(1) =~= rest.take(inner - 1));
            assert(text.take(place - 1)[0] == text[0]);
        } else {
            assert(text.take(place - 1) =~= Seq::<char>::empty());
        }
    } else if text.len() > 0 {
        assert(text.take(0) =~= Seq::<char>::empty());
    }
}

/// A range in characters is a range in units from the units in front of its first character to
/// those in front of its end; a range in units is read at both its ends.
pub proof fn law_ranges_are_counted_at_both_ends(text: Seq<char>, start: usize, end: usize)
    requires
        start <= end <= text.len(),
    ensures
        as_utf16_range(text, Range { start, end }) == (
            utf16_len(text.take(start as int)) as int,
            utf16_len(text.take(end as int)) as int,
        ),
        as_character_range(text, Range { start, end }) == (
            characters_reaching(text, start as nat) as int,
            characters_reaching(text, end as nat) as int,
        ),
{
}

} // verus!
