//! Text as a sequence of characters: conversion, comparison, searching,
//! trimming and the decimal notation of numbers.

use vstd::prelude::*;

verus! {

// ---------------------------------------------------------------------------
// What is taken from std
// ---------------------------------------------------------------------------

/// `String::push` appends one character to the end of the text.
pub assume_specification[ String::push ](text: &mut String, character: char)
    ensures
        final(text)@ == old(text)@.push(character),
;

/// `String::push_str` appends the whole of another text.
pub assume_specification[ String::push_str ](text: &mut String, tail: &str)
    ensures
        final(text)@ == old(text)@ + tail@,
;

/// Whether a character has Unicode's `White_Space` property.
pub open spec fn is_white_space(character: char) -> bool {
    let code = character as u32;
    ||| 0x09 <= code <= 0x0d
    ||| code == 0x20
    ||| code == 0x85
    ||| code == 0xa0
    ||| code == 0x1680
    ||| 0x2000 <= code <= 0x200a
    ||| code == 0x2028
    ||| code == 0x2029
    ||| code == 0x202f
    ||| code == 0x205f
    ||| code == 0x3000
}

/// `char::is_whitespace` tells whether a character has Unicode's `White_Space`
/// property. The contract lists the characters that have it.
pub assume_specification[ char::is_whitespace ](character: char) -> (result: bool)
    ensures
        result == is_white_space(character),
;

/// The lower case form of a text, by Unicode's `Lowercase` mapping.
pub uninterp spec fn lower_case(text: Seq<char>) -> Seq<char>;

/// `str::to_lowercase` depends on the text alone: neither the locale nor the
/// machine changes what it returns.
pub assume_specification[ str::to_lowercase ](text: &str) -> (result: String)
    ensures
        result@ == lower_case(text@),
;

// ---------------------------------------------------------------------------
// Characters and texts
// ---------------------------------------------------------------------------

/// The characters of a text, in order.
pub fn chars_of(text: &str) -> (result: Vec<char>)
    ensures
        result@ == text@,
{
    let mut result: Vec<char> = Vec::new();
    for character in iter: text.chars()
        invariant
            iter.seq() == text@,
            result@ == text@.take(iter.index() as int),
    {
        result.push(character);
    }
    result
}

/// The text made of some characters.
pub fn string_of(characters: &[char]) -> (result: String)
    ensures
        result@ == characters@,
{
    let mut result = String::new();
    let mut i: usize = 0;
    while i < characters.len()
        invariant
            i <= characters@.len(),
            result@ == characters@.take(i as int),
        decreases characters@.len() - i,
    {
        result.push(characters[i]);
        i += 1;
    }
    result
}

/// Whether two texts hold the same characters.
pub fn same_text(left: &str, right: &str) -> (result: bool)
    ensures
        result == (left@ == right@),
{
    let left_chars = chars_of(left);
    let right_chars = chars_of(right);
    if left_chars.len() != right_chars.len() {
        return false;
    }
    let mut i: usize = 0;
    while i < left_chars.len()
        invariant
            i <= left_chars@.len(),
            left_chars@ == left@,
            right_chars@ == right@,
            left_chars@.len() == right_chars@.len(),
            forall|k: int| 0 <= k < i ==> left@[k] == right@[k],
        decreases left_chars@.len() - i,
    {
        if left_chars[i] != right_chars[i] {
            assert(left@[i as int] != right@[i as int]);
            return false;
        }
        i += 1;
    }
    assert(left@ =~= right@);
    true
}

/// The number of bytes that a text takes in UTF-8.
pub open spec fn utf8_len(text: Seq<char>) -> nat {
    vstd::utf8::encode_utf8(text).len()
}

/// Counts the bytes of a text.
pub fn byte_len(text: &str) -> (result: usize)
    ensures
        result == utf8_len(text@),
{
    text.as_bytes().len()
}

/// The UTF-8 length of two texts put together is the sum of their lengths.
pub proof fn lemma_utf8_len_concat(left: Seq<char>, right: Seq<char>)
    ensures
        utf8_len(left + right) == utf8_len(left) + utf8_len(right),
    decreases left.len(),
{
    reveal_with_fuel(vstd::utf8::encode_utf8, 2);
    if left.len() == 0 {
        assert(left + right =~= right);
    } else {
        assert((left + right).drop_first() =~= left.drop_first() + right);
        lemma_utf8_len_concat(left.drop_first(), right);
    }
}

/// A text that is not empty takes at least a byte.
pub proof fn lemma_utf8_len_positive(text: Seq<char>)
    requires
        text.len() > 0,
    ensures
        utf8_len(text) > 0,
{
    reveal_with_fuel(vstd::utf8::encode_utf8, 2);
}

/// Whether a character is a control code: U+0000 to U+001F and U+007F to U+009F.
pub open spec fn is_control_code(character: char) -> bool {
    character as u32 <= 0x1f || 0x7f <= character as u32 <= 0x9f
}

/// Whether a text holds a control code.
pub fn has_control(text: &str) -> (result: bool)
    ensures
        result == exists|i: int| 0 <= i < text@.len() && is_control_code(#[trigger] text@[i]),
{
    let characters = chars_of(text);
    let mut i: usize = 0;
    while i < characters.len()
        invariant
            i <= characters@.len(),
            characters@ == text@,
            forall|k: int| 0 <= k < i ==> !is_control_code(#[trigger] text@[k]),
        decreases characters@.len() - i,
    {
        let code: u32 = characters[i] as u32;
        if code <= 0x1f || (0x7f <= code && code <= 0x9f) {
            assert(is_control_code(text@[i as int]));
            return true;
        }
        i += 1;
    }
    false
}

// ---------------------------------------------------------------------------
// Letter case
// ---------------------------------------------------------------------------

/// The lower case of an ASCII letter; any other character as it is.
pub open spec fn ascii_lower(character: char) -> char {
    if 'A' <= character && character <= 'Z' {
        (character as u8 + 32) as char
    } else {
        character
    }
}

/// A text with every ASCII letter in lower case.
pub open spec fn ascii_lower_case(text: Seq<char>) -> Seq<char> {
    text.map_values(|c: char| ascii_lower(c))
}

/// Puts every ASCII letter of a text into lower case.
pub fn to_ascii_lower(text: &str) -> (result: String)
    ensures
        result@ == ascii_lower_case(text@),
{
    let characters = chars_of(text);
    let mut result = String::new();
    let mut i: usize = 0;
    while i < characters.len()
        invariant
            i <= characters@.len(),
            characters@ == text@,
            result@ == ascii_lower_case(text@.take(i as int)),
        decreases characters@.len() - i,
    {
        let character = characters[i];
        let lower = if 'A' <= character && character <= 'Z' {
            (character as u8 + 32) as char
        } else {
            character
        };
        proof {
            assert(text@.take(i + 1) =~= text@.take(i as int).push(character));
        }
        result.push(lower);
        i += 1;
    }
    proof {
        assert(text@.take(i as int) =~= text@);
    }
    result
}

// ---------------------------------------------------------------------------
// Trimming
// ---------------------------------------------------------------------------

/// A text without the white space in front of it.
pub open spec fn without_leading_space(text: Seq<char>) -> Seq<char>
    decreases text.len(),
{
    if text.len() > 0 && is_white_space(text[0]) {
        without_leading_space(text.skip(1))
    } else {
        text
    }
}

/// A text without the white space behind it.
pub open spec fn without_trailing_space(text: Seq<char>) -> Seq<char>
    decreases text.len(),
{
    if text.len() > 0 && is_white_space(text.last()) {
        without_trailing_space(text.drop_last())
    } else {
        text
    }
}

/// A text without the white space around it.
pub open spec fn trimmed(text: Seq<char>) -> Seq<char> {
    without_trailing_space(without_leading_space(text))
}

/// Takes the white space around a text away.
pub fn trim(text: &str) -> (result: String)
    ensures
        result@ == trimmed(text@),
{
    let characters = chars_of(text);
    let mut start: usize = 0;
    proof {
        assert(text@.skip(0) =~= text@);
    }
    while start < characters.len() && characters[start].is_whitespace()
        invariant
            start <= characters@.len(),
            characters@ == text@,
            without_leading_space(text@) == without_leading_space(text@.skip(start as int)),
        decreases characters@.len() - start,
    {
        proof {
            assert(text@.skip(start as int).skip(1) =~= text@.skip(start + 1));
        }
        start += 1;
    }
    let ghost middle = text@.skip(start as int);
    proof {
        assert(without_leading_space(text@) == middle);
    }
    let mut end: usize = characters.len();
    while start < end && characters[end - 1].is_whitespace()
        invariant
            start <= end <= characters@.len(),
            characters@ == text@,
            middle == text@.skip(start as int),
            without_trailing_space(middle) == without_trailing_space(
                text@.subrange(start as int, end as int),
            ),
        decreases end,
    {
        proof {
            assert(text@.subrange(start as int, end as int).drop_last() =~= text@.subrange(
                start as int,
                end - 1,
            ));
        }
        end -= 1;
    }
    string_of(slice_of(&characters, start, end))
}

/// The characters of a list between two positions.
fn slice_of(characters: &Vec<char>, start: usize, end: usize) -> (result: &[char])
    requires
        start <= end <= characters@.len(),
    ensures
        result@ == characters@.subrange(start as int, end as int),
{
    vstd::slice::slice_subrange(characters.as_slice(), start, end)
}

/// A trimmed text begins and ends with something other than white space.
pub proof fn law_trimmed_has_no_outer_space(text: Seq<char>)
    ensures
        trimmed(text).len() > 0 ==> !is_white_space(trimmed(text)[0]) && !is_white_space(
            trimmed(text).last(),
        ),
{
    lemma_leading_space(text);
    lemma_trailing_space(without_leading_space(text));
}

/// Trimming a trimmed text changes nothing.
pub proof fn law_trim_is_idempotent(text: Seq<char>)
    ensures
        trimmed(trimmed(text)) == trimmed(text),
{
    law_trimmed_has_no_outer_space(text);
}

proof fn lemma_leading_space(text: Seq<char>)
    ensures
        without_leading_space(text).len() > 0 ==> !is_white_space(without_leading_space(text)[0]),
    decreases text.len(),
{
    if text.len() > 0 && is_white_space(text[0]) {
        lemma_leading_space(text.skip(1));
    }
}

proof fn lemma_trailing_space(text: Seq<char>)
    ensures
        without_trailing_space(text).len() > 0 ==> !is_white_space(
            without_trailing_space(text).last(),
        ) && without_trailing_space(text)[0] == text[0] && text.len() > 0,
    decreases text.len(),
{
    if text.len() > 0 && is_white_space(text.last()) {
        lemma_trailing_space(text.drop_last());
    }
}

/// A text without the line feeds at its end.
pub open spec fn without_trailing_line_feeds(text: Seq<char>) -> Seq<char>
    decreases text.len(),
{
    if text.len() > 0 && text.last() == '\n' {
        without_trailing_line_feeds(text.drop_last())
    } else {
        text
    }
}

/// Takes the line feeds at the end of a text away.
pub fn trim_trailing_line_feeds(text: &str) -> (result: String)
    ensures
        result@ == without_trailing_line_feeds(text@),
{
    let characters = chars_of(text);
    let mut end: usize = characters.len();
    proof {
        assert(text@.take(end as int) =~= text@);
    }
    while 0 < end && characters[end - 1] == '\n'
        invariant
            end <= characters@.len(),
            characters@ == text@,
            without_trailing_line_feeds(text@) == without_trailing_line_feeds(
                text@.take(end as int),
            ),
        decreases end,
    {
        proof {
            assert(text@.take(end as int).drop_last() =~= text@.take(end - 1));
        }
        end -= 1;
    }
    proof {
        assert(text@.subrange(0, end as int) =~= text@.take(end as int));
    }
    string_of(slice_of(&characters, 0, end))
}

// ---------------------------------------------------------------------------
// Searching
// ---------------------------------------------------------------------------

/// Whether a part stands in a text from a given position on.
pub open spec fn occurs_at(text: Seq<char>, part: Seq<char>, at: int) -> bool {
    0 <= at && at + part.len() <= text.len() && text.subrange(at, at + part.len()) == part
}

/// Whether a part stands anywhere in a text.
pub open spec fn contains_part(text: Seq<char>, part: Seq<char>) -> bool {
    exists|at: int| occurs_at(text, part, at)
}

fn part_stands_at(text: &Vec<char>, part: &Vec<char>, at: usize) -> (result: bool)
    requires
        at + part@.len() <= text@.len(),
    ensures
        result == occurs_at(text@, part@, at as int),
{
    let total: usize = text.len();
    let mut i: usize = 0;
    while i < part.len()
        invariant
            i <= part@.len(),
            at + part@.len() <= text@.len(),
            total == text@.len(),
            forall|k: int| 0 <= k < i ==> text@[at + k] == part@[k],
        decreases part@.len() - i,
    {
        if text[at + i] != part[i] {
            assert(text@.subrange(at as int, at + part@.len())[i as int] != part@[i as int]);
            return false;
        }
        i += 1;
    }
    assert(text@.subrange(at as int, at + part@.len()) =~= part@);
    true
}

/// Looks for a part in a text.
pub fn contains_text(text: &str, part: &str) -> (result: bool)
    ensures
        result == contains_part(text@, part@),
{
    let text_chars = chars_of(text);
    let part_chars = chars_of(part);
    if part_chars.len() > text_chars.len() {
        return false;
    }
    let last: usize = text_chars.len() - part_chars.len();
    let mut at: usize = 0;
    while at <= last
        invariant
            text_chars@ == text@,
            part_chars@ == part@,
            last + part@.len() == text@.len(),
            at <= last + 1,
            forall|k: int| 0 <= k < at ==> !occurs_at(text@, part@, k),
        decreases last + 1 - at,
    {
        if part_stands_at(&text_chars, &part_chars, at) {
            return true;
        }
        if at == last {
            return false;
        }
        at += 1;
    }
    false
}

/// Whether a text begins with a part.
pub fn starts_with_text(text: &str, part: &str) -> (result: bool)
    ensures
        result == occurs_at(text@, part@, 0),
{
    let text_chars = chars_of(text);
    let part_chars = chars_of(part);
    part_chars.len() <= text_chars.len() && part_stands_at(&text_chars, &part_chars, 0)
}

/// What stands behind the last separator of a text; the whole text where it
/// holds none.
pub open spec fn behind_last(text: Seq<char>, separator: char) -> Seq<char>
    decreases text.len(),
{
    if text.len() == 0 || text.last() == separator {
        Seq::empty()
    } else {
        behind_last(text.drop_last(), separator).push(text.last())
    }
}

/// Cuts off everything up to the last separator of a text.
pub fn last_segment(text: &str, separator: char) -> (result: String)
    ensures
        result@ == behind_last(text@, separator),
{
    let characters = chars_of(text);
    let mut result = String::new();
    let mut i: usize = 0;
    while i < characters.len()
        invariant
            i <= characters@.len(),
            characters@ == text@,
            result@ == behind_last(text@.take(i as int), separator),
        decreases characters@.len() - i,
    {
        proof {
            assert(text@.take(i + 1).drop_last() =~= text@.take(i as int));
        }
        if characters[i] == separator {
            result = String::new();
        } else {
            result.push(characters[i]);
        }
        i += 1;
    }
    proof {
        assert(text@.take(i as int) =~= text@);
    }
    result
}

// ---------------------------------------------------------------------------
// Numbers
// ---------------------------------------------------------------------------

/// The character of a decimal digit.
pub open spec fn digit_char(digit: nat) -> char {
    ('0' as nat + digit) as char
}

/// A number in decimal notation, without leading zeros.
pub open spec fn decimal_text(number: nat) -> Seq<char>
    decreases number,
{
    if number < 10 {
        seq![digit_char(number)]
    } else {
        decimal_text(number / 10).push(digit_char(number % 10))
    }
}

/// Writes a number in decimal notation.
pub fn decimal(number: u64) -> (result: String)
    ensures
        result@ == decimal_text(number as nat),
    decreases number,
{
    if number < 10 {
        let mut result = String::new();
        result.push((48u8 + number as u8) as char);
        result
    } else {
        let mut result = decimal(number / 10);
        result.push((48u8 + (number % 10) as u8) as char);
        result
    }
}

/// A number in decimal notation with zeros in front, up to a width.
pub open spec fn padded_text(number: nat, width: nat) -> Seq<char> {
    let digits = decimal_text(number);
    if digits.len() < width {
        Seq::new((width - digits.len()) as nat, |i: int| '0') + digits
    } else {
        digits
    }
}

/// Writes a number with zeros in front, up to a width.
pub fn padded(number: u64, width: usize) -> (result: String)
    ensures
        result@ == padded_text(number as nat, width as nat),
{
    let digits = decimal(number);
    let length: usize = digits.as_str().unicode_len();
    let mut result = String::new();
    let mut i: usize = length;
    while i < width
        invariant
            length == digits@.len(),
            length <= i,
            i <= width || i == length,
            result@ == Seq::new((i - length) as nat, |k: int| '0'),
        decreases width - i,
    {
        result.push('0');
        i += 1;
        proof {
            assert(result@ =~= Seq::new((i - length) as nat, |k: int| '0'));
        }
    }
    result.push_str(digits.as_str());
    result
}

/// A signed number with zeros between its sign and its digits, up to a width
/// that counts the sign.
pub open spec fn signed_padded_text(number: int, width: nat) -> Seq<char> {
    if number >= 0 {
        padded_text(number as nat, width)
    } else {
        seq!['-'] + padded_text((-number) as nat, if width > 0 { (width - 1) as nat } else { 0 })
    }
}

/// Writes a signed number with zeros up to a width.
pub fn signed_padded(number: i32, width: usize) -> (result: String)
    ensures
        result@ == signed_padded_text(number as int, width as nat),
{
    if number >= 0 {
        padded(number as u64, width)
    } else {
        let magnitude: i64 = -(number as i64);
        let mut result = String::new();
        result.push('-');
        let rest = padded(magnitude as u64, if width > 0 { width - 1 } else { 0 });
        result.push_str(rest.as_str());
        result
    }
}

/// Whether a character is a decimal digit.
pub open spec fn is_digit(character: char) -> bool {
    '0' <= character && character <= '9'
}

/// The number that a row of decimal digits stands for.
pub open spec fn digits_value(digits: Seq<char>) -> nat
    decreases digits.len(),
{
    if digits.len() == 0 {
        0
    } else {
        digits_value(digits.drop_last()) * 10 + (digits.last() as nat - '0' as nat) as nat
    }
}

/// The digits of a number in front of which a plus sign may stand.
pub open spec fn unsigned_digits(text: Seq<char>) -> Seq<char> {
    if text.len() > 0 && text[0] == '+' {
        text.skip(1)
    } else {
        text
    }
}

/// The 64 bit number that a text stands for: digits only, at least one, with
/// an optional plus sign in front; nothing where the number is too large.
pub open spec fn parsed_number(text: Seq<char>) -> Option<u64> {
    let digits = unsigned_digits(text);
    if digits.len() > 0 && (forall|i: int| 0 <= i < digits.len() ==> is_digit(#[trigger] digits[i]))
        && digits_value(digits) <= u64::MAX {
        Some(digits_value(digits) as u64)
    } else {
        None
    }
}

proof fn lemma_digits_value_grows(digits: Seq<char>, shorter: int)
    requires
        0 <= shorter <= digits.len(),
    ensures
        digits_value(digits.take(shorter)) <= digits_value(digits),
    decreases digits.len(),
{
    if shorter < digits.len() {
        assert(digits.take(shorter) =~= digits.drop_last().take(shorter));
        lemma_digits_value_grows(digits.drop_last(), shorter);
    } else {
        assert(digits.take(shorter) =~= digits);
    }
}

/// Reads a 64 bit number.
pub fn parse_number(text: &str) -> (result: Option<u64>)
    ensures
        result == parsed_number(text@),
{
    let characters = chars_of(text);
    let start: usize = if characters.len() > 0 && characters[0] == '+' {
        1
    } else {
        0
    };
    let ghost digits = unsigned_digits(text@);
    proof {
        assert(digits =~= text@.skip(start as int));
    }
    if start == characters.len() {
        return None;
    }
    let mut value: u64 = 0;
    let mut i: usize = start;
    while i < characters.len()
        invariant
            start <= i <= characters@.len(),
            characters@ == text@,
            digits == text@.skip(start as int),
            digits == unsigned_digits(text@),
            forall|k: int| 0 <= k < i - start ==> is_digit(#[trigger] digits[k]),
            value == digits_value(digits.take(i - start)),
        decreases characters@.len() - i,
    {
        let character = characters[i];
        proof {
            assert(digits[i - start] == character);
            assert(digits.take(i - start + 1).drop_last() =~= digits.take(i - start));
            lemma_digits_value_grows(digits, i - start + 1);
        }
        if !('0' <= character && character <= '9') {
            assert(!is_digit(digits[i - start]));
            return None;
        }
        let digit: u64 = (character as u32 - 48) as u64;
        if value > (u64::MAX - digit) / 10 {
            assert(digits_value(digits.take(i - start + 1)) > u64::MAX);
            return None;
        }
        value = value * 10 + digit;
        i += 1;
    }
    proof {
        assert(digits.take(i - start) =~= digits);
    }
    Some(value)
}

/// Nothing is trimmed from a number in decimal notation.
pub proof fn law_decimal_has_no_space(number: u64)
    ensures
        trimmed(decimal_text(number as nat)) == decimal_text(number as nat),
{
    lemma_decimal_digits(number as nat);
    let text = decimal_text(number as nat);
    assert(is_digit(text[0]));
    assert(is_digit(text[text.len() - 1]));
}

/// Reading a number that was written in decimal notation gives it back.
pub proof fn law_parse_reads_decimal(number: u64)
    ensures
        parsed_number(decimal_text(number as nat)) == Some(number),
{
    lemma_decimal_digits(number as nat);
    assert(unsigned_digits(decimal_text(number as nat)) == decimal_text(number as nat));
}

proof fn lemma_decimal_digits(number: nat)
    ensures
        decimal_text(number).len() > 0,
        forall|i: int|
            0 <= i < decimal_text(number).len() ==> is_digit(#[trigger] decimal_text(number)[i]),
        digits_value(decimal_text(number)) == number,
    decreases number,
{
    reveal_with_fuel(digits_value, 2);
    if number < 10 {
        assert(seq![digit_char(number)].drop_last() =~= Seq::<char>::empty());
    } else {
        lemma_decimal_digits(number / 10);
        assert(decimal_text(number).drop_last() =~= decimal_text(number / 10));
        assert(decimal_text(number).last() == digit_char(number % 10));
    }
}

} // verus!
