//! Operations on text that the rules of the backend are written with.

use vstd::prelude::*;
use vstd::string::*;

verus! {

/// Whether `Regex::is_match` finds a match of the pattern in the text, or
/// `None` where `Regex::new` does not accept the pattern.
pub uninterp spec fn regex_match(pattern: Seq<char>, text: Seq<char>) -> Option<bool>;

/// The text in lower case, as `str::to_lowercase` gives it.
pub uninterp spec fn lowercase_text(text: Seq<char>) -> Seq<char>;

/// The text in upper case, as `str::to_uppercase` gives it.
pub uninterp spec fn uppercase_text(text: Seq<char>) -> Seq<char>;

/// An optional text as a character sequence.
pub open spec fn text_view(text: Option<String>) -> Option<Seq<char>> {
    match text {
        Some(t) => Some(t@),
        None => None,
    }
}

/// Whether the character is white space: one of the characters with the
/// Unicode property `White_Space`.
pub open spec fn white_space(c: char) -> bool {
    ||| ('\u{9}' <= c && c <= '\u{d}')
    ||| c == ' '
    ||| c == '\u{85}'
    ||| c == '\u{a0}'
    ||| c == '\u{1680}'
    ||| ('\u{2000}' <= c && c <= '\u{200a}')
    ||| c == '\u{2028}'
    ||| c == '\u{2029}'
    ||| c == '\u{202f}'
    ||| c == '\u{205f}'
    ||| c == '\u{3000}'
}

/// The text without its leading run of white space.
pub open spec fn trimmed_start(text: Seq<char>) -> Seq<char>
    decreases text.len(),
{
    if text.len() > 0 && white_space(text.first()) {
        trimmed_start(text.drop_first())
    } else {
        text
    }
}

/// The text without its trailing run of white space.
pub open spec fn trimmed_end(text: Seq<char>) -> Seq<char>
    decreases text.len(),
{
    if text.len() > 0 && white_space(text.last()) {
        trimmed_end(text.drop_last())
    } else {
        text
    }
}

/// The text without white space at either end.
pub open spec fn trimmed(text: Seq<char>) -> Seq<char> {
    trimmed_end(trimmed_start(text))
}

/// Whether the text begins with the prefix.
pub fn starts_with(text: &str, prefix: &str) -> (found: bool)
    ensures
        found == prefix@.is_prefix_of(text@),
{
    let length = prefix.unicode_len();
    if length > text.unicode_len() {
        return false;
    }
    let mut i: usize = 0;
    while i < length
        invariant
            i <= length,
            length == prefix@.len(),
            length <= text@.len(),
            forall|j: int| 0 <= j < i ==> prefix@[j] == text@[j],
        decreases length - i,
    {
        if prefix.get_char(i) != text.get_char(i) {
            assert(text@.subrange(0, length as int)[i as int] != prefix@[i as int]);
            return false;
        }
        i += 1;
    }
    assert(prefix@ =~= text@.subrange(0, length as int));
    true
}

/// `str::to_lowercase`.
#[verifier::external_body]
pub(crate) fn to_lowercase(text: &str) -> (lower: String)
    ensures
        lower@ == lowercase_text(text@),
{
    text.to_lowercase()
}

/// `str::to_uppercase`.
#[verifier::external_body]
pub(crate) fn to_uppercase(text: &str) -> (upper: String)
    ensures
        upper@ == uppercase_text(text@),
{
    text.to_uppercase()
}

/// Whether the character is white space.
pub fn is_whitespace(c: char) -> (white: bool)
    ensures
        white == white_space(c),
{
    (c >= '\u{9}' && c <= '\u{d}') || c == ' ' || c == '\u{85}' || c == '\u{a0}' || c == '\u{1680}'
        || (c >= '\u{2000}' && c <= '\u{200a}') || c == '\u{2028}' || c == '\u{2029}' || c
        == '\u{202f}' || c == '\u{205f}' || c == '\u{3000}'
}

/// Where the text begins once its leading white space is passed over.
fn white_prefix(text: &str, length: usize) -> (start: usize)
    requires
        length == text@.len(),
    ensures
        start <= length,
        trimmed_start(text@) == text@.skip(start as int),
{
    let mut start: usize = 0;
    assert(text@.skip(0) =~= text@);
    while start < length
        invariant
            start <= length,
            length == text@.len(),
            trimmed_start(text@) == trimmed_start(text@.skip(start as int)),
        decreases length - start,
    {
        assert(text@.skip(start as int).first() == text@[start as int]);
        if !is_whitespace(text.get_char(start)) {
            return start;
        }
        assert(text@.skip(start as int).drop_first() =~= text@.skip(start + 1));
        start += 1;
    }
    start
}

/// Where the text from `start` on ends once its trailing white space is
/// dropped.
fn white_suffix(text: &str, start: usize, length: usize) -> (end: usize)
    requires
        start <= length,
        length == text@.len(),
    ensures
        start <= end <= length,
        trimmed_end(text@.skip(start as int)) == text@.subrange(start as int, end as int),
{
    let mut end: usize = length;
    assert(text@.skip(start as int) =~= text@.subrange(start as int, length as int));
    while end > start
        invariant
            start <= end <= length,
            length == text@.len(),
            trimmed_end(text@.skip(start as int)) == trimmed_end(
                text@.subrange(start as int, end as int),
            ),
        decreases end - start,
    {
        assert(text@.subrange(start as int, end as int).last() == text@[end - 1]);
        if !is_whitespace(text.get_char(end - 1)) {
            return end;
        }
        assert(text@.subrange(start as int, end as int).drop_last() =~= text@.subrange(
            start as int,
            end - 1,
        ));
        end -= 1;
    }
    end
}

/// The text without white space at either end.
pub fn trim<'a>(text: &'a str) -> (rest: &'a str)
    ensures
        rest@ == trimmed(text@),
{
    let length = text.unicode_len();
    let start = white_prefix(text, length);
    let end = white_suffix(text, start, length);
    text.substring_char(start, end)
}

/// `Regex::new` on the pattern, then `Regex::is_match` on the text.
#[verifier::external_body]
pub(crate) fn regex_is_match(pattern: &str, text: &str) -> (found: Option<bool>)
    ensures
        found == regex_match(pattern@, text@),
{
    let compiled = regex::Regex::new(pattern).ok()?;
    Some(compiled.is_match(text))
}

/// The text of one decimal digit.
pub open spec fn digit_text(digit: nat) -> Seq<char> {
    if digit == 0 {
        "0"@
    } else if digit == 1 {
        "1"@
    } else if digit == 2 {
        "2"@
    } else if digit == 3 {
        "3"@
    } else if digit == 4 {
        "4"@
    } else if digit == 5 {
        "5"@
    } else if digit == 6 {
        "6"@
    } else if digit == 7 {
        "7"@
    } else if digit == 8 {
        "8"@
    } else {
        "9"@
    }
}

/// A number in decimal, without leading zeros.
pub open spec fn decimal_text(number: nat) -> Seq<char>
    decreases number,
{
    if number < 10 {
        digit_text(number)
    } else {
        decimal_text(number / 10) + digit_text(number % 10)
    }
}

fn digit(value: u64) -> (text: &'static str)
    requires
        value < 10,
    ensures
        text@ == digit_text(value as nat),
{
    if value == 0 {
        "0"
    } else if value == 1 {
        "1"
    } else if value == 2 {
        "2"
    } else if value == 3 {
        "3"
    } else if value == 4 {
        "4"
    } else if value == 5 {
        "5"
    } else if value == 6 {
        "6"
    } else if value == 7 {
        "7"
    } else if value == 8 {
        "8"
    } else {
        "9"
    }
}

/// Writes a number in decimal.
pub fn to_decimal(number: u64) -> (text: String)
    ensures
        text@ == decimal_text(number as nat),
    decreases number,
{
    if number < 10 {
        digit(number).to_string()
    } else {
        to_decimal(number / 10).concat(digit(number % 10))
    }
}

/// The text up to its first `separator`, or all of it where it has none.
pub open spec fn head_piece(text: Seq<char>, separator: char) -> Seq<char>
    decreases text.len(),
{
    if text.len() == 0 || text.first() == separator {
        Seq::empty()
    } else {
        seq![text.first()] + head_piece(text.drop_first(), separator)
    }
}

/// What follows the first `separator` of a text, where it has one.
pub open spec fn tail_pieces(text: Seq<char>, separator: char) -> Option<Seq<char>>
    decreases text.len(),
{
    if text.len() == 0 {
        None
    } else if text.first() == separator {
        Some(text.drop_first())
    } else {
        tail_pieces(text.drop_first(), separator)
    }
}

/// The first of the pieces between separators that begins with the prefix.
pub open spec fn first_piece_with(text: Seq<char>, separator: char, prefix: Seq<char>) -> Option<
    Seq<char>,
>
    decreases text.len(),
{
    if prefix.is_prefix_of(head_piece(text, separator)) {
        Some(head_piece(text, separator))
    } else {
        match tail_pieces(text, separator) {
            Some(rest) => if rest.len() < text.len() {
                first_piece_with(rest, separator, prefix)
            } else {
                None
            },
            None => None,
        }
    }
}

/// The text with every occurrence of a non-empty pattern cut out, the
/// occurrences being found from the left and not overlapping.
pub open spec fn without_all(text: Seq<char>, pattern: Seq<char>) -> Seq<char>
    decreases text.len(),
{
    if text.len() == 0 || pattern.len() == 0 {
        text
    } else if pattern.is_prefix_of(text) {
        without_all(text.skip(pattern.len() as int), pattern)
    } else {
        seq![text.first()] + without_all(text.drop_first(), pattern)
    }
}

/// Where the first `separator` of the text from `start` on stands, or the
/// length of the text where there is none.
fn piece_end(text: &str, start: usize, length: usize, separator: char) -> (end: usize)
    requires
        start <= length,
        length == text@.len(),
    ensures
        start <= end <= length,
        text@.subrange(start as int, end as int) == head_piece(text@.skip(start as int), separator),
        end < length ==> text@[end as int] == separator && tail_pieces(
            text@.skip(start as int),
            separator,
        ) == Some(text@.skip(end + 1)),
        end == length ==> tail_pieces(text@.skip(start as int), separator) is None,
    decreases length - start,
{
    if start == length {
        assert(text@.subrange(start as int, start as int) =~= Seq::<char>::empty());
        return start;
    }
    assert(text@.skip(start as int).first() == text@[start as int]);
    assert(text@.skip(start as int).drop_first() =~= text@.skip(start + 1));
    if text.get_char(start) == separator {
        assert(text@.subrange(start as int, start as int) =~= Seq::<char>::empty());
        return start;
    }
    let end = piece_end(text, start + 1, length, separator);
    assert(text@.subrange(start as int, end as int) =~= seq![text@[start as int]] + text@.subrange(
        start + 1,
        end as int,
    ));
    end
}

/// Where the first piece of a text ends, and where its second piece stands,
/// if it has one.
pub fn piece_bounds(text: &str, length: usize, separator: char) -> (bounds: (
    usize,
    Option<(usize, usize)>,
))
    requires
        length == text@.len(),
    ensures
        bounds.0 <= length,
        text@.subrange(0, bounds.0 as int) == head_piece(text@, separator),
        match bounds.1 {
            Some((start, end)) => start == bounds.0 + 1 && start <= end <= length && tail_pieces(
                text@,
                separator,
            ) == Some(text@.skip(start as int)) && text@.subrange(start as int, end as int) == head_piece(
                text@.skip(start as int),
                separator,
            ),
            None => tail_pieces(text@, separator) is None,
        },
{
    assert(text@.skip(0) =~= text@);
    let first = piece_end(text, 0, length, separator);
    if first == length {
        return (first, None);
    }
    let second = piece_end(text, first + 1, length, separator);
    (first, Some((first + 1, second)))
}

/// The first piece of the text between `separator`s that begins with the
/// prefix.
pub fn find_piece<'a>(text: &'a str, separator: char, prefix: &str) -> (piece: Option<&'a str>)
    ensures
        match piece {
            Some(found) => first_piece_with(text@, separator, prefix@) == Some(found@),
            None => first_piece_with(text@, separator, prefix@) is None,
        },
{
    let length = text.unicode_len();
    let mut start: usize = 0;
    assert(text@.skip(0) =~= text@);
    while start <= length
        invariant
            start <= length,
            length == text@.len(),
            first_piece_with(text@, separator, prefix@) == first_piece_with(
                text@.skip(start as int),
                separator,
                prefix@,
            ),
        decreases length - start,
    {
        let end = piece_end(text, start, length, separator);
        let piece = text.substring_char(start, end);
        if starts_with(piece, prefix) {
            return Some(piece);
        }
        if end == length {
            return None;
        }
        assert(text@.skip(end + 1).len() < text@.skip(start as int).len());
        start = end + 1;
    }
    None
}

/// Cuts every occurrence of a pattern out of the text.
pub fn remove_all(text: &str, pattern: &str) -> (rest: String)
    ensures
        rest@ == without_all(text@, pattern@),
{
    let length = text.unicode_len();
    let step = pattern.unicode_len();
    if step == 0 {
        return text.to_string();
    }
    let mut rest = String::new();
    let mut start: usize = 0;
    assert(text@.skip(0) =~= text@);
    while start < length
        invariant
            start <= length,
            length == text@.len(),
            step == pattern@.len(),
            step > 0,
            without_all(text@, pattern@) == rest@ + without_all(text@.skip(start as int), pattern@),
        decreases length - start,
    {
        let tail = text.substring_char(start, length);
        assert(tail@ =~= text@.skip(start as int));
        if starts_with(tail, pattern) {
            assert(tail@.skip(step as int) =~= text@.skip(start + step));
            start += step;
        } else {
            let one = text.substring_char(start, start + 1);
            assert(one@ =~= seq![tail@.first()]);
            assert(tail@.drop_first() =~= text@.skip(start + 1));
            let ghost before = rest@;
            rest.append(one);
            assert(rest@ + without_all(text@.skip(start + 1), pattern@) =~= before + (seq![
                tail@.first(),
            ] + without_all(tail@.drop_first(), pattern@)));
            start += 1;
        }
    }
    assert(text@.skip(length as int).len() == 0);
    assert(rest@ + without_all(text@.skip(start as int), pattern@) =~= rest@);
    rest
}

/// The value of a decimal digit.
pub open spec fn digit_value(c: char) -> Option<nat> {
    if c == '0' {
        Some(0)
    } else if c == '1' {
        Some(1)
    } else if c == '2' {
        Some(2)
    } else if c == '3' {
        Some(3)
    } else if c == '4' {
        Some(4)
    } else if c == '5' {
        Some(5)
    } else if c == '6' {
        Some(6)
    } else if c == '7' {
        Some(7)
    } else if c == '8' {
        Some(8)
    } else if c == '9' {
        Some(9)
    } else {
        None
    }
}

/// The number that a run of decimal digits writes, or `None` where a
/// character of the run is no digit. The empty run writes zero.
pub open spec fn digits_value(digits: Seq<char>) -> Option<nat>
    decreases digits.len(),
{
    if digits.len() == 0 {
        Some(0)
    } else {
        match (digits_value(digits.drop_last()), digit_value(digits.last())) {
            (Some(value), Some(digit)) => Some(value * 10 + digit),
            _ => None,
        }
    }
}

/// The number that a text writes as a `u16`: an optional `+`, then one
/// decimal digit or more, with a value of 65535 at most.
pub open spec fn parsed_u16(text: Seq<char>) -> Option<u16> {
    let digits = if text.len() > 0 && text[0] == '+' {
        text.drop_first()
    } else {
        text
    };
    if digits.len() == 0 {
        None
    } else {
        match digits_value(digits) {
            Some(value) => if value <= u16::MAX {
                Some(value as u16)
            } else {
                None
            },
            None => None,
        }
    }
}

/// A run of digits writes a number that is no smaller than what any of its
/// beginnings writes, and writes none where a beginning writes none.
pub proof fn lemma_digits_grow(digits: Seq<char>, k: int)
    requires
        0 <= k <= digits.len(),
    ensures
        digits_value(digits.take(k)) is None ==> digits_value(digits) is None,
        digits_value(digits.take(k)) matches Some(begun) ==> (digits_value(digits) matches Some(
            whole,
        ) ==> whole >= begun),
    decreases digits.len(),
{
    if k == digits.len() {
        assert(digits.take(k) =~= digits);
    } else {
        let shorter = digits.drop_last();
        assert(shorter.take(k) =~= digits.take(k));
        lemma_digits_grow(shorter, k);
    }
}

fn digit_of(c: char) -> (digit: Option<u32>)
    ensures
        match digit {
            Some(d) => digit_value(c) == Some(d as nat) && d <= 9,
            None => digit_value(c) is None,
        },
{
    if c == '0' {
        Some(0)
    } else if c == '1' {
        Some(1)
    } else if c == '2' {
        Some(2)
    } else if c == '3' {
        Some(3)
    } else if c == '4' {
        Some(4)
    } else if c == '5' {
        Some(5)
    } else if c == '6' {
        Some(6)
    } else if c == '7' {
        Some(7)
    } else if c == '8' {
        Some(8)
    } else if c == '9' {
        Some(9)
    } else {
        None
    }
}

/// Reads a text as a `u16`.
pub fn parse_u16(text: &str) -> (number: Option<u16>)
    ensures
        number == parsed_u16(text@),
{
    let length = text.unicode_len();
    let start: usize = if length > 0 && text.get_char(0) == '+' {
        1
    } else {
        0
    };
    if start == length {
        return None;
    }
    let ghost digits = text@.skip(start as int);
    assert(digits =~= (if text@.len() > 0 && text@[0] == '+' {
        text@.drop_first()
    } else {
        text@
    }));
    let mut value: u32 = 0;
    let mut i: usize = start;
    assert(digits.take(0) =~= Seq::<char>::empty());
    while i < length
        invariant
            start <= i <= length,
            length == text@.len(),
            digits == (if text@.len() > 0 && text@[0] == '+' {
                text@.drop_first()
            } else {
                text@
            }),
            digits == text@.skip(start as int),
            value <= u16::MAX,
            digits_value(digits.take(i - start)) == Some(value as nat),
        decreases length - i,
    {
        let c = text.get_char(i);
        let ghost begun = digits.take(i - start + 1);
        assert(begun.drop_last() =~= digits.take(i - start));
        assert(begun.last() == c);
        proof {
            lemma_digits_grow(digits, i - start + 1);
        }
        let digit = match digit_of(c) {
            Some(d) => d,
            None => {
                assert(digits_value(begun) is None);
                return None;
            },
        };
        let next: u32 = value * 10 + digit;
        assert(digits_value(begun) == Some(next as nat));
        if next > 65535 {
            return None;
        }
        value = next;
        i += 1;
    }
    assert(digits.take(length - start) =~= digits);
    Some(value as u16)
}

} // verus!
