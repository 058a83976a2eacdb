//! Reading values out of the text that system utilities and system files
//! give: white space, markers, the piece behind a marker, numbers.

use crate::text::{chars_of, string_of};
use vstd::prelude::*;
use vstd::string::*;

verus! {

/// Whether `c` is white space as Unicode defines it.
pub open spec fn is_whitespace(c: char) -> bool {
    let code = c as u32;
    ||| 0x09 <= code <= 0x0d
    ||| code == 0x20
    ||| code == 0x85
    ||| code == 0xa0
    ||| code == 0x1680
    ||| 0x2000 <= code <= 0x200a
    ||| code == 0x2028
    ||| code == 0x2029
    ||| code == 0x202f
    ||| code == 0x205f
    ||| code == 0x3000
}

/// Whether `c` is white space as Unicode defines it.
pub fn whitespace(c: char) -> (white: bool)
    ensures
        white == is_whitespace(c),
{
    let code = c as u32;
    (0x09 <= code && code <= 0x0d) || code == 0x20 || code == 0x85 || code == 0xa0 || code
        == 0x1680 || (0x2000 <= code && code <= 0x200a) || code == 0x2028 || code == 0x2029
        || code == 0x202f || code == 0x205f || code == 0x3000
}

/// The first place at or behind `from` that holds no white space; the
/// length of the text where only white space follows.
pub open spec fn skip_whitespace(text: Seq<char>, from: int) -> int
    decreases text.len() - from,
{
    if 0 <= from < text.len() && is_whitespace(text[from]) {
        skip_whitespace(text, from + 1)
    } else {
        from
    }
}

/// The first place at or behind `from` that holds white space; the length
/// of the text where none follows.
pub open spec fn skip_word(text: Seq<char>, from: int) -> int
    decreases text.len() - from,
{
    if 0 <= from < text.len() && !is_whitespace(text[from]) {
        skip_word(text, from + 1)
    } else {
        from
    }
}

/// The end of the text before `to` once the white space at its end is
/// taken off.
pub open spec fn drop_whitespace(text: Seq<char>, to: int) -> int
    decreases to,
{
    if 0 < to <= text.len() && is_whitespace(text[to - 1]) {
        drop_whitespace(text, to - 1)
    } else {
        to
    }
}

/// The text without the white space at its start and at its end.
pub open spec fn trimmed(text: Seq<char>) -> Seq<char> {
    let start = skip_whitespace(text, 0);
    let end = drop_whitespace(text, text.len() as int);
    if start < end {
        text.subrange(start, end)
    } else {
        Seq::empty()
    }
}

/// The first run of characters that are not white space; empty where the
/// text holds nothing else.
pub open spec fn first_word(text: Seq<char>) -> Seq<char> {
    let start = skip_whitespace(text, 0);
    text.subrange(start, skip_word(text, start))
}

/// Whether `marker` stands in `text` at place `at`.
pub open spec fn occurs_at(text: Seq<char>, marker: Seq<char>, at: int) -> bool {
    &&& 0 <= at
    &&& at + marker.len() <= text.len()
    &&& text.subrange(at, at + marker.len()) == marker
}

/// The first place at or behind `from` where `marker` stands in `text`.
pub open spec fn find_from(text: Seq<char>, marker: Seq<char>, from: int) -> Option<int>
    decreases text.len() - from + 1,
{
    if from < 0 || from + marker.len() > text.len() {
        None
    } else if occurs_at(text, marker, from) {
        Some(from)
    } else {
        find_from(text, marker, from + 1)
    }
}

/// The piece of `text` behind the first `marker`: it ends where the marker
/// stands next, or with the text. `None` where the marker does not occur.
pub open spec fn piece_after(text: Seq<char>, marker: Seq<char>) -> Option<Seq<char>> {
    match find_from(text, marker, 0) {
        None => None,
        Some(at) => {
            let start = at + marker.len();
            match find_from(text, marker, start) {
                Some(next) => Some(text.subrange(start, next)),
                None => Some(text.subrange(start, text.len() as int)),
            }
        },
    }
}

/// The first place at or behind `from` that holds `c`; the length of the
/// text where none does.
pub open spec fn find_char(text: Seq<char>, c: char, from: int) -> int
    decreases text.len() - from,
{
    if 0 <= from < text.len() && text[from] != c {
        find_char(text, c, from + 1)
    } else {
        from
    }
}

/// The text up to the first `c`; all of it where it holds none.
pub open spec fn before_char(text: Seq<char>, c: char) -> Seq<char> {
    text.subrange(0, find_char(text, c, 0))
}

/// Whether `c` is a decimal digit.
pub open spec fn is_digit(c: char) -> bool {
    '0' <= c && c <= '9'
}

/// The number that a decimal digit stands for; zero for any other
/// character.
pub open spec fn digit_value(c: char) -> nat {
    if is_digit(c) {
        (c as u32 - '0' as u32) as nat
    } else {
        0
    }
}

/// The number that a sequence of decimal digits stands for.
pub open spec fn decimal_value(digits: Seq<char>) -> nat
    decreases digits.len(),
{
    if digits.len() == 0 {
        0
    } else {
        decimal_value(digits.drop_last()) * 10 + digit_value(digits.last())
    }
}

/// Whether every character of the text is a decimal digit.
pub open spec fn all_digits(text: Seq<char>) -> bool {
    forall|i: int| 0 <= i < text.len() ==> is_digit(#[trigger] text[i])
}

/// The text without a plus sign at its start.
pub open spec fn unsigned_part(text: Seq<char>) -> Seq<char> {
    if text.len() > 0 && text[0] == '+' {
        text.drop_first()
    } else {
        text
    }
}

/// The number that the text stands for: one or more decimal digits, with
/// or without a plus sign before them, whose value fits 64 bits. Any other
/// text stands for no number.
pub open spec fn parsed_u64(text: Seq<char>) -> Option<u64> {
    let digits = unsigned_part(text);
    if digits.len() > 0 && all_digits(digits) && decimal_value(digits) <= u64::MAX {
        Some(decimal_value(digits) as u64)
    } else {
        None
    }
}

/// A longer sequence of digits stands for no smaller number than its
/// beginning does.
proof fn lemma_decimal_value_grows(digits: Seq<char>, n: int)
    requires
        0 <= n <= digits.len(),
    ensures
        decimal_value(digits.take(n)) <= decimal_value(digits),
    decreases digits.len(),
{
    if n == digits.len() {
        assert(digits.take(n) =~= digits);
    } else {
        assert(digits.drop_last().take(n) =~= digits.take(n));
        lemma_decimal_value_grows(digits.drop_last(), n);
    }
}

fn skip_whitespace_from(text: &Vec<char>, from: usize) -> (at: usize)
    requires
        from <= text.len(),
    ensures
        at == skip_whitespace(text@, from as int),
        from <= at <= text.len(),
{
    let mut at = from;
    while at < text.len() && whitespace(text[at])
        invariant
            from <= at <= text.len(),
            skip_whitespace(text@, from as int) == skip_whitespace(text@, at as int),
        decreases text.len() - at,
    {
        at += 1;
    }
    at
}

fn drop_whitespace_to(text: &Vec<char>, to: usize) -> (end: usize)
    requires
        to <= text.len(),
    ensures
        end == drop_whitespace(text@, to as int),
        end <= to,
{
    let mut end = to;
    while end > 0 && whitespace(text[end - 1])
        invariant
            end <= to <= text.len(),
            drop_whitespace(text@, to as int) == drop_whitespace(text@, end as int),
        decreases end,
    {
        end -= 1;
    }
    end
}

/// The text without the white space at its start and at its end.
pub fn trim(text: &str) -> (inner: String)
    ensures
        inner@ == trimmed(text@),
{
    let chars = chars_of(text);
    let start = skip_whitespace_from(&chars, 0);
    let end = drop_whitespace_to(&chars, chars.len());
    if start < end {
        string_of(&chars, start, end)
    } else {
        String::new()
    }
}

/// Whether `marker` stands in `text` at place `at`.
fn stands_at(text: &Vec<char>, marker: &Vec<char>, at: usize) -> (found: bool)
    requires
        at + marker.len() <= text.len(),
    ensures
        found == occurs_at(text@, marker@, at as int),
{
    let mut k: usize = 0;
    while k < marker.len()
        invariant
            k <= marker.len(),
            at + marker.len() <= text.len(),
            forall|i: int| 0 <= i < k ==> text@[at + i] == marker@[i],
        decreases marker.len() - k,
    {
        if text[at + k] != marker[k] {
            assert(text@.subrange(at as int, at + marker.len())[k as int] != marker@[k as int]);
            return false;
        }
        k += 1;
    }
    assert(text@.subrange(at as int, at + marker.len()) =~= marker@);
    true
}

/// The first place at or behind `from` where `marker` stands in `text`.
fn find_marker(text: &Vec<char>, marker: &Vec<char>, from: usize) -> (at: Option<usize>)
    ensures
        match find_from(text@, marker@, from as int) {
            Some(place) => at == Some(place as usize) && from <= place && place + marker.len()
                <= text.len(),
            None => at is None,
        },
{
    if marker.len() > text.len() {
        return None;
    }
    let last = text.len() - marker.len();
    let mut at = from;
    while at <= last
        invariant
            from <= at,
            last + marker.len() == text.len(),
            find_from(text@, marker@, from as int) == find_from(text@, marker@, at as int),
        decreases last - at,
    {
        if stands_at(text, marker, at) {
            return Some(at);
        }
        if at == last {
            return None;
        }
        at += 1;
    }
    None
}

/// The piece of `text` behind the first `marker`, as places in `text`.
fn piece_bounds(text: &Vec<char>, marker: &Vec<char>) -> (bounds: Option<(usize, usize)>)
    ensures
        match piece_after(text@, marker@) {
            Some(piece) => bounds matches Some((start, end)) && start <= end <= text.len()
                && piece == text@.subrange(start as int, end as int),
            None => bounds is None,
        },
{
    match find_marker(text, marker, 0) {
        None => None,
        Some(at) => {
            let start = at + marker.len();
            match find_marker(text, marker, start) {
                Some(next) => Some((start, next)),
                None => Some((start, text.len())),
            }
        },
    }
}

/// What stands between the first `marker` and the next `stop` behind it.
/// The value ends where the marker stands again, if that comes first, and
/// with the text where neither follows. `None` where the marker does not
/// occur.
pub open spec fn value_before(text: Seq<char>, marker: Seq<char>, stop: char) -> Option<Seq<char>> {
    match piece_after(text, marker) {
        Some(piece) => Some(before_char(piece, stop)),
        None => None,
    }
}

/// The first word behind the first `marker`: white space before it is
/// passed over, and it ends at the next white space, where the marker
/// stands again, or with the text. `None` where the marker does not occur.
pub open spec fn word_after(text: Seq<char>, marker: Seq<char>) -> Option<Seq<char>> {
    match piece_after(text, marker) {
        Some(piece) => Some(first_word(piece)),
        None => None,
    }
}

/// The value between the first `marker` and the next `stop`.
pub fn find_value_before(text: &str, marker: &str, stop: char) -> (value: Option<String>)
    ensures
        match value_before(text@, marker@, stop) {
            Some(found) => value matches Some(got) && got@ == found,
            None => value is None,
        },
{
    let chars = chars_of(text);
    let marker_chars = chars_of(marker);
    match piece_bounds(&chars, &marker_chars) {
        None => None,
        Some((start, end)) => {
            let ghost piece = chars@.subrange(start as int, end as int);
            let mut at = start;
            while at < end && chars[at] != stop
                invariant
                    start <= at <= end <= chars.len(),
                    piece == chars@.subrange(start as int, end as int),
                    find_char(piece, stop, 0) == find_char(piece, stop, at - start),
                decreases end - at,
            {
                assert(piece[at - start] == chars@[at as int]);
                at += 1;
            }
            proof {
                if at < end {
                    assert(piece[at - start] == chars@[at as int]);
                }
                assert(piece.subrange(0, at - start) =~= chars@.subrange(start as int, at as int));
            }
            Some(string_of(&chars, start, at))
        },
    }
}

/// The first word behind the first `marker`.
pub fn find_word_after(text: &str, marker: &str) -> (value: Option<String>)
    ensures
        match word_after(text@, marker@) {
            Some(found) => value matches Some(got) && got@ == found,
            None => value is None,
        },
{
    let chars = chars_of(text);
    let marker_chars = chars_of(marker);
    match piece_bounds(&chars, &marker_chars) {
        None => None,
        Some((start, end)) => {
            let ghost piece = chars@.subrange(start as int, end as int);
            let mut from = start;
            while from < end && whitespace(chars[from])
                invariant
                    start <= from <= end <= chars.len(),
                    piece == chars@.subrange(start as int, end as int),
                    skip_whitespace(piece, 0) == skip_whitespace(piece, from - start),
                decreases end - from,
            {
                assert(piece[from - start] == chars@[from as int]);
                from += 1;
            }
            proof {
                if from < end {
                    assert(piece[from - start] == chars@[from as int]);
                }
            }
            let mut to = from;
            while to < end && !whitespace(chars[to])
                invariant
                    from <= to <= end <= chars.len(),
                    piece == chars@.subrange(start as int, end as int),
                    start <= from,
                    skip_word(piece, from - start) == skip_word(piece, to - start),
                decreases end - to,
            {
                assert(piece[to - start] == chars@[to as int]);
                to += 1;
            }
            proof {
                if to < end {
                    assert(piece[to - start] == chars@[to as int]);
                }
                assert(piece.subrange(from - start, to - start) =~= chars@.subrange(
                    from as int,
                    to as int,
                ));
            }
            Some(string_of(&chars, from, to))
        },
    }
}

/// The number that the text stands for, if it stands for one.
pub fn parse_u64(text: &str) -> (number: Option<u64>)
    ensures
        number == parsed_u64(text@),
{
    let chars = chars_of(text);
    let start: usize = if chars.len() > 0 && chars[0] == '+' {
        1
    } else {
        0
    };
    let ghost digits = unsigned_part(chars@);
    assert(digits =~= chars@.subrange(start as int, chars@.len() as int));
    if start == chars.len() {
        return None;
    }
    let mut value: u64 = 0;
    let mut i: usize = start;
    assert(digits.take(0) =~= Seq::<char>::empty());
    while i < chars.len()
        invariant
            start <= i <= chars.len(),
            chars@ == text@,
            digits == unsigned_part(chars@),
            digits == chars@.subrange(start as int, chars@.len() as int),
            all_digits(digits.take(i - start)),
            value == decimal_value(digits.take(i - start)),
        decreases chars.len() - i,
    {
        let c = chars[i];
        let ghost seen = digits.take(i - start);
        let ghost next = digits.take(i - start + 1);
        proof {
            assert(next.drop_last() =~= seen);
            assert(next.last() == c);
            assert(digits[i - start] == c);
        }
        if !('0' <= c && c <= '9') {
            assert(!is_digit(digits[i - start]));
            return None;
        }
        let d: u64 = (c as u32 - '0' as u32) as u64;
        if value > (u64::MAX - d) / 10 {
            proof {
                assert(digit_value(c) == d);
                assert(decimal_value(next) == value * 10 + d);
                lemma_decimal_value_grows(digits, i - start + 1);
            }
            return None;
        }
        value = value * 10 + d;
        i += 1;
    }
    assert(digits.take(chars.len() - start) =~= digits);
    Some(value)
}

} // verus!
