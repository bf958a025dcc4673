//! Colors written as six hexadecimal digits, as in `#1A2B3C`.

use crate::text::chars_of;
use vstd::prelude::*;

verus! {

/// The value of the hexadecimal digit `c`, in either case.
pub open spec fn hex_digit(c: char) -> Option<u8> {
    let code = c as u32;
    if 48 <= code <= 57 {
        Some((code - 48) as u8)
    } else if 97 <= code <= 102 {
        Some((code - 87) as u8)
    } else if 65 <= code <= 70 {
        Some((code - 55) as u8)
    } else {
        None
    }
}

/// The value of a pair of characters, read as a number in base sixteen: two
/// digits, or a plus sign and one digit.
pub open spec fn hex_pair(high: char, low: char) -> Option<u8> {
    match (hex_digit(high), hex_digit(low)) {
        (Some(h), Some(l)) => Some((16 * h + l) as u8),
        (None, Some(l)) if high == '+' => Some(l),
        _ => None,
    }
}

/// How many `#` marks `text` begins with.
pub open spec fn leading_marks(text: Seq<char>) -> nat
    decreases text.len(),
{
    if text.len() > 0 && text[0] == '#' {
        1 + leading_marks(text.drop_first())
    } else {
        0
    }
}

/// `text` without the `#` marks that it begins with.
pub open spec fn without_marks(text: Seq<char>) -> Seq<char> {
    text.subrange(leading_marks(text) as int, text.len() as int)
}

/// The red, green and blue parts that `text` stands for: after the leading
/// marks exactly six characters, which form three pairs with a value.
pub open spec fn color_of(text: Seq<char>) -> Option<(u8, u8, u8)> {
    let digits = without_marks(text);
    if digits.len() != 6 {
        None
    } else {
        match (
            hex_pair(digits[0], digits[1]),
            hex_pair(digits[2], digits[3]),
            hex_pair(digits[4], digits[5]),
        ) {
            (Some(r), Some(g), Some(b)) => Some((r, g, b)),
            _ => None,
        }
    }
}

/// The value of the hexadecimal digit `c`.
fn digit_value(c: char) -> (value: Option<u8>)
    ensures
        value == hex_digit(c),
{
    let code = c as u32;
    if 48 <= code && code <= 57 {
        Some((code - 48) as u8)
    } else if 97 <= code && code <= 102 {
        Some((code - 87) as u8)
    } else if 65 <= code && code <= 70 {
        Some((code - 55) as u8)
    } else {
        None
    }
}

/// The value of a pair of characters.
fn pair_value(high: char, low: char) -> (value: Option<u8>)
    ensures
        value == hex_pair(high, low),
{
    match (digit_value(high), digit_value(low)) {
        (Some(h), Some(l)) => Some(16 * h + l),
        (None, Some(l)) => if high == '+' {
            Some(l)
        } else {
            None
        },
        _ => None,
    }
}

/// Counting the leading marks can start after marks already counted.
proof fn lemma_marks_after_marks(text: Seq<char>, counted: nat)
    requires
        counted <= text.len(),
        forall|i: int| 0 <= i < counted ==> text[i] == '#',
    ensures
        leading_marks(text) == counted + leading_marks(
            text.subrange(counted as int, text.len() as int),
        ),
    decreases counted,
{
    if counted == 0 {
        assert(text.subrange(0, text.len() as int) =~= text);
    } else {
        let rest = text.drop_first();
        lemma_marks_after_marks(rest, (counted - 1) as nat);
        assert(rest.subrange(counted - 1, rest.len() as int) =~= text.subrange(
            counted as int,
            text.len() as int,
        ));
    }
}

/// Reads a color of six hexadecimal digits.
///
/// Any number of `#` marks may come first. What follows must be exactly six
/// characters that form three pairs: each pair is two hexadecimal digits, in
/// either case, or a plus sign and one digit. Everything else is refused.
pub fn parse_hex(hex: &str) -> (color: Option<(u8, u8, u8)>)
    ensures
        color == color_of(hex@),
{
    let chars = chars_of(hex);
    let mut start: usize = 0;
    while start < chars.len() && chars[start] == '#'
        invariant
            start <= chars@.len(),
            forall|i: int| 0 <= i < start ==> chars@[i] == '#',
        decreases chars@.len() - start,
    {
        start += 1;
    }
    proof {
        lemma_marks_after_marks(chars@, start as nat);
    }
    if chars.len() - start != 6 {
        return None;
    }
    let r = pair_value(chars[start], chars[start + 1]);
    let g = pair_value(chars[start + 2], chars[start + 3]);
    let b = pair_value(chars[start + 4], chars[start + 5]);
    match (r, g, b) {
        (Some(r), Some(g), Some(b)) => Some((r, g, b)),
        _ => None,
    }
}

} // verus!
