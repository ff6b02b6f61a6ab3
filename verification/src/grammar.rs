//! The template grammar, as functions on a sequence of characters.
//!
//! ```text
//! template  := (literal | expansion)* END
//! literal   := one or more characters other than '%'
//! expansion := "%%" | "%{" pad? base? channel "}"
//! pad       := any character, then one to five decimal digits
//! base      := "h" | "H" | "o" | "B" | "d"
//! channel   := "r" | "g" | "b"
//! ```
//!
//! Each `.._at` function reads one element at a position and gives what it
//! read together with the position behind it, or `None` where the element
//! does not stand there. Choices are ordered and never revisited: a pad that
//! can be read is read.

use vstd::prelude::*;

use crate::number::{number_of, NumberFormat, Pad};
use crate::template::{Channel, PartView};

verus! {

/// The most digits that a pad's width may have.
pub const MAX_WIDTH_DIGITS: usize = 5;

pub open spec fn is_digit(c: char) -> bool {
    '0' <= c && c <= '9'
}

/// The number that a string of decimal digits stands for; leading zeros
/// count for nothing.
pub open spec fn decimal(digits: Seq<char>) -> nat {
    number_of(digits, 10)
}

/// Where the run of characters other than `%` that starts at `i` ends.
pub open spec fn literal_end(s: Seq<char>, i: int) -> int
    decreases s.len() - i,
{
    if 0 <= i < s.len() && s[i] != '%' {
        literal_end(s, i + 1)
    } else {
        i
    }
}

/// Where the run of digits that starts at `i` ends, when no more than
/// `limit` digits are taken.
pub open spec fn digits_end(s: Seq<char>, i: int, limit: nat) -> int
    decreases limit,
{
    if limit > 0 && 0 <= i < s.len() && is_digit(s[i]) {
        digits_end(s, i + 1, (limit - 1) as nat)
    } else {
        i
    }
}

/// A literal: every character from `i` up to the next `%` or the end, if
/// there is at least one.
pub open spec fn literal_at(s: Seq<char>, i: int) -> Option<(PartView, int)> {
    let end = literal_end(s, i);
    if i < end {
        Some((PartView::Literal(s.subrange(i, end)), end))
    } else {
        None
    }
}

pub open spec fn channel_at(s: Seq<char>, i: int) -> Option<(Channel, int)> {
    if !(0 <= i < s.len()) {
        None
    } else if s[i] == 'r' {
        Some((Channel::R, i + 1))
    } else if s[i] == 'g' {
        Some((Channel::G, i + 1))
    } else if s[i] == 'b' {
        Some((Channel::B, i + 1))
    } else {
        None
    }
}

pub open spec fn format_at(s: Seq<char>, i: int) -> Option<(NumberFormat, int)> {
    if !(0 <= i < s.len()) {
        None
    } else if s[i] == 'h' {
        Some((NumberFormat::LowercaseHex, i + 1))
    } else if s[i] == 'H' {
        Some((NumberFormat::UppercaseHex, i + 1))
    } else if s[i] == 'o' {
        Some((NumberFormat::Octal, i + 1))
    } else if s[i] == 'B' {
        Some((NumberFormat::Binary, i + 1))
    } else if s[i] == 'd' {
        Some((NumberFormat::Decimal, i + 1))
    } else {
        None
    }
}

/// A pad: the fill character at `i`, whatever it is, and behind it a run of
/// one to five digits whose value fits in sixteen bits. A sixth digit is
/// not part of the run.
pub open spec fn pad_at(s: Seq<char>, i: int) -> Option<(Pad, int)> {
    let end = digits_end(s, i + 1, MAX_WIDTH_DIGITS as nat);
    let width = decimal(s.subrange(i + 1, end));
    if 0 <= i < s.len() && i + 1 < end && width <= u16::MAX {
        Some((Pad { char: s[i], len: width as u16 }, end))
    } else {
        None
    }
}

/// What stands between `%{` and `}`, read from `i`: an optional pad, an
/// optional base (decimal where there is none) and the channel. The result
/// is the expansion and the position of what must be the closing brace.
pub open spec fn body_at(s: Seq<char>, i: int) -> Option<(PartView, int)> {
    let (pad, j) = match pad_at(s, i) {
        Some((pad, j)) => (Some(pad), j),
        None => (None, i),
    };
    let (format, k) = match format_at(s, j) {
        Some((format, k)) => (format, k),
        None => (NumberFormat::Decimal, j),
    };
    match channel_at(s, k) {
        Some((channel, end)) => Some((PartView::Expansion { channel, format, pad }, end)),
        None => None,
    }
}

/// An expansion: `%%`, which stands for a literal `%`, or `%{`, a body and
/// `}`. The escape is tried first.
pub open spec fn expansion_at(s: Seq<char>, i: int) -> Option<(PartView, int)> {
    if !(0 <= i && i + 1 < s.len() && s[i] == '%') {
        None
    } else if s[i + 1] == '%' {
        Some((PartView::Literal(seq!['%']), i + 2))
    } else if s[i + 1] == '{' {
        match body_at(s, i + 2) {
            Some((part, end)) => if end < s.len() && s[end] == '}' {
                Some((part, end + 1))
            } else {
                None
            },
            None => None,
        }
    } else {
        None
    }
}

/// One part of a template: a literal, or else an expansion.
pub open spec fn part_at(s: Seq<char>, i: int) -> Option<(PartView, int)> {
    match literal_at(s, i) {
        Some(found) => Some(found),
        None => expansion_at(s, i),
    }
}

/// The parts that make up `s` from `i` to its end, or `None` where what
/// stands there is not a sequence of parts that reaches the end.
pub open spec fn parts_from(s: Seq<char>, i: int) -> Option<Seq<PartView>>
    decreases s.len() - i,
{
    if i >= s.len() {
        Some(Seq::empty())
    } else {
        match part_at(s, i) {
            Some((part, next)) => if i < next <= s.len() {
                match parts_from(s, next) {
                    Some(rest) => Some(seq![part] + rest),
                    None => None,
                }
            } else {
                None
            },
            None => None,
        }
    }
}

/// The template that `s` denotes, if it denotes one.
pub open spec fn parsed(s: Seq<char>) -> Option<Seq<PartView>> {
    parts_from(s, 0)
}

/// A part never ends where it began, nor behind the end of the input.
pub proof fn lemma_part_advances(s: Seq<char>, i: int)
    requires
        0 <= i,
    ensures
        part_at(s, i) matches Some((_, next)) ==> i < next <= s.len(),
{
    lemma_literal_end_bounds(s, i);
    if 0 <= i && i + 1 < s.len() {
        lemma_digits_end_bounds(s, i + 3, MAX_WIDTH_DIGITS as nat);
    }
}

/// A literal's end lies between its start and the end of the input.
pub proof fn lemma_literal_end_bounds(s: Seq<char>, i: int)
    ensures
        i <= literal_end(s, i),
        i <= s.len() ==> literal_end(s, i) <= s.len(),
    decreases s.len() - i,
{
    if 0 <= i < s.len() && s[i] != '%' {
        lemma_literal_end_bounds(s, i + 1);
    }
}

/// A digit run's end lies between its start and the end of the input.
pub proof fn lemma_digits_end_bounds(s: Seq<char>, i: int, limit: nat)
    ensures
        i <= digits_end(s, i, limit) <= i + limit,
        i <= s.len() ==> digits_end(s, i, limit) <= s.len(),
    decreases limit,
{
    if limit > 0 && 0 <= i < s.len() && is_digit(s[i]) {
        lemma_digits_end_bounds(s, i + 1, (limit - 1) as nat);
    }
}

/// A literal ends at the first percent sign, or at the end of the input
/// where there is none: no character of it is a percent sign, and what
/// follows it, if anything does, is one.
pub proof fn lemma_literal_ends_at_percent(s: Seq<char>, i: int)
    requires
        0 <= i <= s.len(),
    ensures
        forall|k: int| i <= k < literal_end(s, i) ==> s[k] != '%',
        literal_end(s, i) == s.len() || s[literal_end(s, i)] == '%',
    decreases s.len() - i,
{
    if i < s.len() && s[i] != '%' {
        lemma_literal_ends_at_percent(s, i + 1);
    }
}

/// A digit run holds digits only, and ends where the limit is reached,
/// where the input ends, or before a character that is no digit.
pub proof fn lemma_digit_run_is_maximal(s: Seq<char>, i: int, limit: nat)
    requires
        0 <= i <= s.len(),
    ensures
        forall|k: int| i <= k < digits_end(s, i, limit) ==> is_digit(s[k]),
        digits_end(s, i, limit) == i + limit || digits_end(s, i, limit) == s.len() || !is_digit(
            s[digits_end(s, i, limit)],
        ),
    decreases limit,
{
    if limit > 0 && i < s.len() && is_digit(s[i]) {
        lemma_digit_run_is_maximal(s, i + 1, (limit - 1) as nat);
    }
}

/// A run of at most five digits has a value below one hundred thousand.
pub proof fn lemma_decimal_bound(digits: Seq<char>)
    requires
        digits.len() <= MAX_WIDTH_DIGITS,
        forall|k: int| 0 <= k < digits.len() ==> is_digit(#[trigger] digits[k]),
    ensures
        digits.len() == 0 ==> decimal(digits) == 0,
        digits.len() <= 1 ==> decimal(digits) <= 9,
        digits.len() <= 2 ==> decimal(digits) <= 99,
        digits.len() <= 3 ==> decimal(digits) <= 999,
        digits.len() <= 4 ==> decimal(digits) <= 9_999,
        decimal(digits) <= 99_999,
    decreases digits.len(),
{
    if digits.len() > 0 {
        lemma_decimal_bound(digits.drop_last());
    }
    reveal_with_fuel(number_of, 2);
}

} // verus!
