//! Reading a template: one function for each element of the grammar, and
//! the function that reads a whole template.

use vstd::prelude::*;

use crate::error::FormatError;
use crate::grammar::{
    channel_at, decimal, digits_end, expansion_at, format_at, is_digit, lemma_decimal_bound,
    lemma_part_advances, literal_at, literal_end, pad_at, parsed, parts_from, MAX_WIDTH_DIGITS,
};
use crate::number::{NumberFormat, Pad};
use crate::template::{part_views, Channel, FormatPart, FormatString, PartView};
use crate::text::{chars_of, string_of};

verus! {

/// Whether what an element reader returned is what the grammar finds at
/// that place.
pub open spec fn agrees<T>(found: Option<(T, usize)>, expected: Option<(T, int)>) -> bool {
    match found {
        Some((value, next)) => expected == Some((value, next as int)),
        None => expected is None,
    }
}

/// As `agrees`, for a part, which the grammar gives by its view.
pub open spec fn part_agrees(
    found: Option<(FormatPart, usize)>,
    expected: Option<(PartView, int)>,
) -> bool {
    match found {
        Some((part, next)) => expected == Some((part@, next as int)),
        None => expected is None,
    }
}

/// Reads a literal at `at`.
pub fn literal(input: &[char], at: usize) -> (found: Option<(FormatPart, usize)>)
    ensures
        part_agrees(found, literal_at(input@, at as int)),
{
    let mut end: usize = at;
    while end < input.len() && input[end] != '%'
        invariant
            at <= end,
            end <= input@.len() || end == at,
            literal_end(input@, at as int) == literal_end(input@, end as int),
        decreases input@.len() - end,
    {
        end += 1;
    }
    if end == at {
        None
    } else {
        Some((FormatPart::Literal(string_of(input, at, end)), end))
    }
}

/// Reads a channel letter at `at`.
pub fn channel(input: &[char], at: usize) -> (found: Option<(Channel, usize)>)
    ensures
        agrees(found, channel_at(input@, at as int)),
{
    if at >= input.len() {
        return None;
    }
    let c = input[at];
    if c == 'r' {
        Some((Channel::R, at + 1))
    } else if c == 'g' {
        Some((Channel::G, at + 1))
    } else if c == 'b' {
        Some((Channel::B, at + 1))
    } else {
        None
    }
}

/// Reads a base letter at `at`.
pub fn format(input: &[char], at: usize) -> (found: Option<(NumberFormat, usize)>)
    ensures
        agrees(found, format_at(input@, at as int)),
{
    if at >= input.len() {
        return None;
    }
    let c = input[at];
    if c == 'h' {
        Some((NumberFormat::LowercaseHex, at + 1))
    } else if c == 'H' {
        Some((NumberFormat::UppercaseHex, at + 1))
    } else if c == 'o' {
        Some((NumberFormat::Octal, at + 1))
    } else if c == 'B' {
        Some((NumberFormat::Binary, at + 1))
    } else if c == 'd' {
        Some((NumberFormat::Decimal, at + 1))
    } else {
        None
    }
}

fn is_decimal_digit(c: char) -> (yes: bool)
    ensures
        yes == is_digit(c),
{
    '0' <= c && c <= '9'
}

/// Reads a pad at `at`: the fill character and its width, which is one to
/// five decimal digits long and fits in sixteen bits.
pub fn pad(input: &[char], at: usize) -> (found: Option<(Pad, usize)>)
    ensures
        agrees(found, pad_at(input@, at as int)),
{
    if at >= input.len() {
        return None;
    }
    let start: usize = at + 1;
    let mut end: usize = start;
    let mut width: u32 = 0;
    assert(input@.subrange(start as int, end as int) =~= Seq::<char>::empty());
    while end < input.len() && end - start < MAX_WIDTH_DIGITS && is_decimal_digit(input[end])
        invariant
            start <= end <= input@.len(),
            end - start <= MAX_WIDTH_DIGITS,
            digits_end(input@, start as int, MAX_WIDTH_DIGITS as nat) == digits_end(
                input@,
                end as int,
                (MAX_WIDTH_DIGITS - (end - start)) as nat,
            ),
            forall|k: int| start <= k < end ==> is_digit(#[trigger] input@[k]),
            width == decimal(input@.subrange(start as int, end as int)),
            width <= 99_999,
        decreases input@.len() - end,
    {
        let digit: u32 = input[end] as u32 - '0' as u32;
        proof {
            let before = input@.subrange(start as int, end as int);
            let after = input@.subrange(start as int, end + 1);
            assert(after.drop_last() =~= before);
            assert(after.last() == input@[end as int]);
            lemma_decimal_bound(before);
            lemma_decimal_bound(after);
        }
        width = width * 10 + digit;
        end += 1;
    }
    if end == start || width > u16::MAX as u32 {
        None
    } else {
        Some((Pad { char: input[at], len: width as u16 }, end))
    }
}

/// Reads an expansion at `at`: the escape `%%`, or `%{`, an optional pad,
/// an optional base, a channel and `}`.
pub fn expansion(input: &[char], at: usize) -> (found: Option<(FormatPart, usize)>)
    ensures
        part_agrees(found, expansion_at(input@, at as int)),
{
    if at >= input.len() || input.len() - at < 2 || input[at] != '%' {
        return None;
    }
    if input[at + 1] == '%' {
        let mut percent = String::new();
        percent.push('%');
        assert(percent@ =~= seq!['%']);
        return Some((FormatPart::Literal(percent), at + 2));
    }
    if input[at + 1] != '{' {
        return None;
    }
    let (pad, after_pad) = match pad(input, at + 2) {
        Some((pad, next)) => (Some(pad), next),
        None => (None, at + 2),
    };
    let (format, after_format) = match format(input, after_pad) {
        Some((format, next)) => (format, next),
        None => (NumberFormat::Decimal, after_pad),
    };
    match channel(input, after_format) {
        Some((channel, end)) => {
            if end < input.len() && input[end] == '}' {
                Some((FormatPart::Expansion { channel, format, pad }, end + 1))
            } else {
                None
            }
        },
        None => None,
    }
}

/// Reads a whole template from the characters of `input`.
pub fn parse_format_string(input: &str) -> (result: Result<FormatString, FormatError>)
    ensures
        match result {
            Ok(template) => parsed(input@) == Some(template@),
            Err(error) => parsed(input@) is None && error == FormatError::InvalidFormatString,
        },
{
    let chars = chars_of(input);
    let mut parts: Vec<FormatPart> = Vec::new();
    let mut at: usize = 0;
    assert(part_views(parts@) =~= Seq::<PartView>::empty());
    while at < chars.len()
        invariant
            at <= chars@.len(),
            chars@ == input@,
            parsed(input@) == match parts_from(input@, at as int) {
                Some(rest) => Some(part_views(parts@) + rest),
                None => None,
            },
        decreases chars@.len() - at,
    {
        let found = match literal(chars.as_slice(), at) {
            Some(found) => Some(found),
            None => expansion(chars.as_slice(), at),
        };
        proof {
            lemma_part_advances(input@, at as int);
        }
        match found {
            Some((part, next)) => {
                proof {
                    let rest = parts_from(input@, next as int);
                    assert(part_views(parts@.push(part)) =~= part_views(parts@).push(part@));
                    if rest is Some {
                        assert(part_views(parts@) + (seq![part@] + rest->0) =~= part_views(
                            parts@,
                        ).push(part@) + rest->0);
                    }
                }
                parts.push(part);
                at = next;
            },
            None => {
                return Err(FormatError::InvalidFormatString);
            },
        }
    }
    assert(part_views(parts@) + Seq::<PartView>::empty() =~= part_views(parts@));
    Ok(FormatString::from_parts(parts))
}

impl core::str::FromStr for FormatString {
    type Err = FormatError;

    fn from_str(s: &str) -> (result: Result<FormatString, FormatError>)
        ensures
            match result {
                Ok(template) => parsed(s@) == Some(template@),
                Err(error) => parsed(s@) is None && error == FormatError::InvalidFormatString,
            },
    {
        parse_format_string(s)
    }
}

} // verus!
