//! The width of a pad: which numbers the grammar takes for it, shown by
//! writing a number in decimal and reading it back.

use vstd::prelude::*;

use crate::grammar::{
    body_at, decimal, digits_end, expansion_at, is_digit, literal_at, pad_at,
    part_at, parts_from, MAX_WIDTH_DIGITS,
};
use crate::number::{digits, lemma_digits_round_trip, Pad};

verus! {

/// A number written in decimal consists of decimal digits, at least one.
pub proof fn lemma_decimal_digits(n: nat)
    ensures
        digits(n, 10, false).len() >= 1,
        forall|k: int|
            0 <= k < digits(n, 10, false).len() ==> is_digit(#[trigger] digits(n, 10, false)[k]),
    decreases n,
{
    if n >= 10 {
        lemma_decimal_digits(n / 10);
    }
}

/// How many digits a number has in decimal, as far as six.
pub proof fn lemma_decimal_digit_count(n: nat)
    ensures
        n < 10 ==> digits(n, 10, false).len() == 1,
        n < 100 ==> digits(n, 10, false).len() <= 2,
        n < 1_000 ==> digits(n, 10, false).len() <= 3,
        n < 10_000 ==> digits(n, 10, false).len() <= 4,
        n < 100_000 ==> digits(n, 10, false).len() <= 5,
        n >= 10 ==> digits(n, 10, false).len() >= 2,
        n >= 100 ==> digits(n, 10, false).len() >= 3,
        n >= 1_000 ==> digits(n, 10, false).len() >= 4,
        n >= 10_000 ==> digits(n, 10, false).len() >= 5,
        n >= 100_000 ==> digits(n, 10, false).len() >= 6,
    decreases n,
{
    if n >= 10 {
        lemma_decimal_digit_count(n / 10);
    }
}

/// Reading back what was written in decimal gives the number that was
/// written.
pub proof fn lemma_decimal_round_trip(n: nat)
    ensures
        decimal(digits(n, 10, false)) == n,
{
    lemma_digits_round_trip(n, 10, false);
}

/// A run of `count` digits, cut off by the limit, by the end of the input
/// or by a character that is no digit, ends behind those digits.
pub proof fn lemma_digits_end_of_run(s: Seq<char>, i: int, limit: nat, count: nat)
    requires
        0 <= i,
        count <= limit,
        i + count <= s.len(),
        forall|k: int| i <= k < i + count ==> is_digit(#[trigger] s[k]),
        count == limit || i + count == s.len() || !is_digit(s[i + count]),
    ensures
        digits_end(s, i, limit) == i + count,
    decreases count,
{
    if count > 0 {
        lemma_digits_end_of_run(s, i + 1, (limit - 1) as nat, (count - 1) as nat);
    }
}

/// A pad's width is any number from 0 to 65535, and no other. Where the
/// fill character is followed by such a number in decimal, and no further
/// digit, the pad is read with that width. Where it is followed by a
/// greater number, no expansion can be read there, whatever comes behind,
/// and so no template.
pub proof fn lemma_width_range(head: Seq<char>, fill: char, n: nat, tail: Seq<char>)
    ensures
        ({
            let s = head + seq!['%', '{', fill] + digits(n, 10, false) + tail;
            let at = head.len() as int;
            &&& n <= u16::MAX && (tail.len() == 0 || !is_digit(tail[0])) ==> pad_at(s, at + 2)
                == Some((Pad { char: fill, len: n as u16 }, at + 3 + digits(n, 10, false).len()))
            &&& n > u16::MAX ==> part_at(s, at) is None && parts_from(s, at) is None
        }),
{
    let number = digits(n, 10, false);
    let s = head + seq!['%', '{', fill] + number + tail;
    let at = head.len() as int;
    let first = at + 3;
    lemma_decimal_digits(n);
    lemma_decimal_digit_count(n);
    lemma_decimal_round_trip(n);
    assert(s[at] == '%' && s[at + 1] == '{' && s[at + 2] == fill);
    assert(forall|k: int| 0 <= k < number.len() ==> s[first + k] == #[trigger] number[k]);
    assert forall|k: int| first <= k < first + number.len() implies is_digit(#[trigger] s[k]) by {
        assert(s[k] == number[k - first]);
    }
    if tail.len() > 0 {
        assert(s[first + number.len()] == tail[0]);
    }
    if number.len() <= MAX_WIDTH_DIGITS {
        if tail.len() == 0 || !is_digit(tail[0]) {
            lemma_digits_end_of_run(s, first, MAX_WIDTH_DIGITS as nat, number.len());
            assert(s.subrange(first, first + number.len()) =~= number);
        }
    } else {
        lemma_digits_end_of_run(s, first, MAX_WIDTH_DIGITS as nat, MAX_WIDTH_DIGITS as nat);
    }
    if n > u16::MAX {
        assert(literal_at(s, at) is None);
        assert(is_digit(s[first]));
        if number.len() <= MAX_WIDTH_DIGITS {
            // The run may go on into the tail, but it starts with the
            // whole number, which is too great on its own.
            let end = digits_end(s, first, MAX_WIDTH_DIGITS as nat);
            assert(s.subrange(first, first + number.len()) =~= number);
            lemma_run_holds_number(s, first, number.len(), end, n);
            assert(pad_at(s, at + 2) is None);
        } else {
            assert(is_digit(s[first + MAX_WIDTH_DIGITS]));
        }
        assert(body_at(s, at + 2) matches Some((_, end)) ==> is_digit(s[end]));
        assert(expansion_at(s, at) is None);
    }
}

/// A digit run that starts with the digits of `n` and ends after at most
/// five digits in all holds a number that is at least `n`, or is not long
/// enough to hold the digits of `n`.
proof fn lemma_run_holds_number(s: Seq<char>, first: int, count: nat, end: int, n: nat)
    requires
        0 <= first,
        1 <= count <= MAX_WIDTH_DIGITS,
        first + count <= s.len(),
        forall|k: int| first <= k < first + count ==> is_digit(#[trigger] s[k]),
        decimal(s.subrange(first, first + count)) == n,
        end == digits_end(s, first, MAX_WIDTH_DIGITS as nat),
    ensures
        first + count <= end <= s.len(),
        decimal(s.subrange(first, end)) >= n,
{
    lemma_digits_end_covers(s, first, MAX_WIDTH_DIGITS as nat, count);
    lemma_decimal_grows(s, first, first + count, end);
}

/// A digit run takes every digit that stands there, as far as the limit
/// lets it.
proof fn lemma_digits_end_covers(s: Seq<char>, i: int, limit: nat, count: nat)
    requires
        0 <= i,
        count <= limit,
        i + count <= s.len(),
        forall|k: int| i <= k < i + count ==> is_digit(#[trigger] s[k]),
    ensures
        i + count <= digits_end(s, i, limit) <= s.len(),
    decreases count,
{
    if count > 0 {
        lemma_digits_end_covers(s, i + 1, (limit - 1) as nat, (count - 1) as nat);
    } else {
        crate::grammar::lemma_digits_end_bounds(s, i, limit);
    }
}

/// More digits behind a number do not make it smaller.
proof fn lemma_decimal_grows(s: Seq<char>, first: int, mid: int, end: int)
    requires
        0 <= first <= mid <= end <= s.len(),
    ensures
        decimal(s.subrange(first, mid)) <= decimal(s.subrange(first, end)),
    decreases end - mid,
{
    if mid < end {
        lemma_decimal_grows(s, first, mid, end - 1);
        assert(s.subrange(first, end).drop_last() =~= s.subrange(first, end - 1));
    }
}

} // verus!
