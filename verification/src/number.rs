//! Writing one byte as text: five bases, the fewest digits that hold the
//! value, and an optional fill on the left.

use vstd::prelude::*;
use vstd::string::*;

verus! {

/// The base in which a channel value is written.
#[derive(Clone, Copy, Debug, PartialEq, Eq, Structural)]
pub enum NumberFormat {
    LowercaseHex,
    UppercaseHex,
    Decimal,
    Octal,
    Binary,
}

/// A request to fill a rendered number on the left with `char` until it is
/// `len` characters long.
#[derive(Clone, Copy, Debug, PartialEq, Eq, Structural)]
pub struct Pad {
    pub char: char,
    pub len: u16,
}

/// The character that stands for the digit `d`, for `d` below sixteen.
pub open spec fn digit_char(d: nat, uppercase: bool) -> char {
    if d < 10 {
        (('0' as u8 + d) as u8) as char
    } else if uppercase {
        (('A' as u8 + (d - 10)) as u8) as char
    } else {
        (('a' as u8 + (d - 10)) as u8) as char
    }
}

/// `n` written in the given radix, most significant digit first, with no
/// leading zero: a single digit where `n` is below the radix, else the
/// digits of `n / radix` followed by the digit `n % radix`.
pub open spec fn digits(n: nat, radix: nat, uppercase: bool) -> Seq<char>
    recommends
        2 <= radix <= 16,
    decreases n,
    via digits_shrink
{
    if radix < 2 || n < radix {
        seq![digit_char(n, uppercase)]
    } else {
        digits(n / radix, radix, uppercase).push(digit_char(n % radix, uppercase))
    }
}

#[via_fn]
proof fn digits_shrink(n: nat, radix: nat, uppercase: bool) {
    if radix >= 2 && n >= radix {
        lemma_quotient_smaller(n, radix);
    }
}

/// Dividing a positive number by two or more makes it smaller.
pub proof fn lemma_quotient_smaller(n: nat, radix: nat)
    requires
        radix >= 2,
        n > 0,
    ensures
        n / radix < n,
{
    assert(n / radix < n) by (nonlinear_arith)
        requires
            radix >= 2,
            n > 0,
    ;
}

/// A number is written with the fewest digits that hold it: the first
/// digit of a number other than zero is not the digit zero. Zero itself
/// is the one digit zero.
pub proof fn lemma_fewest_digits(n: nat, radix: nat, uppercase: bool)
    requires
        2 <= radix <= 16,
    ensures
        digits(n, radix, uppercase).len() >= 1,
        n > 0 ==> digits(n, radix, uppercase)[0] != '0',
        n == 0 ==> digits(n, radix, uppercase) == seq!['0'],
    decreases n,
{
    if n >= radix {
        lemma_quotient_smaller(n, radix);
        vstd::arithmetic::div_mod::lemma_div_non_zero(n as int, radix as int);
        lemma_fewest_digits(n / radix, radix, uppercase);
    }
}

/// The number that a digit character stands for, in either case.
pub open spec fn digit_number(c: char) -> nat {
    if '0' <= c && c <= '9' {
        (c as u32 - '0' as u32) as nat
    } else if 'a' <= c && c <= 'f' {
        (c as u32 - 'a' as u32 + 10) as nat
    } else if 'A' <= c && c <= 'F' {
        (c as u32 - 'A' as u32 + 10) as nat
    } else {
        0
    }
}

/// The number that a text of digits stands for in the given radix.
pub open spec fn number_of(text: Seq<char>, radix: nat) -> nat
    decreases text.len(),
{
    if text.len() == 0 {
        0
    } else {
        number_of(text.drop_last(), radix) * radix + digit_number(text.last())
    }
}

/// What is written can be read back: the digits of a number, in any base
/// from two to sixteen and in either case, stand for that number. So two
/// different numbers are never written alike.
pub proof fn lemma_digits_round_trip(n: nat, radix: nat, uppercase: bool)
    requires
        2 <= radix <= 16,
    ensures
        number_of(digits(n, radix, uppercase), radix) == n,
    decreases n,
{
    let text = digits(n, radix, uppercase);
    if n >= radix {
        lemma_quotient_smaller(n, radix);
        lemma_digits_round_trip(n / radix, radix, uppercase);
        vstd::arithmetic::div_mod::lemma_fundamental_div_mod(n as int, radix as int);
        vstd::arithmetic::div_mod::lemma_mod_bound(n as int, radix as int);
        assert(text == digits(n / radix, radix, uppercase).push(
            digit_char(n % radix, uppercase),
        ));
        assert(text.drop_last() =~= digits(n / radix, radix, uppercase));
        assert(digit_number(text.last()) == n % radix);
        assert((n / radix) * radix == radix * (n / radix)) by (nonlinear_arith);
    } else {
        assert(text == seq![digit_char(n, uppercase)]);
        assert(text.drop_last() =~= Seq::<char>::empty());
        assert(number_of(text.drop_last(), radix) == 0);
        assert(digit_number(text.last()) == n);
        assert(number_of(text, radix) == 0 * radix + n);
    }
}

/// A byte has at most eight digits in base two, three in base eight and
/// ten, and two in base sixteen.
pub proof fn lemma_digit_count(value: u8, uppercase: bool)
    ensures
        digits(value as nat, 2, uppercase).len() <= 8,
        digits(value as nat, 8, uppercase).len() <= 3,
        digits(value as nat, 10, uppercase).len() <= 3,
        digits(value as nat, 16, uppercase).len() <= 2,
{
    reveal_with_fuel(digits, 8);
}

/// `text` with `fill` repeated in front of it until the whole is `width`
/// characters long; `text` itself where it is that long already.
pub open spec fn left_padded(text: Seq<char>, fill: char, width: nat) -> Seq<char> {
    if text.len() < width {
        Seq::new((width - text.len()) as nat, |i: int| fill) + text
    } else {
        text
    }
}

/// Filling never shortens: the result is as long as the longer of the text
/// and the width, it ends with the text, and all that stands before the
/// text is the fill character.
pub proof fn lemma_padding_never_truncates(text: Seq<char>, fill: char, width: nat)
    ensures
        left_padded(text, fill, width).len() == if text.len() < width {
            width
        } else {
            text.len()
        },
        left_padded(text, fill, width).skip(left_padded(text, fill, width).len() - text.len())
            == text,
        forall|k: int|
            0 <= k < left_padded(text, fill, width).len() - text.len() ==> left_padded(
                text,
                fill,
                width,
            )[k] == fill,
{
    let padded = left_padded(text, fill, width);
    assert(padded.skip(padded.len() - text.len()) =~= text);
}

fn digit(d: u8, uppercase: bool) -> (c: char)
    requires
        d < 16,
    ensures
        c == digit_char(d as nat, uppercase),
{
    if d < 10 {
        ('0' as u8 + d) as char
    } else if uppercase {
        ('A' as u8 + (d - 10)) as char
    } else {
        ('a' as u8 + (d - 10)) as char
    }
}

fn push_digits(out: &mut String, n: u8, radix: u8, uppercase: bool)
    requires
        2 <= radix <= 16,
    ensures
        final(out)@ == old(out)@ + digits(n as nat, radix as nat, uppercase),
    decreases n,
{
    if n >= radix {
        proof {
            lemma_quotient_smaller(n as nat, radix as nat);
        }
        push_digits(out, n / radix, radix, uppercase);
    } else {
        proof {
            vstd::arithmetic::div_mod::lemma_small_mod(n as nat, radix as nat);
        }
    }
    out.push(digit(n % radix, uppercase));
    assert(out@ =~= old(out)@ + digits(n as nat, radix as nat, uppercase));
}

impl NumberFormat {
    pub open spec fn radix(self) -> nat {
        match self {
            NumberFormat::LowercaseHex => 16,
            NumberFormat::UppercaseHex => 16,
            NumberFormat::Decimal => 10,
            NumberFormat::Octal => 8,
            NumberFormat::Binary => 2,
        }
    }

    pub open spec fn uppercase(self) -> bool {
        self is UppercaseHex
    }

    /// What `format` writes for `value`.
    pub open spec fn rendered(self, value: u8) -> Seq<char> {
        digits(value as nat, self.radix(), self.uppercase())
    }

    /// `value` in this base, with as many digits as it needs and no more.
    pub fn format(&self, value: u8) -> (text: String)
        ensures
            text@ == self.rendered(value),
    {
        let mut text = String::new();
        match self {
            NumberFormat::LowercaseHex => push_digits(&mut text, value, 16, false),
            NumberFormat::UppercaseHex => push_digits(&mut text, value, 16, true),
            NumberFormat::Decimal => push_digits(&mut text, value, 10, false),
            NumberFormat::Octal => push_digits(&mut text, value, 8, false),
            NumberFormat::Binary => push_digits(&mut text, value, 2, false),
        }
        text
    }
}

impl Pad {
    /// What `apply` makes of `text`.
    pub open spec fn applied(self, text: Seq<char>) -> Seq<char> {
        left_padded(text, self.char, self.len as nat)
    }

    /// Fills `text` on the left up to the requested width. A text that is
    /// as long as the width, or longer, comes back as it is.
    pub fn apply(&self, text: String) -> (padded: String)
        ensures
            padded@ == self.applied(text@),
            padded@.len() == if text@.len() < self.len {
                self.len as nat
            } else {
                text@.len()
            },
            padded@.skip(padded@.len() - text@.len()) == text@,
    {
        proof {
            lemma_padding_never_truncates(text@, self.char, self.len as nat);
        }
        let width = self.len as usize;
        let text_len = text.as_str().unicode_len();
        if text_len >= width {
            return text;
        }
        let missing = width - text_len;
        let mut padded = String::new();
        let mut i: usize = 0;
        while i < missing
            invariant
                i <= missing,
                padded@ == Seq::new(i as nat, |k: int| self.char),
            decreases missing - i,
        {
            padded.push(self.char);
            i += 1;
        }
        padded.append(text.as_str());
        padded
    }
}

} // verus!
