//! What holds of the engine as a whole: facts that tie the colour, the
//! number writer, the grammar and the built-in formats to one another.

use vstd::prelude::*;

use crate::color::{gap_squared, nibbles_match, ARGB};
use crate::grammar::{literal_at, part_at};
use crate::number::{digit_char, digits, lemma_padding_never_truncates, NumberFormat, Pad};
use crate::preset::{hex_compact, hex_full, hex_low, hex_pair};
use crate::template::{Channel, FormatColor, FormatString, PartView};

verus! {

/// A byte has two equal hexadecimal digits exactly when it is a multiple
/// of seventeen: 0x00, 0x11, 0x22 and so on up to 0xff.
pub proof fn lemma_matching_nibbles_are_multiples_of_17(n: u8)
    ensures
        nibbles_match(n) <==> n % 17 == 0,
{
    assert(((n >> 4) == (n & 0xf)) <==> n % 17 == 0) by (bit_vector);
}

/// Whether a colour can be shortened does not depend on its alpha.
pub proof fn lemma_compaction_ignores_alpha(color: ARGB, a: u8)
    ensures
        (ARGB { a, ..color }).compactable() == color.compactable(),
{
}

/// Two hexadecimal digits are the high digit and the low digit.
pub proof fn lemma_hex_pair_digits(n: u8, uppercase: bool)
    ensures
        hex_pair(n, uppercase) == seq![
            digit_char((n / 16) as nat, uppercase),
            digit_char((n % 16) as nat, uppercase),
        ],
{
    reveal_with_fuel(digits, 2);
    if n < 16 {
        assert(Seq::new(1, |i: int| '0') + seq![digit_char(n as nat, uppercase)] =~= seq![
            '0',
            digit_char(n as nat, uppercase),
        ]);
    } else {
        assert(digits(n as nat, 16, uppercase) =~= seq![
            digit_char((n / 16) as nat, uppercase),
            digit_char((n % 16) as nat, uppercase),
        ]);
    }
}

/// Where a colour can be shortened, its long form is its short form with
/// every digit written twice: nothing is lost by shortening.
pub proof fn lemma_compact_form_doubled(color: ARGB, uppercase: bool)
    requires
        color.compactable(),
    ensures
        hex_full(color, uppercase) == seq!['#'] + hex_low(color.r, uppercase) + hex_low(
            color.r,
            uppercase,
        ) + hex_low(color.g, uppercase) + hex_low(color.g, uppercase) + hex_low(
            color.b,
            uppercase,
        ) + hex_low(color.b, uppercase),
        hex_compact(color, uppercase).len() == 4,
        hex_full(color, uppercase).len() == 7,
{
    lemma_low_digit_twice(color.r, uppercase);
    lemma_low_digit_twice(color.g, uppercase);
    lemma_low_digit_twice(color.b, uppercase);
    let r = hex_low(color.r, uppercase);
    let g = hex_low(color.g, uppercase);
    let b = hex_low(color.b, uppercase);
    assert(seq!['#'] + (r + r) + (g + g) + (b + b) =~= seq!['#'] + r + r + g + g + b + b);
}

/// A byte with two equal digits, written with two digits, is its low digit
/// twice.
pub proof fn lemma_low_digit_twice(n: u8, uppercase: bool)
    requires
        nibbles_match(n),
    ensures
        hex_low(n, uppercase).len() == 1,
        hex_pair(n, uppercase) == hex_low(n, uppercase) + hex_low(n, uppercase),
{
    let low = n & 0xf;
    assert(low < 16 && (n >> 4 == low ==> n / 16 == low && n % 16 == low)) by (bit_vector)
        requires
            low == n & 0xf,
    ;
    lemma_hex_pair_digits(n, uppercase);
    reveal_with_fuel(digits, 1);
    assert(hex_low(n, uppercase) =~= seq![digit_char(low as nat, uppercase)]);
    assert(hex_low(n, uppercase) + hex_low(n, uppercase) =~= seq![
        digit_char(low as nat, uppercase),
        digit_char(low as nat, uppercase),
    ]);
}

/// What an expansion with a pad writes is as long as the number it
/// writes or as the pad is wide, whichever is more, and ends with the
/// number.
pub proof fn lemma_expansion_length(
    channel: Channel,
    format: NumberFormat,
    pad: Pad,
    color: ARGB,
)
    ensures
        ({
            let number = format.rendered(channel.extracted(color));
            let text = (PartView::Expansion { channel, format, pad: Some(pad) }).rendered(color);
            &&& text.len() == if number.len() < pad.len {
                pad.len as nat
            } else {
                number.len()
            }
            &&& text.skip(text.len() - number.len()) == number
        }),
{
    lemma_padding_never_truncates(
        format.rendered(channel.extracted(color)),
        pad.char,
        pad.len as nat,
    );
}

/// The escape `%%` is read as a literal that is written, for every colour,
/// as the one character `%`.
pub proof fn lemma_escape_is_percent(s: Seq<char>, i: int, color: ARGB)
    requires
        0 <= i,
        i + 1 < s.len(),
        s[i] == '%',
        s[i + 1] == '%',
    ensures
        part_at(s, i) == Some((PartView::Literal(seq!['%']), i + 2)),
        PartView::Literal(seq!['%']).rendered(color) == seq!['%'],
{
    assert(literal_at(s, i) is None);
}

/// What a template writes depends on nothing but its parts and the colour:
/// equal templates write equal texts, call after call.
pub proof fn lemma_same_template_same_text(a: FormatString, b: FormatString, color: ARGB)
    requires
        a@ == b@,
    ensures
        a.rendered(color) == b.rendered(color),
{
}

/// A colour is nearer to black than to white exactly when its three
/// channels add up to less than half of what white's add up to.
pub proof fn lemma_dark_below_half_sum(color: ARGB)
    ensures
        color.dark() <==> color.r + color.g + color.b <= 382,
{
    lemma_gap_to_ends(color.r);
    lemma_gap_to_ends(color.g);
    lemma_gap_to_ends(color.b);
}

/// How far a channel is from white, in terms of how far it is from black.
pub proof fn lemma_gap_to_ends(x: u8)
    ensures
        gap_squared(0xff, x) == gap_squared(0, x) + 65_025 - 510 * x,
{
    assert((255 - x) * (255 - x) == (0 - x) * (0 - x) + 65_025 - 510 * x && (255 - x) * (255 - x)
        >= 0 && (0 - x) * (0 - x) >= 0) by (nonlinear_arith);
}

/// The four channels can be read back from the packed number, and the
/// number is the channels as the digits of a number in base 256.
pub proof fn lemma_packed_channels(color: ARGB)
    ensures
        color.packed() == color.a * 0x100_0000 + color.r * 0x1_0000 + color.g * 0x100 + color.b,
        (color.packed() >> 24) & 0xff == color.a,
        (color.packed() >> 16) & 0xff == color.r,
        (color.packed() >> 8) & 0xff == color.g,
        color.packed() & 0xff == color.b,
{
    let a = color.a;
    let r = color.r;
    let g = color.g;
    let b = color.b;
    let p = (a as u32) << 24 | (r as u32) << 16 | (g as u32) << 8 | (b as u32);
    assert(p == a * 0x100_0000 + r * 0x1_0000 + g * 0x100 + b && (p >> 24) & 0xff == a && (p
        >> 16) & 0xff == r && (p >> 8) & 0xff == g && p & 0xff == b) by (bit_vector)
        requires
            p == (a as u32) << 24 | (r as u32) << 16 | (g as u32) << 8 | (b as u32),
    ;
}

} // verus!
