//! Every built-in format that does not shorten is a template: there is a
//! template that writes, for every colour, what the format writes.

use vstd::prelude::*;

use crate::color::ARGB;
use crate::compose::{lemma_parts_moved, lemma_rendering_composes, lemma_templates_compose};
use crate::grammar::{
    body_at, decimal, digits_end, literal_at, literal_end, pad_at, parsed, part_at, parts_from,
};
use crate::number::{number_of, NumberFormat, Pad};
use crate::preset::{decimal_triple, hex_full, preset_text, Format, HexCompaction};
use crate::template::{rendered_parts, Channel, PartView};

verus! {

/// The expansion of `channel` in `format`, two characters wide and filled
/// with zeros.
pub open spec fn two_digits(channel: Channel, format: NumberFormat) -> PartView {
    PartView::Expansion { channel, format, pad: Some(Pad { char: '0', len: 2 }) }
}

/// The expansion of `channel` in decimal, as wide as it comes.
pub open spec fn plain_decimal(channel: Channel) -> PartView {
    PartView::Expansion { channel, format: NumberFormat::Decimal, pad: None }
}

pub open spec fn channel_letter(channel: Channel) -> char {
    match channel {
        Channel::R => 'r',
        Channel::G => 'g',
        Channel::B => 'b',
    }
}

pub open spec fn hex_letter(uppercase: bool) -> char {
    if uppercase {
        'H'
    } else {
        'h'
    }
}

pub open spec fn hex_format(uppercase: bool) -> NumberFormat {
    if uppercase {
        NumberFormat::UppercaseHex
    } else {
        NumberFormat::LowercaseHex
    }
}

/// `%{02hr}`, with the letters as given.
pub open spec fn two_digits_text(channel: Channel, uppercase: bool) -> Seq<char> {
    seq!['%', '{', '0', '2', hex_letter(uppercase), channel_letter(channel), '}']
}

/// `%{r}`, with the letter as given.
pub open spec fn plain_decimal_text(channel: Channel) -> Seq<char> {
    seq!['%', '{', channel_letter(channel), '}']
}

/// `#%{02hr}%{02hg}%{02hb}`, or the same with `H`.
pub open spec fn hex_template(uppercase: bool) -> Seq<char> {
    seq!['#'] + two_digits_text(Channel::R, uppercase) + two_digits_text(Channel::G, uppercase)
        + two_digits_text(Channel::B, uppercase)
}

/// The three channels in decimal between the given texts, as a template.
pub open spec fn decimal_template(open: Seq<char>, between: Seq<char>, close: Seq<char>) -> Seq<
    char,
> {
    open + plain_decimal_text(Channel::R) + between + plain_decimal_text(Channel::G) + between
        + plain_decimal_text(Channel::B) + close
}

/// A text without a percent sign is a template of one literal, or of no
/// part at all where the text is empty.
pub proof fn lemma_plain_text_is_literal(text: Seq<char>)
    requires
        forall|k: int| 0 <= k < text.len() ==> text[k] != '%',
    ensures
        parsed(text) == if text.len() == 0 {
            Some(Seq::<PartView>::empty())
        } else {
            Some(seq![PartView::Literal(text)])
        },
{
    lemma_literal_covers(text, 0);
    if text.len() > 0 {
        assert(text.subrange(0, text.len() as int) =~= text);
        assert(parts_from(text, text.len() as int) == Some(Seq::<PartView>::empty()));
        assert(seq![PartView::Literal(text)] + Seq::<PartView>::empty() =~= seq![
            PartView::Literal(text),
        ]);
    }
}

/// Where there is no percent sign, a literal goes on to the end.
proof fn lemma_literal_covers(text: Seq<char>, i: int)
    requires
        0 <= i <= text.len(),
        forall|k: int| 0 <= k < text.len() ==> text[k] != '%',
    ensures
        literal_end(text, i) == text.len(),
    decreases text.len() - i,
{
    if i < text.len() {
        lemma_literal_covers(text, i + 1);
    }
}

/// `%{02hr}` and its like are templates of one expansion.
pub proof fn lemma_two_digits_parsed(channel: Channel, uppercase: bool)
    ensures
        parsed(two_digits_text(channel, uppercase)) == Some(
            seq![two_digits(channel, hex_format(uppercase))],
        ),
{
    let s = two_digits_text(channel, uppercase);
    assert(s.len() == 7);
    assert(literal_at(s, 0) is None);
    reveal_with_fuel(digits_end, 3);
    assert(digits_end(s, 3, 5) == 4);
    let width = s.subrange(3, 4);
    assert(width.len() == 1 && width.last() == '2');
    assert(width.drop_last().len() == 0);
    reveal_with_fuel(number_of, 2);
    assert(decimal(width) == 2);
    assert(pad_at(s, 2) == Some((Pad { char: '0', len: 2 }, 4int)));
    assert(body_at(s, 2) == Some((two_digits(channel, hex_format(uppercase)), 6int)));
    assert(part_at(s, 0) == Some((two_digits(channel, hex_format(uppercase)), 7int)));
    assert(parts_from(s, 7) == Some(Seq::<PartView>::empty()));
    assert(seq![two_digits(channel, hex_format(uppercase))] + Seq::<PartView>::empty() =~= seq![
        two_digits(channel, hex_format(uppercase)),
    ]);
}

/// What a single part writes, as a sequence of parts.
proof fn lemma_single_part(part: PartView, color: ARGB)
    ensures
        rendered_parts(seq![part], color) == part.rendered(color),
{
    let texts = seq![part].map_values(|p: PartView| p.rendered(color));
    assert(texts.len() == 1);
    texts.lemma_flatten_singleton();
}

/// Whether `s` is a template that writes `text` for `color`.
#[verifier::opaque]
pub open spec fn writes(s: Seq<char>, color: ARGB, text: Seq<char>) -> bool {
    parsed(s) is Some && rendered_parts(parsed(s)->0, color) == text
}

/// A template followed by one that starts with a percent sign writes what
/// the first writes, followed by what the second writes.
pub proof fn lemma_writes_both(
    a: Seq<char>,
    b: Seq<char>,
    color: ARGB,
    first: Seq<char>,
    second: Seq<char>,
)
    requires
        writes(a, color, first),
        writes(b, color, second),
        b.len() == 0 || b[0] == '%',
    ensures
        writes(a + b, color, first + second),
{
    reveal(writes);
    lemma_templates_compose(a, b);
    lemma_rendering_composes(parsed(a)->0, parsed(b)->0, color);
}

/// A text without a percent sign is a template that writes the text.
pub proof fn lemma_writes_text(text: Seq<char>, color: ARGB)
    requires
        forall|k: int| 0 <= k < text.len() ==> text[k] != '%',
    ensures
        writes(text, color, text),
{
    reveal(writes);
    lemma_plain_text_is_literal(text);
    if text.len() > 0 {
        lemma_single_part(PartView::Literal(text), color);
    } else {
        let texts = Seq::<PartView>::empty().map_values(|p: PartView| p.rendered(color));
        assert(texts =~= Seq::<Seq<char>>::empty());
        assert(texts.flatten() =~= text);
    }
}

/// `%{02hr}` and its like write the channel with two digits.
pub proof fn lemma_writes_two_digits(channel: Channel, uppercase: bool, color: ARGB)
    ensures
        writes(
            two_digits_text(channel, uppercase),
            color,
            two_digits(channel, hex_format(uppercase)).rendered(color),
        ),
{
    reveal(writes);
    lemma_two_digits_parsed(channel, uppercase);
    lemma_single_part(two_digits(channel, hex_format(uppercase)), color);
}

/// `%{r}` and its like, with a text without a percent sign behind them,
/// write the channel in decimal and then the text.
pub proof fn lemma_writes_decimal_then_text(channel: Channel, text: Seq<char>, color: ARGB)
    requires
        forall|k: int| 0 <= k < text.len() ==> text[k] != '%',
    ensures
        writes(
            plain_decimal_text(channel) + text,
            color,
            plain_decimal(channel).rendered(color) + text,
        ),
{
    reveal(writes);
    let s = plain_decimal_text(channel) + text;
    lemma_writes_text(text, color);
    assert(s.len() == 4 + text.len());
    assert(s.skip(4) =~= text);
    assert(part_at(s, 0) == Some((plain_decimal(channel), 4int))) by {
        assert(literal_at(s, 0) is None);
        reveal_with_fuel(digits_end, 2);
        assert(digits_end(s, 3, 5) == 3);
        assert(pad_at(s, 2) is None);
        assert(body_at(s, 2) == Some((plain_decimal(channel), 3int)));
    }
    lemma_parts_moved(s, 4, 0);
    assert(parsed(s) == Some(seq![plain_decimal(channel)] + parsed(text)->0));
    lemma_rendering_composes(seq![plain_decimal(channel)], parsed(text)->0, color);
    lemma_single_part(plain_decimal(channel), color);
}

/// The format `hex` is the template `#%{02hr}%{02hg}%{02hb}`, and `HEX`
/// is the same with `H`: the text is a template, and the template writes
/// for every colour what the format writes.
pub proof fn lemma_hex_is_a_template(uppercase: bool, color: ARGB)
    ensures
        writes(hex_template(uppercase), color, hex_full(color, uppercase)),
{
    let format = hex_format(uppercase);
    let sharp = seq!['#'];
    let r = two_digits_text(Channel::R, uppercase);
    let g = two_digits_text(Channel::G, uppercase);
    let b = two_digits_text(Channel::B, uppercase);
    let red = two_digits(Channel::R, format).rendered(color);
    let green = two_digits(Channel::G, format).rendered(color);
    let blue = two_digits(Channel::B, format).rendered(color);
    lemma_writes_text(sharp, color);
    lemma_writes_two_digits(Channel::R, uppercase, color);
    lemma_writes_two_digits(Channel::G, uppercase, color);
    lemma_writes_two_digits(Channel::B, uppercase, color);
    lemma_writes_both(sharp, r, color, sharp, red);
    lemma_writes_both(sharp + r, g, color, sharp + red, green);
    lemma_writes_both(sharp + r + g, b, color, sharp + red + green, blue);
}

/// Three channels in decimal between texts without a percent sign are a
/// template, which writes the channels between those texts.
pub proof fn lemma_decimal_triple_is_a_template(
    open: Seq<char>,
    between: Seq<char>,
    close: Seq<char>,
    color: ARGB,
)
    requires
        forall|k: int| 0 <= k < open.len() ==> open[k] != '%',
        forall|k: int| 0 <= k < between.len() ==> between[k] != '%',
        forall|k: int| 0 <= k < close.len() ==> close[k] != '%',
    ensures
        writes(
            decimal_template(open, between, close),
            color,
            decimal_triple(color, open, between, close),
        ),
{
    let r = plain_decimal_text(Channel::R);
    let g = plain_decimal_text(Channel::G);
    let b = plain_decimal_text(Channel::B);
    let red = plain_decimal(Channel::R).rendered(color);
    let green = plain_decimal(Channel::G).rendered(color);
    let blue = plain_decimal(Channel::B).rendered(color);
    lemma_writes_text(open, color);
    lemma_writes_decimal_then_text(Channel::R, between, color);
    lemma_writes_decimal_then_text(Channel::G, between, color);
    lemma_writes_decimal_then_text(Channel::B, close, color);
    lemma_writes_both(open, r + between, color, open, red + between);
    lemma_regroup(open, r, between);
    lemma_regroup(open, red, between);
    let one = open + r + between;
    let first = open + red + between;
    lemma_writes_both(one, g + between, color, first, green + between);
    lemma_regroup(one, g, between);
    lemma_regroup(first, green, between);
    let two = one + g + between;
    let second = first + green + between;
    lemma_writes_both(two, b + close, color, second, blue + close);
    lemma_regroup(two, b, close);
    lemma_regroup(second, blue, close);
}

/// Writing three texts one after the other is the same however they are
/// grouped.
proof fn lemma_regroup(x: Seq<char>, y: Seq<char>, z: Seq<char>)
    ensures
        x + (y + z) == x + y + z,
{
    assert(x + (y + z) =~= x + y + z);
}

/// The format `hex` is the template `#%{02hr}%{02hg}%{02hb}`.
pub proof fn lemma_hex_preset(color: ARGB)
    ensures
        writes(
            "#%{02hr}%{02hg}%{02hb}"@,
            color,
            preset_text(Format::LowercaseHex(HexCompaction::Full), color),
        ),
{
    reveal_strlit("#%{02hr}%{02hg}%{02hb}");
    assert("#%{02hr}%{02hg}%{02hb}"@ =~= hex_template(false));
    lemma_hex_is_a_template(false, color);
}

/// The format `HEX` is the template `#%{02Hr}%{02Hg}%{02Hb}`.
pub proof fn lemma_upper_hex_preset(color: ARGB)
    ensures
        writes(
            "#%{02Hr}%{02Hg}%{02Hb}"@,
            color,
            preset_text(Format::UppercaseHex(HexCompaction::Full), color),
        ),
{
    reveal_strlit("#%{02Hr}%{02Hg}%{02Hb}");
    assert("#%{02Hr}%{02Hg}%{02Hb}"@ =~= hex_template(true));
    lemma_hex_is_a_template(true, color);
}

/// The format `plain` is the template `%{r};%{g};%{b}`.
pub proof fn lemma_plain_preset(color: ARGB)
    ensures
        writes("%{r};%{g};%{b}"@, color, preset_text(Format::Plain, color)),
{
    reveal_strlit("");
    reveal_strlit(";");
    reveal_strlit("%{r};%{g};%{b}");
    assert("%{r};%{g};%{b}"@ =~= decimal_template(""@, ";"@, ""@));
    lemma_decimal_triple_is_a_template(""@, ";"@, ""@, color);
}

/// The format `rgb` is the template `rgb(%{r}, %{g}, %{b})`.
pub proof fn lemma_rgb_preset(color: ARGB)
    ensures
        writes("rgb(%{r}, %{g}, %{b})"@, color, preset_text(Format::RGB, color)),
{
    reveal_strlit("rgb(");
    reveal_strlit(", ");
    reveal_strlit(")");
    reveal_strlit("rgb(%{r}, %{g}, %{b})");
    assert("rgb(%{r}, %{g}, %{b})"@ =~= decimal_template("rgb("@, ", "@, ")"@));
    lemma_decimal_triple_is_a_template("rgb("@, ", "@, ")"@, color);
}

} // verus!
