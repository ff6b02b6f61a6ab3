//! The built-in output formats, chosen by name.

use vstd::prelude::*;
use vstd::string::*;

use crate::color::ARGB;
use crate::error::FormatError;
use crate::number::{digits, left_padded, NumberFormat, Pad};
use crate::template::FormatColor;
use crate::text::same_text;

verus! {

/// Whether a hexadecimal format shortens a colour to three digits where it
/// can.
#[derive(Clone, Copy, Debug, PartialEq, Eq, Structural)]
pub enum HexCompaction {
    Compact,
    Full,
}

/// A built-in output format.
#[derive(Clone, Copy, Debug, PartialEq, Eq, Structural)]
pub enum Format {
    LowercaseHex(HexCompaction),
    UppercaseHex(HexCompaction),
    Plain,
    RGB,
}

/// The format that goes by `name`. Names are case-sensitive, and there are
/// six of them.
pub open spec fn named(name: Seq<char>) -> Option<Format> {
    if name == "hex"@ {
        Some(Format::LowercaseHex(HexCompaction::Full))
    } else if name == "HEX"@ {
        Some(Format::UppercaseHex(HexCompaction::Full))
    } else if name == "hex!"@ {
        Some(Format::LowercaseHex(HexCompaction::Compact))
    } else if name == "HEX!"@ {
        Some(Format::UppercaseHex(HexCompaction::Compact))
    } else if name == "plain"@ {
        Some(Format::Plain)
    } else if name == "rgb"@ {
        Some(Format::RGB)
    } else {
        None
    }
}

/// `n` as two hexadecimal digits.
pub open spec fn hex_pair(n: u8, uppercase: bool) -> Seq<char> {
    left_padded(digits(n as nat, 16, uppercase), '0', 2)
}

/// The low hexadecimal digit of `n`.
pub open spec fn hex_low(n: u8, uppercase: bool) -> Seq<char> {
    digits((n & 0xf) as nat, 16, uppercase)
}

/// `#` and two digits for each of red, green and blue.
pub open spec fn hex_full(color: ARGB, uppercase: bool) -> Seq<char> {
    seq!['#'] + hex_pair(color.r, uppercase) + hex_pair(color.g, uppercase) + hex_pair(
        color.b,
        uppercase,
    )
}

/// `#` and one digit, the low one, for each of red, green and blue.
pub open spec fn hex_compact(color: ARGB, uppercase: bool) -> Seq<char> {
    seq!['#'] + hex_low(color.r, uppercase) + hex_low(color.g, uppercase) + hex_low(
        color.b,
        uppercase,
    )
}

/// The short form where it was asked for and the colour allows it, else the
/// long form.
pub open spec fn hex(color: ARGB, compaction: HexCompaction, uppercase: bool) -> Seq<char> {
    if compaction == HexCompaction::Compact && color.compactable() {
        hex_compact(color, uppercase)
    } else {
        hex_full(color, uppercase)
    }
}

/// `open`, then red, green and blue in decimal with `between` between
/// them, then `close`.
pub open spec fn decimal_triple(
    color: ARGB,
    open: Seq<char>,
    between: Seq<char>,
    close: Seq<char>,
) -> Seq<char> {
    open + digits(color.r as nat, 10, false) + between + digits(color.g as nat, 10, false)
        + between + digits(color.b as nat, 10, false) + close
}

/// What a built-in format writes for `color`.
pub open spec fn preset_text(format: Format, color: ARGB) -> Seq<char> {
    match format {
        Format::LowercaseHex(compaction) => hex(color, compaction, false),
        Format::UppercaseHex(compaction) => hex(color, compaction, true),
        Format::Plain => decimal_triple(color, ""@, ";"@, ""@),
        Format::RGB => decimal_triple(color, "rgb("@, ", "@, ")"@),
    }
}

fn write_hex(color: ARGB, compaction: HexCompaction, base: NumberFormat) -> (text: String)
    requires
        base is LowercaseHex || base is UppercaseHex,
    ensures
        text@ == hex(color, compaction, base.uppercase()),
{
    let mut text = String::new();
    text.push('#');
    assert(text@ =~= seq!['#']);
    let compact = match compaction {
        HexCompaction::Compact => color.is_compactable(),
        HexCompaction::Full => false,
    };
    if compact {
        text.append(base.format(color.r & 0xf).as_str());
        text.append(base.format(color.g & 0xf).as_str());
        text.append(base.format(color.b & 0xf).as_str());
    } else {
        let two = Pad { char: '0', len: 2 };
        text.append(two.apply(base.format(color.r)).as_str());
        text.append(two.apply(base.format(color.g)).as_str());
        text.append(two.apply(base.format(color.b)).as_str());
    }
    text
}

fn write_decimal(color: ARGB, open: &str, between: &str, close: &str) -> (text: String)
    ensures
        text@ == decimal_triple(color, open@, between@, close@),
{
    let mut text = String::new();
    assert(text@ + open@ =~= open@);
    text.append(open);
    text.append(NumberFormat::Decimal.format(color.r).as_str());
    text.append(between);
    text.append(NumberFormat::Decimal.format(color.g).as_str());
    text.append(between);
    text.append(NumberFormat::Decimal.format(color.b).as_str());
    text.append(close);
    text
}

impl core::str::FromStr for Format {
    type Err = FormatError;

    /// The format of that name, or `InvalidFormat` where there is none.
    fn from_str(s: &str) -> (result: Result<Format, FormatError>)
        ensures
            match result {
                Ok(format) => named(s@) == Some(format),
                Err(error) => named(s@) is None && error == FormatError::InvalidFormat,
            },
    {
        if same_text(s, "hex") {
            Ok(Format::LowercaseHex(HexCompaction::Full))
        } else if same_text(s, "HEX") {
            Ok(Format::UppercaseHex(HexCompaction::Full))
        } else if same_text(s, "hex!") {
            Ok(Format::LowercaseHex(HexCompaction::Compact))
        } else if same_text(s, "HEX!") {
            Ok(Format::UppercaseHex(HexCompaction::Compact))
        } else if same_text(s, "plain") {
            Ok(Format::Plain)
        } else if same_text(s, "rgb") {
            Ok(Format::RGB)
        } else {
            Err(FormatError::InvalidFormat)
        }
    }
}

impl FormatColor for Format {
    open spec fn rendered(&self, color: ARGB) -> Seq<char> {
        preset_text(*self, color)
    }

    fn format(&self, color: ARGB) -> (text: String) {
        match self {
            Format::LowercaseHex(compaction) => write_hex(
                color,
                *compaction,
                NumberFormat::LowercaseHex,
            ),
            Format::UppercaseHex(compaction) => write_hex(
                color,
                *compaction,
                NumberFormat::UppercaseHex,
            ),
            Format::Plain => write_decimal(color, "", ";", ""),
            Format::RGB => write_decimal(color, "rgb(", ", ", ")"),
        }
    }
}

} // verus!
