//! A parsed template and how it turns a colour into text.

use vstd::prelude::*;
use vstd::string::*;

use crate::color::ARGB;
use crate::number::{NumberFormat, Pad};

verus! {

/// Anything that can write a colour as text.
pub trait FormatColor {
    /// The text that `format` returns.
    spec fn rendered(&self, color: ARGB) -> Seq<char>;

    fn format(&self, color: ARGB) -> (text: String)
        ensures
            text@ == self.rendered(color),
    ;
}

/// One of the three visible channels of a colour.
#[derive(Clone, Copy, Debug, PartialEq, Eq, Structural)]
pub enum Channel {
    R,
    G,
    B,
}

/// One piece of a template: text to copy, or a channel to write out.
#[derive(Debug)]
pub enum FormatPart {
    Literal(String),
    Expansion { channel: Channel, format: NumberFormat, pad: Option<Pad> },
}

/// A `FormatPart` as the contracts see it: the literal is a sequence of
/// characters.
pub enum PartView {
    Literal(Seq<char>),
    Expansion { channel: Channel, format: NumberFormat, pad: Option<Pad> },
}

/// A whole template: its parts in the order in which they are written.
#[derive(Debug)]
pub struct FormatString(Vec<FormatPart>);

impl Channel {
    pub open spec fn extracted(self, color: ARGB) -> u8 {
        match self {
            Channel::R => color.r,
            Channel::G => color.g,
            Channel::B => color.b,
        }
    }

    /// The byte of `color` that this channel names.
    pub fn extract(&self, color: ARGB) -> (value: u8)
        ensures
            value == self.extracted(color),
    {
        match self {
            Channel::R => color.r,
            Channel::G => color.g,
            Channel::B => color.b,
        }
    }
}

impl PartView {
    /// The text that this part contributes for `color`: a literal is copied;
    /// an expansion is the channel's value in the part's base, filled on the
    /// left where a pad is given.
    pub open spec fn rendered(self, color: ARGB) -> Seq<char> {
        match self {
            PartView::Literal(text) => text,
            PartView::Expansion { channel, format, pad } => {
                let number = format.rendered(channel.extracted(color));
                match pad {
                    Some(pad) => pad.applied(number),
                    None => number,
                }
            },
        }
    }
}

/// The texts of `parts` for `color`, one after the other.
pub open spec fn rendered_parts(parts: Seq<PartView>, color: ARGB) -> Seq<char> {
    parts.map_values(|part: PartView| part.rendered(color)).flatten()
}

impl View for FormatPart {
    type V = PartView;

    open spec fn view(&self) -> PartView {
        match self {
            FormatPart::Literal(text) => PartView::Literal(text@),
            FormatPart::Expansion { channel, format, pad } => PartView::Expansion {
                channel: *channel,
                format: *format,
                pad: *pad,
            },
        }
    }
}

/// The views of `parts`, in the same order.
pub open spec fn part_views(parts: Seq<FormatPart>) -> Seq<PartView> {
    parts.map_values(|part: FormatPart| part@)
}

impl View for FormatString {
    type V = Seq<PartView>;

    closed spec fn view(&self) -> Seq<PartView> {
        part_views(self.0@)
    }
}

impl FormatString {
    /// The template made of `parts`, in that order.
    pub fn from_parts(parts: Vec<FormatPart>) -> (template: FormatString)
        ensures
            template@ == part_views(parts@),
    {
        FormatString(parts)
    }

    /// How many parts the template has.
    pub fn len(&self) -> (n: usize)
        ensures
            n == self@.len(),
    {
        self.0.len()
    }

    /// The part at `index`.
    pub fn part(&self, index: usize) -> (part: &FormatPart)
        requires
            index < self@.len(),
        ensures
            part@ == self@[index as int],
    {
        &self.0[index]
    }
}

impl FormatColor for FormatPart {
    open spec fn rendered(&self, color: ARGB) -> Seq<char> {
        self@.rendered(color)
    }

    fn format(&self, color: ARGB) -> (text: String) {
        match self {
            FormatPart::Literal(text) => text.clone(),
            FormatPart::Expansion { channel, format, pad } => {
                let value = channel.extract(color);
                let number = format.format(value);
                match pad {
                    Some(pad) => pad.apply(number),
                    None => number,
                }
            },
        }
    }
}

impl FormatColor for FormatString {
    open spec fn rendered(&self, color: ARGB) -> Seq<char> {
        rendered_parts(self@, color)
    }

    fn format(&self, color: ARGB) -> (text: String) {
        let ghost texts = self@.map_values(|part: PartView| part.rendered(color));
        let mut text = String::new();
        let mut i: usize = 0;
        assert(texts.take(0) =~= Seq::<Seq<char>>::empty());
        while i < self.0.len()
            invariant
                i <= self.0.len(),
                texts == self@.map_values(|part: PartView| part.rendered(color)),
                text@ == texts.take(i as int).flatten(),
            decreases self.0.len() - i,
        {
            let piece = self.0[i].format(color);
            proof {
                assert(texts.take(i + 1) =~= texts.take(i as int).push(piece@));
                texts.take(i as int).lemma_flatten_push(piece@);
            }
            text.append(piece.as_str());
            i += 1;
        }
        assert(texts.take(i as int) =~= texts);
        text
    }
}

} // verus!
