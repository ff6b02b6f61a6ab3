//! The colour sample: four 8-bit channels, and what can be said of a
//! colour without leaving the integers.

use vstd::prelude::*;
use vstd::string::*;

verus! {

/// One sampled colour: alpha, red, green and blue, eight bits each.
#[derive(Clone, Copy, Debug, PartialEq, Eq, Structural)]
pub struct ARGB {
    pub a: u8,
    pub r: u8,
    pub g: u8,
    pub b: u8,
}

/// An image whose pixels cannot be read as colours.
#[derive(Clone, Copy, Debug, PartialEq, Eq, Structural)]
pub enum ImageError {
    /// The image does not have 24 bits of colour in each pixel.
    UnsupportedDepth,
}

/// The only depth, in bits, of an image that `pixels_of_image` reads.
pub const SUPPORTED_DEPTH: u8 = 24;

/// Whether the two hexadecimal digits of `n` are the same digit.
pub open spec fn nibbles_match(n: u8) -> bool {
    (n >> 4) == (n & 0xf)
}

/// The square of the difference between two channel values.
pub open spec fn gap_squared(x: u8, y: u8) -> nat {
    ((x - y) * (x - y)) as nat
}

/// The pixels of an image that holds, for each pixel, blue, green, red and
/// one more byte, in that order. The last pixel may lack its fourth byte.
pub open spec fn image_pixels(data: Seq<u8>) -> Seq<ARGB> {
    Seq::new(
        ((data.len() + 1) / 4) as nat,
        |i: int| ARGB { a: 0xff, r: data[4 * i + 2], g: data[4 * i + 1], b: data[4 * i] },
    )
}

/// Whether a channel can be written as one hexadecimal digit twice.
pub fn compact(n: u8) -> (yes: bool)
    ensures
        yes == nibbles_match(n),
{
    (n >> 4) == (n & 0xf)
}

fn square_of_gap(x: u8, y: u8) -> (square: u32)
    ensures
        square == gap_squared(x, y),
        square <= 65_025,
{
    let gap: u32 = if x < y {
        (y - x) as u32
    } else {
        (x - y) as u32
    };
    assert(gap * gap <= 65_025 && gap * gap == (x - y) * (x - y)) by (nonlinear_arith)
        requires
            gap <= 255,
            gap == x - y || gap == y - x,
    ;
    gap * gap
}

impl ImageError {
    pub open spec fn text(self) -> Seq<char> {
        "Unsupported color depth"@
    }

    /// The message to show to the user.
    pub fn message(&self) -> (message: String)
        ensures
            message@ == self.text(),
    {
        "Unsupported color depth".to_owned()
    }
}

impl ARGB {
    pub open spec fn spec_transparent() -> ARGB {
        ARGB { a: 0, r: 0, g: 0, b: 0 }
    }

    pub open spec fn spec_black() -> ARGB {
        ARGB { a: 0xff, r: 0, g: 0, b: 0 }
    }

    pub open spec fn spec_white() -> ARGB {
        ARGB { a: 0xff, r: 0xff, g: 0xff, b: 0xff }
    }

    /// Black that lets everything through.
    #[verifier::when_used_as_spec(spec_transparent)]
    pub fn transparent() -> (color: ARGB)
        ensures
            color == Self::spec_transparent(),
    {
        ARGB { a: 0, r: 0, g: 0, b: 0 }
    }

    /// Opaque black.
    #[verifier::when_used_as_spec(spec_black)]
    pub fn black() -> (color: ARGB)
        ensures
            color == Self::spec_black(),
    {
        ARGB { a: 0xff, r: 0, g: 0, b: 0 }
    }

    /// Opaque white.
    #[verifier::when_used_as_spec(spec_white)]
    pub fn white() -> (color: ARGB)
        ensures
            color == Self::spec_white(),
    {
        ARGB { a: 0xff, r: 0xff, g: 0xff, b: 0xff }
    }

    pub fn new(a: u8, r: u8, g: u8, b: u8) -> (color: ARGB)
        ensures
            color == (ARGB { a, r, g, b }),
    {
        ARGB { a, r, g, b }
    }

    /// Whether every visible channel has two equal hexadecimal digits. Alpha
    /// plays no part.
    pub open spec fn compactable(self) -> bool {
        nibbles_match(self.r) && nibbles_match(self.g) && nibbles_match(self.b)
    }

    pub fn is_compactable(self) -> (yes: bool)
        ensures
            yes == self.compactable(),
    {
        compact(self.r) && compact(self.g) && compact(self.b)
    }

    /// The square of the distance between two colours in the cube spanned
    /// by red, green and blue.
    pub open spec fn spec_distance_squared(self, other: ARGB) -> nat {
        gap_squared(other.r, self.r) + gap_squared(other.g, self.g) + gap_squared(other.b, self.b)
    }

    pub fn distance_squared(self, other: ARGB) -> (square: u32)
        ensures
            square == self.spec_distance_squared(other),
            square <= 195_075,
    {
        square_of_gap(other.r, self.r) + square_of_gap(other.g, self.g) + square_of_gap(
            other.b,
            self.b,
        )
    }

    /// Whether the colour lies nearer to black than to white.
    pub open spec fn dark(self) -> bool {
        self.spec_distance_squared(Self::spec_black()) < self.spec_distance_squared(
            Self::spec_white(),
        )
    }

    pub fn is_dark(self) -> (yes: bool)
        ensures
            yes == self.dark(),
    {
        self.distance_squared(ARGB::black()) < self.distance_squared(ARGB::white())
    }

    /// The colour as one number: alpha in the highest byte, then red, green
    /// and blue.
    pub open spec fn packed(self) -> u32 {
        (self.a as u32) << 24 | (self.r as u32) << 16 | (self.g as u32) << 8 | (self.b as u32)
    }
}

impl From<ARGB> for u32 {
    fn from(color: ARGB) -> (packed: u32) {
        (color.a as u32) << 24 | (color.r as u32) << 16 | (color.g as u32) << 8 | (color.b as u32)
    }
}

impl vstd::std_specs::convert::FromSpecImpl<ARGB> for u32 {
    open spec fn obeys_from_spec() -> bool {
        true
    }

    open spec fn from_spec(color: ARGB) -> u32 {
        color.packed()
    }
}

/// Reads the pixels of an image of the given depth from its bytes: four
/// bytes for each pixel, of which the first three are blue, green and red.
/// Every pixel comes out opaque.
pub fn pixels_of_image(depth: u8, data: &[u8]) -> (result: Result<Vec<ARGB>, ImageError>)
    requires
        depth == SUPPORTED_DEPTH ==> data@.len() % 4 == 0 || data@.len() % 4 == 3,
    ensures
        depth != SUPPORTED_DEPTH ==> result == Err::<Vec<ARGB>, ImageError>(
            ImageError::UnsupportedDepth,
        ),
        depth == SUPPORTED_DEPTH ==> result is Ok && result->Ok_0@ == image_pixels(data@),
{
    if depth != SUPPORTED_DEPTH {
        return Err(ImageError::UnsupportedDepth);
    }
    let len: usize = data.len();
    let count: usize = len / 4 + (if len % 4 == 3 {
        1
    } else {
        0
    });
    let mut pixels: Vec<ARGB> = Vec::with_capacity(count);
    let mut i: usize = 0;
    while i < count
        invariant
            i <= count,
            len == data@.len(),
            count == (len + 1) / 4,
            data@.len() % 4 == 0 || data@.len() % 4 == 3,
            pixels@ == image_pixels(data@).take(i as int),
        decreases count - i,
    {
        pixels.push(ARGB::new(0xff, data[4 * i + 2], data[4 * i + 1], data[4 * i]));
        assert(pixels@ =~= image_pixels(data@).take(i + 1));
        i += 1;
    }
    assert(pixels@ =~= image_pixels(data@));
    Ok(pixels)
}

} // verus!
