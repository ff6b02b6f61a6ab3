//! A square of pixels, kept row after row in one flat store.

use vstd::prelude::*;

verus! {

/// A wrapper for a one-dimensional store that stands for a square of
/// values, so that the store can be addressed by two coordinates.
pub struct PixelSquare<T> {
    pixels: T,
    width: usize,
}

/// A square that is only read.
pub type PixelArray<'a, T> = PixelSquare<&'a [T]>;

/// A square that is written to.
pub type PixelArrayMut<T> = PixelSquare<Vec<T>>;

/// Where the value at (`x`, `y`) stands in the store of a square of the
/// given width.
pub open spec fn flat_index(width: int, x: int, y: int) -> int {
    x * width + y
}

/// Inside a square, two coordinates give a place inside its store.
pub proof fn lemma_flat_index_in_square(width: int, x: int, y: int)
    requires
        0 <= x < width,
        0 <= y < width,
    ensures
        0 <= flat_index(width, x, y) < width * width,
        x * width >= 0,
{
    assert(0 <= x * width && x * width + width <= width * width) by (nonlinear_arith)
        requires
            0 <= x < width,
    ;
}

impl<T> PixelSquare<T> {
    /// The store.
    pub closed spec fn pixels(&self) -> T {
        self.pixels
    }

    pub closed spec fn spec_width(&self) -> usize {
        self.width
    }

    pub fn new(pixels: T, width: usize) -> (square: Self)
        ensures
            square.pixels() == pixels,
            square.width() == width,
    {
        PixelSquare { pixels, width }
    }

    #[verifier::when_used_as_spec(spec_width)]
    pub fn width(&self) -> (width: usize)
        ensures
            width == self.width(),
    {
        self.width
    }

    /// The store, to look at.
    pub fn as_pixels(&self) -> (pixels: &T)
        ensures
            *pixels == self.pixels(),
    {
        &self.pixels
    }

    /// Gives the store back.
    pub fn into_pixels(self) -> (pixels: T)
        ensures
            pixels == self.pixels(),
    {
        self.pixels
    }
}

impl<'a, T: Copy> PixelSquare<&'a [T]> {
    /// Whether the store holds as many values as the square has places.
    pub open spec fn is_square(&self) -> bool {
        self.pixels()@.len() == self.width() * self.width()
    }

    /// The value at (`x`, `y`).
    pub open spec fn at(&self, x: int, y: int) -> T {
        self.pixels()@[flat_index(self.width() as int, x, y)]
    }

    /// The value at place `index` of the store.
    pub fn index(&self, index: usize) -> (value: T)
        requires
            index < self.pixels()@.len(),
        ensures
            value == self.pixels()@[index as int],
    {
        self.pixels[index]
    }

    /// The value at (`x`, `y`).
    pub fn get(&self, x: usize, y: usize) -> (value: T)
        requires
            self.is_square(),
            x < self.width(),
            y < self.width(),
        ensures
            value == self.at(x as int, y as int),
    {
        let len = self.pixels.len();
        proof {
            lemma_flat_index_in_square(self.width as int, x as int, y as int);
        }
        assert(x * self.width + y < len);
        self.pixels[x * self.width + y]
    }
}

impl<T: Copy> PixelSquare<Vec<T>> {
    /// Whether the store holds as many values as the square has places.
    pub open spec fn is_square(&self) -> bool {
        self.pixels()@.len() == self.width() * self.width()
    }

    /// The value at (`x`, `y`).
    pub open spec fn at(&self, x: int, y: int) -> T {
        self.pixels()@[flat_index(self.width() as int, x, y)]
    }

    /// The value at place `index` of the store.
    pub fn index(&self, index: usize) -> (value: T)
        requires
            index < self.pixels()@.len(),
        ensures
            value == self.pixels()@[index as int],
    {
        self.pixels[index]
    }

    /// Puts `value` at place `index` of the store.
    pub fn index_mut(&mut self, index: usize, value: T)
        requires
            index < old(self).pixels()@.len(),
        ensures
            final(self).pixels()@ == old(self).pixels()@.update(index as int, value),
            final(self).width() == old(self).width(),
    {
        self.pixels[index] = value;
    }

    /// The value at (`x`, `y`).
    pub fn get(&self, x: usize, y: usize) -> (value: T)
        requires
            self.is_square(),
            x < self.width(),
            y < self.width(),
        ensures
            value == self.at(x as int, y as int),
    {
        let len = self.pixels.len();
        proof {
            lemma_flat_index_in_square(self.width as int, x as int, y as int);
        }
        assert(x * self.width + y < len);
        self.pixels[x * self.width + y]
    }

    /// Puts `value` at (`x`, `y`) and leaves every other place as it was.
    pub fn set(&mut self, x: usize, y: usize, value: T)
        requires
            old(self).is_square(),
            x < old(self).width(),
            y < old(self).width(),
        ensures
            final(self).pixels()@ == old(self).pixels()@.update(
                flat_index(old(self).width() as int, x as int, y as int),
                value,
            ),
            final(self).width() == old(self).width(),
            final(self).is_square(),
    {
        let len = self.pixels.len();
        proof {
            lemma_flat_index_in_square(self.width as int, x as int, y as int);
        }
        assert(x * self.width + y < len);
        let index = x * self.width + y;
        self.pixels[index] = value;
    }
}

} // verus!
