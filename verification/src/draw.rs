//! Drawing the magnifying glass: a round, enlarged view of the pixels
//! around the pointer, with a grid between them and a frame around the one
//! in the middle.

use vstd::prelude::*;

use crate::color::ARGB;
use crate::pixel::{flat_index, lemma_flat_index_in_square, PixelArray, PixelArrayMut};

verus! {

/// The three sizes that fix the geometry of the glass: the width of the
/// cursor image, the width of the screenshot, and the side of the square
/// that one pixel of the screenshot takes in the image. All three are odd.
pub struct Lens {
    pub cursor_width: int,
    pub screenshot_width: int,
    pub pixel_size: int,
}

/// What stands at a place of the cursor image.
pub enum Paint {
    /// A pixel of the screenshot, in its own colour.
    Pixel,
    /// A line of the grid between the pixels.
    GridLine,
    /// The frame around the pixel in the middle.
    CenterFrame,
    /// The ring around the glass.
    Border,
    /// Nothing: the place lies outside the glass.
    Outside,
}

/// Whether (`x`, `y`) lies inside the circle of radius `r` around
/// (`r`, `r`).
pub open spec fn inside_circle(x: int, y: int, r: int) -> bool {
    (x - r) * (x - r) + (y - r) * (y - r) < r * r
}

/// The colour of the ring and of the frame on a given background: white on
/// dark, black on light.
pub open spec fn border_of(color: ARGB) -> u32 {
    if color.dark() {
        ARGB::white().packed()
    } else {
        ARGB::black().packed()
    }
}

/// The colour of a place of the cursor image, given what stands there, the
/// pixel of the screenshot that shows through and the colour that a grid
/// line has on that pixel.
pub open spec fn shade(paint: Paint, sample: ARGB, grid_shade: u32) -> u32 {
    match paint {
        Paint::Pixel => sample.packed(),
        Paint::GridLine => grid_shade,
        Paint::CenterFrame => border_of(sample),
        Paint::Border => border_of(sample),
        Paint::Outside => ARGB::transparent().packed(),
    }
}

impl Lens {
    pub open spec fn border_radius(self) -> int {
        self.cursor_width / 2
    }

    pub open spec fn content_radius(self) -> int {
        self.border_radius() - 1
    }

    /// The first row, and column, of the pixel in the middle.
    pub open spec fn center_pixel(self) -> int {
        self.cursor_width / 2 - self.pixel_size / 2
    }

    /// How far the enlarged screenshot is shifted against the cursor
    /// image, so that the middles of the two meet.
    pub open spec fn offset(self) -> int {
        (self.screenshot_width / 2) * self.pixel_size - self.center_pixel()
    }

    /// The row, or column, of the screenshot that shows at row, or
    /// column, `c` of the cursor image.
    pub open spec fn source(self, c: int) -> int {
        (c + self.offset()) / self.pixel_size
    }

    pub open spec fn on_grid(self, c: int) -> bool {
        (c + self.offset()) % self.pixel_size == 0
    }

    pub open spec fn in_center(self, c: int) -> bool {
        self.center_pixel() <= c <= self.center_pixel() + self.pixel_size
    }

    pub open spec fn odd(self) -> bool {
        &&& self.cursor_width % 2 == 1
        &&& self.screenshot_width % 2 == 1
        &&& self.pixel_size % 2 == 1
        &&& self.cursor_width > 0
        &&& self.screenshot_width > 0
        &&& self.pixel_size > 0
    }

    /// Whether every place of the cursor image has a pixel of the
    /// screenshot behind it: the enlarged screenshot reaches as far as the
    /// cursor image does.
    pub open spec fn covered(self) -> bool {
        self.cursor_width + self.offset() <= self.screenshot_width * self.pixel_size
    }

    /// Whether the machine's integers hold the numbers that drawing
    /// works with.
    pub open spec fn in_range(self) -> bool {
        &&& 2 * (self.cursor_width * self.cursor_width) <= isize::MAX
        &&& self.screenshot_width * self.pixel_size <= isize::MAX
    }

    /// What stands at (`cx`, `cy`) of the cursor image.
    pub open spec fn paint(self, cx: int, cy: int) -> Paint {
        if inside_circle(cx, cy, self.content_radius()) {
            if self.on_grid(cx) || self.on_grid(cy) {
                if self.in_center(cx) && self.in_center(cy) {
                    Paint::CenterFrame
                } else {
                    Paint::GridLine
                }
            } else {
                Paint::Pixel
            }
        } else if inside_circle(cx + 1, cy + 1, self.border_radius()) {
            Paint::Border
        } else {
            Paint::Outside
        }
    }
}

/// The sizes of a drawing.
pub open spec fn lens_of(cursor_width: usize, screenshot_width: usize, pixel_size: usize) -> Lens {
    Lens {
        cursor_width: cursor_width as int,
        screenshot_width: screenshot_width as int,
        pixel_size: pixel_size as int,
    }
}

/// The colour that the glass has at (`cx`, `cy`).
pub open spec fn glass_color(
    lens: Lens,
    screenshot: PixelArray<ARGB>,
    grid: PixelArray<u32>,
    cx: int,
    cy: int,
) -> u32 {
    let sx = lens.source(cx);
    let sy = lens.source(cy);
    shade(lens.paint(cx, cy), screenshot.at(sx, sy), grid.at(sx, sy))
}

/// Where the glass is covered, the enlarged screenshot starts at or
/// before the first place of the cursor image.
pub proof fn lemma_covered_from_the_start(lens: Lens)
    requires
        lens.odd(),
        lens.covered(),
    ensures
        lens.offset() >= 0,
{
    let half_s = lens.screenshot_width / 2;
    let p = lens.pixel_size;
    assert(lens.screenshot_width * p == 2 * (half_s * p) + p) by (nonlinear_arith)
        requires
            lens.screenshot_width == 2 * half_s + 1,
    ;
}

/// Where the glass is covered, every row of the cursor image shows a row
/// of the screenshot.
pub proof fn lemma_source_in_screenshot(lens: Lens, c: int)
    requires
        lens.odd(),
        lens.covered(),
        0 <= c < lens.cursor_width,
    ensures
        0 <= lens.source(c) < lens.screenshot_width,
{
    let t = c + lens.offset();
    let p = lens.pixel_size;
    lemma_covered_from_the_start(lens);
    vstd::arithmetic::div_mod::lemma_div_pos_is_pos(t, p);
    vstd::arithmetic::div_mod::lemma_fundamental_div_mod(t, p);
    assert(t / p < lens.screenshot_width) by (nonlinear_arith)
        requires
            0 <= t < lens.screenshot_width * p,
            p > 0,
            t == p * (t / p) + t % p,
            0 <= t % p,
    {
    }
}

/// The squares that the two circle tests add up stay small.
proof fn lemma_circle_in_range(width: int, a: int, b: int, r: int)
    requires
        -width <= a <= width,
        -width <= b <= width,
        0 <= r <= width || (r == -1 && width >= 1),
        2 * (width * width) <= isize::MAX,
    ensures
        0 <= a * a <= isize::MAX,
        0 <= b * b <= isize::MAX,
        a * a + b * b <= isize::MAX,
        0 <= r * r <= isize::MAX,
{
    assert(0 <= a * a <= width * width) by (nonlinear_arith)
        requires
            -width <= a <= width,
    ;
    assert(0 <= b * b <= width * width) by (nonlinear_arith)
        requires
            -width <= b <= width,
    ;
    assert(0 <= r * r <= width * width) by (nonlinear_arith)
        requires
            -width <= r <= width,
    ;
}

/// Whether (`x`, `y`) lies inside the circle of radius `r` around
/// (`r`, `r`).
pub fn is_inside_circle(x: isize, y: isize, r: isize) -> (inside: bool)
    requires
        isize::MIN <= x - r <= isize::MAX,
        isize::MIN <= y - r <= isize::MAX,
        (x - r) * (x - r) + (y - r) * (y - r) <= isize::MAX,
        r * r <= isize::MAX,
    ensures
        inside == inside_circle(x as int, y as int, r as int),
{
    let dx = x - r;
    let dy = y - r;
    assert(0 <= dx * dx && 0 <= dy * dy && 0 <= r * r) by (nonlinear_arith);
    dx * dx + dy * dy < r * r
}

/// The colour of the ring and of the frame on `color`.
pub fn border_color(color: ARGB) -> (border: u32)
    ensures
        border == border_of(color),
{
    if color.is_dark() {
        ARGB::white().into()
    } else {
        ARGB::black().into()
    }
}

/// Whether a glass of these sizes can be drawn: the sizes are odd, the
/// enlarged screenshot covers the cursor image, and the numbers stay
/// within the machine's integers.
pub fn glass_fits(cursor_width: usize, screenshot_width: usize, pixel_size: usize) -> (fits: bool)
    ensures
        fits == {
            let lens = lens_of(cursor_width, screenshot_width, pixel_size);
            lens.odd() && lens.covered() && lens.in_range()
        },
{
    if cursor_width % 2 == 0 || screenshot_width % 2 == 0 || pixel_size % 2 == 0 {
        return false;
    }
    let limit = isize::MAX as usize;
    let cursor_area = match cursor_width.checked_mul(cursor_width) {
        Some(area) => area,
        None => {
            return false;
        },
    };
    if cursor_area > limit / 2 {
        return false;
    }
    let enlarged = match screenshot_width.checked_mul(pixel_size) {
        Some(enlarged) => enlarged,
        None => {
            return false;
        },
    };
    if enlarged > limit {
        return false;
    }
    proof {
        lemma_half_product(screenshot_width as int, pixel_size as int);
        assert(cursor_width <= cursor_width * cursor_width) by (nonlinear_arith)
            requires
                cursor_width >= 1,
        ;
    }
    // the enlarged screenshot up to the middle of its middle pixel
    let before_middle = (screenshot_width / 2) * pixel_size + pixel_size / 2;
    // the cursor image from its middle on
    let after_middle = cursor_width - cursor_width / 2;
    after_middle + before_middle <= enlarged
}

/// Half a width of pixels is no wider than the whole width less one pixel.
proof fn lemma_half_product(s: int, p: int)
    requires
        s >= 1,
        p >= 1,
    ensures
        0 <= (s / 2) * p,
        (s / 2) * p + p <= s * p,
{
    assert(0 <= (s / 2) * p && (s / 2) * p + p <= s * p) by (nonlinear_arith)
        requires
            s >= 1,
            p >= 1,
            0 <= s / 2,
            s / 2 + 1 <= s,
    ;
}

/// Two different places of a square stand at different places of its
/// store.
pub proof fn lemma_flat_index_injective(width: int, x: int, y: int, u: int, v: int)
    requires
        0 <= x < width,
        0 <= y < width,
        0 <= u < width,
        0 <= v < width,
        flat_index(width, x, y) == flat_index(width, u, v),
    ensures
        x == u,
        y == v,
{
    assert(x == u) by (nonlinear_arith)
        requires
            0 <= y < width,
            0 <= v < width,
            x * width + y == u * width + v,
    ;
}

/// What the sizes of a covered glass imply for the machine's integers.
proof fn lemma_lens_in_range(lens: Lens)
    requires
        lens.odd(),
        lens.covered(),
        lens.in_range(),
    ensures
        lens.cursor_width <= lens.cursor_width * lens.cursor_width,
        2 * lens.cursor_width <= isize::MAX,
        lens.pixel_size <= isize::MAX,
        lens.screenshot_width <= isize::MAX,
        0 <= (lens.screenshot_width / 2) * lens.pixel_size,
        (lens.screenshot_width / 2) * lens.pixel_size + lens.pixel_size <= lens.screenshot_width
            * lens.pixel_size,
{
    let w = lens.cursor_width;
    let s = lens.screenshot_width;
    let p = lens.pixel_size;
    assert(w <= w * w) by (nonlinear_arith)
        requires
            w >= 1,
    ;
    assert(p <= s * p && s <= s * p) by (nonlinear_arith)
        requires
            s >= 1,
            p >= 1,
    ;
    lemma_half_product(s, p);
}

/// Draws the glass into `cursor`: for every place of the image, the pixel
/// of `screenshot` that shows there, seen through `pixel_size` times
/// enlargement; on the grid lines, the colour that `grid` holds for that
/// pixel; around the glass a ring, and nothing outside it.
#[verifier::loop_isolation(false)]
pub fn draw_magnifying_glass(
    cursor: &mut PixelArrayMut<u32>,
    screenshot: &PixelArray<ARGB>,
    grid: &PixelArray<u32>,
    pixel_size: usize,
)
    requires
        old(cursor).is_square(),
        screenshot.is_square(),
        grid.is_square(),
        grid.width() == screenshot.width(),
        lens_of(old(cursor).width(), screenshot.width(), pixel_size).odd(),
        lens_of(old(cursor).width(), screenshot.width(), pixel_size).covered(),
        lens_of(old(cursor).width(), screenshot.width(), pixel_size).in_range(),
    ensures
        final(cursor).width() == old(cursor).width(),
        final(cursor).is_square(),
        forall|cx: int, cy: int|
            0 <= cx < old(cursor).width() && 0 <= cy < old(cursor).width()
                ==> #[trigger] final(cursor).at(cx, cy) == glass_color(
                lens_of(old(cursor).width(), screenshot.width(), pixel_size),
                *screenshot,
                *grid,
                cx,
                cy,
            ),
{
    let ghost lens = lens_of(cursor.width(), screenshot.width(), pixel_size);
    proof {
        lemma_lens_in_range(lens);
    }
    let transparent: u32 = ARGB::transparent().into();
    let width = cursor.width();

    let pixel_size = pixel_size as isize;
    let cursor_width = width as isize;
    let screenshot_width = screenshot.width() as isize;

    let border_width: isize = 1;
    let border_radius = cursor_width / 2;
    let content_radius = border_radius - border_width;

    let cursor_center = cursor_width / 2;
    let cursor_center_pixel = cursor_center - pixel_size / 2;
    let screenshot_center = screenshot_width / 2;
    let offset = screenshot_center * pixel_size - cursor_center_pixel;
    assert(offset == lens.offset());

    let mut cx: usize = 0;
    while cx < width
        invariant
            cx <= width,
            cursor.width() == width,
            cursor.is_square(),
            forall|x: int, y: int|
                0 <= x < cx && 0 <= y < width ==> #[trigger] cursor.at(x, y) == glass_color(
                    lens,
                    *screenshot,
                    *grid,
                    x,
                    y,
                ),
        decreases width - cx,
    {
        let mut cy: usize = 0;
        while cy < width
            invariant
                cx < width,
                cy <= width,
                cursor.width() == width,
                cursor.is_square(),
                forall|x: int, y: int|
                    0 <= x < width && 0 <= y < width && (x < cx || (x == cx && y < cy))
                        ==> #[trigger] cursor.at(x, y) == glass_color(
                        lens,
                        *screenshot,
                        *grid,
                        x,
                        y,
                    ),
            decreases width - cy,
        {
            // screenshot coordinates
            let tx = cx as isize + offset;
            let ty = cy as isize + offset;
            proof {
                lemma_source_in_screenshot(lens, cx as int);
                lemma_source_in_screenshot(lens, cy as int);
                lemma_covered_from_the_start(lens);
                lemma_circle_in_range(
                    width as int,
                    cx - content_radius,
                    cy - content_radius,
                    content_radius as int,
                );
                lemma_circle_in_range(
                    width as int,
                    cx + border_width - border_radius,
                    cy + border_width - border_radius,
                    border_radius as int,
                );
            }
            let sx = (tx / pixel_size) as usize;
            let sy = (ty / pixel_size) as usize;
            let screenshot_color = screenshot.get(sx, sy);

            // the colour of the cursor pixel
            let value = if is_inside_circle(cx as isize, cy as isize, content_radius) {
                let is_grid_line = tx % pixel_size == 0 || ty % pixel_size == 0;
                if is_grid_line {
                    let is_center_x = cx as isize >= cursor_center_pixel && cx as isize
                        <= cursor_center_pixel + pixel_size;
                    let is_center_y = cy as isize >= cursor_center_pixel && cy as isize
                        <= cursor_center_pixel + pixel_size;
                    if is_center_x && is_center_y {
                        border_color(screenshot_color)
                    } else {
                        grid.get(sx, sy)
                    }
                } else {
                    screenshot_color.into()
                }
            } else if is_inside_circle(
                cx as isize + border_width,
                cy as isize + border_width,
                border_radius,
            ) {
                border_color(screenshot_color)
            } else {
                transparent
            };
            assert(value == glass_color(lens, *screenshot, *grid, cx as int, cy as int));
            let ghost before = *cursor;
            cursor.set(cx, cy, value);
            proof {
                lemma_flat_index_in_square(width as int, cx as int, cy as int);
                assert forall|x: int, y: int|
                    0 <= x < width && 0 <= y < width && (x < cx || (x == cx && y < cy + 1))
                    implies #[trigger] cursor.at(x, y) == glass_color(
                    lens,
                    *screenshot,
                    *grid,
                    x,
                    y,
                ) by {
                    lemma_flat_index_in_square(width as int, x, y);
                    if x == cx && y == cy {
                    } else {
                        if flat_index(width as int, x, y) == flat_index(
                            width as int,
                            cx as int,
                            cy as int,
                        ) {
                            lemma_flat_index_injective(width as int, x, y, cx as int, cy as int);
                        }
                        assert(cursor.at(x, y) == before.at(x, y));
                    }
                }
            }
            cy += 1;
        }
        cx += 1;
    }
}

} // verus!
