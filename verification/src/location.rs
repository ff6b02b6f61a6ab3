//! Choosing what to capture around the pointer, and what to do with each
//! event while the user picks a place.

use vstd::prelude::*;

use crate::color::ARGB;
use crate::draw::lens_of;
use crate::util::EnsureOdd;

verus! {

/// The mouse button that picks a colour: the left one.
pub const SELECTION_BUTTON: u8 = 1;

/// One side of the square to capture, along one axis of the screen.
#[derive(Clone, Copy, Debug, PartialEq, Eq, Structural)]
pub struct Span {
    /// Where the captured part starts on the screen.
    pub start: isize,
    /// How much of the square lies before the screen and is not captured.
    pub offset: isize,
    /// How much is captured.
    pub extent: isize,
}

/// The part of the screen to capture for a square of side `size`.
#[derive(Clone, Copy, Debug, PartialEq, Eq, Structural)]
pub struct Capture {
    pub size: isize,
    pub x: Span,
    pub y: Span,
}

/// What the display server reports while the pointer is grabbed.
#[derive(Clone, Copy, Debug, PartialEq, Eq, Structural)]
pub enum PointerEvent {
    ButtonPress { button: u8, x: i16, y: i16 },
    Motion { x: i16, y: i16 },
    Other,
    /// The connection is gone.
    Closed,
}

/// What to do about an event.
#[derive(Clone, Copy, Debug, PartialEq, Eq, Structural)]
pub enum PointerAction {
    /// Take the colour at this place and stop.
    Pick { x: i16, y: i16 },
    /// Draw the glass anew around this place.
    Refresh { x: i16, y: i16 },
    Ignore,
    /// Stop without a colour.
    Stop,
}

/// The side of the square of screen pixels that a preview of the given
/// width shows at the given scale: their quotient, made odd.
pub open spec fn capture_size(preview_width: u32, scale: u32) -> int {
    let ratio = preview_width as int / scale as int;
    if ratio % 2 == 0 {
        ratio + 1
    } else {
        ratio
    }
}

/// The span of a square of side `size` around `pointer` on a screen that
/// is `root` wide: it starts half a side before the pointer, but not
/// before the screen, and does not reach beyond the screen's other edge.
pub open spec fn span_around(pointer: int, root: int, size: int) -> Span {
    let before = pointer - size / 2;
    let offset = if before < 0 {
        -before
    } else {
        0
    };
    let start = before + offset;
    let extent = if start + size > root {
        root - start
    } else {
        size - offset
    };
    Span { start: start as isize, offset: offset as isize, extent: extent as isize }
}

/// The side of one screenshot pixel in the cursor image: the next odd
/// number above the ratio of the two widths.
pub open spec fn magnification(cursor_width: usize, screenshot_width: usize) -> int {
    let ratio = cursor_width as int / screenshot_width as int;
    if ratio % 2 == 0 {
        ratio + 1
    } else {
        ratio + 2
    }
}

/// Whether the captured part lies inside the square, and the square fits
/// in memory.
pub open spec fn fits_square(capture: Capture) -> bool {
    &&& 0 <= capture.size
    &&& capture.size * capture.size <= usize::MAX
    &&& 0 <= capture.x.offset
    &&& 0 <= capture.y.offset
    &&& capture.x.extent + capture.x.offset <= capture.size
    &&& capture.y.extent + capture.y.offset <= capture.size
}

/// Whether the whole square was captured.
pub open spec fn is_whole(capture: Capture) -> bool {
    capture.x.extent == capture.size && capture.y.extent == capture.size
}

/// The pixel at (`column`, `row`) of the square: the captured pixel where
/// one was captured, and a transparent one elsewhere.
pub open spec fn square_pixel(
    capture: Capture,
    captured: Seq<ARGB>,
    column: int,
    row: int,
) -> ARGB {
    let x = column - capture.x.offset;
    let y = row - capture.y.offset;
    if 0 <= x < capture.x.extent && 0 <= y < capture.y.extent {
        captured[y * capture.x.extent + x]
    } else {
        ARGB::transparent()
    }
}

/// The square, row after row.
pub open spec fn square_pixels(capture: Capture, captured: Seq<ARGB>) -> Seq<ARGB> {
    if is_whole(capture) {
        captured
    } else {
        Seq::new(
            (capture.size * capture.size) as nat,
            |k: int|
                square_pixel(
                    capture,
                    captured,
                    k % capture.size as int,
                    k / capture.size as int,
                ),
        )
    }
}

pub open spec fn action_for(event: PointerEvent) -> PointerAction {
    match event {
        PointerEvent::ButtonPress { button, x, y } => if button == SELECTION_BUTTON {
            PointerAction::Pick { x, y }
        } else {
            PointerAction::Ignore
        },
        PointerEvent::Motion { x, y } => PointerAction::Refresh { x, y },
        PointerEvent::Other => PointerAction::Ignore,
        PointerEvent::Closed => PointerAction::Stop,
    }
}

/// What to do about `event` while waiting for the user to pick a place:
/// the selection button picks, a move of the pointer redraws, the loss of
/// the connection ends the wait, and nothing else matters.
pub fn pointer_action(event: PointerEvent) -> (action: PointerAction)
    ensures
        action == action_for(event),
{
    match event {
        PointerEvent::ButtonPress { button, x, y } => {
            if button == SELECTION_BUTTON {
                PointerAction::Pick { x, y }
            } else {
                PointerAction::Ignore
            }
        },
        PointerEvent::Motion { x, y } => PointerAction::Refresh { x, y },
        PointerEvent::Other => PointerAction::Ignore,
        PointerEvent::Closed => PointerAction::Stop,
    }
}

fn span(pointer: i16, root: u16, size: isize) -> (span: Span)
    requires
        0 <= size <= isize::MAX - 32_768,
    ensures
        span == span_around(pointer as int, root as int, size as int),
        span.start >= 0,
        span.offset >= 0,
{
    let mut start = pointer as isize - size / 2;
    let offset = if start < 0 {
        -start
    } else {
        0
    };
    start += offset;
    let extent = if start + size > root as isize {
        root as isize - start
    } else {
        size - offset
    };
    Span { start, offset, extent }
}

/// The part of the screen to capture around the pointer, so that the
/// preview shows the pointer's surroundings at the given scale.
pub fn capture_around(
    pointer: (i16, i16),
    root_width: u16,
    root_height: u16,
    preview_width: u32,
    scale: u32,
) -> (capture: Capture)
    requires
        scale > 0,
        preview_width / scale < isize::MAX - 32_768,
    ensures
        capture.size == capture_size(preview_width, scale),
        capture.x == span_around(pointer.0 as int, root_width as int, capture.size as int),
        capture.y == span_around(pointer.1 as int, root_height as int, capture.size as int),
{
    let size = ((preview_width / scale) as isize).ensure_odd();
    Capture {
        size,
        x: span(pointer.0, root_width, size),
        y: span(pointer.1, root_height, size),
    }
}

/// Whether `place_capture` can lay out `captured_len` captured pixels:
/// the whole square was captured, or the captured part lies inside the
/// square and every pixel of it is there.
pub open spec fn can_place(capture: Capture, captured_len: nat) -> bool {
    &&& is_whole(capture) || fits_square(capture)
    &&& !is_whole(capture) && capture.x.extent > 0 && capture.y.extent > 0 ==> captured_len
        >= capture.x.extent * capture.y.extent
}

/// Tells whether `place_capture` can lay out that many captured pixels.
pub fn capture_fits(capture: Capture, captured_len: usize) -> (fits: bool)
    ensures
        fits == can_place(capture, captured_len as nat),
{
    if capture.x.extent == capture.size && capture.y.extent == capture.size {
        return true;
    }
    if capture.size < 0 || capture.x.offset < 0 || capture.y.offset < 0 {
        return false;
    }
    let size = capture.size as usize;
    if size.checked_mul(size).is_none() {
        return false;
    }
    if capture.x.extent > capture.size - capture.x.offset || capture.y.extent > capture.size
        - capture.y.offset {
        return false;
    }
    if capture.x.extent > 0 && capture.y.extent > 0 {
        match (capture.x.extent as usize).checked_mul(capture.y.extent as usize) {
            Some(needed) => captured_len >= needed,
            None => false,
        }
    } else {
        true
    }
}

/// Lays the captured pixels into the square that was asked for. Where the
/// whole square was captured, it is the captured pixels; else they are
/// set into a transparent square at the place where they belong.
pub fn place_capture(capture: Capture, captured: Vec<ARGB>) -> (pixels: Vec<ARGB>)
    requires
        can_place(capture, captured@.len()),
    ensures
        pixels@ == square_pixels(capture, captured@),
{
    if capture.x.extent == capture.size && capture.y.extent == capture.size {
        return captured;
    }
    let size = capture.size as usize;
    let captured_len = captured.len();
    let mut pixels: Vec<ARGB> = Vec::new();
    let mut row: usize = 0;
    while row < size
        invariant
            row <= size,
            size == capture.size,
            fits_square(capture),
            !is_whole(capture),
            captured_len == captured@.len(),
            capture.x.extent > 0 && capture.y.extent > 0 ==> captured@.len() >= capture.x.extent
                * capture.y.extent,
            pixels@.len() == row * size,
            forall|k: int|
                0 <= k < pixels@.len() ==> pixels@[k] == square_pixel(
                    capture,
                    captured@,
                    k % size as int,
                    k / size as int,
                ),
        decreases size - row,
    {
        let mut column: usize = 0;
        while column < size
            invariant
                row < size,
                column <= size,
                size == capture.size,
                fits_square(capture),
                !is_whole(capture),
                captured_len == captured@.len(),
                capture.x.extent > 0 && capture.y.extent > 0 ==> captured@.len()
                    >= capture.x.extent * capture.y.extent,
                pixels@.len() == row * size + column,
                forall|k: int|
                    0 <= k < pixels@.len() ==> pixels@[k] == square_pixel(
                        capture,
                        captured@,
                        k % size as int,
                        k / size as int,
                    ),
            decreases size - column,
        {
            let x = column as isize - capture.x.offset;
            let y = row as isize - capture.y.offset;
            let pixel = if 0 <= x && x < capture.x.extent && 0 <= y && y < capture.y.extent {
                proof {
                    lemma_captured_index(
                        x as int,
                        y as int,
                        capture.x.extent as int,
                        capture.y.extent as int,
                    );
                }
                captured[y as usize * capture.x.extent as usize + x as usize]
            } else {
                ARGB::transparent()
            };
            proof {
                let k = row * size + column;
                vstd::arithmetic::div_mod::lemma_fundamental_div_mod_converse(
                    k,
                    size as int,
                    row as int,
                    column as int,
                );
            }
            pixels.push(pixel);
            column += 1;
        }
        assert(row * size + size == (row + 1) * size) by (nonlinear_arith);
        row += 1;
    }
    assert(pixels@.len() == capture.size * capture.size);
    assert(pixels@ =~= square_pixels(capture, captured@));
    pixels
}

/// Inside the captured part, a column and a row give a place among the
/// captured pixels.
proof fn lemma_captured_index(x: int, y: int, extent_x: int, extent_y: int)
    requires
        0 <= x < extent_x,
        0 <= y < extent_y,
    ensures
        0 <= y * extent_x,
        0 <= y * extent_x + x < extent_x * extent_y,
{
    assert(0 <= y * extent_x && y * extent_x + extent_x <= extent_x * extent_y)
        by (nonlinear_arith)
        requires
            0 <= y < extent_y,
            0 < extent_x,
    ;
}

/// How many times a pixel of the screenshot is enlarged in the cursor
/// image.
pub fn cursor_pixel_size(cursor_width: usize, screenshot_width: usize) -> (pixel_size: usize)
    requires
        screenshot_width > 0,
        cursor_width / screenshot_width + 2 <= usize::MAX,
    ensures
        pixel_size == magnification(cursor_width, screenshot_width),
        pixel_size % 2 == 1,
{
    let ratio = cursor_width / screenshot_width;
    if ratio % 2 == 0 {
        ratio + 1
    } else {
        ratio + 2
    }
}

/// With pixels as large as `cursor_pixel_size` makes them, every place of
/// an odd cursor image has a pixel of an odd screenshot behind it: the
/// glass can be drawn without looking beyond the screenshot.
pub proof fn lemma_magnification_covers(cursor_width: usize, screenshot_width: usize)
    requires
        cursor_width % 2 == 1,
        screenshot_width % 2 == 1,
        magnification(cursor_width, screenshot_width) <= usize::MAX,
    ensures
        ({
            let lens = lens_of(
                cursor_width,
                screenshot_width,
                magnification(cursor_width, screenshot_width) as usize,
            );
            lens.odd() && lens.covered()
        }),
{
    let w = cursor_width as int;
    let s = screenshot_width as int;
    let p = magnification(cursor_width, screenshot_width);
    let lens = lens_of(cursor_width, screenshot_width, p as usize);
    vstd::arithmetic::div_mod::lemma_fundamental_div_mod(w, s);
    let ratio = w / s;
    assert(p * s > w) by (nonlinear_arith)
        requires
            p >= ratio + 1,
            w == s * ratio + w % s,
            0 <= w % s < s,
    ;
    let half_w = w / 2;
    let half_s = s / 2;
    let half_p = p / 2;
    assert(p * s == 2 * (half_s * p) + p) by (nonlinear_arith)
        requires
            s == 2 * half_s + 1,
    ;
    assert(s * p == p * s) by (nonlinear_arith);
    assert(lens.offset() == half_s * p - (half_w - half_p));
}

} // verus!
