use xcolor::color::ARGB;
use xcolor::draw::{border_color, draw_magnifying_glass, glass_fits, is_inside_circle};
use xcolor::location::{
    capture_around, capture_fits, cursor_pixel_size, place_capture, pointer_action, Capture,
    PointerAction, PointerEvent, Span, SELECTION_BUTTON,
};
use xcolor::pixel::{PixelArray, PixelArrayMut, PixelSquare};
use xcolor::preview::{
    preview_action, preview_position, PreviewAction, PreviewEvent, PREVIEW_HEIGHT,
    PREVIEW_OFFSET_X, PREVIEW_OFFSET_Y, PREVIEW_WIDTH,
};
use xcolor::selection::{
    selection_action, Selection, SelectionAction, SelectionError, SelectionEvent, NO_PROPERTY,
};
use xcolor::util::EnsureOdd;

const WHITE: u32 = 0xffff_ffff;
const BLACK: u32 = 0xff00_0000;

fn lerp(a: u8, b: u8, x: f32) -> u8 {
    ((1.0 - x) * f32::from(a) + x * f32::from(b)).ceil() as u8
}

fn interpolate(from: ARGB, to: ARGB, amount: f32) -> ARGB {
    ARGB {
        a: from.a,
        r: lerp(from.r, to.r, amount),
        g: lerp(from.g, to.g, amount),
        b: lerp(from.b, to.b, amount),
    }
}

fn grid_shade(color: ARGB) -> u32 {
    if color.is_dark() {
        interpolate(color, ARGB::white(), 0.2).into()
    } else {
        interpolate(color, ARGB::black(), 0.2).into()
    }
}

fn sample_screenshot(width: usize) -> Vec<ARGB> {
    (0..width * width)
        .map(|i| {
            let n = i as u8;
            ARGB::new(
                0xff,
                n.wrapping_mul(37),
                n.wrapping_mul(91).wrapping_add(5),
                n.wrapping_mul(13),
            )
        })
        .collect()
}

// The glass, pixel by pixel, worked out with signed numbers throughout.
fn expected_glass(cursor_width: isize, screenshot: &[ARGB], screenshot_width: isize, pixel_size: isize) -> Vec<u32> {
    let inside = |x: isize, y: isize, r: isize| (x - r).pow(2) + (y - r).pow(2) < r.pow(2);
    let border = |color: ARGB| if color.is_dark() { WHITE } else { BLACK };
    let border_radius = cursor_width / 2;
    let content_radius = border_radius - 1;
    let center_pixel = cursor_width / 2 - pixel_size / 2;
    let offset = (screenshot_width / 2) * pixel_size - center_pixel;
    let mut cursor = vec![0x12345678u32; (cursor_width * cursor_width) as usize];
    for cx in 0..cursor_width {
        for cy in 0..cursor_width {
            let sx = (cx + offset) / pixel_size;
            let sy = (cy + offset) / pixel_size;
            let color = screenshot[(sx * screenshot_width + sy) as usize];
            cursor[(cx * cursor_width + cy) as usize] = if inside(cx, cy, content_radius) {
                if (cx + offset) % pixel_size == 0 || (cy + offset) % pixel_size == 0 {
                    let center_x = cx >= center_pixel && cx <= center_pixel + pixel_size;
                    let center_y = cy >= center_pixel && cy <= center_pixel + pixel_size;
                    if center_x && center_y {
                        border(color)
                    } else {
                        grid_shade(color)
                    }
                } else {
                    color.into()
                }
            } else if inside(cx + 1, cy + 1, border_radius) {
                border(color)
            } else {
                0
            };
        }
    }
    cursor
}

fn drawn_glass(cursor_width: usize, screenshot: &[ARGB], screenshot_width: usize, pixel_size: usize) -> Vec<u32> {
    let shades: Vec<u32> = screenshot.iter().map(|&color| grid_shade(color)).collect();
    let mut cursor: PixelArrayMut<u32> =
        PixelSquare::new(vec![0x12345678u32; cursor_width * cursor_width], cursor_width);
    let screenshot: PixelArray<ARGB> = PixelSquare::new(screenshot, screenshot_width);
    let grid: PixelArray<u32> = PixelSquare::new(&shades[..], screenshot_width);
    draw_magnifying_glass(&mut cursor, &screenshot, &grid, pixel_size);
    assert_eq!(cursor.width(), cursor_width);
    cursor.into_pixels()
}

#[test]
fn glass_of_nine_over_three() {
    let screenshot = sample_screenshot(3);
    let pixel_size = cursor_pixel_size(9, 3);
    assert_eq!(pixel_size, 5);
    let cursor = drawn_glass(9, &screenshot, 3, pixel_size);
    let at = |x: usize, y: usize| cursor[x * 9 + y];
    // outside the ring
    assert_eq!(at(0, 0), 0);
    assert_eq!(at(8, 8), 0);
    assert_eq!(at(8, 3), 0);
    // the ring, on the pixel that lies behind it
    assert_eq!(at(0, 3), border_color(screenshot[0 * 3 + 1]));
    assert_eq!(at(6, 3), border_color(screenshot[1 * 3 + 1]));
    // a pixel of the screenshot
    assert_eq!(at(3, 3), u32::from(screenshot[1 * 3 + 1]));
    assert_eq!(at(3, 1), u32::from(screenshot[1 * 3 + 0]));
    // the frame around the middle
    assert_eq!(at(2, 3), border_color(screenshot[1 * 3 + 1]));
    // a grid line
    assert_eq!(at(2, 1), grid_shade(screenshot[1 * 3 + 0]));
    assert_eq!(cursor, expected_glass(9, &screenshot, 3, 5));
}

#[test]
fn glass_matches_pixel_by_pixel() {
    for &(cursor_width, screenshot_width) in
        &[(1usize, 1usize), (3, 1), (5, 3), (9, 3), (15, 5), (31, 3), (33, 11), (63, 7), (7, 9)]
    {
        let screenshot = sample_screenshot(screenshot_width);
        let pixel_size = cursor_pixel_size(cursor_width, screenshot_width);
        assert_eq!(pixel_size % 2, 1);
        assert!(pixel_size > cursor_width / screenshot_width);
        let cursor = drawn_glass(cursor_width, &screenshot, screenshot_width, pixel_size);
        let expected = expected_glass(
            cursor_width as isize,
            &screenshot,
            screenshot_width as isize,
            pixel_size as isize,
        );
        assert_eq!(cursor, expected);
    }
}

#[test]
fn glass_with_larger_pixels_than_needed() {
    let screenshot = sample_screenshot(5);
    let cursor = drawn_glass(9, &screenshot, 5, 7);
    assert_eq!(cursor, expected_glass(9, &screenshot, 5, 7));
}

#[test]
fn glass_over_a_single_pixel() {
    // the one pixel is exactly as large as the cursor image
    let screenshot = sample_screenshot(1);
    let cursor = drawn_glass(5, &screenshot, 1, 5);
    assert_eq!(cursor, expected_glass(5, &screenshot, 1, 5));
    assert_eq!(cursor[1 * 5 + 1], u32::from(screenshot[0]));
    assert_eq!(cursor[0], border_color(screenshot[0]));
    assert_eq!(cursor[4 * 5 + 4], 0);
}

#[test]
fn glass_needs_odd_sizes_and_large_pixels() {
    assert!(glass_fits(9, 3, 5));
    assert!(glass_fits(9, 3, 3));
    assert!(glass_fits(5, 1, 5));
    assert!(glass_fits(1, 1, 1));
    assert!(glass_fits(255, 31, 9));
    // the screenshot, enlarged, is smaller than the cursor
    assert!(!glass_fits(9, 3, 1));
    assert!(!glass_fits(7, 1, 5));
    assert!(!glass_fits(255, 31, 7));
    // even sizes
    assert!(!glass_fits(8, 3, 5));
    assert!(!glass_fits(9, 2, 5));
    assert!(!glass_fits(9, 3, 4));
    assert!(!glass_fits(0, 3, 5));
    assert!(!glass_fits(9, 0, 5));
    // numbers beyond the machine's integers
    assert!(!glass_fits(usize::MAX, 3, 5));
    assert!(!glass_fits(9, usize::MAX, 5));
    assert!(!glass_fits(9, 3, usize::MAX));
}

#[test]
fn pixel_size_always_suits_the_glass() {
    for cursor_width in (1..200usize).step_by(2) {
        for screenshot_width in (1..60usize).step_by(2) {
            let pixel_size = cursor_pixel_size(cursor_width, screenshot_width);
            assert!(glass_fits(cursor_width, screenshot_width, pixel_size));
        }
    }
}

#[test]
fn captures_that_can_be_laid_out() {
    let whole = Capture {
        size: 2,
        x: Span { start: 5, offset: 0, extent: 2 },
        y: Span { start: 7, offset: 0, extent: 2 },
    };
    assert!(capture_fits(whole, 4));
    assert!(capture_fits(whole, 0));
    let part = Capture {
        size: 3,
        x: Span { start: 0, offset: 1, extent: 2 },
        y: Span { start: 0, offset: 2, extent: 1 },
    };
    assert!(capture_fits(part, 2));
    assert!(capture_fits(part, 5));
    assert!(!capture_fits(part, 1));
    let wide = Capture {
        size: 3,
        x: Span { start: 0, offset: 2, extent: 2 },
        y: Span { start: 0, offset: 0, extent: 3 },
    };
    assert!(!capture_fits(wide, 100));
    let empty = Capture {
        size: 3,
        x: Span { start: 200, offset: 0, extent: -100 },
        y: Span { start: 0, offset: 0, extent: 3 },
    };
    assert!(capture_fits(empty, 0));
    let backwards = Capture {
        size: 3,
        x: Span { start: 0, offset: -1, extent: 2 },
        y: Span { start: 0, offset: 0, extent: 3 },
    };
    assert!(!capture_fits(backwards, 100));
}

#[test]
fn captures_around_the_pointer_can_be_laid_out() {
    for &(x, y) in &[(0i16, 0i16), (5, 5), (100, 50), (799, 599), (-3, 700), (400, 300)] {
        let capture = capture_around((x, y), 800, 600, 255, 8);
        let captured = if capture.x.extent > 0 && capture.y.extent > 0 {
            (capture.x.extent * capture.y.extent) as usize
        } else {
            0
        };
        assert!(capture_fits(capture, captured));
        let pixels = place_capture(capture, vec![ARGB::white(); captured]);
        assert_eq!(pixels.len(), 31 * 31);
    }
}

#[test]
fn circle() {
    assert!(is_inside_circle(3, 3, 3));
    assert!(is_inside_circle(1, 3, 3));
    assert!(!is_inside_circle(0, 3, 3));
    assert!(!is_inside_circle(6, 3, 3));
    assert!(is_inside_circle(5, 5, 3));
    assert!(!is_inside_circle(6, 6, 3));
    assert!(!is_inside_circle(0, 0, 0));
    assert!(is_inside_circle(-1, -1, -1));
    assert!(!is_inside_circle(0, 0, -1));
}

#[test]
fn border_is_white_on_dark_and_black_on_light() {
    assert_eq!(border_color(ARGB::black()), WHITE);
    assert_eq!(border_color(ARGB::white()), BLACK);
    assert_eq!(border_color(ARGB::new(0, 127, 127, 128)), WHITE);
    assert_eq!(border_color(ARGB::new(0, 127, 128, 128)), BLACK);
}

#[test]
fn square_by_coordinates() {
    let mut square: PixelArrayMut<u32> = PixelSquare::new(vec![0; 9], 3);
    assert_eq!(square.width(), 3);
    square.set(1, 2, 7);
    square.set(0, 0, 1);
    square.set(2, 2, 9);
    assert_eq!(square.get(1, 2), 7);
    assert_eq!(square.get(2, 1), 0);
    assert_eq!(square.index(1 * 3 + 2), 7);
    square.index_mut(3, 4);
    assert_eq!(square.get(1, 0), 4);
    assert_eq!(square.into_pixels(), vec![1, 0, 0, 4, 0, 7, 0, 0, 9]);
}

#[test]
fn square_that_is_only_read() {
    let store = [10u8, 11, 12, 13];
    let square: PixelArray<u8> = PixelSquare::new(&store[..], 2);
    assert_eq!(square.width(), 2);
    assert_eq!(square.get(0, 0), 10);
    assert_eq!(square.get(0, 1), 11);
    assert_eq!(square.get(1, 0), 12);
    assert_eq!(square.get(1, 1), 13);
    assert_eq!(square.index(2), 12);
    assert_eq!(*square.as_pixels(), &store[..]);
    assert_eq!(square.into_pixels(), &store[..]);
}

#[test]
fn odd_numbers() {
    assert_eq!(0u16.ensure_odd(), 1);
    assert_eq!(1u16.ensure_odd(), 1);
    assert_eq!(65534u16.ensure_odd(), 65535);
    assert_eq!(65535u16.ensure_odd(), 65535);
    assert_eq!(254u32.ensure_odd(), 255);
    assert_eq!(255u32.ensure_odd(), 255);
    assert_eq!(u32::MAX.ensure_odd(), u32::MAX);
    assert_eq!(8usize.ensure_odd(), 9);
    assert_eq!(usize::MAX.ensure_odd(), usize::MAX);
    assert_eq!(0isize.ensure_odd(), 1);
    assert_eq!((-2isize).ensure_odd(), -1);
    assert_eq!((-3isize).ensure_odd(), -3);
    assert_eq!(isize::MAX.ensure_odd(), isize::MAX);
    assert_eq!(isize::MIN.ensure_odd(), isize::MIN + 1);
}

#[test]
fn pixel_size_is_the_next_odd_number_above_the_ratio() {
    assert_eq!(cursor_pixel_size(255, 31), 9);
    assert_eq!(cursor_pixel_size(255, 33), 9);
    assert_eq!(cursor_pixel_size(9, 3), 5);
    assert_eq!(cursor_pixel_size(8, 3), 3);
    assert_eq!(cursor_pixel_size(1, 3), 1);
    assert_eq!(cursor_pixel_size(3, 3), 3);
}

#[test]
fn capture_in_the_middle_of_the_screen() {
    let capture = capture_around((100, 200), 1920, 1080, 255, 8);
    assert_eq!(capture.size, 31);
    assert_eq!(capture.x, Span { start: 85, offset: 0, extent: 31 });
    assert_eq!(capture.y, Span { start: 185, offset: 0, extent: 31 });
}

#[test]
fn capture_at_the_edges_of_the_screen() {
    let capture = capture_around((3, 1075), 1920, 1080, 255, 8);
    assert_eq!(capture.size, 31);
    assert_eq!(capture.x, Span { start: 0, offset: 12, extent: 19 });
    assert_eq!(capture.y, Span { start: 1060, offset: 0, extent: 20 });
    let capture = capture_around((-5, 0), 100, 100, 10, 1);
    assert_eq!(capture.size, 11);
    assert_eq!(capture.x, Span { start: 0, offset: 10, extent: 1 });
    assert_eq!(capture.y, Span { start: 0, offset: 5, extent: 6 });
}

#[test]
fn capture_size_is_made_odd() {
    assert_eq!(capture_around((50, 50), 100, 100, 256, 8).size, 33);
    assert_eq!(capture_around((50, 50), 100, 100, 255, 8).size, 31);
    assert_eq!(capture_around((50, 50), 100, 100, 7, 8).size, 1);
    assert_eq!(capture_around((50, 50), 100, 100, 24, 8).size, 3);
}

#[test]
fn whole_capture_is_kept_as_it_is() {
    let capture = Capture {
        size: 2,
        x: Span { start: 5, offset: 0, extent: 2 },
        y: Span { start: 7, offset: 0, extent: 2 },
    };
    let captured: Vec<ARGB> = (1..=4).map(|n| ARGB::new(0xff, n, n, n)).collect();
    assert_eq!(place_capture(capture, captured.clone()), captured);
}

#[test]
fn partial_capture_is_set_into_a_transparent_square() {
    let capture = Capture {
        size: 3,
        x: Span { start: 0, offset: 1, extent: 2 },
        y: Span { start: 0, offset: 2, extent: 1 },
    };
    let a = ARGB::new(0xff, 1, 1, 1);
    let b = ARGB::new(0xff, 2, 2, 2);
    let t = ARGB::transparent();
    assert_eq!(
        place_capture(capture, vec![a, b]),
        vec![t, t, t, t, t, t, t, a, b]
    );
    let capture = Capture {
        size: 3,
        x: Span { start: 10, offset: 0, extent: 2 },
        y: Span { start: 10, offset: 0, extent: 2 },
    };
    let c = ARGB::new(0xff, 3, 3, 3);
    let d = ARGB::new(0xff, 4, 4, 4);
    assert_eq!(
        place_capture(capture, vec![a, b, c, d]),
        vec![a, b, t, c, d, t, t, t, t]
    );
}

#[test]
fn empty_capture_gives_a_transparent_square() {
    let capture = Capture {
        size: 3,
        x: Span { start: 200, offset: 0, extent: -100 },
        y: Span { start: 0, offset: 0, extent: 3 },
    };
    assert_eq!(place_capture(capture, vec![]), vec![ARGB::transparent(); 9]);
}

#[test]
fn pointer_events() {
    assert_eq!(SELECTION_BUTTON, 1);
    assert_eq!(
        pointer_action(PointerEvent::ButtonPress { button: 1, x: 3, y: 4 }),
        PointerAction::Pick { x: 3, y: 4 }
    );
    assert_eq!(
        pointer_action(PointerEvent::ButtonPress { button: 2, x: 3, y: 4 }),
        PointerAction::Ignore
    );
    assert_eq!(
        pointer_action(PointerEvent::Motion { x: -3, y: 4 }),
        PointerAction::Refresh { x: -3, y: 4 }
    );
    assert_eq!(pointer_action(PointerEvent::Other), PointerAction::Ignore);
    assert_eq!(pointer_action(PointerEvent::Closed), PointerAction::Stop);
}

#[test]
fn selection_names() {
    assert_eq!("primary".parse(), Ok(Selection::Primary));
    assert_eq!("secondary".parse(), Ok(Selection::Secondary));
    assert_eq!("clipboard".parse(), Ok(Selection::Clipboard));
    for name in ["", "PRIMARY", "Clipboard", "clip", "primary "] {
        assert_eq!(name.parse::<Selection>(), Err(SelectionError::InvalidSelection));
    }
    assert_eq!(SelectionError::InvalidSelection.message(), "Invalid selection");
}

#[test]
fn selection_atoms() {
    assert_eq!(Selection::Primary.atom_name(), "PRIMARY");
    assert_eq!(Selection::Secondary.atom_name(), "SECONDARY");
    assert_eq!(Selection::Clipboard.atom_name(), "CLIPBOARD");
}

#[test]
fn selection_requests() {
    let utf8 = 300;
    let targets = 301;
    let text = selection_action(SelectionEvent::Request { target: 300, property: 42 }, utf8, targets);
    assert_eq!(text, SelectionAction::SendText { property: 42 });
    assert_eq!(text.property(), 42);
    let list = selection_action(SelectionEvent::Request { target: 301, property: 43 }, utf8, targets);
    assert_eq!(list, SelectionAction::SendTargets { property: 43 });
    assert_eq!(list.property(), 43);
    let refused = selection_action(SelectionEvent::Request { target: 31, property: 44 }, utf8, targets);
    assert_eq!(refused, SelectionAction::Refuse);
    assert_eq!(refused.property(), NO_PROPERTY);
    assert_eq!(NO_PROPERTY, 0);
    assert_eq!(selection_action(SelectionEvent::Clear, utf8, targets), SelectionAction::Stop);
    assert_eq!(selection_action(SelectionEvent::Closed, utf8, targets), SelectionAction::Stop);
    assert_eq!(selection_action(SelectionEvent::Other, utf8, targets), SelectionAction::Ignore);
    // text wins where one atom stands for both
    assert_eq!(
        selection_action(SelectionEvent::Request { target: 5, property: 1 }, 5, 5),
        SelectionAction::SendText { property: 1 }
    );
}

#[test]
fn preview_follows_the_pointer() {
    assert_eq!((PREVIEW_WIDTH, PREVIEW_HEIGHT), (32, 32));
    assert_eq!((PREVIEW_OFFSET_X, PREVIEW_OFFSET_Y), (10, 10));
    assert_eq!(preview_position((0, 0)), (10, 10));
    assert_eq!(preview_position((-10, 5)), (0, 15));
    assert_eq!(preview_position((32757, -32768)), (32767, -32758));
}

#[test]
fn preview_events() {
    assert_eq!(preview_action(PreviewEvent::Expose), PreviewAction::Redraw);
    assert_eq!(
        preview_action(PreviewEvent::Motion { x: 1, y: 2 }),
        PreviewAction::Follow { x: 1, y: 2 }
    );
    assert_eq!(preview_action(PreviewEvent::Other), PreviewAction::Pass);
    assert!(PreviewAction::Redraw.handled());
    assert!(PreviewAction::Follow { x: 0, y: 0 }.handled());
    assert!(!PreviewAction::Pass.handled());
}
