//! The golden-pixel validator: every pixel of a captured frame against the
//! expected region, exact on all four channels.
use vstd::prelude::*;
use crate::geometry::{shifted_contains, white, white_spec, Color};
use crate::scene::{clear_built, SnapTestContext, SnapTestExpectation, SnapTestResult};

verus! {

/// Where the pixel `(x, y)` starts in a captured buffer of `w` by `h` pixels.
/// Rows are stored bottom-first, so logical row `y` is stored row `h - 1 - y`.
pub open spec fn pixel_index(w: int, h: int, x: int, y: int) -> int {
    ((h - 1 - y) * w + x) * 4
}

/// The colour the buffer holds at `(x, y)`.
pub open spec fn actual_at(pixels: Seq<u8>, w: int, h: int, x: int, y: int) -> Color {
    let i = pixel_index(w, h, x, y);
    Color { r: pixels[i], g: pixels[i + 1], b: pixels[i + 2], a: pixels[i + 3] }
}

/// The colour expected at `(x, y)`: the fill inside the moved rectangle,
/// white outside it.
pub open spec fn expected_at(e: SnapTestExpectation, x: int, y: int) -> Color {
    if shifted_contains(e.expected_rect, e.expected_offset as int, x, y) {
        e.expected_color
    } else {
        white_spec()
    }
}

pub open spec fn pixel_matches(
    pixels: Seq<u8>,
    e: SnapTestExpectation,
    w: int,
    h: int,
    x: int,
    y: int,
) -> bool {
    actual_at(pixels, w, h, x, y) == expected_at(e, x, y)
}

/// Whether `(x2, y2)` comes before `(x, y)` in row-major order.
pub open spec fn before(x2: int, y2: int, x: int, y: int) -> bool {
    y2 < y || (y2 == y && x2 < x)
}

/// Every pixel of the frame holds its expected colour.
pub open spec fn frame_matches(pixels: Seq<u8>, e: SnapTestExpectation, w: int, h: int) -> bool {
    forall|x: int, y: int| 0 <= x < w && 0 <= y < h ==> #[trigger] pixel_matches(pixels, e, w, h, x, y)
}

/// The first pixel, in row-major order, whose colour is not the expected one.
#[derive(Clone, Copy, Debug, PartialEq, Eq, Structural)]
pub struct Mismatch {
    pub x: i32,
    pub y: i32,
    pub expected: Color,
    pub actual: Color,
}

pub open spec fn buffer_fits(pixels: Seq<u8>, w: int, h: int) -> bool {
    0 <= w && 0 <= h && 4 * (w * h) <= pixels.len()
}

proof fn lemma_index_in_bounds(w: int, h: int, x: int, y: int)
    requires
        0 <= x < w,
        0 <= y < h,
    ensures
        0 <= (h - 1 - y) * w + x < w * h,
{
    assert(0 <= (h - 1 - y) * w + x < w * h) by (nonlinear_arith)
        requires
            0 <= x < w,
            0 <= y < h,
    ;
}

/// Finds the first pixel that differs from the expectation, if any.
pub fn first_mismatch(
    pixels: &[u8],
    expected: &SnapTestExpectation,
    width: i32,
    height: i32,
) -> (r: Option<Mismatch>)
    requires
        buffer_fits(pixels@, width as int, height as int),
    ensures
        r.is_none() == frame_matches(pixels@, *expected, width as int, height as int),
        r matches Some(m) ==> {
            &&& 0 <= m.x < width && 0 <= m.y < height
            &&& m.expected == expected_at(*expected, m.x as int, m.y as int)
            &&& m.actual == actual_at(pixels@, width as int, height as int, m.x as int, m.y as int)
            &&& m.expected != m.actual
            &&& forall|x2: int, y2: int|
                0 <= x2 < width && 0 <= y2 < height && before(x2, y2, m.x as int, m.y as int)
                    ==> #[trigger] pixel_matches(pixels@, *expected, width as int, height as int, x2, y2)
        },
{
    let ghost w = width as int;
    let ghost h = height as int;
    let len = pixels.len();
    let mut y: i32 = 0;
    while y < height
        invariant
            buffer_fits(pixels@, w, h),
            pixels@.len() <= usize::MAX,
            w == width as int,
            h == height as int,
            0 <= y <= height,
            forall|x2: int, y2: int|
                0 <= x2 < w && 0 <= y2 < y ==> #[trigger] pixel_matches(pixels@, *expected, w, h, x2, y2),
        decreases height - y,
    {
        let mut x: i32 = 0;
        while x < width
            invariant
                buffer_fits(pixels@, w, h),
                pixels@.len() <= usize::MAX,
                w == width as int,
                h == height as int,
                0 <= y < height,
                0 <= x <= width,
                forall|x2: int, y2: int|
                    0 <= x2 < w && 0 <= y2 < h && before(x2, y2, x as int, y as int)
                        ==> #[trigger] pixel_matches(pixels@, *expected, w, h, x2, y2),
            decreases width - x,
        {
            proof {
                lemma_index_in_bounds(w, h, x as int, y as int);
            }
            let cell = ((height - 1 - y) as usize) * (width as usize) + x as usize;
            let i = cell * 4;
            let actual = Color { r: pixels[i], g: pixels[i + 1], b: pixels[i + 2], a: pixels[i + 3] };
            let want = if expected.expected_rect.contains_shifted(expected.expected_offset, x, y) {
                expected.expected_color
            } else {
                white()
            };
            assert(i as int == pixel_index(w, h, x as int, y as int));
            assert(actual == actual_at(pixels@, w, h, x as int, y as int));
            if want != actual {
                assert(!pixel_matches(pixels@, *expected, w, h, x as int, y as int));
                return Some(Mismatch { x, y, expected: want, actual });
            }
            x = x + 1;
        }
        y = y + 1;
    }
    None
}

/// Whether the captured frame shows exactly the expected region.
pub fn validate_output(
    pixels: &[u8],
    expected: &SnapTestExpectation,
    width: i32,
    height: i32,
) -> (r: bool)
    requires
        buffer_fits(pixels@, width as int, height as int),
    ensures
        r == frame_matches(pixels@, *expected, width as int, height as int),
{
    first_mismatch(pixels, expected, width, height).is_none()
}

proof fn lemma_cells_distinct(w: int, h: int, x: int, y: int, x2: int, y2: int)
    requires
        0 <= x < w,
        0 <= y < h,
        0 <= x2 < w,
        0 <= y2 < h,
        x != x2 || y != y2,
    ensures
        (h - 1 - y) * w + x != (h - 1 - y2) * w + x2,
{
    if y != y2 {
        let d = (h - 1 - y) - (h - 1 - y2);
        assert((h - 1 - y) * w - (h - 1 - y2) * w == d * w) by (nonlinear_arith)
            requires
                d == (h - 1 - y) - (h - 1 - y2),
        ;
        if d > 0 {
            assert(d * w >= w) by (nonlinear_arith)
                requires
                    d >= 1,
                    w >= 1,
            ;
        } else {
            assert(d * w <= -w) by (nonlinear_arith)
                requires
                    d <= -1,
                    w >= 1,
            ;
        }
    }
}

/// A frame that passes the validator, with one channel of one pixel changed,
/// fails it: that pixel no longer matches, and every other pixel still does,
/// so the first mismatch reported is that pixel.
pub proof fn lemma_single_flip_detected(
    pixels: Seq<u8>,
    e: SnapTestExpectation,
    w: int,
    h: int,
    x: int,
    y: int,
    channel: int,
    value: u8,
)
    requires
        buffer_fits(pixels, w, h),
        frame_matches(pixels, e, w, h),
        0 <= x < w,
        0 <= y < h,
        0 <= channel < 4,
        value != pixels[pixel_index(w, h, x, y) + channel],
    ensures
        ({
            let flipped = pixels.update(pixel_index(w, h, x, y) + channel, value);
            &&& !frame_matches(flipped, e, w, h)
            &&& !pixel_matches(flipped, e, w, h, x, y)
            &&& forall|x2: int, y2: int|
                0 <= x2 < w && 0 <= y2 < h && (x2 != x || y2 != y)
                    ==> #[trigger] pixel_matches(flipped, e, w, h, x2, y2)
        }),
{
    lemma_index_in_bounds(w, h, x, y);
    let k = pixel_index(w, h, x, y) + channel;
    assert(0 <= k < pixels.len());
    let flipped = pixels.update(k, value);
    assert(pixel_matches(pixels, e, w, h, x, y));
    assert(flipped[k] != pixels[k]);
    assert(actual_at(flipped, w, h, x, y) != actual_at(pixels, w, h, x, y));
    assert(!pixel_matches(flipped, e, w, h, x, y));
    assert forall|x2: int, y2: int|
        0 <= x2 < w && 0 <= y2 < h && (x2 != x || y2 != y)
            implies #[trigger] pixel_matches(flipped, e, w, h, x2, y2) by {
        lemma_cells_distinct(w, h, x, y, x2, y2);
        lemma_index_in_bounds(w, h, x2, y2);
        assert(pixel_matches(pixels, e, w, h, x2, y2));
        assert(actual_at(flipped, w, h, x2, y2) == actual_at(pixels, w, h, x2, y2));
    }
}

/// The clear pass is the same each time it runs: building it twice gives the
/// same scene and no scrolls, and two frames that both pass it hold the same
/// pixels.
pub proof fn lemma_clear_idempotent(
    ctx: SnapTestContext,
    first: SnapTestResult,
    second: SnapTestResult,
    first_frame: Seq<u8>,
    second_frame: Seq<u8>,
)
    requires
        clear_built(ctx, first),
        clear_built(ctx, second),
        frame_matches(first_frame, first.expected, ctx.test_width as int, ctx.test_height as int),
        frame_matches(second_frame, second.expected, ctx.test_width as int, ctx.test_height as int),
    ensures
        first.scene == second.scene,
        first.scrolls@.len() == 0 && second.scrolls@.len() == 0,
        forall|x: int, y: int|
            0 <= x < ctx.test_width && 0 <= y < ctx.test_height ==> #[trigger] actual_at(
                first_frame,
                ctx.test_width as int,
                ctx.test_height as int,
                x,
                y,
            ) == actual_at(second_frame, ctx.test_width as int, ctx.test_height as int, x, y),
{
    let w = ctx.test_width as int;
    let h = ctx.test_height as int;
    assert forall|x: int, y: int| 0 <= x < w && 0 <= y < h implies #[trigger] actual_at(
        first_frame,
        w,
        h,
        x,
        y,
    ) == actual_at(second_frame, w, h, x, y) by {
        assert(pixel_matches(first_frame, first.expected, w, h, x, y));
        assert(pixel_matches(second_frame, second.expected, w, h, x, y));
    }
}

} // verus!
