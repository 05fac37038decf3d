//! The scene built for each scenario and variant, described in plain values,
//! with the region that the rendered frame is expected to show.
use vstd::prelude::*;
use crate::catalog::{
    external_scroll_variant, external_scroll_variant_spec, scroll_variant, scroll_variant_spec,
    simple_variant, simple_variant_spec, EXTERNAL_SCROLL_VARIANT_COUNT, SCROLL_VARIANT_COUNT,
    SIMPLE_VARIANT_COUNT,
};
use crate::geometry::{black, black_spec, magenta, magenta_spec, Color, IntRect, LayoutRect};

verus! {

/// The shared context of a run, and the variant being built.
#[derive(Clone, Copy, Debug, PartialEq, Eq, Structural)]
pub struct SnapTestContext {
    pub test_width: i32,
    pub test_height: i32,
    /// Font size in hundredths of a pixel.
    pub font_size: i32,
    pub variant: usize,
}

/// The canvas's width and height in pixels: small, a multiple of five (the
/// test font's baseline falls on a whole pixel) and even (the test rectangle
/// is centred).
pub const TEST_SIZE: i32 = 20;

impl SnapTestContext {
    /// The context of variant `variant` on the test canvas, with a font half
    /// as tall as the canvas is wide.
    pub fn new(variant: usize) -> (r: SnapTestContext)
        ensures
            r == (SnapTestContext {
                test_width: TEST_SIZE,
                test_height: TEST_SIZE,
                font_size: (TEST_SIZE * 50) as i32,
                variant,
            }),
            size_ok(r),
    {
        SnapTestContext { test_width: TEST_SIZE, test_height: TEST_SIZE, font_size: TEST_SIZE * 50, variant }
    }
}

/// The region a frame must show: `rect` moved down by `offset` pixels, filled
/// with `color`, on a white background.
#[derive(Clone, Copy, Debug, PartialEq, Eq, Structural)]
pub struct SnapTestExpectation {
    pub expected_color: Color,
    pub expected_rect: IntRect,
    pub expected_offset: i32,
}

/// A scroll offset (hundredths of a pixel, vertical) to apply to a scroll layer
/// once the first frame is out.
#[derive(Clone, Copy, Debug, PartialEq, Eq, Structural)]
pub struct ScrollRequest {
    pub external_scroll_id: u64,
    pub amount: i32,
}

/// A scroll layer hung from the root: its content and viewport sizes, and the
/// offset it already has from outside the renderer (hundredths of a pixel).
#[derive(Clone, Copy, Debug, PartialEq, Eq, Structural)]
pub struct ScrollFrame {
    pub external_scroll_id: u64,
    pub content: LayoutRect,
    pub viewport: LayoutRect,
    pub external_offset: i32,
}

/// The one primitive of a scene.
#[derive(Clone, Copy, Debug, PartialEq, Eq, Structural)]
pub enum Primitive {
    Rect { bounds: LayoutRect, color: Color },
    /// One glyph of the test font, drawn with its origin at `(x, y)`.
    Glyph { bounds: LayoutRect, glyph: u32, x: i64, y: i64, color: Color },
}

/// A scene: one primitive, placed in `scroll_frame` where there is one and
/// in the root space otherwise.
#[derive(Clone, Copy, Debug, PartialEq, Eq, Structural)]
pub struct Scene {
    pub scroll_frame: Option<ScrollFrame>,
    pub primitive: Primitive,
}

/// What building a variant gives: the scene, the scrolls to apply in order,
/// and the expected region.
#[derive(Clone, Debug)]
pub struct SnapTestResult {
    pub scene: Scene,
    pub scrolls: Vec<ScrollRequest>,
    pub expected: SnapTestExpectation,
}

/// The scroll layer that the scrolling scenarios place their rectangle in.
pub const SCROLL_LAYER_ID: u64 = 1;

/// The glyph of the test font that fills its whole em box.
pub const TEST_GLYPH: u32 = 0x41;

/// The rectangle of half the canvas's size, centred in it.
pub open spec fn centered_rect_spec(w: int, h: int) -> IntRect {
    IntRect {
        min_x: ((w - w / 2) / 2) as i32,
        min_y: ((h - h / 2) / 2) as i32,
        max_x: ((w - w / 2) / 2 + w / 2) as i32,
        max_y: ((h - h / 2) / 2 + h / 2) as i32,
    }
}

/// `rect` in layout units, moved down by `dy` hundredths.
pub open spec fn layout_of(rect: IntRect, dy: int) -> LayoutRect {
    LayoutRect {
        min_x: (rect.min_x * 100) as i64,
        min_y: (rect.min_y * 100 + dy) as i64,
        max_x: (rect.max_x * 100) as i64,
        max_y: (rect.max_y * 100 + dy) as i64,
    }
}

/// The scroll layer of the scrolling scenarios: 100 by 1000 pixels of content
/// seen through a 100 by 100 viewport.
pub open spec fn scroll_frame_spec(external_offset: int) -> ScrollFrame {
    ScrollFrame {
        external_scroll_id: SCROLL_LAYER_ID,
        content: LayoutRect { min_x: 0, min_y: 0, max_x: 10000, max_y: 100000 },
        viewport: LayoutRect { min_x: 0, min_y: 0, max_x: 10000, max_y: 10000 },
        external_offset: external_offset as i32,
    }
}

/// The canvas and the font have sizes of at least zero.
pub open spec fn size_ok(ctx: SnapTestContext) -> bool {
    0 <= ctx.test_width && 0 <= ctx.test_height && 0 <= ctx.font_size
}

/// What `dl_clear` gives for `ctx`.
pub open spec fn clear_built(ctx: SnapTestContext, r: SnapTestResult) -> bool {
    let full = IntRect { min_x: 0, min_y: 0, max_x: ctx.test_width, max_y: ctx.test_height };
    &&& r.scene == (Scene {
        scroll_frame: None,
        primitive: Primitive::Rect { bounds: layout_of(full, 0), color: magenta_spec() },
    })
    &&& r.scrolls@ == Seq::<ScrollRequest>::empty()
    &&& r.expected == (SnapTestExpectation {
        expected_color: magenta_spec(),
        expected_rect: full,
        expected_offset: 0,
    })
}

/// What `dl_simple_rect` gives for `ctx`.
pub open spec fn simple_rect_built(ctx: SnapTestContext, r: SnapTestResult) -> bool {
    let v = simple_variant_spec(ctx.variant as int);
    let rect = centered_rect_spec(ctx.test_width as int, ctx.test_height as int);
    &&& r.scene == (Scene {
        scroll_frame: None,
        primitive: Primitive::Rect { bounds: layout_of(rect, v.offset as int), color: black_spec() },
    })
    &&& r.scrolls@ == Seq::<ScrollRequest>::empty()
    &&& r.expected == (SnapTestExpectation {
        expected_color: black_spec(),
        expected_rect: rect,
        expected_offset: v.expected,
    })
}

/// What `dl_simple_glyph` gives for `ctx`.
pub open spec fn simple_glyph_built(ctx: SnapTestContext, r: SnapTestResult) -> bool {
    let v = simple_variant_spec(ctx.variant as int);
    let rect = centered_rect_spec(ctx.test_width as int, ctx.test_height as int);
    let bounds = layout_of(rect, v.offset as int);
    &&& r.scene == (Scene {
        scroll_frame: None,
        primitive: Primitive::Glyph {
            bounds,
            glyph: TEST_GLYPH,
            x: bounds.min_x,
            y: (bounds.min_y + ctx.font_size * 4 / 5) as i64,
            color: black_spec(),
        },
    })
    &&& r.scrolls@ == Seq::<ScrollRequest>::empty()
    &&& r.expected == (SnapTestExpectation {
        expected_color: black_spec(),
        expected_rect: rect,
        expected_offset: v.expected,
    })
}

/// What `dl_scrolling1` gives for `ctx`.
pub open spec fn scrolling_built(ctx: SnapTestContext, r: SnapTestResult) -> bool {
    let v = scroll_variant_spec(ctx.variant as int);
    let rect = centered_rect_spec(ctx.test_width as int, ctx.test_height as int);
    &&& r.scene == (Scene {
        scroll_frame: Some(scroll_frame_spec(0)),
        primitive: Primitive::Rect { bounds: layout_of(rect, v.prim_offset as int), color: black_spec() },
    })
    &&& r.scrolls@ == seq![ScrollRequest { external_scroll_id: SCROLL_LAYER_ID, amount: v.apz_scroll }]
    &&& r.expected == (SnapTestExpectation {
        expected_color: black_spec(),
        expected_rect: rect,
        expected_offset: v.expected,
    })
}

/// What `dl_scrolling_ext1` gives for `ctx`.
pub open spec fn scrolling_ext_built(ctx: SnapTestContext, r: SnapTestResult) -> bool {
    let v = external_scroll_variant_spec(ctx.variant as int);
    let rect = centered_rect_spec(ctx.test_width as int, ctx.test_height as int);
    &&& r.scene == (Scene {
        scroll_frame: Some(scroll_frame_spec(v.external_offset as int)),
        primitive: Primitive::Rect { bounds: layout_of(rect, v.prim_offset as int), color: black_spec() },
    })
    &&& r.scrolls@ == seq![ScrollRequest { external_scroll_id: SCROLL_LAYER_ID, amount: v.apz_scroll }]
    &&& r.expected == (SnapTestExpectation {
        expected_color: black_spec(),
        expected_rect: rect,
        expected_offset: v.expected,
    })
}

pub fn centered_rect(w: i32, h: i32) -> (r: IntRect)
    requires
    0 <= w,
    0 <= h,
    ensures
    r == centered_rect_spec(w as int, h as int),
{
    let pw = w / 2;
    let ph = h / 2;
    let x0 = (w - pw) / 2;
    let y0 = (h - ph) / 2;
    IntRect { min_x: x0, min_y: y0, max_x: x0 + pw, max_y: y0 + ph }
}

fn make_scroll_frame(external_offset: i32) -> (r: ScrollFrame)
    ensures
        r == scroll_frame_spec(external_offset as int),
{
    ScrollFrame {
        external_scroll_id: SCROLL_LAYER_ID,
        content: LayoutRect { min_x: 0, min_y: 0, max_x: 10000, max_y: 100000 },
        viewport: LayoutRect { min_x: 0, min_y: 0, max_x: 10000, max_y: 10000 },
        external_offset,
    }
}

/// Fills the whole canvas with magenta; the frame must then be all magenta.
pub fn dl_clear(ctx: &SnapTestContext) -> (r: SnapTestResult)
    requires
        size_ok(*ctx),
    ensures
        clear_built(*ctx, r),
{
    let full = IntRect { min_x: 0, min_y: 0, max_x: ctx.test_width, max_y: ctx.test_height };
    let color = magenta();
    let bounds = full.to_layout_shifted(0);
    SnapTestResult {
        scene: Scene { scroll_frame: None, primitive: Primitive::Rect { bounds, color } },
        scrolls: Vec::new(),
        expected: SnapTestExpectation { expected_color: color, expected_rect: full, expected_offset: 0 },
    }
}

/// A black rectangle at the canvas's centre, moved down by the variant's
/// fractional offset.
pub fn dl_simple_rect(ctx: &SnapTestContext) -> (r: SnapTestResult)
    requires
        size_ok(*ctx),
        ctx.variant < SIMPLE_VARIANT_COUNT,
    ensures
        simple_rect_built(*ctx, r),
{
    let v = simple_variant(ctx.variant);
    let rect = centered_rect(ctx.test_width, ctx.test_height);
    let color = black();
    let bounds = rect.to_layout_shifted(v.offset);
    SnapTestResult {
        scene: Scene { scroll_frame: None, primitive: Primitive::Rect { bounds, color } },
        scrolls: Vec::new(),
        expected: SnapTestExpectation { expected_color: color, expected_rect: rect, expected_offset: v.expected },
    }
}

/// A black glyph of the test font at the canvas's centre, moved down by the
/// variant's fractional offset; its baseline stands at 0.8 of the font size.
pub fn dl_simple_glyph(ctx: &SnapTestContext) -> (r: SnapTestResult)
    requires
        size_ok(*ctx),
        ctx.variant < SIMPLE_VARIANT_COUNT,
    ensures
        simple_glyph_built(*ctx, r),
{
    let v = simple_variant(ctx.variant);
    let rect = centered_rect(ctx.test_width, ctx.test_height);
    let color = black();
    let bounds = rect.to_layout_shifted(v.offset);
    let baseline = ctx.font_size as i64 * 4 / 5;
    let primitive = Primitive::Glyph {
        bounds,
        glyph: TEST_GLYPH,
        x: bounds.min_x,
        y: bounds.min_y + baseline,
        color,
    };
    SnapTestResult {
        scene: Scene { scroll_frame: None, primitive },
        scrolls: Vec::new(),
        expected: SnapTestExpectation { expected_color: color, expected_rect: rect, expected_offset: v.expected },
    }
}

/// A black rectangle at the centre of a scroll layer, which is then scrolled
/// by the variant's amount.
pub fn dl_scrolling1(ctx: &SnapTestContext) -> (r: SnapTestResult)
    requires
        size_ok(*ctx),
        ctx.variant < SCROLL_VARIANT_COUNT,
    ensures
        scrolling_built(*ctx, r),
{
    let v = scroll_variant(ctx.variant);
    let rect = centered_rect(ctx.test_width, ctx.test_height);
    let color = black();
    let bounds = rect.to_layout_shifted(v.prim_offset);
    let frame = make_scroll_frame(0);
    let mut scrolls: Vec<ScrollRequest> = Vec::new();
    scrolls.push(ScrollRequest { external_scroll_id: SCROLL_LAYER_ID, amount: v.apz_scroll });
    SnapTestResult {
        scene: Scene { scroll_frame: Some(frame), primitive: Primitive::Rect { bounds, color } },
        scrolls,
        expected: SnapTestExpectation { expected_color: color, expected_rect: rect, expected_offset: v.expected },
    }
}

/// As `dl_scrolling1`, with a scroll layer that already holds the variant's
/// external offset before the scroll.
pub fn dl_scrolling_ext1(ctx: &SnapTestContext) -> (r: SnapTestResult)
    requires
        size_ok(*ctx),
        ctx.variant < EXTERNAL_SCROLL_VARIANT_COUNT,
    ensures
        scrolling_ext_built(*ctx, r),
{
    let v = external_scroll_variant(ctx.variant);
    let rect = centered_rect(ctx.test_width, ctx.test_height);
    let color = black();
    let bounds = rect.to_layout_shifted(v.prim_offset);
    let frame = make_scroll_frame(v.external_offset);
    let mut scrolls: Vec<ScrollRequest> = Vec::new();
    scrolls.push(ScrollRequest { external_scroll_id: SCROLL_LAYER_ID, amount: v.apz_scroll });
    SnapTestResult {
        scene: Scene { scroll_frame: Some(frame), primitive: Primitive::Rect { bounds, color } },
        scrolls,
        expected: SnapTestExpectation { expected_color: color, expected_rect: rect, expected_offset: v.expected },
    }
}

} // verus!
