use snapping::catalog::{
    external_scroll_variant, scroll_variant, simple_variant, EXTERNAL_SCROLL_VARIANT_COUNT,
    SCROLL_VARIANT_COUNT, SIMPLE_VARIANT_COUNT,
};
use snapping::geometry::{black, magenta, white, Color, IntRect};
use snapping::runner::{test_at, Action, SnapRun, SnapTest, TEST_COUNT};
use snapping::scene::{
    dl_clear, dl_scrolling1, dl_scrolling_ext1, dl_simple_glyph, dl_simple_rect, Primitive,
    SnapTestContext, SnapTestExpectation, SCROLL_LAYER_ID, TEST_GLYPH,
};
use snapping::snap::snap;
use snapping::validate::{first_mismatch, validate_output};

/// A bottom-row-first RGBA buffer that shows `e` exactly.
fn render(e: &SnapTestExpectation, w: i32, h: i32) -> Vec<u8> {
    let mut out = vec![0u8; (w * h * 4) as usize];
    for y in 0..h {
        for x in 0..w {
            let inside = x >= e.expected_rect.min_x
                && x < e.expected_rect.max_x
                && y >= e.expected_rect.min_y + e.expected_offset
                && y < e.expected_rect.max_y + e.expected_offset;
            let c = if inside { e.expected_color } else { white() };
            let i = (((h - y - 1) * w + x) * 4) as usize;
            out[i] = c.r;
            out[i + 1] = c.g;
            out[i + 2] = c.b;
            out[i + 3] = c.a;
        }
    }
    out
}

#[test]
fn table_offsets_snap_to_stored_delta() {
    let table: [(i32, i32); 13] = [
        (0, 0),
        (10, 0),
        (25, 0),
        (33, 0),
        (49, 0),
        (50, 1),
        (51, 1),
        (-10, 0),
        (-25, 0),
        (-33, 0),
        (-49, 0),
        (-50, 0),
        (-51, -1),
    ];
    assert_eq!(SIMPLE_VARIANT_COUNT, 13);
    for (i, (offset, delta)) in table.iter().enumerate() {
        let v = simple_variant(i);
        assert_eq!(v.offset, *offset);
        assert_eq!(v.expected, *delta);
        assert_eq!(snap(*offset), *delta);
    }
}

#[test]
fn rounding_is_asymmetric_at_half() {
    assert_eq!(snap(50), 1);
    assert_eq!(snap(-50), 0);
    assert_eq!(snap(49), 0);
    assert_eq!(snap(-51), -1);
    assert_eq!(snap(150), 2);
    assert_eq!(snap(-150), -1);
    assert_eq!(snap(-151), -2);
    assert_eq!(snap(i32::MAX), 21474836);
    assert_eq!(snap(i32::MIN), -21474836);
}

#[test]
fn scroll_variants_compose() {
    assert_eq!(SCROLL_VARIANT_COUNT, 3);
    let expected = [(0, 0), (-100, 1), (-150, 2)];
    for i in 0..SCROLL_VARIANT_COUNT {
        let v = scroll_variant(i);
        assert_eq!((v.apz_scroll, v.expected), expected[i]);
        assert_eq!(v.prim_offset, 0);
        assert_eq!(snap(v.prim_offset - v.apz_scroll), v.expected);
    }
}

#[test]
fn external_scroll_variant_composes() {
    assert_eq!(EXTERNAL_SCROLL_VARIANT_COUNT, 1);
    let v = external_scroll_variant(0);
    assert_eq!(v.external_offset, 10000);
    assert_eq!(v.apz_scroll, -10100);
    assert_eq!(v.prim_offset, -10000);
    assert_eq!(v.expected, 1);
    let net = (v.prim_offset + v.external_offset) - (v.apz_scroll + v.external_offset);
    assert_eq!(snap(net), 1);
}

#[test]
fn scrolling_scenes_carry_one_scroll() {
    let r = dl_scrolling1(&SnapTestContext::new(2));
    assert_eq!(r.scrolls.len(), 1);
    assert_eq!(r.scrolls[0].external_scroll_id, SCROLL_LAYER_ID);
    assert_eq!(r.scrolls[0].amount, -150);
    assert_eq!(r.expected.expected_offset, 2);
    let frame = r.scene.scroll_frame.unwrap();
    assert_eq!(frame.external_offset, 0);
    assert_eq!(frame.viewport.max_y, 10000);
    assert_eq!(frame.content.max_y, 100000);

    let r = dl_scrolling_ext1(&SnapTestContext::new(0));
    assert_eq!(r.scrolls.len(), 1);
    assert_eq!(r.scrolls[0].amount, -10100);
    assert_eq!(r.scene.scroll_frame.unwrap().external_offset, 10000);
    assert_eq!(r.expected.expected_offset, 1);
    match r.scene.primitive {
        Primitive::Rect { bounds, .. } => {
            assert_eq!(bounds.min_y, 500 - 10000);
            assert_eq!(bounds.max_y, 1500 - 10000);
        }
        _ => panic!("expected a rectangle"),
    }
}

#[test]
fn clear_pass_is_idempotent() {
    let ctx = SnapTestContext::new(0);
    let a = dl_clear(&ctx);
    let b = dl_clear(&ctx);
    assert_eq!(a.scene, b.scene);
    assert!(a.scrolls.is_empty() && b.scrolls.is_empty());
    assert_eq!(a.expected, b.expected);
    assert_eq!(a.expected.expected_color, magenta());
    assert_eq!(
        a.expected.expected_rect,
        IntRect { min_x: 0, min_y: 0, max_x: 20, max_y: 20 }
    );
    assert_eq!(a.expected.expected_offset, 0);
    let fa = render(&a.expected, 20, 20);
    let fb = render(&b.expected, 20, 20);
    assert_eq!(fa, fb);
    assert!(validate_output(&fa, &a.expected, 20, 20));
    assert!(fa.chunks(4).all(|p| p == [255, 0, 255, 255]));
}

#[test]
fn validator_accepts_match_and_reports_flip() {
    let ctx = SnapTestContext::new(5);
    let r = dl_simple_rect(&ctx);
    let mut pixels = render(&r.expected, 20, 20);
    assert!(validate_output(&pixels, &r.expected, 20, 20));
    assert_eq!(first_mismatch(&pixels, &r.expected, 20, 20), None);

    // (7, 9) lies inside the rectangle moved down by one pixel.
    let (x, y) = (7usize, 9usize);
    let i = ((20 - y - 1) * 20 + x) * 4;
    pixels[i + 2] = 0x80;
    assert!(!validate_output(&pixels, &r.expected, 20, 20));
    let m = first_mismatch(&pixels, &r.expected, 20, 20).unwrap();
    assert_eq!((m.x, m.y), (7, 9));
    assert_eq!(m.expected, black());
    assert_eq!(m.actual, Color { r: 0, g: 0, b: 0x80, a: 255 });
}

#[test]
fn validator_rejects_wrong_background() {
    let r = dl_simple_rect(&SnapTestContext::new(0));
    let mut pixels = render(&r.expected, 20, 20);
    // Logical (0, 0) is stored in the last row.
    let i = 19 * 20 * 4;
    pixels[i + 3] = 0;
    let m = first_mismatch(&pixels, &r.expected, 20, 20).unwrap();
    assert_eq!((m.x, m.y), (0, 0));
    assert_eq!(m.expected, white());
}

#[test]
fn rect_half_pixel_shifts_by_one() {
    let below = dl_simple_rect(&SnapTestContext::new(4));
    let at = dl_simple_rect(&SnapTestContext::new(5));
    let centred = IntRect { min_x: 5, min_y: 5, max_x: 15, max_y: 15 };
    assert_eq!(below.expected.expected_rect, centred);
    assert_eq!(at.expected.expected_rect, centred);
    assert_eq!(below.expected.expected_color, black());
    assert_eq!(below.expected.expected_offset, 0);
    assert_eq!(at.expected.expected_offset, 1);
    match below.scene.primitive {
        Primitive::Rect { bounds, color } => {
            assert_eq!(color, black());
            assert_eq!((bounds.min_x, bounds.min_y, bounds.max_x, bounds.max_y), (500, 549, 1500, 1549));
        }
        _ => panic!("expected a rectangle"),
    }
    let fb = render(&below.expected, 20, 20);
    let fa = render(&at.expected, 20, 20);
    // The frames differ only by a one-pixel vertical shift.
    assert_ne!(fb, fa);
    let row = 20 * 4;
    assert_eq!(fb[row..], fa[..fa.len() - row]);
    assert!(!validate_output(&fb, &at.expected, 20, 20));
    assert!(validate_output(&fa, &at.expected, 20, 20));
}

#[test]
fn glyph_sits_on_its_baseline() {
    let r = dl_simple_glyph(&SnapTestContext::new(12));
    match r.scene.primitive {
        Primitive::Glyph { bounds, glyph, x, y, color } => {
            assert_eq!(glyph, TEST_GLYPH);
            assert_eq!(bounds.min_y, 500 - 51);
            assert_eq!(x, 500);
            assert_eq!(y, 500 - 51 + 800);
            assert_eq!(color, black());
        }
        _ => panic!("expected a glyph"),
    }
    assert_eq!(r.expected.expected_offset, -1);
    assert!(r.scrolls.is_empty());
}

#[test]
fn scenario_names_and_counts() {
    let names: Vec<&str> = (0..TEST_COUNT).map(|i| test_at(i).name()).collect();
    assert_eq!(names, vec!["rect", "glyph", "scroll1", "rect-apz-ext-1"]);
    assert_eq!(SnapTest::Clear.name(), "clear");
    assert_eq!(SnapTest::Clear.variations(), 1);
    assert_eq!(SnapTest::Glyph.variations(), 13);
    assert_eq!(SnapTest::ScrollExternal.variations(), 1);
    let built = SnapTest::Scroll.build(&SnapTestContext::new(1));
    assert_eq!(built.expected.expected_offset, 1);
}

#[test]
fn run_visits_every_variant_then_passes() {
    let mut run = SnapRun::new();
    let mut seen = Vec::new();
    let mut clears = 0;
    loop {
        match run.action() {
            Action::RunTest { test, variant } => seen.push((test, variant)),
            Action::RunClear => clears += 1,
            Action::Finish { passed } => {
                assert!(passed);
                break;
            }
            Action::Abort => panic!("no clear pass failed"),
        }
        run.report(true);
    }
    assert_eq!(seen.len(), 30);
    assert_eq!(clears, 30);
    assert_eq!(seen[0], (SnapTest::Rect, 0));
    assert_eq!(seen[13], (SnapTest::Glyph, 0));
    assert_eq!(seen[26], (SnapTest::Scroll, 0));
    assert_eq!(seen[29], (SnapTest::ScrollExternal, 0));
}

#[test]
fn run_records_failure_and_continues() {
    let mut run = SnapRun::new();
    let mut tests = 0;
    loop {
        match run.action() {
            Action::RunTest { .. } => {
                tests += 1;
                // Only the second variant fails.
                run.report(tests != 2);
            }
            Action::RunClear => run.report(true),
            Action::Finish { passed } => {
                assert!(!passed);
                break;
            }
            Action::Abort => panic!("no clear pass failed"),
        }
    }
    assert_eq!(tests, 30);
}

#[test]
fn run_aborts_when_clear_fails() {
    let mut run = SnapRun::new();
    run.report(true);
    assert_eq!(run.action(), Action::RunClear);
    run.report(false);
    assert_eq!(run.action(), Action::Abort);
    run.report(true);
    assert_eq!(run.action(), Action::Abort);
}
