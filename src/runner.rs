//! The scenarios, and the state machine that sequences a run over them: each
//! variant of each scenario in turn, each followed by the clear pass.
use vstd::prelude::*;
use crate::catalog::{
    lemma_external_scroll_variants_snap, lemma_scroll_variants_snap, lemma_simple_variants_snap,
    scrolled_offset, EXTERNAL_SCROLL_VARIANT_COUNT, SCROLL_VARIANT_COUNT, SIMPLE_VARIANT_COUNT,
};
use crate::scene::{
    clear_built, dl_clear, dl_scrolling1, dl_scrolling_ext1, dl_simple_glyph, dl_simple_rect,
    scrolling_built, scrolling_ext_built, simple_glyph_built, simple_rect_built, size_ok,
    Primitive, SnapTestContext, SnapTestResult,
};
use crate::snap::snap_spec;

verus! {

/// A scenario: what its scene holds, and how many variants it has.
#[derive(Clone, Copy, Debug, PartialEq, Eq, Structural)]
pub enum SnapTest {
    /// The whole canvas in magenta, run between variants to defeat cached output.
    Clear,
    /// A rectangle, no scroll.
    Rect,
    /// A glyph, no scroll.
    Glyph,
    /// A rectangle in a scroll layer.
    Scroll,
    /// A rectangle in a scroll layer with an external offset.
    ScrollExternal,
}

/// The scenarios a run goes through, in order; `Clear` is run between them.
pub const TEST_COUNT: usize = 4;

pub open spec fn test_at_spec(i: int) -> SnapTest {
    if i == 0 {
        SnapTest::Rect
    } else if i == 1 {
        SnapTest::Glyph
    } else if i == 2 {
        SnapTest::Scroll
    } else {
        SnapTest::ScrollExternal
    }
}

pub fn test_at(i: usize) -> (r: SnapTest)
    requires
        i < TEST_COUNT,
    ensures
        r == test_at_spec(i as int),
{
    match i {
        0 => SnapTest::Rect,
        1 => SnapTest::Glyph,
        2 => SnapTest::Scroll,
        _ => SnapTest::ScrollExternal,
    }
}

/// What building variant `ctx.variant` of `test` gives.
pub open spec fn built(test: SnapTest, ctx: SnapTestContext, r: SnapTestResult) -> bool {
    match test {
        SnapTest::Clear => clear_built(ctx, r),
        SnapTest::Rect => simple_rect_built(ctx, r),
        SnapTest::Glyph => simple_glyph_built(ctx, r),
        SnapTest::Scroll => scrolling_built(ctx, r),
        SnapTest::ScrollExternal => scrolling_ext_built(ctx, r),
    }
}

impl SnapTest {
    pub open spec fn variations_spec(self) -> usize {
        match self {
            SnapTest::Clear => 1,
            SnapTest::Rect => SIMPLE_VARIANT_COUNT,
            SnapTest::Glyph => SIMPLE_VARIANT_COUNT,
            SnapTest::Scroll => SCROLL_VARIANT_COUNT,
            SnapTest::ScrollExternal => EXTERNAL_SCROLL_VARIANT_COUNT,
        }
    }

    /// The number of variants of the scenario.
    #[verifier::when_used_as_spec(variations_spec)]
    pub fn variations(self) -> (r: usize)
        ensures
            r == self.variations_spec(),
            r >= 1,
    {
        match self {
            SnapTest::Clear => 1,
            SnapTest::Rect => SIMPLE_VARIANT_COUNT,
            SnapTest::Glyph => SIMPLE_VARIANT_COUNT,
            SnapTest::Scroll => SCROLL_VARIANT_COUNT,
            SnapTest::ScrollExternal => EXTERNAL_SCROLL_VARIANT_COUNT,
        }
    }

    /// The scenario's name, as diagnostics print it.
    pub fn name(self) -> &'static str {
        match self {
            SnapTest::Clear => "clear",
            SnapTest::Rect => "rect",
            SnapTest::Glyph => "glyph",
            SnapTest::Scroll => "scroll1",
            SnapTest::ScrollExternal => "rect-apz-ext-1",
        }
    }

    /// Builds the scene of variant `ctx.variant` with its expectation.
    pub fn build(self, ctx: &SnapTestContext) -> (r: SnapTestResult)
        requires
            size_ok(*ctx),
            ctx.variant < self.variations_spec(),
        ensures
            built(self, *ctx, r),
    {
        match self {
            SnapTest::Clear => dl_clear(ctx),
            SnapTest::Rect => dl_simple_rect(ctx),
            SnapTest::Glyph => dl_simple_glyph(ctx),
            SnapTest::Scroll => dl_scrolling1(ctx),
            SnapTest::ScrollExternal => dl_scrolling_ext1(ctx),
        }
    }
}

/// How far below the expected rectangle the scene's primitive was laid out,
/// in hundredths of a pixel.
pub open spec fn layout_shift(r: SnapTestResult) -> int {
    let bounds = match r.scene.primitive {
        Primitive::Rect { bounds, .. } => bounds,
        Primitive::Glyph { bounds, .. } => bounds,
    };
    bounds.min_y - r.expected.expected_rect.min_y * 100
}

/// Where the primitive lands once the scene's scroll is applied, relative to
/// the expected rectangle, in hundredths of a pixel.
pub open spec fn landed_offset(r: SnapTestResult) -> int {
    match r.scene.scroll_frame {
        None => layout_shift(r),
        Some(frame) => scrolled_offset(
            frame.external_offset as int,
            r.scrolls@[0].amount as int,
            layout_shift(r),
        ),
    }
}

/// For every scenario and variant, the pixel offset the frame is expected to
/// show is what the primitive's placement, with the scroll applied, snaps to.
pub proof fn lemma_expected_offset_snaps(test: SnapTest, ctx: SnapTestContext, r: SnapTestResult)
    requires
        size_ok(ctx),
        ctx.variant < test.variations_spec(),
        built(test, ctx, r),
    ensures
        r.expected.expected_offset == snap_spec(landed_offset(r)),
{
    match test {
        SnapTest::Clear => {},
        SnapTest::Rect => lemma_simple_variants_snap(ctx.variant as int),
        SnapTest::Glyph => lemma_simple_variants_snap(ctx.variant as int),
        SnapTest::Scroll => lemma_scroll_variants_snap(ctx.variant as int),
        SnapTest::ScrollExternal => lemma_external_scroll_variants_snap(ctx.variant as int),
    }
}

/// Where a run stands: about to run a variant, about to run the clear pass
/// after it, finished, or stopped because the clear pass failed.
#[derive(Clone, Copy, Debug, PartialEq, Eq, Structural)]
pub enum Phase {
    Test,
    Clear,
    Done,
    Aborted,
}

/// What the driver of a run is to do next.
#[derive(Clone, Copy, Debug, PartialEq, Eq, Structural)]
pub enum Action {
    /// Render variant `variant` of `test`, capture and validate it, and report
    /// whether it passed.
    RunTest { test: SnapTest, variant: usize },
    /// Render the clear scene, capture and validate it, and report whether it
    /// passed.
    RunClear,
    /// The run is over; it passed if no variant failed.
    Finish { passed: bool },
    /// The clear pass failed: the renderer cannot be trusted, stop at once.
    Abort,
}

/// The state of a run over every variant of every scenario.
#[derive(Clone, Copy, Debug, PartialEq, Eq, Structural)]
pub struct SnapRun {
    pub test: usize,
    pub variant: usize,
    pub phase: Phase,
    pub any_fails: bool,
}

impl SnapRun {
    /// The run points at an existing variant of an existing scenario.
    pub open spec fn wf(self) -> bool {
        self.test < TEST_COUNT && self.variant < test_at_spec(self.test as int).variations_spec()
    }

    pub open spec fn action_spec(self) -> Action {
        match self.phase {
            Phase::Test => Action::RunTest { test: test_at_spec(self.test as int), variant: self.variant },
            Phase::Clear => Action::RunClear,
            Phase::Done => Action::Finish { passed: !self.any_fails },
            Phase::Aborted => Action::Abort,
        }
    }

    /// The state after the outcome `ok` of the action of `self`. A failed
    /// variant is recorded and the run goes on; a failed clear pass stops it;
    /// after the clear pass comes the next variant, then the next scenario.
    pub open spec fn next_spec(self, ok: bool) -> SnapRun {
        match self.phase {
            Phase::Test => SnapRun {
                test: self.test,
                variant: self.variant,
                phase: Phase::Clear,
                any_fails: self.any_fails || !ok,
            },
            Phase::Clear => if !ok {
                SnapRun { test: self.test, variant: self.variant, phase: Phase::Aborted, any_fails: self.any_fails }
            } else if self.variant + 1 < test_at_spec(self.test as int).variations_spec() {
                SnapRun { test: self.test, variant: (self.variant + 1) as usize, phase: Phase::Test, any_fails: self.any_fails }
            } else if self.test + 1 < TEST_COUNT {
                SnapRun { test: (self.test + 1) as usize, variant: 0, phase: Phase::Test, any_fails: self.any_fails }
            } else {
                SnapRun { test: self.test, variant: self.variant, phase: Phase::Done, any_fails: self.any_fails }
            },
            _ => self,
        }
    }

    /// A run about to start on the first variant of the first scenario.
    pub fn new() -> (r: SnapRun)
        ensures
            r.wf(),
            r == (SnapRun { test: 0, variant: 0, phase: Phase::Test, any_fails: false }),
    {
        SnapRun { test: 0, variant: 0, phase: Phase::Test, any_fails: false }
    }

    /// What to do next.
    pub fn action(&self) -> (r: Action)
        requires
            self.wf(),
        ensures
            r == self.action_spec(),
    {
        match self.phase {
            Phase::Test => Action::RunTest { test: test_at(self.test), variant: self.variant },
            Phase::Clear => Action::RunClear,
            Phase::Done => Action::Finish { passed: !self.any_fails },
            Phase::Aborted => Action::Abort,
        }
    }

    /// Takes the outcome of the last action.
    pub fn report(&mut self, ok: bool)
        requires
            old(self).wf(),
        ensures
            final(self).wf(),
            *final(self) == old(self).next_spec(ok),
    {
        match self.phase {
            Phase::Test => {
                self.phase = Phase::Clear;
                self.any_fails = self.any_fails || !ok;
            },
            Phase::Clear => {
                if !ok {
                    self.phase = Phase::Aborted;
                } else if self.variant + 1 < test_at(self.test).variations() {
                    self.variant = self.variant + 1;
                    self.phase = Phase::Test;
                } else if self.test + 1 < TEST_COUNT {
                    self.test = self.test + 1;
                    self.variant = 0;
                    self.phase = Phase::Test;
                } else {
                    self.phase = Phase::Done;
                }
            },
            _ => {},
        }
    }
}

} // verus!
