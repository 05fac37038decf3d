//! The variants of each scenario, with the pixel delta that each must snap to.
//! The deltas are stored, not computed, so that the oracle stays apart from
//! the rounding under test; the lemmas below show that they obey the rule.
use vstd::prelude::*;
use crate::snap::snap_spec;

verus! {

/// A primitive placed at a fractional offset (hundredths of a pixel).
#[derive(Clone, Copy, Debug, PartialEq, Eq, Structural)]
pub struct SnapVariation {
    pub offset: i32,
    pub expected: i32,
}

/// A primitive inside a scroll layer that is then scrolled by `apz_scroll`.
#[derive(Clone, Copy, Debug, PartialEq, Eq, Structural)]
pub struct ScrollVariation {
    pub apz_scroll: i32,
    pub prim_offset: i32,
    pub expected: i32,
}

/// As `ScrollVariation`, with a scroll layer that starts at `external_offset`.
#[derive(Clone, Copy, Debug, PartialEq, Eq, Structural)]
pub struct ExternalScrollVariation {
    pub external_offset: i32,
    pub apz_scroll: i32,
    pub prim_offset: i32,
    pub expected: i32,
}

pub const SIMPLE_VARIANT_COUNT: usize = 13;

pub const SCROLL_VARIANT_COUNT: usize = 3;

pub const EXTERNAL_SCROLL_VARIANT_COUNT: usize = 1;

/// A fractional variant with its stored delta.
pub open spec fn sv(offset: int, expected: int) -> SnapVariation {
    SnapVariation { offset: offset as i32, expected: expected as i32 }
}

/// The fractional offsets: 0, ±0.1, ±0.25, ±0.33, ±0.49, ±0.5, +0.51, -0.51.
pub open spec fn simple_variant_spec(i: int) -> SnapVariation {
    if i == 0 { sv(0, 0) }
    else if i == 1 { sv(10, 0) }
    else if i == 2 { sv(25, 0) }
    else if i == 3 { sv(33, 0) }
    else if i == 4 { sv(49, 0) }
    else if i == 5 { sv(50, 1) }
    else if i == 6 { sv(51, 1) }
    else if i == 7 { sv(-10, 0) }
    else if i == 8 { sv(-25, 0) }
    else if i == 9 { sv(-33, 0) }
    else if i == 10 { sv(-49, 0) }
    else if i == 11 { sv(-50, 0) }
    else { sv(-51, -1) }
}

pub open spec fn scroll_variant_spec(i: int) -> ScrollVariation {
    if i == 0 {
        ScrollVariation { apz_scroll: 0i32, prim_offset: 0i32, expected: 0i32 }
    } else if i == 1 {
        ScrollVariation { apz_scroll: -100i32, prim_offset: 0i32, expected: 1i32 }
    } else {
        ScrollVariation { apz_scroll: -150i32, prim_offset: 0i32, expected: 2i32 }
    }
}

pub open spec fn external_scroll_variant_spec(i: int) -> ExternalScrollVariation {
    ExternalScrollVariation {
        external_offset: 10000i32,
        apz_scroll: -10100i32,
        prim_offset: -10000i32,
        expected: 1i32,
    }
}

/// Where a primitive in a scroll layer lands, relative to where it was laid
/// out: scrolling by `apz` moves content by `-apz`. The external offset is part
/// both of the primitive's layout position and of the sampled scroll position,
/// so it cancels.
pub open spec fn scrolled_offset(external: int, apz: int, prim: int) -> int {
    (prim + external) - (apz + external)
}

pub fn simple_variant(i: usize) -> (r: SnapVariation)
    requires
        i < SIMPLE_VARIANT_COUNT,
    ensures
        r == simple_variant_spec(i as int),
{
    match i {
        0 => SnapVariation { offset: 0, expected: 0 },
        1 => SnapVariation { offset: 10, expected: 0 },
        2 => SnapVariation { offset: 25, expected: 0 },
        3 => SnapVariation { offset: 33, expected: 0 },
        4 => SnapVariation { offset: 49, expected: 0 },
        5 => SnapVariation { offset: 50, expected: 1 },
        6 => SnapVariation { offset: 51, expected: 1 },
        7 => SnapVariation { offset: -10, expected: 0 },
        8 => SnapVariation { offset: -25, expected: 0 },
        9 => SnapVariation { offset: -33, expected: 0 },
        10 => SnapVariation { offset: -49, expected: 0 },
        11 => SnapVariation { offset: -50, expected: 0 },
        _ => SnapVariation { offset: -51, expected: -1 },
    }
}

pub fn scroll_variant(i: usize) -> (r: ScrollVariation)
    requires
        i < SCROLL_VARIANT_COUNT,
    ensures
        r == scroll_variant_spec(i as int),
{
    match i {
        0 => ScrollVariation { apz_scroll: 0, prim_offset: 0, expected: 0 },
        1 => ScrollVariation { apz_scroll: -100, prim_offset: 0, expected: 1 },
        _ => ScrollVariation { apz_scroll: -150, prim_offset: 0, expected: 2 },
    }
}

pub fn external_scroll_variant(i: usize) -> (r: ExternalScrollVariation)
    requires
        i < EXTERNAL_SCROLL_VARIANT_COUNT,
    ensures
        r == external_scroll_variant_spec(i as int),
{
    ExternalScrollVariation {
        external_offset: 10000,
        apz_scroll: -10100,
        prim_offset: -10000,
        expected: 1,
    }
}

/// Every fractional variant's stored delta is what its offset snaps to.
pub proof fn lemma_simple_variants_snap(i: int)
    requires
        0 <= i < SIMPLE_VARIANT_COUNT,
    ensures
        simple_variant_spec(i).expected == snap_spec(simple_variant_spec(i).offset as int),
{
}

/// Every scroll variant's stored delta is what the primitive's offset, moved
/// by the scroll, snaps to.
pub proof fn lemma_scroll_variants_snap(i: int)
    requires
        0 <= i < SCROLL_VARIANT_COUNT,
    ensures
        ({
            let v = scroll_variant_spec(i);
            v.expected == snap_spec(scrolled_offset(0, v.apz_scroll as int, v.prim_offset as int))
        }),
{
}

/// The external-scroll variant's stored delta is what the three offsets,
/// combined, snap to.
pub proof fn lemma_external_scroll_variants_snap(i: int)
    requires
        0 <= i < EXTERNAL_SCROLL_VARIANT_COUNT,
    ensures
        ({
            let v = external_scroll_variant_spec(i);
            v.expected == snap_spec(
                scrolled_offset(
                    v.external_offset as int,
                    v.apz_scroll as int,
                    v.prim_offset as int,
                ),
            )
        }),
{
}

} // verus!
