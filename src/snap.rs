//! The snapping rule, on offsets held in hundredths of a device pixel.
use vstd::prelude::*;
use vstd::arithmetic::div_mod::lemma_hoist_over_denominator;

verus! {

/// The pixel that an offset (in hundredths) snaps to. The half-open interval
/// `[k - 0.5, k + 0.5)` goes to `k`: a tie at `+0.5` goes up, one at `-0.5`
/// goes up too, that is towards zero.
pub open spec fn snap_spec(offset: int) -> int {
    (offset + 50) / 100
}

/// Snaps an offset given in hundredths of a pixel to a whole pixel.
pub fn snap(offset: i32) -> (r: i32)
    ensures
        r == snap_spec(offset as int),
{
    // Lift the value well above zero so that division floors.
    let lifted: i64 = offset as i64 + 50 + 2_200_000_000;
    proof {
        lemma_hoist_over_denominator(offset as int + 50, 22_000_000, 100);
    }
    (lifted / 100 - 22_000_000) as i32
}

} // verus!
