//! The dual-source arbiter: two shaped stick readings become one vector.

use crate::settings::DualStickPriority;
use vstd::math::abs;
use vstd::prelude::*;

verus! {

/// A shaped stick reading: deadzone-corrected deflection on both axes,
/// still in raw-magnitude units, not yet scaled by sensitivity or time.
#[derive(Clone, Copy, Debug, PartialEq, Eq, Structural)]
pub struct StickVec {
    pub x: i32,
    pub y: i32,
}

/// A stick counts as active when either component's magnitude exceeds the
/// threshold.
pub open spec fn stick_active(v: (int, int), threshold: int) -> bool {
    abs(v.0) > threshold || abs(v.1) > threshold
}

/// Squared Euclidean magnitude of a reading.
pub open spec fn magnitude_sq(v: (int, int)) -> int {
    v.0 * v.0 + v.1 * v.1
}

/// What each combine policy selects. Ties under `LargestMagnitude` favor
/// the first stick; `CombineAdditive` sums component-wise with no clamping,
/// so its result is stated over unbounded integers.
pub open spec fn arbitrate_spec(
    a: (int, int),
    b: (int, int),
    threshold: int,
    policy: DualStickPriority,
) -> (int, int) {
    match policy {
        DualStickPriority::Stick1First => if stick_active(a, threshold) {
            a
        } else {
            b
        },
        DualStickPriority::Stick2First => if stick_active(b, threshold) {
            b
        } else {
            a
        },
        DualStickPriority::LargestMagnitude => if magnitude_sq(a) >= magnitude_sq(b) {
            a
        } else {
            b
        },
        DualStickPriority::CombineAdditive => (a.0 + b.0, a.1 + b.1),
    }
}

/// Under the first-priority policy, a first stick resting inside the
/// threshold never masks the second: with the first at `(t - 1, 0)` and the
/// second past the threshold, the second is chosen, for every threshold of
/// at least one.
pub proof fn lemma_first_priority_yields(a: (int, int), b: (int, int), threshold: int)
    requires
        threshold >= 1,
        a.0 == threshold - 1,
        a.1 == 0,
    ensures
        arbitrate_spec(a, b, threshold, DualStickPriority::Stick1First) == b,
{
}

/// Combine two simultaneous shaped readings under the configured policy.
///
/// The threshold is in shaped units. The additive policy sums components
/// without clamping, so under it the caller must leave room in `i32`;
/// shaped readings are far inside that bound.
pub fn arbitrate(a: StickVec, b: StickVec, threshold: i32, policy: DualStickPriority) -> (r:
    StickVec)
    requires
        policy is CombineAdditive ==> i32::MIN <= a.x + b.x <= i32::MAX && i32::MIN <= a.y + b.y
            <= i32::MAX,
    ensures
        (r.x as int, r.y as int) == arbitrate_spec(
            (a.x as int, a.y as int),
            (b.x as int, b.y as int),
            threshold as int,
            policy,
        ),
{
    match policy {
        DualStickPriority::Stick1First => {
            if stick_exceeds(a, threshold) {
                a
            } else {
                b
            }
        },
        DualStickPriority::Stick2First => {
            if stick_exceeds(b, threshold) {
                b
            } else {
                a
            }
        },
        DualStickPriority::LargestMagnitude => {
            let ma: i128 = square(a.x) + square(a.y);
            let mb: i128 = square(b.x) + square(b.y);
            if ma >= mb {
                a
            } else {
                b
            }
        },
        DualStickPriority::CombineAdditive => {
            StickVec { x: a.x + b.x, y: a.y + b.y }
        },
    }
}

/// Square of one component, widened so no deflection can overflow.
fn square(v: i32) -> (r: i128)
    ensures
        r == v * v,
        0 <= r <= 0x8000_0000_0000_0000,
{
    proof {
        assert(0 <= (v as int) * (v as int) <= 0x8000_0000_0000_0000) by (nonlinear_arith)
            requires
                -0x8000_0000 <= v <= 0x7fff_ffff,
        ;
    }
    (v as i128) * (v as i128)
}

/// Whether either component's magnitude exceeds the threshold.
fn stick_exceeds(v: StickVec, threshold: i32) -> (r: bool)
    ensures
        r == stick_active((v.x as int, v.y as int), threshold as int),
{
    let ax: i64 = if v.x < 0 {
        -(v.x as i64)
    } else {
        v.x as i64
    };
    let ay: i64 = if v.y < 0 {
        -(v.y as i64)
    } else {
        v.y as i64
    };
    ax > threshold as i64 || ay > threshold as i64
}

} // verus!
