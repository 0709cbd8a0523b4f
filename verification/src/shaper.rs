//! The response shaper: deadzone-corrected axis mapping.
//!
//! Both backends normalize their native ranges to the common symmetric range
//! `-32768..=32768` around a zero center before this step. Deflection whose
//! magnitude stays below `deadzone * MAX_RANGE` maps to exactly zero; past
//! that threshold the remaining band is stretched linearly so the output still
//! reaches `MAX_RANGE` at full deflection, avoiding a jump at the threshold.
//! The deadzone fraction arrives in basis points (ten-thousandths), so the
//! whole mapping is exact integer arithmetic with truncation.

use vstd::arithmetic::div_mod::{
    lemma_div_is_ordered, lemma_div_multiples_vanish, lemma_fundamental_div_mod,
};
use vstd::math::abs;
use vstd::prelude::*;

verus! {

/// Full positive deflection of a normalized axis.
pub const MAX_RANGE: i32 = 32767;

/// Number of basis points in the whole unit interval.
pub const DEADZONE_SCALE: u32 = 10000;

/// Mathematical shape of the response curve.
///
/// With `t = deadzone_bp * MAX_RANGE / DEADZONE_SCALE` as the (rational)
/// threshold, a magnitude `m < t` yields `0`, and a larger magnitude yields
/// `(m - t) / (MAX_RANGE - t) * MAX_RANGE` truncated toward zero, with the
/// sign of the input restored. The formula below is that same rational
/// expression brought over a common denominator, so one exact integer
/// division remains.
pub open spec fn shape_spec(v: int, deadzone_bp: int) -> int
    recommends
        0 <= deadzone_bp < DEADZONE_SCALE,
{
    let mag = abs(v);
    if mag * DEADZONE_SCALE < deadzone_bp * MAX_RANGE {
        0
    } else {
        let shaped = (mag * DEADZONE_SCALE - deadzone_bp * MAX_RANGE) / (
        DEADZONE_SCALE - deadzone_bp);
        if v < 0 {
            -shaped
        } else {
            shaped
        }
    }
}

/// Below the deadzone threshold the shaper yields exactly zero.
pub proof fn lemma_shape_dead_is_zero(v: int, deadzone_bp: int)
    requires
        0 <= deadzone_bp < DEADZONE_SCALE,
        abs(v) * DEADZONE_SCALE < deadzone_bp * MAX_RANGE,
    ensures
        shape_spec(v, deadzone_bp) == 0,
{
}

/// A full deflection saturates exactly: the shaper maps `MAX_RANGE` to
/// `MAX_RANGE` (and `-MAX_RANGE` to `-MAX_RANGE`) for every deadzone
/// fraction below the whole range.
pub proof fn lemma_shape_full_deflection(v: int, deadzone_bp: int)
    requires
        0 <= deadzone_bp < DEADZONE_SCALE,
        abs(v) == MAX_RANGE,
    ensures
        shape_spec(v, deadzone_bp) == if v < 0 {
            -MAX_RANGE as int
        } else {
            MAX_RANGE as int
        },
{
    let den = DEADZONE_SCALE - deadzone_bp;
    assert(MAX_RANGE * DEADZONE_SCALE - deadzone_bp * MAX_RANGE == den * MAX_RANGE)
        by (nonlinear_arith)
        requires
            den == DEADZONE_SCALE - deadzone_bp,
    ;
    assert(abs(v) * DEADZONE_SCALE >= deadzone_bp * MAX_RANGE) by (nonlinear_arith)
        requires
            abs(v) == MAX_RANGE && 0 <= deadzone_bp < DEADZONE_SCALE,
    ;
    lemma_div_multiples_vanish(MAX_RANGE as int, den as int);
}

/// The shaper is odd: negating the input negates the output.
pub proof fn lemma_shape_odd(v: int, deadzone_bp: int)
    requires
        0 <= deadzone_bp < DEADZONE_SCALE,
    ensures
        shape_spec(-v, deadzone_bp) == -shape_spec(v, deadzone_bp),
{
    assert(abs(-v) == abs(v));
}

/// The shaped magnitude never exceeds `MAX_RANGE + DEADZONE_SCALE` for
/// inputs in the normalized range; with that headroom every downstream sum
/// of two shaped components stays far inside `i32`.
pub proof fn lemma_shape_bounded(v: int, deadzone_bp: int)
    requires
        0 <= deadzone_bp < DEADZONE_SCALE,
        abs(v) <= MAX_RANGE + 1,
    ensures
        abs(shape_spec(v, deadzone_bp)) <= MAX_RANGE + DEADZONE_SCALE,
{
    let mag = abs(v) as int;
    let den = DEADZONE_SCALE - deadzone_bp;
    if mag * DEADZONE_SCALE >= deadzone_bp * MAX_RANGE {
        let num = mag * DEADZONE_SCALE - deadzone_bp * MAX_RANGE;
        assert(num <= den * MAX_RANGE + DEADZONE_SCALE * den) by (nonlinear_arith)
            requires
                num == mag * DEADZONE_SCALE - deadzone_bp * MAX_RANGE && mag <= MAX_RANGE + 1
                    && 0 <= deadzone_bp < DEADZONE_SCALE && den == DEADZONE_SCALE - deadzone_bp,
        ;
        assert(den * (MAX_RANGE + DEADZONE_SCALE) == den * MAX_RANGE + DEADZONE_SCALE * den)
            by (nonlinear_arith);
        lemma_div_is_ordered(num, den * (MAX_RANGE + DEADZONE_SCALE), den as int);
        lemma_div_multiples_vanish(MAX_RANGE + DEADZONE_SCALE, den as int);
        lemma_fundamental_div_mod(num, den as int);
        assert(num / den >= 0) by {
            vstd::arithmetic::div_mod::lemma_div_pos_is_pos(num, den as int);
        }
    }
}

/// Deadzone-corrected response curve on one axis.
///
/// The input must already be normalized to the common symmetric range; the
/// result carries the input's sign and reaches exactly `MAX_RANGE` at full
/// deflection.
pub fn shape(v: i32, deadzone_bp: u32) -> (r: i32)
    requires
        deadzone_bp < DEADZONE_SCALE,
        -(MAX_RANGE + 1) <= v <= MAX_RANGE + 1,
    ensures
        r == shape_spec(v as int, deadzone_bp as int),
        abs(r as int) <= MAX_RANGE + DEADZONE_SCALE,
{
    proof {
        lemma_shape_bounded(v as int, deadzone_bp as int);
    }
    let mag: u64 = if v < 0 {
        (-(v as i64)) as u64
    } else {
        v as u64
    };
    let thr_num: u64 = (deadzone_bp as u64) * (MAX_RANGE as u64);
    if mag * (DEADZONE_SCALE as u64) < thr_num {
        0
    } else {
        let num: u64 = mag * (DEADZONE_SCALE as u64) - thr_num;
        let den: u64 = (DEADZONE_SCALE as u64) - (deadzone_bp as u64);
        let q: u64 = num / den;
        if v < 0 {
            -(q as i32)
        } else {
            q as i32
        }
    }
}

} // verus!
