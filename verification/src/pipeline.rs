//! The per-tick computation: shape, arbitrate, transform, and time-scale.
//!
//! One tick takes the raw reading(s) delivered by the active backend(s) and
//! the wall-clock time elapsed since the previous tick (in microseconds) and
//! produces the integer pointer delta to inject. Every step is exact integer
//! arithmetic; the final truncation toward zero mirrors the float-to-integer
//! cast a pointer API performs, and the result saturates at the `i32` range.

use crate::arbiter::{arbitrate, arbitrate_spec, StickVec};
use crate::settings::Settings;
use crate::shaper::{shape, shape_spec, DEADZONE_SCALE, MAX_RANGE};
use vstd::arithmetic::div_mod::{
    lemma_fundamental_div_mod, lemma_fundamental_div_mod_converse_div,
};
use vstd::math::abs;
use vstd::prelude::*;

verus! {

/// Divisor that cancels the two fixed-point scales at once: sensitivity in
/// thousandths times elapsed time in microseconds.
pub const SCALE_DIVISOR: u64 = 1_000_000_000;

/// The arbiter's activity threshold in shaped units: the deadzone fraction
/// applied to the full range, truncated.
pub open spec fn threshold_spec(deadzone_bp: int) -> int {
    deadzone_bp * MAX_RANGE / DEADZONE_SCALE as int
}

/// Axis inversion followed by the optional axis swap.
pub open spec fn transform_spec(v: (int, int), s: Settings) -> (int, int) {
    let xi = if s.invert_x {
        -v.0
    } else {
        v.0
    };
    let yi = if s.invert_y {
        -v.1
    } else {
        v.1
    };
    if s.swap_axes {
        (yi, xi)
    } else {
        (xi, yi)
    }
}

/// One shaped component scaled by the sensitivity gain and the elapsed
/// time, truncated toward zero. Unbounded: saturation is applied on top.
pub open spec fn scale_spec(v: int, sensitivity_milli: int, elapsed_us: int) -> int {
    let m = abs(v) * sensitivity_milli * elapsed_us / SCALE_DIVISOR as int;
    if v < 0 {
        -m
    } else {
        m
    }
}

/// Saturation at the bounds of `i32`.
pub open spec fn clamp_i32_spec(v: int) -> int {
    if v > i32::MAX {
        i32::MAX as int
    } else if v < i32::MIN {
        i32::MIN as int
    } else {
        v
    }
}

/// Both raw components shaped through the deadzone curve.
pub open spec fn shaped_pair_spec(raw: (int, int), deadzone_bp: int) -> (int, int) {
    (shape_spec(raw.0, deadzone_bp), shape_spec(raw.1, deadzone_bp))
}

/// The whole tick, from raw reading(s) to the emitted pointer delta:
/// shape each axis, arbitrate when a second reading is present, apply the
/// inversion and swap transforms, then scale by sensitivity and elapsed
/// time and saturate to `i32`.
pub open spec fn pipeline_spec(
    s: Settings,
    raw_a: (int, int),
    raw_b: Option<(int, int)>,
    elapsed_us: int,
) -> (int, int) {
    let dz = s.deadzone_bp as int;
    let a = shaped_pair_spec(raw_a, dz);
    let combined = match raw_b {
        Some(rb) => arbitrate_spec(
            a,
            shaped_pair_spec(rb, dz),
            threshold_spec(dz),
            s.dual_stick_priority,
        ),
        None => a,
    };
    let t = transform_spec(combined, s);
    (
        clamp_i32_spec(scale_spec(t.0, s.sensitivity_milli as int, elapsed_us)),
        clamp_i32_spec(scale_spec(t.1, s.sensitivity_milli as int, elapsed_us)),
    )
}

/// The delta is emitted only when it moves the pointer at all.
pub open spec fn emit_spec(
    s: Settings,
    raw_a: (int, int),
    raw_b: Option<(int, int)>,
    elapsed_us: int,
) -> Option<(int, int)> {
    let d = pipeline_spec(s, raw_a, raw_b, elapsed_us);
    if d == (0int, 0int) {
        None
    } else {
        Some(d)
    }
}

/// The pipeline is a function of its inputs alone: two ticks that see the
/// same settings, the same raw reading(s) and the same elapsed time emit
/// the same delta.
pub proof fn lemma_pipeline_deterministic(
    s: Settings,
    raw_a: (int, int),
    raw_b: Option<(int, int)>,
    elapsed_us: int,
    r1: (int, int),
    r2: (int, int),
)
    requires
        r1 == pipeline_spec(s, raw_a, raw_b, elapsed_us),
        r2 == pipeline_spec(s, raw_a, raw_b, elapsed_us),
    ensures
        r1 == r2,
{
}

/// Doubling the elapsed time doubles the scaled delta, up to the one count
/// that truncation toward zero may withhold: the doubled-time delta lies
/// between twice the single-time delta and twice it plus one count of
/// magnitude.
pub proof fn lemma_time_scaling(v: int, sensitivity_milli: int, elapsed_us: int)
    requires
        sensitivity_milli >= 0,
        elapsed_us >= 0,
    ensures
        v >= 0 ==> 2 * scale_spec(v, sensitivity_milli, elapsed_us) <= scale_spec(
            v,
            sensitivity_milli,
            2 * elapsed_us,
        ) <= 2 * scale_spec(v, sensitivity_milli, elapsed_us) + 1,
        v < 0 ==> 2 * scale_spec(v, sensitivity_milli, elapsed_us) - 1 <= scale_spec(
            v,
            sensitivity_milli,
            2 * elapsed_us,
        ) <= 2 * scale_spec(v, sensitivity_milli, elapsed_us),
{
    let d = SCALE_DIVISOR as int;
    let m = abs(v) * sensitivity_milli * elapsed_us;
    assert(m >= 0 && abs(v) * sensitivity_milli * (2 * elapsed_us) == 2 * m) by (nonlinear_arith)
        requires
            m == abs(v) * sensitivity_milli * elapsed_us && sensitivity_milli >= 0 && elapsed_us
                >= 0,
    ;
    let q = m / d;
    let r = m % d;
    lemma_fundamental_div_mod(m, d);
    if 2 * r < d {
        lemma_fundamental_div_mod_converse_div(2 * m, d, 2 * q, 2 * r);
        assert(2 * m == (2 * q) * d + 2 * r) by (nonlinear_arith)
            requires
                m == q * d + r,
        ;
    } else {
        lemma_fundamental_div_mod_converse_div(2 * m, d, 2 * q + 1, 2 * r - d);
        assert(2 * m == (2 * q + 1) * d + (2 * r - d)) by (nonlinear_arith)
            requires
                m == q * d + r,
        ;
    }
}

/// The arbiter's threshold for this settings snapshot, in shaped units.
pub fn threshold_for(deadzone_bp: u32) -> (r: i32)
    requires
        deadzone_bp < DEADZONE_SCALE,
    ensures
        r == threshold_spec(deadzone_bp as int),
        0 <= r < MAX_RANGE,
{
    proof {
        assert(0 <= deadzone_bp * MAX_RANGE < DEADZONE_SCALE * MAX_RANGE) by (nonlinear_arith)
            requires
                0 <= deadzone_bp < DEADZONE_SCALE,
        ;
        vstd::arithmetic::div_mod::lemma_div_pos_is_pos(
            deadzone_bp * MAX_RANGE as int,
            DEADZONE_SCALE as int,
        );
        vstd::arithmetic::div_mod::lemma_multiply_divide_lt(
            deadzone_bp * MAX_RANGE as int,
            DEADZONE_SCALE as int,
            MAX_RANGE as int,
        );
    }
    (((deadzone_bp as u64) * (MAX_RANGE as u64)) / (DEADZONE_SCALE as u64)) as i32
}

/// Scale one transformed component by the gain and the elapsed time,
/// truncating toward zero and saturating at the `i32` range.
pub fn scale(v: i32, sensitivity_milli: u32, elapsed_us: u64) -> (r: i32)
    ensures
        r == clamp_i32_spec(scale_spec(v as int, sensitivity_milli as int, elapsed_us as int)),
{
    let mag: u128 = if v < 0 {
        (-(v as i64)) as u128
    } else {
        v as u128
    };
    proof {
        assert(0 <= mag * sensitivity_milli <= 0x8000_0000_0000_0000 && mag * sensitivity_milli
            * elapsed_us < 0x8000_0000_0000_0000_0000_0000_0000_0000) by (nonlinear_arith)
            requires
                0 <= mag <= 0x8000_0000 && sensitivity_milli < 0x1_0000_0000 && elapsed_us
                    < 0x1_0000_0000_0000_0000,
        ;
    }
    let q: u128 = mag * (sensitivity_milli as u128) * (elapsed_us as u128) / (
    SCALE_DIVISOR as u128);
    if v < 0 {
        if q > 2147483648u128 {
            i32::MIN
        } else {
            (-(q as i64)) as i32
        }
    } else {
        if q > 2147483647u128 {
            i32::MAX
        } else {
            q as i32
        }
    }
}

/// Map an optional raw reading into its mathematical pair.
pub open spec fn raw_view(raw: Option<(i32, i32)>) -> Option<(int, int)> {
    match raw {
        Some(p) => Some((p.0 as int, p.1 as int)),
        None => None,
    }
}

/// A raw reading normalized to the common symmetric range.
pub open spec fn raw_in_range(p: (int, int)) -> bool {
    &&& -(MAX_RANGE + 1) <= p.0 <= MAX_RANGE + 1
    &&& -(MAX_RANGE + 1) <= p.1 <= MAX_RANGE + 1
}

/// Run one tick of the pipeline and decide what to emit.
///
/// `raw_a` is the first (or only) backend reading; `raw_b` is the second
/// device's reading in dual mode. Returns the pointer delta to inject, or
/// `None` when both components truncate to zero and no injection call is
/// owed.
pub fn tick_emit(s: &Settings, raw_a: (i32, i32), raw_b: Option<(i32, i32)>, elapsed_us: u64) -> (r:
    Option<(i32, i32)>)
    requires
        s.well_formed(),
        raw_in_range((raw_a.0 as int, raw_a.1 as int)),
        raw_b matches Some(p) ==> raw_in_range((p.0 as int, p.1 as int)),
    ensures
        ({
            let d = pipeline_spec(
                *s,
                (raw_a.0 as int, raw_a.1 as int),
                raw_view(raw_b),
                elapsed_us as int,
            );
            r == (if d == (0int, 0int) {
                None
            } else {
                Some((d.0 as i32, d.1 as i32))
            })
        }),
        r == emit_view(
            emit_spec(*s, (raw_a.0 as int, raw_a.1 as int), raw_view(raw_b), elapsed_us as int),
        ),
{
    let ax = shape(raw_a.0, s.deadzone_bp);
    let ay = shape(raw_a.1, s.deadzone_bp);
    let (vx, vy) = match raw_b {
        Some(rb) => {
            let bx = shape(rb.0, s.deadzone_bp);
            let by = shape(rb.1, s.deadzone_bp);
            let thr = threshold_for(s.deadzone_bp);
            let c = arbitrate(
                StickVec { x: ax, y: ay },
                StickVec { x: bx, y: by },
                thr,
                s.dual_stick_priority,
            );
            (c.x, c.y)
        },
        None => (ax, ay),
    };
    let xi = if s.invert_x {
        -vx
    } else {
        vx
    };
    let yi = if s.invert_y {
        -vy
    } else {
        vy
    };
    let (tx, ty) = if s.swap_axes {
        (yi, xi)
    } else {
        (xi, yi)
    };
    let dx = scale(tx, s.sensitivity_milli, elapsed_us);
    let dy = scale(ty, s.sensitivity_milli, elapsed_us);
    if dx == 0 && dy == 0 {
        None
    } else {
        Some((dx, dy))
    }
}

/// Map the emission decision into its executable form.
pub open spec fn emit_view(d: Option<(int, int)>) -> Option<(i32, i32)> {
    match d {
        Some(p) => Some((p.0 as i32, p.1 as i32)),
        None => None,
    }
}

} // verus!
