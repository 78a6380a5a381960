//! Scaling a current magnitude by the sine of an angle.
use vstd::prelude::*;
use super::{sine_entry, sine_table, lemma_quarter_wave_bounds, SCALING_FACTOR};
use crate::util::{tdiv, abs, sat32, saturate};

verus! {

/// `value * sin(degree)` in fixed point: the table entry times `value`, divided
/// by the table scale with rounding towards zero, saturated into `i32` (which
/// only `value == i32::MIN` at 270° needs).
pub open spec fn sine_of(degree: int, value: int) -> int {
    sat32(tdiv(value * sine_table(degree % 360), SCALING_FACTOR as int))
}

proof fn lemma_scaled_within(value: int, s: int)
    requires
        -(SCALING_FACTOR as int) <= s <= SCALING_FACTOR,
    ensures
        abs(tdiv(value * s, SCALING_FACTOR as int)) <= abs(value),
{
    let k = SCALING_FACTOR as int;
    assert(abs(value * s) <= abs(value) * k) by (nonlinear_arith)
        requires
            -k <= s <= k,
            k > 0,
    ;
    assert(abs(value * s) / k <= abs(value)) by (nonlinear_arith)
        requires
            abs(value * s) <= abs(value) * k,
            k > 0,
            abs(value * s) >= 0,
    ;
}

/// Sine lookup: `value` scaled by the sine of `degree` (taken modulo 360).
pub fn get_sine(degree: u32, value: i32) -> (r: i32)
    ensures
        r == sine_of(degree as int, value as int),
        abs(r as int) <= abs(value as int),
{
    let d = degree % 360;
    let s = sine_entry(d);
    proof {
        lemma_scaled_within(value as int, s as int);
        let (v, w) = (value as int, s as int);
        assert(-0x8000_0000 * 0x1_0000 <= v * w <= 0x8000_0000 * 0x1_0000) by (nonlinear_arith)
            requires
                -0x8000_0000 <= v < 0x8000_0000,
                -0x1_0000 <= w <= 0x1_0000,
        ;
    }
    let product: i64 = value as i64 * s as i64;
    let q: i64 = if product >= 0 {
        product / SCALING_FACTOR as i64
    } else {
        -((-product) / SCALING_FACTOR as i64)
    };
    assert(q == tdiv(value as int * s as int, SCALING_FACTOR as int));
    saturate(q)
}

/// Half a turn apart the lookup gives exact negatives; 0° gives zero and 90°
/// gives the full value. `i32::MIN` is left out: its negation does not fit.
pub proof fn lemma_sine_symmetry(angle: int, value: int)
    requires
        i32::MIN < value <= i32::MAX,
    ensures
        sine_of(angle, value) == -sine_of(angle + 180, value),
        sine_of(0, value) == 0,
        sine_of(90, value) == value,
{
    lemma_quarter_wave_bounds();
    let k = SCALING_FACTOR as int;
    let d = angle % 360;
    let e = (angle + 180) % 360;
    assert(e == if d < 180 { d + 180 } else { d - 180 });
    assert(sine_table(e) == -sine_table(d));
    let s = sine_table(d);
    assert(-(k) <= s <= k);
    assert(value * (-s) == -(value * s)) by (nonlinear_arith);
    lemma_scaled_within(value, s);
    assert(tdiv(-(value * s), k) == -tdiv(value * s, k));
    assert(sine_table(0) == 0);
    assert(value * 0 == 0);
    assert(sine_table(90) == k);
    assert((value * k) / k == value) by (nonlinear_arith)
        requires
            k > 0,
    ;
    assert((-value * k) / k == -value) by (nonlinear_arith)
        requires
            k > 0,
    ;
    assert(-(value * k) == (-value) * k) by (nonlinear_arith);
}

} // verus!
