//! Small numeric helpers shared by the control loops.
use vstd::prelude::*;

verus! {

/// `value` limited to `[min, max]`; the upper limit is tested first.
pub open spec fn clamp_spec(min: int, max: int, value: int) -> int {
    if value > max {
        max
    } else if value < min {
        min
    } else {
        value
    }
}

/// `x` saturated into the range of `i32`.
pub open spec fn sat32(x: int) -> int {
    clamp_spec(i32::MIN as int, i32::MAX as int, x)
}

/// `x` is a value of `i32`.
pub open spec fn is_i32(x: int) -> bool {
    i32::MIN <= x <= i32::MAX
}

/// `x` is a value of `u32`.
pub open spec fn is_u32(x: int) -> bool {
    0 <= x <= u32::MAX
}

/// Absolute value.
pub open spec fn abs(x: int) -> int {
    if x < 0 {
        -x
    } else {
        x
    }
}

/// Division rounding towards zero, as the machine `/` does.
pub open spec fn tdiv(a: int, b: int) -> int {
    if (a >= 0) == (b > 0) {
        abs(a) / abs(b)
    } else {
        -(abs(a) / abs(b))
    }
}

/// The angle `x` reduced into `[0, 360)`.
pub open spec fn norm360(x: int) -> int {
    x % 360
}

/// Clamp the value between min and max.
pub fn clamp(min: i32, max: i32, value: i32) -> (r: i32)
    ensures
        r == clamp_spec(min as int, max as int, value as int),
{
    if value > max {
        max
    } else if value < min {
        min
    } else {
        value
    }
}

/// Saturates a wide intermediate result into `i32`.
pub fn saturate(x: i64) -> (r: i32)
    ensures
        r == sat32(x as int),
{
    if x > i32::MAX as i64 {
        i32::MAX
    } else if x < i32::MIN as i64 {
        i32::MIN
    } else {
        x as i32
    }
}

/// Saturating `a + b`.
pub fn add_sat(a: i32, b: i32) -> (r: i32)
    ensures
        r == sat32(a + b),
{
    saturate(a as i64 + b as i64)
}

/// Saturating `a - b`.
pub fn sub_sat(a: i32, b: i32) -> (r: i32)
    ensures
        r == sat32(a - b),
{
    saturate(a as i64 - b as i64)
}

/// Saturating `a * b`.
pub fn mul_sat(a: i32, b: i32) -> (r: i32)
    ensures
        r == sat32(a * b),
{
    proof {
        let (x, y) = (a as int, b as int);
        assert(-0x8000_0000 * 0x8000_0000 <= x * y <= 0x8000_0000 * 0x8000_0000) by (nonlinear_arith)
            requires
                -0x8000_0000 <= x < 0x8000_0000,
                -0x8000_0000 <= y < 0x8000_0000,
        ;
    }
    saturate(a as i64 * b as i64)
}

/// Truncating division of two `i32` values, saturated (only `i32::MIN / -1` saturates).
pub fn div_sat(a: i32, b: i32) -> (r: i32)
    requires
        b != 0,
    ensures
        r == sat32(tdiv(a as int, b as int)),
{
    let wa = a as i64;
    let wb = b as i64;
    let q: i64 = if wa >= 0 {
        if wb > 0 {
            wa / wb
        } else {
            -(wa / (-wb))
        }
    } else {
        if wb > 0 {
            -((-wa) / wb)
        } else {
            (-wa) / (-wb)
        }
    };
    saturate(q)
}

/// Reduces any angle in degrees into `[0, 360)`, negative angles wrapping around.
pub fn normalize_angle(degrees: i64) -> (r: i32)
    ensures
        r == norm360(degrees as int),
        0 <= r < 360,
{
    let m = (degrees % 360) as i32;
    if m < 0 {
        m + 360
    } else {
        m
    }
}

} // verus!
