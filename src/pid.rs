//! Integer PID controller.
//!
//! All arithmetic saturates into `i32`; the integral is clamped to
//! `[i_min, i_max]` on every update, and the derivative needs one earlier
//! sample, a non-zero gain and a non-zero time step.
use vstd::prelude::*;
use crate::util::{clamp, clamp_spec, sat32, tdiv, is_i32, add_sat, sub_sat, mul_sat, div_sat};

verus! {

/// A feedback controller: fed measurements, it returns a correction.
pub trait Controller<T> {
    /// Records a measurement `value` taken `delta_t` after the previous one
    /// and returns the controller output.
    fn update(&mut self, value: T, delta_t: T) -> T;

    /// Sets the value the plant should approach.
    fn set_target(&mut self, target: T);

    /// The value the plant should approach.
    fn target(&self) -> T;

    /// Forgets the measurement history; the parameters stay.
    fn reset(&mut self);
}

/// How the derivative term is taken.
#[derive(Debug, Clone, Copy, PartialEq, Eq, Structural)]
pub enum DerivativeMode {
    /// Rate of change of the error (classic PID).
    OnError,
    /// Rate of change of the measurement: no kick when the target jumps.
    OnMeasurement,
}

/// PID controller over `i32`.
///
/// `i_min`/`i_max` bound the stored integral; `out_min`/`out_max` are limits
/// the caller may apply to the output.
#[derive(Debug, Clone, Copy)]
pub struct PIDController {
    pub p_gain: i32,
    pub i_gain: i32,
    pub d_gain: i32,
    pub target: i32,
    pub i_min: i32,
    pub i_max: i32,
    pub out_min: i32,
    pub out_max: i32,
    pub d_mode: DerivativeMode,
    pub err_sum: i32,
    pub prev_value: Option<i32>,
    pub prev_error: Option<i32>,
}

/// The error of a measurement against the target.
pub open spec fn pid_error(s: PIDController, value: int) -> int {
    sat32(s.target - value)
}

/// Proportional term.
pub open spec fn pid_p_term(s: PIDController, value: int) -> int {
    sat32(s.p_gain * pid_error(s, value))
}

/// The stored integral after an update: the old sum plus `i_gain * error * delta_t`,
/// clamped to `[i_min, i_max]`.
pub open spec fn pid_integral(s: PIDController, value: int, delta_t: int) -> int {
    clamp_spec(
        s.i_min as int,
        s.i_max as int,
        sat32(s.err_sum + sat32(sat32(s.i_gain * pid_error(s, value)) * delta_t)),
    )
}

/// Derivative term: zero without history, with a zero gain or a zero time step.
pub open spec fn pid_d_term(s: PIDController, value: int, delta_t: int) -> int {
    if s.d_gain != 0 && delta_t != 0 && s.prev_value is Some && s.prev_error is Some {
        let change = match s.d_mode {
            DerivativeMode::OnMeasurement => sat32(s.prev_value->0 - value),
            DerivativeMode::OnError => sat32(pid_error(s, value) - s.prev_error->0),
        };
        sat32(tdiv(sat32(s.d_gain * change), delta_t))
    } else {
        0
    }
}

/// Output of an update: `P + D + I`, unclamped but for saturation into `i32`.
pub open spec fn pid_output(s: PIDController, value: int, delta_t: int) -> int {
    sat32(sat32(pid_p_term(s, value) + pid_d_term(s, value, delta_t)) + pid_integral(s, value, delta_t))
}

/// A zero time step adds no derivative and nothing to the integral beyond
/// clamping the stored sum; from zero history the output is then the
/// proportional term alone.
pub proof fn lemma_zero_step_is_proportional(s: PIDController, value: int)
    ensures
        pid_d_term(s, value, 0) == 0,
        pid_integral(s, value, 0) == clamp_spec(s.i_min as int, s.i_max as int, s.err_sum as int),
        s.err_sum == 0 && s.prev_value is None && s.prev_error is None && s.i_min <= 0 <= s.i_max
            ==> pid_output(s, value, 0) == pid_p_term(s, value),
        s.err_sum == 0 && s.prev_value is None && s.prev_error is None && s.i_min <= 0 <= s.i_max
            && is_i32(s.target - value) && is_i32(s.p_gain * (s.target - value)) ==> pid_output(
            s,
            value,
            0,
        ) == s.p_gain * (s.target - value),
{
    assert(sat32(s.i_gain * pid_error(s, value)) * 0 == 0);
}

/// The controller after `n` updates with the same measurement and time step.
pub open spec fn pid_repeat(s: PIDController, value: int, delta_t: int, n: nat) -> PIDController
    decreases n,
{
    if n == 0 {
        s
    } else {
        let t = pid_repeat(s, value, delta_t, (n - 1) as nat);
        PIDController {
            err_sum: pid_integral(t, value, delta_t) as i32,
            prev_value: Some(value as i32),
            prev_error: Some(pid_error(t, value) as i32),
            ..t
        }
    }
}

/// Repeated updates keep the integral within `[i_min, i_max]`. With a
/// constant error `e`, a zero starting sum, `i_min <= 0 <= i_max` and a step
/// `i_gain * e * delta_t >= 0` that fits (as does `i_max` plus it), the
/// integral after `n` updates is `min(i_max, n * i_gain * e * delta_t)`;
/// without proportional and derivative gain that is the `n`-th output.
pub proof fn lemma_integral_repeated(s: PIDController, value: int, delta_t: int, n: nat)
    requires
        n >= 1,
    ensures
        s.i_min <= s.i_max ==> s.i_min <= pid_repeat(s, value, delta_t, n).err_sum <= s.i_max,
        ({
            let step = s.i_gain * (s.target - value) * delta_t;
            let expected = if n * step < s.i_max {
                n * step
            } else {
                s.i_max as int
            };
            s.err_sum == 0 && s.i_min <= 0 <= s.i_max && is_i32(s.target - value) && is_i32(
                s.i_gain * (s.target - value),
            ) && is_i32(step) && step >= 0 && is_i32(s.i_max + step) ==> {
                &&& pid_repeat(s, value, delta_t, n).err_sum == expected
                &&& (s.p_gain == 0 && s.d_gain == 0 ==> pid_output(
                    pid_repeat(s, value, delta_t, (n - 1) as nat),
                    value,
                    delta_t,
                ) == expected)
            }
        }),
    decreases n,
{
    let step = s.i_gain * (s.target - value) * delta_t;
    let prev = pid_repeat(s, value, delta_t, (n - 1) as nat);
    lemma_repeat_keeps_parameters(s, value, delta_t, (n - 1) as nat);
    if n > 1 {
        lemma_integral_repeated(s, value, delta_t, (n - 1) as nat);
    }
    if s.err_sum == 0 && s.i_min <= 0 <= s.i_max && is_i32(s.target - value) && is_i32(
        s.i_gain * (s.target - value),
    ) && is_i32(step) && step >= 0 && is_i32(s.i_max + step) {
        assert(pid_error(prev, value) == s.target - value);
        assert((n - 1) * step + step == n * step) by (nonlinear_arith);
        assert(0 <= (n - 1) * step) by (nonlinear_arith)
            requires
                step >= 0,
                n >= 1,
        ;
        if n == 1 {
            assert(prev == s);
            assert(0 * step == 0);
        }
    }
}

proof fn lemma_repeat_keeps_parameters(s: PIDController, value: int, delta_t: int, n: nat)
    ensures
        ({
            let t = pid_repeat(s, value, delta_t, n);
            &&& t.target == s.target && t.i_gain == s.i_gain && t.p_gain == s.p_gain
            &&& t.d_gain == s.d_gain && t.i_min == s.i_min && t.i_max == s.i_max
        }),
    decreases n,
{
    if n > 0 {
        lemma_repeat_keeps_parameters(s, value, delta_t, (n - 1) as nat);
    }
}

impl PIDController {
    /// A controller with the given gains, zero target, no history and limits
    /// at the ends of `i32`; the derivative is taken on the measurement.
    pub fn new(p_gain: i32, i_gain: i32, d_gain: i32) -> (r: PIDController)
        ensures
            r.p_gain == p_gain && r.i_gain == i_gain && r.d_gain == d_gain,
            r.target == 0,
            r.err_sum == 0,
            r.prev_value is None && r.prev_error is None,
            r.i_min == i32::MIN && r.i_max == i32::MAX,
            r.out_min == i32::MIN && r.out_max == i32::MAX,
            r.d_mode == DerivativeMode::OnMeasurement,
    {
        PIDController {
            p_gain,
            i_gain,
            d_gain,
            target: 0,
            i_min: i32::MIN,
            i_max: i32::MAX,
            out_min: i32::MIN,
            out_max: i32::MAX,
            d_mode: DerivativeMode::OnMeasurement,
            err_sum: 0,
            prev_value: None,
            prev_error: None,
        }
    }

    /// Sets the integral limits and the output limits to the same range.
    pub fn set_limits(&mut self, min: i32, max: i32)
        ensures
            *final(self) == (PIDController {
                i_min: min,
                i_max: max,
                out_min: min,
                out_max: max,
                ..*old(self)
            }),
    {
        self.i_min = min;
        self.i_max = max;
        self.out_min = min;
        self.out_max = max;
    }
}

impl Controller<i32> for PIDController {
    fn update(&mut self, value: i32, delta_t: i32) -> (r: i32)
        ensures
            r == pid_output(*old(self), value as int, delta_t as int),
            *final(self) == (PIDController {
                err_sum: pid_integral(*old(self), value as int, delta_t as int) as i32,
                prev_value: Some(value),
                prev_error: Some(pid_error(*old(self), value as int) as i32),
                ..*old(self)
            }),
            old(self).i_min <= old(self).i_max ==> old(self).i_min <= final(self).err_sum
                <= old(self).i_max,
    {
        let error = sub_sat(self.target, value);
        let p_term = mul_sat(self.p_gain, error);
        let i_step = mul_sat(mul_sat(self.i_gain, error), delta_t);
        self.err_sum = clamp(self.i_min, self.i_max, add_sat(self.err_sum, i_step));
        let i_term = self.err_sum;
        let d_term: i32 = if self.d_gain != 0 && delta_t != 0 {
            match (self.prev_value, self.prev_error) {
                (Some(prev_value), Some(prev_error)) => {
                    let change = match self.d_mode {
                        DerivativeMode::OnMeasurement => sub_sat(prev_value, value),
                        DerivativeMode::OnError => sub_sat(error, prev_error),
                    };
                    div_sat(mul_sat(self.d_gain, change), delta_t)
                },
                _ => 0,
            }
        } else {
            0
        };
        self.prev_value = Some(value);
        self.prev_error = Some(error);
        add_sat(add_sat(p_term, d_term), i_term)
    }

    fn set_target(&mut self, target: i32)
        ensures
            *final(self) == (PIDController { target, ..*old(self) }),
    {
        self.target = target;
    }

    fn target(&self) -> (r: i32)
        ensures
            r == self.target,
    {
        self.target
    }

    fn reset(&mut self)
        ensures
            *final(self) == (PIDController {
                prev_value: None,
                prev_error: None,
                err_sum: 0,
                ..*old(self)
            }),
    {
        self.prev_value = None;
        self.prev_error = None;
        self.err_sum = 0;
    }
}

} // verus!
