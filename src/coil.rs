//! One sine-commutated coil.
use vstd::prelude::*;
use crate::current_control::{CurrentControl, CurrentControlView, CurrentDevice, CurrentOutput};
use crate::sine_lookup::lookup::{get_sine, sine_of};
use crate::util::{normalize_angle, norm360, is_i32};

verus! {

/// A coil driven through its own current loop.
pub struct Coil<T: CurrentOutput> {
    current_output: CurrentControl<T>,
    angle_setpoint: i32,
    current_setpoint: i32,
}

/// What a `Coil` holds: its current loop and its last setpoint.
pub struct CoilView {
    pub control: CurrentControlView,
    pub angle_setpoint: int,
    pub current_setpoint: int,
}

impl<T: CurrentOutput> View for Coil<T> {
    type V = CoilView;

    closed spec fn view(&self) -> CoilView {
        CoilView {
            control: self.current_output@,
            angle_setpoint: self.angle_setpoint as int,
            current_setpoint: self.current_setpoint as int,
        }
    }
}

impl CoilView {
    /// Well-formed: a well-formed current loop, an angle in `[0, 360)` and an `i32` current.
    pub open spec fn wf(self) -> bool {
        &&& self.control.wf()
        &&& 0 <= self.angle_setpoint < 360
        &&& is_i32(self.current_setpoint)
    }

    /// The state after `set_angle(degrees, current)`: the angle reduced into
    /// `[0, 360)`, and the loop's target set to `current * sin(angle)`.
    pub open spec fn with_angle(self, degrees: int, current: int) -> CoilView {
        let angle = norm360(degrees);
        CoilView {
            control: self.control.with_target(sine_of(angle, current)),
            angle_setpoint: angle,
            current_setpoint: current,
        }
    }
}

/// Angles a whole number of turns apart command the same phase current.
pub proof fn lemma_whole_turns_same_current(v: CoilView, degrees: int, turns: int, current: int)
    ensures
        v.with_angle(degrees + 360 * turns, current) == v.with_angle(degrees, current),
{
    assert((degrees + 360 * turns) % 360 == degrees % 360) by {
        vstd::arithmetic::div_mod::lemma_mod_multiples_vanish(turns, degrees, 360);
    }
}

impl<T: CurrentOutput> Coil<T> {
    /// A coil at angle 0 with no current.
    pub fn new(current_output: CurrentControl<T>) -> (r: Self)
        ensures
            r@ == (CoilView { control: current_output@, angle_setpoint: 0, current_setpoint: 0 }),
    {
        Self { current_output, angle_setpoint: 0, current_setpoint: 0 }
    }

    /// Commutates to `degrees` (any integer, reduced modulo 360 with negative
    /// angles wrapping) with the magnitude `current` in milliamps.
    pub fn set_angle(&mut self, degrees: i32, current: i32)
        ensures
            final(self)@ == old(self)@.with_angle(degrees as int, current as int),
            0 <= final(self)@.angle_setpoint < 360,
    {
        self.angle_setpoint = normalize_angle(degrees as i64);
        self.current_setpoint = current;
        let phase_current = get_sine(self.angle_setpoint as u32, self.current_setpoint);
        self.current_output.set_current(phase_current);
    }

    /// The current magnitude last set.
    pub fn get_current(&self) -> (r: i32)
        ensures
            r == self@.current_setpoint,
    {
        self.current_setpoint
    }

    /// The angle last set, in `[0, 360)`.
    pub fn angle(&self) -> (r: i32)
        ensures
            r == self@.angle_setpoint,
    {
        self.angle_setpoint
    }

    /// The coil's current loop.
    pub fn current_control(&mut self) -> (r: &mut CurrentControl<T>)
        ensures
            r@ == old(self)@.control,
            final(self)@ == (CoilView { control: final(r)@, ..old(self)@ }),
    {
        &mut self.current_output
    }
}

} // verus!
