//! The motor: two quadrature coils and a position loop, run in one of four modes.
use vstd::prelude::*;
use crate::coil::{Coil, CoilView};
use crate::current_control::{CurrentControl, CurrentControlView, CurrentDevice, CurrentOutput, PIDControl};
use crate::calibration::PULSES_PER_ROTATION;
use crate::pid::PIDController;
use crate::position_control::{Mode, PositionControl, PositionControlView, PositionInput};
use crate::util::{abs, norm360, normalize_angle, is_i32};

verus! {

/// Cycle counter frequency; `update` returns delays in its cycles.
pub const DWT_FREQ: i32 = 72_000_000;

/// Period of the outer loop in position and calibration modes: `DWT_FREQ` / 20 kHz.
pub const UPDATE_PERIOD: i32 = 3600;

/// Poll period while disabled: `DWT_FREQ` / 100 Hz.
pub const DISABLED_POLL_PERIOD: u32 = 720_000;

/// Period of holding, and of rotating at speed 1 (or 0).
pub const SLOW_PERIOD: u32 = 200_000;

/// Something whose electrical angle can be set.
pub trait PositionControlled {
    fn set_angle(&mut self, degrees: i32);
    fn get_angle(&self) -> i32;
}

/// Operating mode.
#[derive(Debug, Clone, Copy, PartialEq, Eq, Structural)]
pub enum ControlType {
    /// Free-running commutation at a signed speed.
    Rotate,
    /// Following the position setpoint.
    Position,
    /// The set current at the last angle.
    Hold,
    /// Running the calibration.
    Calibration,
}

/// One motor.
pub struct MotorControl<T1: CurrentOutput, T2: CurrentOutput, Inp: PositionInput> {
    coil_a: Coil<T1>,
    coil_b: Coil<T2>,
    position_control: PositionControl<Inp>,
    angle_setpoint: i32,
    current: i32,
    rotate_speed: i32,
    rotate_angle: i32,
    control_type: ControlType,
    enabled: bool,
}

/// What a `MotorControl` holds, apart from its devices.
pub struct MotorControlView {
    pub coil_a: CoilView,
    pub coil_b: CoilView,
    pub position: PositionControlView,
    pub angle_setpoint: int,
    pub current: int,
    pub rotate_speed: int,
    pub rotate_angle: int,
    pub control_type: ControlType,
    pub enabled: bool,
}

impl<T1: CurrentOutput, T2: CurrentOutput, Inp: PositionInput> View for MotorControl<T1, T2, Inp> {
    type V = MotorControlView;

    closed spec fn view(&self) -> MotorControlView {
        MotorControlView {
            coil_a: self.coil_a@,
            coil_b: self.coil_b@,
            position: self.position_control@,
            angle_setpoint: self.angle_setpoint as int,
            current: self.current as int,
            rotate_speed: self.rotate_speed as int,
            rotate_angle: self.rotate_angle as int,
            control_type: self.control_type,
            enabled: self.enabled,
        }
    }
}

/// The free-running angle one step on, forwards for a non-negative speed.
pub open spec fn rotate_next(angle: int, speed: int) -> int {
    if speed >= 0 {
        if angle < 359 {
            angle + 1
        } else {
            0
        }
    } else {
        if angle > 0 {
            angle - 1
        } else {
            359
        }
    }
}

/// Delay until the next rotation step: inversely proportional to the speed.
pub open spec fn rotate_delay(speed: int) -> int {
    if speed == 0 {
        SLOW_PERIOD as int
    } else {
        SLOW_PERIOD as int / abs(speed)
    }
}

impl MotorControlView {
    /// Well-formed: well-formed parts, a free-running angle in `[0, 360)`,
    /// and each value within `i32`.
    pub open spec fn wf(self) -> bool {
        &&& self.coil_a.wf()
        &&& self.coil_b.wf()
        &&& self.position.wf()
        &&& 0 <= self.rotate_angle < 360
        &&& is_i32(self.angle_setpoint)
        &&& is_i32(self.current)
        &&& is_i32(self.rotate_speed)
    }

    /// Both coils commutated to `degrees`, coil B a quarter turn ahead.
    pub open spec fn commutated(self, degrees: int) -> MotorControlView {
        MotorControlView {
            angle_setpoint: degrees,
            coil_a: self.coil_a.with_angle(degrees, self.current),
            coil_b: self.coil_b.with_angle(norm360(degrees) + 90, self.current),
            ..self
        }
    }

    /// Both current loops enabled or disabled.
    pub open spec fn switched(self, enable: bool) -> MotorControlView {
        MotorControlView {
            coil_a: CoilView { control: self.coil_a.control.enabled(enable), ..self.coil_a },
            coil_b: CoilView { control: self.coil_b.control.enabled(enable), ..self.coil_b },
            enabled: enable,
            ..self
        }
    }

    /// Holding: both coils commutated again to the last angle at the set current.
    pub open spec fn holding(self) -> MotorControlView {
        self.commutated(self.angle_setpoint)
    }

    /// Both current loops with their PID controllers changed by `f`.
    pub open spec fn tuned(self, f: spec_fn(PIDController) -> PIDController) -> MotorControlView {
        MotorControlView {
            coil_a: CoilView {
                control: CurrentControlView { pid: f(self.coil_a.control.pid), ..self.coil_a.control },
                ..self.coil_a
            },
            coil_b: CoilView {
                control: CurrentControlView { pid: f(self.coil_b.control.pid), ..self.coil_b.control },
                ..self.coil_b
            },
            ..self
        }
    }

    /// After a calibration call that left the position loop in `p`: once
    /// calibrated the outputs are disabled and the motor holds; otherwise the
    /// coils follow the calibration's angle.
    pub open spec fn after_calibration(self, p: PositionControlView) -> MotorControlView {
        let moved = MotorControlView { position: p, ..self };
        if p.calibration.state.calibrated {
            MotorControlView { control_type: ControlType::Hold, ..moved.switched(false) }
        } else {
            moved.commutated(p.angle_setpoint)
        }
    }
}

impl<T1: CurrentOutput, T2: CurrentOutput, Inp: PositionInput> MotorControl<T1, T2, Inp> {
    /// A disabled motor holding zero current, rotate speed 10.
    pub fn new(output_coil_a: CurrentControl<T1>, output_coil_b: CurrentControl<T2>, position_input: Inp) -> (r: Self)
        requires
            output_coil_a@.wf(),
            output_coil_b@.wf(),
        ensures
            r@.coil_a == (CoilView { control: output_coil_a@, angle_setpoint: 0, current_setpoint: 0 }),
            r@.coil_b == (CoilView { control: output_coil_b@, angle_setpoint: 0, current_setpoint: 0 }),
            r@.position.mode == Mode::Normal,
            r@.position.control_period == UPDATE_PERIOD,
            r@.angle_setpoint == 0 && r@.current == 0 && r@.rotate_angle == 0,
            r@.rotate_speed == 10,
            r@.control_type == ControlType::Hold,
            !r@.enabled,
            r@.wf(),
    {
        Self {
            coil_a: Coil::new(output_coil_a),
            coil_b: Coil::new(output_coil_b),
            position_control: PositionControl::new(position_input, UPDATE_PERIOD),
            angle_setpoint: 0,
            current: 0,
            rotate_speed: 10,
            rotate_angle: 0,
            control_type: ControlType::Hold,
            enabled: false,
        }
    }

    /// Both coils to `degrees`, coil B a quarter turn ahead, at the set current.
    fn commutate(&mut self, degrees: i32)
        ensures
            final(self)@ == old(self)@.commutated(degrees as int),
    {
        self.angle_setpoint = degrees;
        let current = self.current;
        self.coil_a.set_angle(degrees, current);
        let quadrature = normalize_angle(degrees as i64) + 90;
        self.coil_b.set_angle(quadrature, current);
    }

    /// One step of the outer loop; returns the delay until the next, in
    /// cycles of `DWT_FREQ`.
    pub fn update(&mut self) -> (next_delay: u32)
        requires
            old(self)@.wf(),
        ensures
            final(self)@.wf(),
            !old(self)@.enabled ==> next_delay == DISABLED_POLL_PERIOD && final(self)@ == old(self)@,
            old(self)@.enabled && old(self)@.control_type == ControlType::Rotate ==> {
                let angle = rotate_next(old(self)@.rotate_angle, old(self)@.rotate_speed);
                &&& final(self)@ == (MotorControlView { rotate_angle: angle, ..old(self)@ }).commutated(angle)
                &&& next_delay == rotate_delay(old(self)@.rotate_speed)
            },
            old(self)@.enabled && old(self)@.control_type == ControlType::Hold ==> final(self)@
                == old(self)@.holding() && next_delay == SLOW_PERIOD,
            old(self)@.enabled && old(self)@.control_type == ControlType::Position ==> {
                &&& next_delay == UPDATE_PERIOD
                &&& final(self)@ == (MotorControlView { position: final(self)@.position, ..old(self)@ }).commutated(
                    final(self)@.position.angle_setpoint,
                )
                &&& old(self)@.position.mode == Mode::Normal ==> exists|p: i32|
                    final(self)@.position == #[trigger] old(self)@.position.steered(p as int)
                &&& old(self)@.position.mode == Mode::Calibration ==> exists|i: int|
                    0 <= i < PULSES_PER_ROTATION && final(self)@.position
                        == #[trigger] old(self)@.position.calibration_step(i)
            },
            old(self)@.enabled && old(self)@.control_type == ControlType::Calibration ==> next_delay
                == UPDATE_PERIOD && exists|i: int|
                0 <= i < PULSES_PER_ROTATION && final(self)@
                    == old(self)@.after_calibration(#[trigger] old(self)@.position.calibration_step(i)),
    {
        if !self.enabled {
            return DISABLED_POLL_PERIOD;
        }
        match self.control_type {
            ControlType::Rotate => self.rotate_step(),
            ControlType::Hold => {
                let angle = self.angle_setpoint;
                self.commutate(angle);
                SLOW_PERIOD
            },
            ControlType::Position => self.position_step(),
            ControlType::Calibration => self.calibration_step(),
        }
    }

    fn rotate_step(&mut self) -> (next_delay: u32)
        requires
            old(self)@.wf(),
        ensures
            final(self)@.wf(),
            ({
                let angle = rotate_next(old(self)@.rotate_angle, old(self)@.rotate_speed);
                &&& final(self)@ == (MotorControlView { rotate_angle: angle, ..old(self)@ }).commutated(angle)
                &&& next_delay == rotate_delay(old(self)@.rotate_speed)
            }),
    {
        self.rotate_angle = if self.rotate_speed >= 0 {
            if self.rotate_angle < 359 {
                self.rotate_angle + 1
            } else {
                0
            }
        } else {
            if self.rotate_angle > 0 {
                self.rotate_angle - 1
            } else {
                359
            }
        };
        let angle = self.rotate_angle;
        self.commutate(angle);
        let magnitude: u32 = if self.rotate_speed >= 0 {
            self.rotate_speed as u32
        } else {
            (-(self.rotate_speed as i64)) as u32
        };
        if magnitude != 0 {
            SLOW_PERIOD / magnitude
        } else {
            SLOW_PERIOD
        }
    }

    fn position_step(&mut self) -> (next_delay: u32)
        requires
            old(self)@.wf(),
        ensures
            final(self)@.wf(),
            next_delay == UPDATE_PERIOD,
            final(self)@ == (MotorControlView { position: final(self)@.position, ..old(self)@ }).commutated(
                final(self)@.position.angle_setpoint,
            ),
            old(self)@.position.mode == Mode::Normal ==> exists|p: i32|
                final(self)@.position == #[trigger] old(self)@.position.steered(p as int),
            old(self)@.position.mode == Mode::Calibration ==> exists|i: int|
                0 <= i < PULSES_PER_ROTATION && final(self)@.position
                    == #[trigger] old(self)@.position.calibration_step(i),
    {
        self.position_control.update();
        let angle = self.position_control.angle();
        self.commutate(angle);
        UPDATE_PERIOD as u32
    }

    fn calibration_step(&mut self) -> (next_delay: u32)
        requires
            old(self)@.wf(),
        ensures
            final(self)@.wf(),
            next_delay == UPDATE_PERIOD,
            exists|i: int|
                0 <= i < PULSES_PER_ROTATION && final(self)@
                    == old(self)@.after_calibration(#[trigger] old(self)@.position.calibration_step(i)),
    {
        self.position_control.calibrate();
        if self.position_control.calibration_is_done() {
            self.enable(false);
            self.control_type = ControlType::Hold;
        } else {
            let angle = self.position_control.angle();
            self.commutate(angle);
        }
        UPDATE_PERIOD as u32
    }

    /// One step of both current loops (the fast inner cadence).
    pub fn update_control_loop(&mut self, dt: u32)
        requires
            old(self)@.wf(),
        ensures
            final(self)@ == (MotorControlView {
                coil_a: CoilView { control: old(self)@.coil_a.control.updated(dt as int), ..old(self)@.coil_a },
                coil_b: CoilView { control: old(self)@.coil_b.control.updated(dt as int), ..old(self)@.coil_b },
                ..old(self)@
            }),
            final(self)@.wf(),
    {
        self.coil_a.current_control().update(dt);
        self.coil_b.current_control().update(dt);
    }

    pub fn coil_a(&mut self) -> (r: &mut Coil<T1>)
        ensures
            r@ == old(self)@.coil_a,
            final(self)@ == (MotorControlView { coil_a: final(r)@, ..old(self)@ }),
    {
        &mut self.coil_a
    }

    pub fn coil_b(&mut self) -> (r: &mut Coil<T2>)
        ensures
            r@ == old(self)@.coil_b,
            final(self)@ == (MotorControlView { coil_b: final(r)@, ..old(self)@ }),
    {
        &mut self.coil_b
    }

    /// Enables (resetting both current loops) or disables the outputs.
    pub fn enable(&mut self, enable: bool)
        ensures
            final(self)@ == old(self)@.switched(enable),
    {
        self.coil_a.current_control().enable(enable);
        self.coil_b.current_control().enable(enable);
        self.enabled = enable;
    }

    /// Sets the current magnitude in milliamps.
    pub fn set_current(&mut self, current: i32)
        ensures
            final(self)@ == (MotorControlView { current: current as int, ..old(self)@ }),
    {
        self.current = current;
    }

    /// Sets the target position and switches to position mode.
    pub fn set_position(&mut self, position: i32)
        ensures
            final(self)@ == (MotorControlView {
                position: PositionControlView { setpoint: position as int, ..old(self)@.position },
                control_type: ControlType::Position,
                ..old(self)@
            }),
    {
        self.position_control.set_position(position);
        self.control_type = ControlType::Position;
    }

    /// Sets the speed and switches to position mode.
    pub fn set_speed(&mut self, speed: i32)
        ensures
            final(self)@ == (MotorControlView {
                position: PositionControlView { speed: speed as int, ..old(self)@.position },
                control_type: ControlType::Position,
                ..old(self)@
            }),
    {
        self.position_control.set_speed(speed);
        self.control_type = ControlType::Position;
    }

    pub fn position_control(&mut self) -> (r: &mut PositionControl<Inp>)
        ensures
            r@ == old(self)@.position,
            final(self)@ == (MotorControlView { position: final(r)@, ..old(self)@ }),
    {
        &mut self.position_control
    }

    /// Handles a new encoder reading.
    pub fn handle_new_position(&mut self)
        requires
            old(self)@.wf(),
        ensures
            exists|p: i32|
                final(self)@ == (MotorControlView {
                    position: #[trigger] old(self)@.position.located(p as int),
                    ..old(self)@
                }),
            final(self)@.wf(),
    {
        self.position_control.update_position();
    }

    /// Free-running rotation at a signed speed.
    pub fn rotate(&mut self, speed: i32)
        ensures
            final(self)@ == (MotorControlView {
                rotate_speed: speed as int,
                control_type: ControlType::Rotate,
                ..old(self)@
            }),
    {
        self.rotate_speed = speed;
        self.control_type = ControlType::Rotate;
    }

    /// Holds the set current at the last angle.
    pub fn hold(&mut self)
        ensures
            final(self)@ == (MotorControlView { control_type: ControlType::Hold, ..old(self)@ }),
    {
        self.control_type = ControlType::Hold;
    }

    /// Starts a calibration and enables the outputs.
    pub fn calibrate(&mut self)
        requires
            old(self)@.wf(),
        ensures
            final(self)@ == (MotorControlView {
                position: old(self)@.position.calibration_started(),
                control_type: ControlType::Calibration,
                ..old(self)@
            }).switched(true),
            final(self)@.wf(),
    {
        self.control_type = ControlType::Calibration;
        self.position_control.start_calibration();
        self.enable(true);
    }

    /// Starts the backward pass of a calibration that waits after its forward pass.
    pub fn continue_calibration(&mut self)
        requires
            old(self)@.wf(),
        ensures
            final(self)@ == (MotorControlView {
                position: old(self)@.position.calibration_continued(),
                ..old(self)@
            }),
            final(self)@.wf(),
    {
        self.position_control.continue_calibration();
    }

    /// Forces a duty cycle on both coils.
    pub fn force_duty(&mut self, duty: i32)
        ensures
            final(self)@ == (MotorControlView {
                coil_a: CoilView { control: old(self)@.coil_a.control.forced(duty as int), ..old(self)@.coil_a },
                coil_b: CoilView { control: old(self)@.coil_b.control.forced(duty as int), ..old(self)@.coil_b },
                ..old(self)@
            }),
    {
        self.coil_a.current_control().force_duty(duty);
        self.coil_b.current_control().force_duty(duty);
    }
}

impl<T1: CurrentOutput, T2: CurrentOutput, Inp: PositionInput> PositionControlled for MotorControl<T1, T2, Inp> {
    fn set_angle(&mut self, degrees: i32)
        ensures
            final(self)@ == old(self)@.commutated(degrees as int),
    {
        self.commutate(degrees);
    }

    fn get_angle(&self) -> (r: i32)
        ensures
            r == self@.angle_setpoint,
    {
        self.angle_setpoint
    }
}

impl<T1: CurrentOutput, T2: CurrentOutput, Inp: PositionInput> PIDControl for MotorControl<T1, T2, Inp> {
    fn set_controller_p(&mut self, value: i32)
        ensures
            final(self)@ == old(self)@.tuned(|c: PIDController| (PIDController { p_gain: value, ..c })),
    {
        self.coil_a.current_control().set_controller_p(value);
        self.coil_b.current_control().set_controller_p(value);
    }

    fn set_controller_i(&mut self, value: i32)
        ensures
            final(self)@ == old(self)@.tuned(|c: PIDController| (PIDController { i_gain: value, ..c })),
    {
        self.coil_a.current_control().set_controller_i(value);
        self.coil_b.current_control().set_controller_i(value);
    }

    fn set_controller_d(&mut self, value: i32)
        ensures
            final(self)@ == old(self)@.tuned(|c: PIDController| (PIDController { d_gain: value, ..c })),
    {
        self.coil_a.current_control().set_controller_d(value);
        self.coil_b.current_control().set_controller_d(value);
    }
}

} // verus!
