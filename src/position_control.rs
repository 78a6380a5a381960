//! Outer position loop: encoder feedback through the calibration table to a
//! commutation angle that pulls the rotor towards the setpoint.
use vstd::prelude::*;
use crate::calibration::{
    Calibration, CalibrationPhase, CalibrationState, CalibrationView, DebugCalibrationData,
    PULSES_PER_ROTATION, pulse_index, pulse_index_of,
};
use crate::util::{abs, norm360, normalize_angle, is_i32};

verus! {

/// Last movement reported by an encoder, with its count.
#[derive(Debug, Clone, Copy)]
pub enum Direction {
    Increased(i32),
    Decreased(i32),
    Unknown(i32),
}

/// The encoder.
pub trait PositionInput {
    /// Latches a new reading.
    fn update(&mut self);

    /// Zeroes the count.
    fn reset(&mut self);

    /// The signed pulse count.
    fn get_position(&self) -> i32;

    /// The last movement.
    fn get_direction(&self) -> Direction;
}

/// Largest angle by which the commutation leads or lags the detected angle.
pub const COIL_MAX_PULL_ANGLE: i32 = 90;

/// Calls skipped between calibration ticks.
pub const CALIBRATION_TICKS_PER_STEP: u32 = 10;

/// Whether the loop follows the setpoint or runs the calibration.
#[derive(Debug, Clone, Copy, PartialEq, Eq, Structural)]
pub enum Mode {
    Normal,
    Calibration,
}

/// The angle by which the commutation is pulled for a position error: none
/// within one pulse, then twice the error, up to `COIL_MAX_PULL_ANGLE`.
pub open spec fn pull_angle(diff: int) -> int {
    if abs(diff) <= 1 {
        0
    } else if 2 * abs(diff) < COIL_MAX_PULL_ANGLE {
        2 * abs(diff)
    } else {
        COIL_MAX_PULL_ANGLE as int
    }
}

/// The commutation angle for a measured position: the detected angle, pulled
/// backwards when past the setpoint and forwards when short of it, in `[0, 360)`.
pub open spec fn next_angle(detected: int, position: int, setpoint: int) -> int {
    let diff = position - setpoint;
    if diff > 1 {
        norm360(detected - pull_angle(diff))
    } else if diff < -1 {
        norm360(detected + pull_angle(diff))
    } else {
        norm360(detected)
    }
}

/// On the setpoint (within one pulse) no pull is applied: the new angle is
/// the detected angle.
pub proof fn lemma_dead_zone(detected: int, position: int, setpoint: int)
    requires
        0 <= detected < 360,
        abs(position - setpoint) <= 1,
    ensures
        next_angle(detected, position, setpoint) == detected,
{
    vstd::arithmetic::div_mod::lemma_small_mod(detected as nat, 360);
}

/// Past the setpoint the angle is pulled backwards, short of it forwards, by
/// a pull in `(0, COIL_MAX_PULL_ANGLE]`; the result is in `[0, 360)`.
pub proof fn lemma_pull_direction(detected: int, position: int, setpoint: int)
    requires
        0 <= detected < 360,
    ensures
        0 <= next_angle(detected, position, setpoint) < 360,
        position - setpoint > 1 ==> 0 < pull_angle(position - setpoint) <= COIL_MAX_PULL_ANGLE
            && next_angle(detected, position, setpoint) == if detected >= pull_angle(
            position - setpoint,
        ) {
            detected - pull_angle(position - setpoint)
        } else {
            detected - pull_angle(position - setpoint) + 360
        },
        position - setpoint < -1 ==> 0 < pull_angle(position - setpoint) <= COIL_MAX_PULL_ANGLE
            && next_angle(detected, position, setpoint) == if detected + pull_angle(
            position - setpoint,
        ) < 360 {
            detected + pull_angle(position - setpoint)
        } else {
            detected + pull_angle(position - setpoint) - 360
        },
{
    let pull = pull_angle(position - setpoint);
    let d = detected;
    if position - setpoint > 1 {
        if d >= pull {
            vstd::arithmetic::div_mod::lemma_small_mod((d - pull) as nat, 360);
        } else {
            vstd::arithmetic::div_mod::lemma_mod_add_multiples_vanish(d - pull, 360);
            vstd::arithmetic::div_mod::lemma_small_mod((d - pull + 360) as nat, 360);
        }
    } else if position - setpoint < -1 {
        if d + pull < 360 {
            vstd::arithmetic::div_mod::lemma_small_mod((d + pull) as nat, 360);
        } else {
            vstd::arithmetic::div_mod::lemma_mod_sub_multiples_vanish(d + pull, 360);
            vstd::arithmetic::div_mod::lemma_small_mod((d + pull - 360) as nat, 360);
        }
    } else {
        vstd::arithmetic::div_mod::lemma_small_mod(d as nat, 360);
    }
}

/// The pull for a position error `diff` (see `pull_angle`).
fn pull_for(diff: i64) -> (r: i32)
    requires
        -0x1_0000_0000 <= diff <= 0x1_0000_0000,
    ensures
        r == pull_angle(diff as int),
{
    let distance: i64 = if diff < 0 {
        -diff
    } else {
        diff
    };
    if distance <= 1 {
        0
    } else if 2 * distance < COIL_MAX_PULL_ANGLE as i64 {
        (2 * distance) as i32
    } else {
        COIL_MAX_PULL_ANGLE
    }
}

/// Outer position loop of one motor.
pub struct PositionControl<Input: PositionInput> {
    mode: Mode,
    calibration: Calibration,
    control_period: i32,
    position_input: Input,
    setpoint: i32,
    speed: i32,
    detected_angle: i32,
    angle_setpoint: i32,
}

/// What a `PositionControl` holds, apart from its encoder.
pub struct PositionControlView {
    pub mode: Mode,
    pub calibration: CalibrationView,
    pub control_period: int,
    pub setpoint: int,
    pub speed: int,
    pub detected_angle: int,
    pub angle_setpoint: int,
}

impl<Input: PositionInput> View for PositionControl<Input> {
    type V = PositionControlView;

    closed spec fn view(&self) -> PositionControlView {
        PositionControlView {
            mode: self.mode,
            calibration: self.calibration@,
            control_period: self.control_period as int,
            setpoint: self.setpoint as int,
            speed: self.speed as int,
            detected_angle: self.detected_angle as int,
            angle_setpoint: self.angle_setpoint as int,
        }
    }
}

impl PositionControlView {
    /// Well-formed: a well-formed calibration, an angle in `[0, 360)`, and
    /// each value within `i32`.
    pub open spec fn wf(self) -> bool {
        &&& self.calibration.wf()
        &&& 0 <= self.angle_setpoint < 360
        &&& is_i32(self.control_period)
        &&& is_i32(self.setpoint)
        &&& is_i32(self.speed)
        &&& is_i32(self.detected_angle)
    }

    /// The state after steering for a measured `position`.
    pub open spec fn steered(self, position: int) -> PositionControlView {
        PositionControlView {
            angle_setpoint: next_angle(self.detected_angle, position, self.setpoint),
            ..self
        }
    }

    /// The state after a calibration call with the rotor at pulse
    /// `encoder_index`: the calibration advances, its angle is mirrored, and
    /// the loop returns to normal once it is calibrated.
    pub open spec fn calibration_step(self, encoder_index: int) -> PositionControlView {
        let c = self.calibration.after_update(encoder_index);
        PositionControlView {
            calibration: c,
            angle_setpoint: c.state.angle_setpoint as int,
            mode: if c.state.calibrated {
                Mode::Normal
            } else {
                self.mode
            },
            ..self
        }
    }

    /// The state after `start_calibration`: the calibration starts over in
    /// calibration mode, and the loop takes over its angle (359).
    pub open spec fn calibration_started(self) -> PositionControlView {
        let c = self.calibration;
        PositionControlView {
            calibration: CalibrationView {
                state: CalibrationState::initial(c.state.ticks_per_step, c.state.hysteresis),
                last_position: 0,
                ..c
            },
            mode: Mode::Calibration,
            angle_setpoint: 359,
            ..self
        }
    }

    /// The state after `continue_calibration`: while calibrating, a
    /// calibration waiting after its forward pass starts the backward pass;
    /// otherwise nothing changes.
    pub open spec fn calibration_continued(self) -> PositionControlView {
        if self.mode == Mode::Calibration && self.calibration.state.current_phase
            == CalibrationPhase::Step4Wait {
            PositionControlView {
                calibration: CalibrationView {
                    state: CalibrationState {
                        current_phase: CalibrationPhase::Step5CalibratingBackward,
                        ..self.calibration.state
                    },
                    ..self.calibration
                },
                ..self
            }
        } else {
            self
        }
    }

    /// The state after a new encoder count: while calibrating, the commanded
    /// angle is recorded at its pulse; otherwise the detected angle is looked up there.
    pub open spec fn located(self, position: int) -> PositionControlView {
        let index = pulse_index_of(position);
        if self.mode == Mode::Calibration {
            PositionControlView {
                calibration: CalibrationView {
                    table: self.calibration.table.update(index, self.angle_setpoint as i32),
                    ..self.calibration
                },
                ..self
            }
        } else {
            PositionControlView { detected_angle: self.calibration.table[index] as int, ..self }
        }
    }
}

impl<Input: PositionInput> PositionControl<Input> {
    /// A loop in normal mode at angle 0 with target 0 and an empty calibration.
    pub fn new(position_input: Input, control_period: i32) -> (r: Self)
        ensures
            r@.mode == Mode::Normal,
            r@.calibration.state == CalibrationState::initial(
                CALIBRATION_TICKS_PER_STEP,
                false,
            ),
            r@.calibration.table == Seq::new(
                PULSES_PER_ROTATION as nat,
                |i: int| 0i32,
            ),
            r@.control_period == control_period,
            r@.setpoint == 0 && r@.speed == 0,
            r@.detected_angle == 0 && r@.angle_setpoint == 0,
            r@.wf(),
    {
        Self {
            mode: Mode::Normal,
            calibration: Calibration::new(CALIBRATION_TICKS_PER_STEP, false),
            control_period,
            position_input,
            setpoint: 0,
            speed: 0,
            detected_angle: 0,
            angle_setpoint: 0,
        }
    }

    /// Handles an encoder count: records the commanded angle at its pulse
    /// while calibrating, and otherwise looks up the detected angle there.
    pub fn handle_position(&mut self, position: i32)
        requires
            old(self)@.wf(),
        ensures
            final(self)@ == old(self)@.located(position as int),
            final(self)@.wf(),
    {
        let index = pulse_index(position);
        if self.mode == Mode::Calibration {
            self.calibration.record(index, self.angle_setpoint);
        } else {
            self.detected_angle = self.calibration.angle_at_position(index);
            proof {
                vstd::arithmetic::div_mod::lemma_small_mod(index as nat, PULSES_PER_ROTATION as nat);
            }
        }
    }

    /// Latches and handles a new encoder reading.
    pub fn update_position(&mut self)
        requires
            old(self)@.wf(),
        ensures
            exists|p: i32| final(self)@ == #[trigger] old(self)@.located(p as int),
            final(self)@.wf(),
    {
        self.position_input.update();
        let position = self.position_input.get_position();
        self.handle_position(position);
    }

    /// One step of the loop: steering towards the setpoint, or a calibration call.
    pub fn update(&mut self)
        requires
            old(self)@.wf(),
        ensures
            old(self)@.mode == Mode::Normal ==> exists|p: i32|
                final(self)@ == #[trigger] old(self)@.steered(p as int),
            old(self)@.mode == Mode::Calibration ==> exists|i: int|
                0 <= i < PULSES_PER_ROTATION && final(self)@
                    == #[trigger] old(self)@.calibration_step(i),
            final(self)@.wf(),
    {
        match self.mode {
            Mode::Normal => {
                let position = self.get_current_position();
                self.calculate_next_angle(position);
            },
            Mode::Calibration => {
                self.calibrate();
            },
        }
    }

    /// Steers for the measured `position`: the new angle is the detected
    /// angle pulled towards the setpoint (see `next_angle`).
    pub fn calculate_next_angle(&mut self, position: i32)
        requires
            old(self)@.wf(),
        ensures
            final(self)@ == old(self)@.steered(position as int),
            final(self)@.wf(),
    {
        let diff: i64 = position as i64 - self.setpoint as i64;
        let pull = pull_for(diff) as i64;
        let detected = self.detected_angle as i64;
        let angle: i64 = if diff > 1 {
            detected - pull
        } else if diff < -1 {
            detected + pull
        } else {
            detected
        };
        self.angle_setpoint = normalize_angle(angle);
    }

    /// One call of the calibration; its commanded angle becomes the loop's,
    /// and the loop returns to normal once calibrated.
    pub fn calibrate(&mut self)
        requires
            old(self)@.wf(),
        ensures
            exists|i: int|
                0 <= i < PULSES_PER_ROTATION && final(self)@
                    == #[trigger] old(self)@.calibration_step(i),
            final(self)@.wf(),
    {
        self.calibration.update(&mut self.position_input);
        let ghost i = choose|i: int|
            0 <= i < PULSES_PER_ROTATION && self.calibration@
                == #[trigger] old(self)@.calibration.after_update(i);
        self.angle_setpoint = self.calibration.requested_angle();
        if self.calibration.is_calibrated() {
            self.mode = Mode::Normal;
        }
        assert(self@ == old(self)@.calibration_step(i));
    }

    /// Starts a calibration from the beginning, zeroing the encoder.
    pub fn start_calibration(&mut self)
        requires
            old(self)@.wf(),
        ensures
            final(self)@ == old(self)@.calibration_started(),
            final(self)@.wf(),
    {
        self.calibration.reset();
        self.position_input.reset();
        self.mode = Mode::Calibration;
        self.angle_setpoint = self.calibration.requested_angle();
    }

    /// Starts the backward pass of a calibration that waits after its
    /// forward pass; otherwise does nothing.
    pub fn continue_calibration(&mut self)
        requires
            old(self)@.wf(),
        ensures
            final(self)@ == old(self)@.calibration_continued(),
            final(self)@.wf(),
    {
        if self.mode == Mode::Calibration {
            self.calibration.continue_backward();
        }
    }

    /// Chooses whether calibrations add a backward pass.
    pub fn set_hysteresis(&mut self, hysteresis: bool)
        requires
            old(self)@.wf(),
        ensures
            final(self)@.calibration.state == (CalibrationState {
                hysteresis,
                ..old(self)@.calibration.state
            }),
            final(self)@ == (PositionControlView { calibration: final(self)@.calibration, ..old(self)@ }),
            final(self)@.calibration.table == old(self)@.calibration.table,
            final(self)@.wf(),
    {
        self.calibration.set_hysteresis(hysteresis);
    }

    /// The commanded electrical angle, in `[0, 360)`.
    pub fn angle(&self) -> (r: i32)
        ensures
            r == self@.angle_setpoint,
    {
        self.angle_setpoint
    }

    /// The angle last looked up for the rotor's pulse.
    pub fn detected_angle(&self) -> (r: i32)
        ensures
            r == self@.detected_angle,
    {
        self.detected_angle
    }

    /// Sets the target encoder position.
    pub fn set_position(&mut self, position: i32)
        ensures
            final(self)@ == (PositionControlView { setpoint: position as int, ..old(self)@ }),
    {
        self.setpoint = position;
    }

    /// The encoder's count.
    pub fn get_current_position(&self) -> i32 {
        self.position_input.get_position()
    }

    pub fn set_speed(&mut self, speed: i32)
        ensures
            final(self)@ == (PositionControlView { speed: speed as int, ..old(self)@ }),
    {
        self.speed = speed;
    }

    /// The forward calibration table.
    pub fn get_calibration_data(&self) -> (r: &DebugCalibrationData)
        ensures
            r.pulse_at_angle@ == self@.calibration.table,
    {
        self.calibration.get_calibration_data()
    }

    /// The calibration procedure.
    pub fn calibration(&self) -> (r: &Calibration)
        ensures
            r@ == self@.calibration,
    {
        &self.calibration
    }

    pub fn calibration_is_done(&self) -> (r: bool)
        ensures
            r == self@.calibration.state.calibrated,
    {
        self.calibration.is_calibrated()
    }
}

} // verus!
