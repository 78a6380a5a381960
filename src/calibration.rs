//! Self-calibration: sweeping the rotor one electrical degree at a time and
//! recording, per encoder pulse, the commutation angle commanded there.
use vstd::prelude::*;
use crate::position_control::PositionInput;

verus! {

/// Encoder pulses in one mechanical turn; the calibration table has one entry per pulse.
pub const PULSES_PER_ROTATION: usize = 2400;

pub const ROTOR_TEETH: u32 = 50;
pub const ROTOR_POLES: u32 = 2;
/// Bipolar drive: two steps per pole.
pub const STEPS_PER_POLE: u32 = 2;
/// Full steps (90° electrical each) in one mechanical turn.
pub const STEPS_PER_ROTATION: u32 = ROTOR_TEETH * ROTOR_POLES * STEPS_PER_POLE;

/// Pulse-indexed table of commutation angles.
pub struct DebugCalibrationData {
    pub pulse_at_angle: [i32; PULSES_PER_ROTATION],
}

/// Phases of the calibration sweep.
#[derive(Debug, Clone, Copy, PartialEq, Eq, Structural)]
pub enum CalibrationPhase {
    /// Turning backwards down to angle 0, against a known mechanical reference.
    Step1Backwards,
    /// One full electrical turn forwards back to 0, so that zero is approached
    /// from a known direction.
    Step2Forwards,
    /// Turning forwards, counting a step at each 90° and recording the table.
    Step3CalibratingForward,
    /// Forward pass done; waiting to be told to sweep backwards.
    Step4Wait,
    /// Turning backwards, counting steps down and recording the reverse table.
    Step5CalibratingBackward,
    /// Finished.
    Done,
}

/// Progress of the calibration state machine.
#[derive(Debug, Clone, Copy)]
pub struct CalibrationState {
    /// Calls since the last tick.
    pub slow_iteration: u32,
    /// Calls skipped between ticks, so that the rotor settles between degrees.
    pub ticks_per_step: u32,
    /// Commanded electrical angle, in `[0, 360)`.
    pub angle_setpoint: i32,
    /// 90° steps counted in the calibrating passes.
    pub current_step: u32,
    pub current_phase: CalibrationPhase,
    pub calibrated: bool,
    /// Whether a backward pass follows the forward one.
    pub hysteresis: bool,
}

/// One degree forwards, wrapping 359 to 0.
pub open spec fn angle_forwards(a: int) -> int {
    if a < 359 {
        a + 1
    } else {
        0
    }
}

/// One degree backwards, wrapping 0 to 359.
pub open spec fn angle_backwards(a: int) -> int {
    if a > 0 {
        a - 1
    } else {
        359
    }
}

impl CalibrationState {
    /// A sweep about to start: angle 359, nothing counted.
    pub open spec fn initial(ticks_per_step: u32, hysteresis: bool) -> CalibrationState {
        CalibrationState {
            slow_iteration: 0,
            ticks_per_step,
            angle_setpoint: 359,
            current_step: 0,
            current_phase: CalibrationPhase::Step1Backwards,
            calibrated: false,
            hysteresis,
        }
    }

    /// The commanded angle is a whole degree of one turn, and the step count
    /// stays within a turn.
    pub open spec fn wf(self) -> bool {
        &&& 0 <= self.angle_setpoint < 360
        &&& self.current_step <= STEPS_PER_ROTATION
        &&& self.current_phase == CalibrationPhase::Step3CalibratingForward ==> self.current_step
            < STEPS_PER_ROTATION
        &&& self.calibrated <==> self.current_phase == CalibrationPhase::Done
        &&& self.current_phase == CalibrationPhase::Step4Wait ==> self.current_step
            == STEPS_PER_ROTATION
        &&& self.current_phase == CalibrationPhase::Step5CalibratingBackward ==> self.current_step > 0
    }

    /// One tick of the state machine (the throttle aside).
    pub open spec fn tick(self) -> CalibrationState {
        let a = self.angle_setpoint as int;
        match self.current_phase {
            CalibrationPhase::Step1Backwards => {
                let n = angle_backwards(a);
                CalibrationState {
                    angle_setpoint: n as i32,
                    current_phase: if n == 0 {
                        CalibrationPhase::Step2Forwards
                    } else {
                        CalibrationPhase::Step1Backwards
                    },
                    ..self
                }
            },
            CalibrationPhase::Step2Forwards => {
                let n = angle_forwards(a);
                if n == 0 {
                    CalibrationState {
                        slow_iteration: 0,
                        angle_setpoint: 0,
                        current_step: 0,
                        current_phase: CalibrationPhase::Step3CalibratingForward,
                        calibrated: false,
                        ..self
                    }
                } else {
                    CalibrationState { angle_setpoint: n as i32, ..self }
                }
            },
            CalibrationPhase::Step3CalibratingForward => {
                let n = angle_forwards(a);
                let step = if n % 90 == 0 {
                    self.current_step + 1
                } else {
                    self.current_step as int
                };
                let done = step == STEPS_PER_ROTATION;
                CalibrationState {
                    angle_setpoint: n as i32,
                    current_step: step as u32,
                    current_phase: if !done {
                        CalibrationPhase::Step3CalibratingForward
                    } else if self.hysteresis {
                        CalibrationPhase::Step4Wait
                    } else {
                        CalibrationPhase::Done
                    },
                    calibrated: if done {
                        !self.hysteresis
                    } else {
                        self.calibrated
                    },
                    ..self
                }
            },
            CalibrationPhase::Step5CalibratingBackward => {
                let n = angle_backwards(a);
                let step = if n % 90 == 0 {
                    self.current_step - 1
                } else {
                    self.current_step as int
                };
                let done = step == 0;
                CalibrationState {
                    angle_setpoint: n as i32,
                    current_step: step as u32,
                    current_phase: if done {
                        CalibrationPhase::Done
                    } else {
                        CalibrationPhase::Step5CalibratingBackward
                    },
                    calibrated: done || self.calibrated,
                    ..self
                }
            },
            _ => self,
        }
    }

    /// Whether the next call to `update` ticks the state machine.
    pub open spec fn fires(self) -> bool {
        self.slow_iteration >= self.ticks_per_step
    }

    /// The state after one call to `update`: a tick every `ticks_per_step + 1` calls.
    pub open spec fn throttled(self) -> CalibrationState {
        if self.fires() {
            CalibrationState { slow_iteration: 0, ..self }.tick()
        } else {
            CalibrationState { slow_iteration: (self.slow_iteration + 1) as u32, ..self }
        }
    }

    /// Whether this tick ends the alignment and zeroes the encoder.
    pub open spec fn resets_encoder(self) -> bool {
        self.current_phase == CalibrationPhase::Step2Forwards && angle_forwards(
            self.angle_setpoint as int,
        ) == 0
    }

    /// Whether this tick records into the forward table: a 90° step of the forward pass.
    pub open spec fn records_forward(self) -> bool {
        self.current_phase == CalibrationPhase::Step3CalibratingForward && angle_forwards(
            self.angle_setpoint as int,
        ) % 90 == 0
    }

    /// Whether this tick records into the reverse table: a 90° step of the backward pass.
    pub open spec fn records_backward(self) -> bool {
        self.current_phase == CalibrationPhase::Step5CalibratingBackward && angle_backwards(
            self.angle_setpoint as int,
        ) % 90 == 0
    }
}

/// `n` ticks of the state machine.
pub open spec fn ticks(s: CalibrationState, n: nat) -> CalibrationState
    decreases n,
{
    if n == 0 {
        s
    } else {
        ticks(s, (n - 1) as nat).tick()
    }
}

/// `n` calls of `update`, as seen by the state machine.
pub open spec fn calls(s: CalibrationState, n: nat) -> CalibrationState
    decreases n,
{
    if n == 0 {
        s
    } else {
        calls(s, (n - 1) as nat).throttled()
    }
}

proof fn lemma_idle_calls(s: CalibrationState, k: nat)
    requires
        s.slow_iteration == 0,
        k <= s.ticks_per_step,
    ensures
        calls(s, k) == (CalibrationState { slow_iteration: k as u32, ..s }),
    decreases k,
{
    if k > 0 {
        lemma_idle_calls(s, (k - 1) as nat);
    }
}

/// The throttle: from a fresh count, `ticks_per_step` calls only count, and
/// the next one makes exactly one tick of the state machine.
pub proof fn lemma_throttle(s: CalibrationState)
    requires
        s.slow_iteration == 0,
    ensures
        calls(s, s.ticks_per_step as nat) == (CalibrationState {
            slow_iteration: s.ticks_per_step,
            ..s
        }),
        calls(s, s.ticks_per_step as nat + 1) == s.tick(),
{
    lemma_idle_calls(s, s.ticks_per_step as nat);
}

/// Ticks the backward alignment takes from the state's angle down to 0 (a
/// full turn from 0 itself).
pub open spec fn alignment_ticks(s: CalibrationState) -> nat {
    if s.angle_setpoint == 0 {
        360
    } else {
        s.angle_setpoint as nat
    }
}

proof fn lemma_backwards_ticks(s: CalibrationState, k: nat)
    requires
        s.wf(),
        s.current_phase == CalibrationPhase::Step1Backwards,
        k < alignment_ticks(s),
    ensures
        ticks(s, k) == (CalibrationState {
            angle_setpoint: ((alignment_ticks(s) - k) % 360) as i32,
            ..s
        }),
    decreases k,
{
    if k > 0 {
        lemma_backwards_ticks(s, (k - 1) as nat);
    }
}

proof fn lemma_forwards_ticks(s: CalibrationState, k: nat)
    requires
        s.current_phase == CalibrationPhase::Step2Forwards,
        s.angle_setpoint == 0,
        k < 360,
    ensures
        ticks(s, k) == (CalibrationState { angle_setpoint: k as i32, ..s }),
    decreases k,
{
    if k > 0 {
        lemma_forwards_ticks(s, (k - 1) as nat);
    }
}

proof fn lemma_mod_succ(j: int, m: int)
    requires
        j >= 0,
        m > 0,
    ensures
        (j + 1) % m == if j % m < m - 1 {
            j % m + 1
        } else {
            0
        },
{
    vstd::arithmetic::div_mod::lemma_fundamental_div_mod(j, m);
    vstd::arithmetic::div_mod::lemma_fundamental_div_mod(j + 1, m);
    vstd::arithmetic::div_mod::lemma_mod_add_multiples_vanish(j % m + 1, m);
    vstd::arithmetic::div_mod::lemma_mod_multiples_vanish(j / m, j % m + 1, m);
    vstd::arithmetic::div_mod::lemma_mod_self_0(m);
    if j % m < m - 1 {
        vstd::arithmetic::div_mod::lemma_small_mod((j % m + 1) as nat, m as nat);
    }
}

proof fn lemma_div_succ(j: int, m: int)
    requires
        j >= 0,
        m > 0,
    ensures
        (j + 1) / m == if (j + 1) % m == 0 {
            j / m + 1
        } else {
            j / m
        },
{
    lemma_mod_succ(j, m);
    vstd::arithmetic::div_mod::lemma_fundamental_div_mod(j, m);
    vstd::arithmetic::div_mod::lemma_fundamental_div_mod(j + 1, m);
    let q = j / m;
    let r = j % m;
    let q1 = (j + 1) / m;
    let r1 = (j + 1) % m;
    assert(m * q1 + r1 == m * q + r + 1);
    if r < m - 1 {
        assert(m * q1 == m * q) ;
        vstd::arithmetic::mul::lemma_mul_equality_converse(m, q1, q);
    } else {
        assert(m * q1 == m * (q + 1)) by (nonlinear_arith)
            requires
                m * q1 + r1 == m * q + r + 1,
                r1 == 0,
                r == m - 1,
        ;
        vstd::arithmetic::mul::lemma_mul_equality_converse(m, q1, q + 1);
    }
}

proof fn lemma_calibrating_ticks(s: CalibrationState, k: nat)
    requires
        s.current_phase == CalibrationPhase::Step3CalibratingForward,
        s.angle_setpoint == 0,
        s.current_step == 0,
        k < 90 * STEPS_PER_ROTATION,
    ensures
        ticks(s, k) == (CalibrationState {
            angle_setpoint: (k % 360) as i32,
            current_step: (k / 90) as u32,
            ..s
        }),
    decreases k,
{
    if k > 0 {
        let j = (k - 1) as nat;
        lemma_calibrating_ticks(s, j);
        let ji = j as int;
        let ki = k as int;
        assert(angle_forwards(ji % 360) == ki % 360) by {
            lemma_mod_succ(ji, 360);
        }
        assert((ki % 360) % 90 == ki % 90) by {
            vstd::arithmetic::div_mod::lemma_mod_mod(ki, 90, 4);
        }
        assert(ki / 90 == if ki % 90 == 0 { ji / 90 + 1 } else { ji / 90 }) by {
            lemma_div_succ(ji, 90);
        }
    }
}

/// Progress of a calibration without backward pass, tick by tick: from any
/// angle the backward alignment reaches 0; the forward alignment then turns
/// once to 0 again, zeroing the encoder and the step count on its last tick;
/// and the forward pass ends calibrated, with a full turn of steps counted.
pub proof fn lemma_calibration_progress(s: CalibrationState)
    requires
        s.wf(),
        s.current_phase == CalibrationPhase::Step1Backwards,
        !s.hysteresis,
    ensures
        ({
            let aligned = ticks(s, alignment_ticks(s));
            let zeroed = ticks(aligned, 360);
            let finished = ticks(zeroed, (90 * STEPS_PER_ROTATION) as nat);
            &&& aligned.current_phase == CalibrationPhase::Step2Forwards
            &&& aligned.angle_setpoint == 0
            &&& ticks(aligned, 359).resets_encoder()
            &&& zeroed.current_phase == CalibrationPhase::Step3CalibratingForward
            &&& zeroed.angle_setpoint == 0
            &&& zeroed.current_step == 0
            &&& finished.current_phase == CalibrationPhase::Done
            &&& finished.calibrated
            &&& finished.current_step == STEPS_PER_ROTATION
        }),
{
    let n = alignment_ticks(s);
    lemma_backwards_ticks(s, (n - 1) as nat);
    let aligned = ticks(s, n);
    lemma_forwards_ticks(aligned, 359);
    let zeroed = ticks(aligned, 360);
    let last = (90 * STEPS_PER_ROTATION - 1) as nat;
    lemma_calibrating_ticks(zeroed, last);
    assert(last % 360 == 359);
    assert(last / 90 == STEPS_PER_ROTATION - 1);
}

proof fn lemma_calls_add(s: CalibrationState, a: nat, b: nat)
    ensures
        calls(s, a + b) == calls(calls(s, a), b),
    decreases b,
{
    if b > 0 {
        lemma_calls_add(s, a, (b - 1) as nat);
        assert(a + b - 1 == a + (b - 1) as nat);
    }
}

/// From a fresh count, `m * (ticks_per_step + 1)` calls are `m` ticks, and
/// the count is fresh again.
pub proof fn lemma_calls_are_ticks(s: CalibrationState, m: nat)
    requires
        s.slow_iteration == 0,
    ensures
        calls(s, m * (s.ticks_per_step + 1) as nat) == ticks(s, m),
        ticks(s, m).slow_iteration == 0,
        ticks(s, m).ticks_per_step == s.ticks_per_step,
    decreases m,
{
    if m > 0 {
        let c = (s.ticks_per_step + 1) as nat;
        lemma_calls_are_ticks(s, (m - 1) as nat);
        let x = ticks(s, (m - 1) as nat);
        let before = ((m - 1) * c) as nat;
        assert(before + c == m * c) by (nonlinear_arith)
            requires
                before == (m - 1) * c,
                m >= 1,
        ;
        lemma_calls_add(s, before, c);
        assert(calls(s, before) == x);
        lemma_throttle(x);
        assert(calls(x, c) == x.tick());
        assert(calls(s, m * c) == x.tick());
        assert(ticks(s, m) == x.tick());
        assert(m * c == m * (s.ticks_per_step + 1) as nat);
    } else {
        let c = (s.ticks_per_step + 1) as nat;
        assert(m * c == 0) by (nonlinear_arith)
            requires
                m == 0,
        ;
    }
}

/// Progress of a calibration without backward pass, counted in calls of
/// `update` (`c = ticks_per_step + 1` calls per tick, `n = alignment_ticks`):
/// after `c * n` calls the backward alignment ends at angle 0; call number
/// `c * (n + 360)` ends the forward alignment, zeroing the encoder, with
/// angle 0 and no step counted; and `c * 90 * STEPS_PER_ROTATION` calls later
/// the calibration is done with a full turn of steps.
pub proof fn lemma_calibration_progress_in_calls(s: CalibrationState)
    requires
        s.wf(),
        s.current_phase == CalibrationPhase::Step1Backwards,
        !s.hysteresis,
        s.slow_iteration == 0,
    ensures
        ({
            let c = (s.ticks_per_step + 1) as nat;
            let n = alignment_ticks(s);
            let aligned = calls(s, c * n);
            let before_zero = calls(s, (c * (n + 360) - 1) as nat);
            let zeroed = calls(s, c * (n + 360));
            let finished = calls(s, c * (n + 360 + 90 * STEPS_PER_ROTATION as nat));
            &&& aligned.current_phase == CalibrationPhase::Step2Forwards
            &&& aligned.angle_setpoint == 0
            &&& before_zero.fires() && before_zero.resets_encoder()
            &&& zeroed.current_phase == CalibrationPhase::Step3CalibratingForward
            &&& zeroed.angle_setpoint == 0
            &&& zeroed.current_step == 0
            &&& finished.current_phase == CalibrationPhase::Done
            &&& finished.calibrated
            &&& finished.current_step == STEPS_PER_ROTATION
        }),
{
    let c = (s.ticks_per_step + 1) as nat;
    let n = alignment_ticks(s);
    let f = (90 * STEPS_PER_ROTATION) as nat;
    lemma_calibration_progress(s);
    lemma_calls_are_ticks(s, n);
    let aligned = ticks(s, n);
    lemma_calls_are_ticks(aligned, 359);
    lemma_calls_are_ticks(aligned, 360);
    let zeroed = ticks(aligned, 360);
    lemma_calls_are_ticks(zeroed, f);
    assert(c * (n + 360) == c * n + c * 360) by (nonlinear_arith);
    assert(c * (n + 360 + f) == c * n + c * 360 + c * f) by (nonlinear_arith);
    assert(c * 360 == c * 359 + c) by (nonlinear_arith);
    assert(c * n >= 0 && c * 359 >= 0) by (nonlinear_arith)
        requires
            c >= 1,
    ;
    lemma_calls_add(s, c * n, c * 360);
    lemma_calls_add(calls(s, c * n), c * 359, (c - 1) as nat);
    assert((c * (n + 360) - 1) as nat == c * n + (c * 359 + (c - 1) as nat));
    lemma_calls_add(s, c * n, c * 359 + (c - 1) as nat);
    lemma_throttle(ticks(aligned, 359));
    lemma_calls_add(s, c * n + c * 360, c * f);
}

/// The table index of an encoder count: the count modulo the pulses of one
/// turn, negative counts wrapping around.
pub open spec fn pulse_index_of(position: int) -> int {
    position % PULSES_PER_ROTATION as int
}

/// Maps a raw encoder count into `[0, PULSES_PER_ROTATION)`.
pub fn pulse_index(position: i32) -> (r: usize)
    ensures
        r == pulse_index_of(position as int),
        r < PULSES_PER_ROTATION,
{
    let m = position % PULSES_PER_ROTATION as i32;
    if m < 0 {
        (m + PULSES_PER_ROTATION as i32) as usize
    } else {
        m as usize
    }
}

/// The calibration procedure and the tables it fills.
pub struct Calibration {
    state: CalibrationState,
    last_position: usize,
    forward: DebugCalibrationData,
    backward: DebugCalibrationData,
}

/// What a `Calibration` holds.
pub struct CalibrationView {
    pub state: CalibrationState,
    pub last_position: int,
    /// Angle per pulse, recorded turning forwards; what normal operation reads.
    pub table: Seq<i32>,
    /// Angle per pulse, recorded turning backwards (with hysteresis only).
    pub reverse_table: Seq<i32>,
}

impl View for Calibration {
    type V = CalibrationView;

    closed spec fn view(&self) -> CalibrationView {
        CalibrationView {
            state: self.state,
            last_position: self.last_position as int,
            table: self.forward.pulse_at_angle@,
            reverse_table: self.backward.pulse_at_angle@,
        }
    }
}

impl CalibrationView {
    pub open spec fn wf(self) -> bool {
        &&& self.state.wf()
        &&& self.table.len() == PULSES_PER_ROTATION
        &&& self.reverse_table.len() == PULSES_PER_ROTATION
    }

    /// The state after one call of `update_at(encoder_index)`: the machine
    /// advances by the throttle, and a 90° step records its angle at the
    /// encoder index into the table of its pass.
    pub open spec fn after_update(self, encoder_index: int) -> CalibrationView {
        let s = self.state;
        let next = s.throttled();
        CalibrationView {
            state: next,
            table: if s.fires() && s.records_forward() {
                self.table.update(encoder_index, next.angle_setpoint)
            } else {
                self.table
            },
            reverse_table: if s.fires() && s.records_backward() {
                self.reverse_table.update(encoder_index, next.angle_setpoint)
            } else {
                self.reverse_table
            },
            ..self
        }
    }

    /// The state after `update_position(position, angle)`: a new position
    /// records `angle` into the table.
    pub open spec fn with_position(self, position: int, angle: i32) -> CalibrationView {
        if position != self.last_position {
            CalibrationView {
                last_position: position,
                table: self.table.update(position % PULSES_PER_ROTATION as int, angle),
                ..self
            }
        } else {
            self
        }
    }
}

impl Default for Calibration {
    /// A calibration ticking every other call, without backward pass.
    fn default() -> (r: Self)
        ensures
            r@.state == CalibrationState::initial(1, false),
            r@.last_position == 0,
            r@.table == Seq::new(PULSES_PER_ROTATION as nat, |i: int| 0i32),
            r@.reverse_table == Seq::new(PULSES_PER_ROTATION as nat, |i: int| 0i32),
            r@.wf(),
    {
        Self::new(1, false)
    }
}

impl Calibration {
    /// A calibration ready to start, ticking every `ticks_per_step + 1` calls,
    /// with a backward pass when `hysteresis` is set; the tables are zero.
    pub fn new(ticks_per_step: u32, hysteresis: bool) -> (r: Self)
        ensures
            r@.state == CalibrationState::initial(ticks_per_step, hysteresis),
            r@.last_position == 0,
            r@.table == Seq::new(PULSES_PER_ROTATION as nat, |i: int| 0i32),
            r@.reverse_table == Seq::new(PULSES_PER_ROTATION as nat, |i: int| 0i32),
            r@.wf(),
    {
        let r = Self {
            state: CalibrationState {
                slow_iteration: 0,
                ticks_per_step,
                angle_setpoint: 359,
                current_step: 0,
                current_phase: CalibrationPhase::Step1Backwards,
                calibrated: false,
                hysteresis,
            },
            last_position: 0,
            forward: DebugCalibrationData { pulse_at_angle: [0; PULSES_PER_ROTATION] },
            backward: DebugCalibrationData { pulse_at_angle: [0; PULSES_PER_ROTATION] },
        };
        assert(r.forward.pulse_at_angle@ =~= Seq::new(PULSES_PER_ROTATION as nat, |i: int| 0i32));
        assert(r.backward.pulse_at_angle@ =~= Seq::new(PULSES_PER_ROTATION as nat, |i: int| 0i32));
        r
    }

    /// Starts over from the beginning of the sweep; the tables are kept.
    pub fn reset(&mut self)
        requires
            old(self)@.wf(),
        ensures
            final(self)@ == (CalibrationView {
                state: CalibrationState::initial(
                    old(self)@.state.ticks_per_step,
                    old(self)@.state.hysteresis,
                ),
                last_position: 0,
                ..old(self)@
            }),
            final(self)@.wf(),
    {
        self.state = CalibrationState {
            slow_iteration: 0,
            ticks_per_step: self.state.ticks_per_step,
            angle_setpoint: 359,
            current_step: 0,
            current_phase: CalibrationPhase::Step1Backwards,
            calibrated: false,
            hysteresis: self.state.hysteresis,
        };
        self.last_position = 0;
    }

    /// The angle recorded for an encoder pulse (taken modulo the pulses of a turn).
    pub fn angle_at_position(&self, position: usize) -> (r: i32)
        requires
            self@.wf(),
        ensures
            r == self@.table[position as int % PULSES_PER_ROTATION as int],
    {
        self.forward.pulse_at_angle[position % PULSES_PER_ROTATION]
    }

    /// Records `angle` for the pulse `position` (taken modulo the pulses of a
    /// turn) when the position differs from the last one recorded.
    pub fn update_position(&mut self, position: usize, angle: i32)
        requires
            old(self)@.wf(),
        ensures
            final(self)@ == old(self)@.with_position(position as int, angle),
            final(self)@.wf(),
    {
        if position != self.last_position {
            self.last_position = position;
            self.forward.pulse_at_angle[position % PULSES_PER_ROTATION] = angle;
        }
    }

    /// Records `angle` for the pulse `index` in the forward table.
    pub fn record(&mut self, index: usize, angle: i32)
        requires
            old(self)@.wf(),
            index < PULSES_PER_ROTATION,
        ensures
            final(self)@ == (CalibrationView {
                table: old(self)@.table.update(index as int, angle),
                ..old(self)@
            }),
            final(self)@.wf(),
    {
        self.forward.pulse_at_angle[index] = angle;
    }

    /// The forward table.
    pub fn get_calibration_data(&self) -> (r: &DebugCalibrationData)
        ensures
            r.pulse_at_angle@ == self@.table,
    {
        &self.forward
    }

    /// The table of the backward pass.
    pub fn get_reverse_calibration_data(&self) -> (r: &DebugCalibrationData)
        ensures
            r.pulse_at_angle@ == self@.reverse_table,
    {
        &self.backward
    }

    pub fn is_calibrated(&self) -> (r: bool)
        ensures
            r == self@.state.calibrated,
    {
        self.state.calibrated
    }

    /// The commanded electrical angle.
    pub fn requested_angle(&self) -> (r: i32)
        ensures
            r == self@.state.angle_setpoint,
    {
        self.state.angle_setpoint
    }

    /// The progress record.
    pub fn state(&self) -> (r: CalibrationState)
        ensures
            r == self@.state,
    {
        self.state
    }

    /// Chooses whether a backward pass follows the forward one.
    pub fn set_hysteresis(&mut self, hysteresis: bool)
        requires
            old(self)@.wf(),
        ensures
            final(self)@ == (CalibrationView {
                state: CalibrationState { hysteresis, ..old(self)@.state },
                ..old(self)@
            }),
            final(self)@.wf(),
    {
        self.state.hysteresis = hysteresis;
    }

    /// Whether the forward pass is done and the backward pass may start.
    pub fn is_waiting(&self) -> (r: bool)
        ensures
            r == (self@.state.current_phase == CalibrationPhase::Step4Wait),
    {
        self.state.current_phase == CalibrationPhase::Step4Wait
    }

    /// Starts the backward pass after the forward one; otherwise does nothing.
    pub fn continue_backward(&mut self)
        requires
            old(self)@.wf(),
        ensures
            old(self)@.state.current_phase == CalibrationPhase::Step4Wait ==> final(self)@ == (
            CalibrationView {
                state: CalibrationState {
                    current_phase: CalibrationPhase::Step5CalibratingBackward,
                    ..old(self)@.state
                },
                ..old(self)@
            }),
            old(self)@.state.current_phase != CalibrationPhase::Step4Wait ==> final(self)@ == old(
                self,
            )@,
            final(self)@.wf(),
    {
        if self.state.current_phase == CalibrationPhase::Step4Wait {
            self.state.current_phase = CalibrationPhase::Step5CalibratingBackward;
        }
    }

    /// One call of the procedure with the rotor at encoder pulse
    /// `encoder_index`. Returns whether the encoder must now be zeroed (the
    /// alignment has just ended).
    pub fn update_at(&mut self, encoder_index: usize) -> (reset_encoder: bool)
        requires
            old(self)@.wf(),
            encoder_index < PULSES_PER_ROTATION,
        ensures
            final(self)@ == old(self)@.after_update(encoder_index as int),
            reset_encoder == (old(self)@.state.fires() && old(self)@.state.resets_encoder()),
            final(self)@.wf(),
    {
        // Step slowly through the range so the rotor settles at each degree.
        if self.state.slow_iteration < self.state.ticks_per_step {
            self.state.slow_iteration += 1;
            return false;
        }
        self.state.slow_iteration = 0;
        match self.state.current_phase {
            CalibrationPhase::Step1Backwards => {
                self.rotate_backwards();
                if self.state.angle_setpoint == 0 {
                    self.state.current_phase = CalibrationPhase::Step2Forwards;
                }
                false
            },
            CalibrationPhase::Step2Forwards => {
                self.rotate_forwards();
                if self.state.angle_setpoint == 0 {
                    self.state.current_step = 0;
                    self.state.calibrated = false;
                    self.state.current_phase = CalibrationPhase::Step3CalibratingForward;
                        true
                } else {
                        false
                }
            },
            CalibrationPhase::Step3CalibratingForward => {
                self.rotate_forwards();
                // Each 90 degrees is a step: at 0, 90, 180 and 270.
                if self.state.angle_setpoint % 90 == 0 {
                    self.state.current_step += 1;
                    self.forward.pulse_at_angle[encoder_index] = self.state.angle_setpoint;
                }
                if self.state.current_step == STEPS_PER_ROTATION {
                    if self.state.hysteresis {
                        self.state.current_phase = CalibrationPhase::Step4Wait;
                    } else {
                        self.state.current_phase = CalibrationPhase::Done;
                        self.state.calibrated = true;
                    }
                }
                false
            },
            CalibrationPhase::Step5CalibratingBackward => {
                self.rotate_backwards();
                if self.state.angle_setpoint % 90 == 0 {
                    self.state.current_step -= 1;
                    self.backward.pulse_at_angle[encoder_index] = self.state.angle_setpoint;
                }
                if self.state.current_step == 0 {
                    self.state.current_phase = CalibrationPhase::Done;
                    self.state.calibrated = true;
                }
                false
            },
            _ => false,
        }
    }

    /// One call of the procedure, reading the rotor's pulse from the encoder
    /// and zeroing the encoder when the alignment ends.
    pub fn update<T: PositionInput>(&mut self, position_input: &mut T)
        requires
            old(self)@.wf(),
        ensures
            exists|i: int|
                0 <= i < PULSES_PER_ROTATION && final(self)@ == #[trigger] old(self)@.after_update(i),
            final(self)@.wf(),
    {
        let index = pulse_index(position_input.get_position());
        if self.update_at(index) {
            position_input.reset();
        }
    }

    fn rotate_forwards(&mut self)
        ensures
            final(self)@ == (CalibrationView {
                state: CalibrationState {
                    angle_setpoint: angle_forwards(old(self)@.state.angle_setpoint as int) as i32,
                    ..old(self)@.state
                },
                ..old(self)@
            }),
    {
        self.state.angle_setpoint = if self.state.angle_setpoint < 359 {
            self.state.angle_setpoint + 1
        } else {
            0
        };
    }

    fn rotate_backwards(&mut self)
        ensures
            final(self)@ == (CalibrationView {
                state: CalibrationState {
                    angle_setpoint: angle_backwards(old(self)@.state.angle_setpoint as int) as i32,
                    ..old(self)@.state
                },
                ..old(self)@
            }),
    {
        if self.state.angle_setpoint > 0 {
            self.state.angle_setpoint -= 1;
        } else {
            self.state.angle_setpoint = 359;
        }
    }
}

} // verus!
