//! Closed current loop for one coil: ADC samples in, duty cycle out.
use vstd::prelude::*;
use crate::pid::{Controller, DerivativeMode, PIDController, pid_output, pid_integral, pid_error};
use crate::util::{clamp, clamp_spec, sat32, tdiv, saturate, mul_sat, is_i32, is_u32};

verus! {

/// The power stage that drives one coil (PWM / H-bridge).
pub trait CurrentOutput {
    /// Applies a signed duty cycle.
    fn set_output_value(&mut self, value: i32);

    /// Switches the stage on or off.
    fn enable(&mut self, enable: bool);
}

/// A current-controlled output.
pub trait CurrentDevice {
    /// The device is configured so that a control step is defined.
    spec fn ready(&self) -> bool;

    /// Runs one control step; `dt` is the time since the last step.
    fn update(&mut self, dt: u32)
        requires
            old(self).ready(),
    ;

    /// Sets the target current in milliamps.
    fn set_current(&mut self, milli_amps: i32);

    /// The measured current, in the sign convention of the coils.
    fn current(&self) -> i32;

    /// Enables (with a full reset) or disables the output.
    fn enable(&mut self, enable: bool);

    /// Latches a fixed duty cycle, bypassing the controller.
    fn force_duty(&mut self, duty: i32);
}

/// Tuning of the PID gains.
pub trait PIDControl {
    fn set_controller_p(&mut self, value: i32);
    fn set_controller_i(&mut self, value: i32);
    fn set_controller_d(&mut self, value: i32);
}

/// Number of ADC samples that are averaged.
pub const ADC_BUFFER_SIZE: usize = 5;

/// Fixed-point scale of the values handed to the PID controller.
pub const PID_SCALING_FACTOR: i32 = 100_000;

/// `dt` is divided by this before it reaches the PID controller.
pub const PID_DT_SCALE_FACTOR: u32 = 1000;

/// Largest duty cycle, in either direction.
pub const MAX_DUTY_CYCLE: i32 = 2500;

/// Limit of the controller's integral and output: `MAX_DUTY_CYCLE` in its fixed-point scale.
pub const PID_LIMIT: i32 = MAX_DUTY_CYCLE * PID_SCALING_FACTOR;

/// ADC reference voltage in millivolts.
pub const ADC_REFERENCE_MILLIVOLTS: u32 = 3300;

/// Closed current loop around one output stage.
pub struct CurrentControl<T: CurrentOutput> {
    shunt_resistance: u32,
    current_setpoint: i32,
    adc_value: u32,
    voltage: i32,
    current: i32,
    output: T,
    output_value: i32,
    pid: PIDController,
    adc_buffer: [u32; ADC_BUFFER_SIZE],
    adc_buffer_index: usize,
    adc_max_value: u32,
    no_pid_control: bool,
}

/// What a `CurrentControl` holds, apart from its output stage.
pub struct CurrentControlView {
    pub shunt_resistance: int,
    pub adc_max_value: int,
    pub current_setpoint: int,
    pub adc_value: int,
    pub voltage: int,
    pub current: int,
    pub output_value: int,
    pub pid: PIDController,
    pub adc_buffer: Seq<u32>,
    pub adc_buffer_index: int,
    pub no_pid_control: bool,
}

impl<T: CurrentOutput> View for CurrentControl<T> {
    type V = CurrentControlView;

    closed spec fn view(&self) -> CurrentControlView {
        CurrentControlView {
            shunt_resistance: self.shunt_resistance as int,
            adc_max_value: self.adc_max_value as int,
            current_setpoint: self.current_setpoint as int,
            adc_value: self.adc_value as int,
            voltage: self.voltage as int,
            current: self.current as int,
            output_value: self.output_value as int,
            pid: self.pid,
            adc_buffer: self.adc_buffer@,
            adc_buffer_index: self.adc_buffer_index as int,
            no_pid_control: self.no_pid_control,
        }
    }
}

/// Sum of a sequence of samples.
pub open spec fn sample_sum(s: Seq<u32>) -> int
    decreases s.len(),
{
    if s.len() == 0 {
        0
    } else {
        sample_sum(s.drop_last()) + s.last()
    }
}

/// Mean of the sample buffer, rounded down.
pub open spec fn adc_average(buffer: Seq<u32>) -> int {
    sample_sum(buffer) / ADC_BUFFER_SIZE as int
}

/// Millivolts of an ADC reading, saturated into `i32`.
pub open spec fn adc_millivolts(adc: int, adc_max: int) -> int {
    sat32(ADC_REFERENCE_MILLIVOLTS * adc / adc_max)
}

/// Current through the shunt in milliamps (µV / mΩ), signed by the duty
/// cycle last commanded: the shunt alone cannot tell the direction.
pub open spec fn shunt_current(voltage: int, shunt: int, duty: int) -> int {
    if voltage >= 0 {
        let raw = sat32(voltage * 1000 / shunt);
        if duty >= 0 {
            raw
        } else {
            -raw
        }
    } else {
        0
    }
}

/// Duty cycle from a PID output: scaled back down and clamped to
/// `[-MAX_DUTY_CYCLE, MAX_DUTY_CYCLE]`.
pub open spec fn duty_of(pid_out: int) -> int {
    clamp_spec(-MAX_DUTY_CYCLE as int, MAX_DUTY_CYCLE as int, tdiv(pid_out, PID_SCALING_FACTOR as int))
}

impl CurrentControlView {
    /// Well-formed: non-zero shunt and ADC full scale, a full buffer and an
    /// index in it, and each value within its machine type.
    pub open spec fn wf(self) -> bool {
        &&& self.shunt_resistance > 0
        &&& self.adc_max_value > 0
        &&& is_u32(self.shunt_resistance)
        &&& is_u32(self.adc_max_value)
        &&& is_u32(self.adc_value)
        &&& is_i32(self.current_setpoint)
        &&& is_i32(self.voltage)
        &&& is_i32(self.current)
        &&& is_i32(self.output_value)
        &&& self.adc_buffer.len() == ADC_BUFFER_SIZE
        &&& 0 <= self.adc_buffer_index < ADC_BUFFER_SIZE
    }

    /// The state after `add_sample(adc)`: the sample overwrites the oldest one.
    pub open spec fn with_sample(self, adc: u32) -> CurrentControlView {
        CurrentControlView {
            adc_buffer: self.adc_buffer.update(self.adc_buffer_index, adc),
            adc_buffer_index: (self.adc_buffer_index + 1) % ADC_BUFFER_SIZE as int,
            ..self
        }
    }

    /// The measurement part of `update`: average, voltage and signed current.
    pub open spec fn measured(self) -> CurrentControlView {
        let adc = adc_average(self.adc_buffer);
        let voltage = adc_millivolts(adc, self.adc_max_value);
        CurrentControlView {
            adc_value: adc,
            voltage,
            current: shunt_current(voltage, self.shunt_resistance, self.output_value),
            ..self
        }
    }

    /// The control part of `update`: unless a duty is forced, the PID
    /// controller turns the measured current into a new duty cycle.
    pub open spec fn controlled(self, dt: int) -> CurrentControlView {
        if self.no_pid_control {
            self
        } else {
            let value = sat32(self.current * PID_SCALING_FACTOR);
            let step = dt / PID_DT_SCALE_FACTOR as int;
            CurrentControlView {
                output_value: duty_of(pid_output(self.pid, value, step)),
                pid: PIDController {
                    err_sum: pid_integral(self.pid, value, step) as i32,
                    prev_value: Some(value as i32),
                    prev_error: Some(pid_error(self.pid, value) as i32),
                    ..self.pid
                },
                ..self
            }
        }
    }

    /// The state after `update(dt)`.
    pub open spec fn updated(self, dt: int) -> CurrentControlView {
        self.measured().controlled(dt)
    }

    /// The state after `set_current(milli_amps)`.
    pub open spec fn with_target(self, milli_amps: int) -> CurrentControlView {
        CurrentControlView {
            current_setpoint: milli_amps,
            pid: PIDController { target: sat32(milli_amps * PID_SCALING_FACTOR) as i32, ..self.pid },
            ..self
        }
    }

    /// The state after `enable(enable)`: enabling clears the duty, the
    /// samples, the controller history and a forced duty.
    pub open spec fn enabled(self, enable: bool) -> CurrentControlView {
        if enable {
            CurrentControlView {
                output_value: 0,
                adc_buffer: Seq::new(ADC_BUFFER_SIZE as nat, |i: int| 0u32),
                pid: PIDController { prev_value: None, prev_error: None, err_sum: 0, ..self.pid },
                no_pid_control: false,
                ..self
            }
        } else {
            self
        }
    }

    /// The state after `force_duty(duty)`.
    pub open spec fn forced(self, duty: int) -> CurrentControlView {
        CurrentControlView { no_pid_control: true, output_value: duty, ..self }
    }

    /// What `current()` reports: the stored current, negated while the duty is negative.
    pub open spec fn reported_current(self) -> int {
        if self.output_value >= 0 {
            self.current
        } else {
            sat32(-self.current)
        }
    }
}

/// A forced duty is what `output_value` reports, and it stays through control
/// steps (whatever current they measure), new samples, new targets and
/// disabling; only enabling ends it.
pub proof fn lemma_forced_duty_holds(
    v: CurrentControlView,
    duty: int,
    dt: int,
    adc: u32,
    milli_amps: int,
)
    ensures
        v.forced(duty).output_value == duty,
        v.forced(duty).no_pid_control,
        v.no_pid_control ==> v.updated(dt).output_value == v.output_value
            && v.updated(dt).no_pid_control,
        v.no_pid_control ==> v.with_sample(adc).output_value == v.output_value
            && v.with_sample(adc).no_pid_control,
        v.no_pid_control ==> v.with_target(milli_amps).output_value == v.output_value
            && v.with_target(milli_amps).no_pid_control,
        v.enabled(false) == v,
        !v.enabled(true).no_pid_control,
{
}

impl<T: CurrentOutput> CurrentControl<T> {
    /// A loop at rest: zero gains, zero samples, the PID limits
    /// at `±MAX_DUTY_CYCLE` in the controller's fixed-point scale. A zero shunt
    /// or ADC full scale is a configuration error and is not accepted.
    pub fn new(shunt_resistance: u32, output: T, adc_max_value: u32) -> (r: Self)
        requires
            shunt_resistance > 0,
            adc_max_value > 0,
        ensures
            r@ == (CurrentControlView {
                shunt_resistance: shunt_resistance as int,
                adc_max_value: adc_max_value as int,
                current_setpoint: 0,
                adc_value: 0,
                voltage: 0,
                current: 0,
                output_value: 0,
                pid: PIDController {
                    p_gain: 0,
                    i_gain: 0,
                    d_gain: 0,
                    target: 0,
                    i_min: (-PID_LIMIT) as i32,
                    i_max: PID_LIMIT,
                    out_min: (-PID_LIMIT) as i32,
                    out_max: PID_LIMIT,
                    d_mode: DerivativeMode::OnMeasurement,
                    err_sum: 0,
                    prev_value: None,
                    prev_error: None,
                },
                adc_buffer: Seq::new(ADC_BUFFER_SIZE as nat, |i: int| 0u32),
                adc_buffer_index: 0,
                no_pid_control: false,
            }),
            r@.wf(),
    {
        let mut pid = PIDController::new(0, 0, 0);
        pid.set_limits(-PID_LIMIT, PID_LIMIT);
        let s = Self {
            shunt_resistance,
            current_setpoint: 0,
            adc_value: 0,
            voltage: 0,
            current: 0,
            output,
            output_value: 0,
            pid,
            adc_buffer: [0; ADC_BUFFER_SIZE],
            adc_buffer_index: 0,
            adc_max_value,
            no_pid_control: false,
        };
        assert(s.adc_buffer@ =~= Seq::new(ADC_BUFFER_SIZE as nat, |i: int| 0u32));
        s
    }

    /// The averaged ADC reading of the last update.
    pub fn adc_value(&self) -> (r: u32)
        ensures
            r == self@.adc_value,
    {
        self.adc_value
    }

    /// The duty cycle last commanded.
    pub fn output_value(&self) -> (r: i32)
        ensures
            r == self@.output_value,
    {
        self.output_value
    }

    /// The shunt voltage of the last update, in millivolts.
    pub fn voltage(&self) -> (r: i32)
        ensures
            r == self@.voltage,
    {
        self.voltage
    }

    /// The target current in milliamps.
    pub fn current_setpoint(&self) -> (r: i32)
        ensures
            r == self@.current_setpoint,
    {
        self.current_setpoint
    }

    /// The output stage.
    pub fn get_current_output(&mut self) -> (r: &mut T)
        ensures
            final(self)@ == old(self)@,
    {
        &mut self.output
    }

    /// Stores one raw ADC sample, overwriting the oldest.
    pub fn add_sample(&mut self, adc_value: u32)
        requires
            old(self)@.wf(),
        ensures
            final(self)@ == old(self)@.with_sample(adc_value),
            final(self)@.wf(),
    {
        self.adc_buffer[self.adc_buffer_index] = adc_value;
        if self.adc_buffer_index < (ADC_BUFFER_SIZE - 1) {
            self.adc_buffer_index += 1;
        } else {
            self.adc_buffer_index = 0;
        }
    }

    fn average_adc_value(&mut self)
        ensures
            final(self)@ == (CurrentControlView {
                adc_value: adc_average(old(self)@.adc_buffer),
                ..old(self)@
            }),
    {
        let mut total: u64 = 0;
        let mut i: usize = 0;
        while i < ADC_BUFFER_SIZE
            invariant
                i <= ADC_BUFFER_SIZE,
                total == sample_sum(self.adc_buffer@.take(i as int)),
                total <= i * 0xffff_ffff,
            decreases ADC_BUFFER_SIZE - i,
        {
            assert(self.adc_buffer@.take(i as int + 1).drop_last() =~= self.adc_buffer@.take(i as int));
            total = total + self.adc_buffer[i] as u64;
            i += 1;
        }
        assert(self.adc_buffer@.take(ADC_BUFFER_SIZE as int) =~= self.adc_buffer@);
        self.adc_value = (total / ADC_BUFFER_SIZE as u64) as u32;
    }

    fn calc_voltage(&mut self)
        requires
            old(self)@.wf(),
        ensures
            final(self)@ == (CurrentControlView {
                voltage: adc_millivolts(old(self)@.adc_value, old(self)@.adc_max_value),
                ..old(self)@
            }),
    {
        let millivolts: u64 = ADC_REFERENCE_MILLIVOLTS as u64 * self.adc_value as u64 / self.adc_max_value as u64;
        self.voltage = if millivolts > i32::MAX as u64 {
            i32::MAX
        } else {
            millivolts as i32
        };
    }

    fn calc_current(&mut self)
        requires
            old(self)@.wf(),
        ensures
            final(self)@ == (CurrentControlView {
                current: shunt_current(old(self)@.voltage, old(self)@.shunt_resistance, old(self)@.output_value),
                ..old(self)@
            }),
    {
        self.current = if self.voltage >= 0 {
            // uV / mOhm = mA
            let current_raw = saturate(self.voltage as i64 * 1000 / self.shunt_resistance as i64);
            if self.output_value >= 0 {
                current_raw
            } else {
                -current_raw
            }
        } else {
            0
        };
    }

    fn calc_output(&mut self, dt: u32)
        ensures
            final(self)@ == old(self)@.controlled(dt as int),
    {
        if !self.no_pid_control {
            let out = self.pid.update(
                mul_sat(self.current, PID_SCALING_FACTOR),
                (dt / PID_DT_SCALE_FACTOR) as i32,
            );
            self.output_value = clamp(-MAX_DUTY_CYCLE, MAX_DUTY_CYCLE, out / PID_SCALING_FACTOR);
        }
        self.output.set_output_value(self.output_value);
    }
}

impl<T: CurrentOutput> CurrentDevice for CurrentControl<T> {
    open spec fn ready(&self) -> bool {
        self@.wf()
    }

    /// Averages the samples, converts them to a signed current and, unless a
    /// duty is forced, runs the PID controller to a new duty cycle, which is
    /// then applied to the output stage.
    fn update(&mut self, dt: u32)
        ensures
            final(self)@ == old(self)@.updated(dt as int),
            final(self)@.wf(),
            !old(self)@.no_pid_control ==> -MAX_DUTY_CYCLE <= final(self)@.output_value
                <= MAX_DUTY_CYCLE,
            old(self)@.no_pid_control ==> final(self)@.output_value == old(self)@.output_value,
    {
        self.average_adc_value();
        self.calc_voltage();
        self.calc_current();
        self.calc_output(dt);
    }

    fn set_current(&mut self, milli_amps: i32)
        ensures
            final(self)@ == old(self)@.with_target(milli_amps as int),
    {
        self.current_setpoint = milli_amps;
        self.pid.set_target(mul_sat(milli_amps, PID_SCALING_FACTOR));
    }

    fn current(&self) -> (r: i32)
        ensures
            r == self@.reported_current(),
    {
        if self.output_value >= 0 {
            self.current
        } else {
            saturate(-(self.current as i64))
        }
    }

    fn enable(&mut self, enable: bool)
        ensures
            final(self)@ == old(self)@.enabled(enable),
    {
        if enable {
            self.output_value = 0;
            self.adc_buffer = [0; ADC_BUFFER_SIZE];
            self.pid.reset();
            self.no_pid_control = false;
            assert(self.adc_buffer@ =~= Seq::new(ADC_BUFFER_SIZE as nat, |i: int| 0u32));
        }
        self.output.enable(enable);
    }

    fn force_duty(&mut self, duty: i32)
        ensures
            final(self)@ == old(self)@.forced(duty as int),
    {
        self.no_pid_control = true;
        self.output_value = duty;
        self.output.enable(true);
    }
}

impl<T: CurrentOutput> PIDControl for CurrentControl<T> {
    fn set_controller_p(&mut self, value: i32)
        ensures
            final(self)@ == (CurrentControlView { pid: PIDController { p_gain: value, ..old(self)@.pid }, ..old(self)@ }),
    {
        self.pid.p_gain = value;
    }

    fn set_controller_i(&mut self, value: i32)
        ensures
            final(self)@ == (CurrentControlView { pid: PIDController { i_gain: value, ..old(self)@.pid }, ..old(self)@ }),
    {
        self.pid.i_gain = value;
    }

    fn set_controller_d(&mut self, value: i32)
        ensures
            final(self)@ == (CurrentControlView { pid: PIDController { d_gain: value, ..old(self)@.pid }, ..old(self)@ }),
    {
        self.pid.d_gain = value;
    }
}

} // verus!
