use stepper_drive::calibration::{pulse_index, Calibration, CalibrationPhase, STEPS_PER_ROTATION};
use stepper_drive::coil::Coil;
use stepper_drive::current_control::{
    CurrentControl, CurrentDevice, CurrentOutput, PIDControl, MAX_DUTY_CYCLE,
};
use stepper_drive::motor_control::{
    MotorControl, PositionControlled, DISABLED_POLL_PERIOD, SLOW_PERIOD,
    UPDATE_PERIOD,
};
use stepper_drive::pid::{Controller, DerivativeMode, PIDController};
use stepper_drive::position_control::{Direction, PositionControl, PositionInput, COIL_MAX_PULL_ANGLE};
use stepper_drive::sine_lookup::lookup::get_sine;
use stepper_drive::util::{clamp, normalize_angle};
use std::f32::consts::PI;

#[derive(Default)]
struct MockCurrentOutput {
    last_output: i32,
    enabled: bool,
}

impl CurrentOutput for MockCurrentOutput {
    fn set_output_value(&mut self, value: i32) {
        self.last_output = value;
    }
    fn enable(&mut self, enable: bool) {
        self.enabled = enable;
    }
}

struct DummyInput {
    position: i32,
    direction: Direction,
}

impl PositionInput for DummyInput {
    fn update(&mut self) {}
    fn reset(&mut self) {
        self.position = 0;
    }
    fn get_position(&self) -> i32 {
        self.position
    }
    fn get_direction(&self) -> Direction {
        self.direction
    }
}

fn current_control() -> CurrentControl<MockCurrentOutput> {
    CurrentControl::new(400, MockCurrentOutput::default(), 3300)
}

#[test]
fn coil_motor_pos_test() {
    let mut coil = Coil::new(current_control());

    coil.set_angle(0, 10);
    assert_eq!(0, coil.current_control().current_setpoint());

    coil.set_angle(180, 10);
    assert_eq!(0, coil.current_control().current_setpoint());

    coil.set_angle(360, 10);
    assert_eq!(0, coil.current_control().current_setpoint());
}

#[test]
fn current_control_motor_pos_test() {
    let shunt_resistance = 400;
    let target_current_ma = 10;
    // Full scale equals the reference in millivolts: one count is one millivolt.
    let mut currentcontrol = CurrentControl::new(shunt_resistance, MockCurrentOutput::default(), 3300);
    currentcontrol.set_current(target_current_ma);
    currentcontrol.set_controller_p(10);
    currentcontrol.set_controller_i(0);
    currentcontrol.set_controller_d(0);
    currentcontrol.enable(true);

    let mv = 1;
    for _ in 0..5 {
        currentcontrol.add_sample(mv as u32);
    }
    currentcontrol.update(1);

    let current_ma = mv * 1000 / shunt_resistance as i32;
    let output = (target_current_ma - current_ma) * 10;
    assert_eq!(output, currentcontrol.get_current_output().last_output);
    assert_eq!(1, currentcontrol.voltage());
    assert_eq!(1, currentcontrol.adc_value());
    assert_eq!(current_ma, currentcontrol.current());
}

#[test]
fn position_positive_diff() {
    // Start at 0
    let input = DummyInput { position: 0, direction: Direction::Unknown(0) };
    let mut position_control = PositionControl::new(input, 10);

    // Request a new position
    position_control.set_position(500);
    position_control.update();

    let next_angle = position_control.angle();
    assert_eq!(0 + COIL_MAX_PULL_ANGLE, next_angle);
}

#[test]
fn position_negative_diff() {
    let input = DummyInput { position: 1000, direction: Direction::Unknown(0) };
    let mut position_control = PositionControl::new(input, 10);

    // Request a new position
    position_control.set_position(500);
    position_control.update();

    let next_angle = position_control.angle();
    assert_eq!(360 - COIL_MAX_PULL_ANGLE, next_angle);
}

#[test]
fn basic_sine_points() {
    let current = 1000;
    assert_eq!(0, get_sine(0, current));
    assert_eq!(current, get_sine(90, current));
    assert_eq!(0, get_sine(180, current));
    assert_eq!(-current, get_sine(270, current));
    assert_eq!(0, get_sine(360, current));
}

#[test]
fn test_scaling() {
    let current = 10;
    assert_eq!(0, get_sine(0, current));
    assert_eq!(((0.25 * PI).sin() * current as f32) as i32, get_sine(45, current));
    assert_eq!(0, get_sine(180, current));
    assert_eq!(((1.25 * PI).sin() * current as f32) as i32, get_sine(180 + 45, current));
    assert_eq!(0, get_sine(360, current));
}

#[test]
fn sine_half_turn_symmetry() {
    for angle in 0..720u32 {
        for current in [1, 7, 1000, 32767, -2500, i32::MAX] {
            assert_eq!(get_sine(angle, current), -get_sine(angle + 180, current));
        }
    }
    assert_eq!(12345, get_sine(90, 12345));
    assert_eq!(0, get_sine(0, 12345));
    // One table entry, exactly.
    assert_eq!(46340, get_sine(45, 65535));
}

#[test]
fn pid_zero_step_is_proportional() {
    let mut pid = PIDController::new(3, 5, 7);
    pid.set_target(100);
    let out = pid.update(40, 0);
    assert_eq!(3 * 60, out);
    assert_eq!(0, pid.err_sum);
    // A second zero step: still no derivative and no integral.
    let out = pid.update(10, 0);
    assert_eq!(3 * 90, out);
}

#[test]
fn pid_integral_and_derivative() {
    let mut pid = PIDController::new(0, 2, 0);
    pid.set_target(10);
    assert_eq!(2 * 10 * 3, pid.update(0, 3));
    assert_eq!(60 + 2 * 8 * 3, pid.update(2, 3));
    pid.reset();
    assert_eq!(0, pid.err_sum);
    assert_eq!(None, pid.prev_value);

    let mut d = PIDController::new(0, 0, 4);
    d.set_target(0);
    assert_eq!(0, d.update(10, 2));
    // On the measurement: 4 * (10 - 4) / 2.
    assert_eq!(12, d.update(4, 2));
    d.d_mode = DerivativeMode::OnError;
    // On the error: 4 * (-1 - -4) / 2.
    assert_eq!(6, d.update(1, 2));
    assert_eq!(0, d.target());
}

#[test]
fn pid_integral_stays_clamped() {
    let mut pid = PIDController::new(1, 1000, 0);
    pid.set_limits(-500, 500);
    pid.set_target(i32::MAX);
    for _ in 0..50 {
        pid.update(-1_000_000, 1000);
        assert!(pid.err_sum <= 500 && pid.err_sum >= -500);
    }
    assert_eq!(500, pid.err_sum);
    pid.set_target(i32::MIN);
    for _ in 0..50 {
        pid.update(1_000_000, 1000);
        assert!(pid.err_sum <= 500 && pid.err_sum >= -500);
    }
    assert_eq!(-500, pid.err_sum);
}

#[test]
fn coil_whole_turns_same_current() {
    let mut coil = Coil::new(current_control());
    let mut seen = Vec::new();
    for degrees in [0, 360, 720, -360] {
        coil.set_angle(degrees, 1000);
        seen.push(coil.current_control().current_setpoint());
        assert_eq!(0, coil.angle());
    }
    assert_eq!(vec![0, 0, 0, 0], seen);
    for degrees in [30, 390, 750, -330] {
        coil.set_angle(degrees, 1000);
        assert_eq!(499, coil.current_control().current_setpoint());
        assert_eq!(30, coil.angle());
    }
    coil.set_angle(-90, 1000);
    assert_eq!(270, coil.angle());
    assert_eq!(-1000, coil.current_control().current_setpoint());
    assert_eq!(1000, coil.get_current());
}

#[test]
fn duty_is_clamped() {
    let mut cc = current_control();
    cc.set_controller_p(i32::MAX);
    cc.set_current(20_000);
    cc.enable(true);
    cc.update(1000);
    assert_eq!(MAX_DUTY_CYCLE, cc.output_value());
    cc.set_current(-20_000);
    cc.update(1000);
    assert_eq!(-MAX_DUTY_CYCLE, cc.output_value());
    assert_eq!(-MAX_DUTY_CYCLE, cc.get_current_output().last_output);
}

#[test]
fn forced_duty_overrides_until_enable() {
    let mut cc = current_control();
    cc.set_controller_p(100);
    cc.set_current(500);
    cc.force_duty(1234);
    assert_eq!(1234, cc.output_value());
    assert!(cc.get_current_output().enabled);
    for sample in [0u32, 100, 3300, 10] {
        cc.add_sample(sample);
        cc.update(1000);
        assert_eq!(1234, cc.output_value());
        assert_eq!(1234, cc.get_current_output().last_output);
    }
    cc.enable(true);
    assert_eq!(0, cc.output_value());
    cc.update(1000);
    assert_ne!(1234, cc.output_value());
}

#[test]
fn current_sign_follows_duty() {
    let mut cc = current_control();
    cc.force_duty(-100);
    for _ in 0..5 {
        cc.add_sample(800);
    }
    cc.update(0);
    // 800 mV over 400 mOhm is 2000 mA, stored negative under a negative duty,
    // and reported in the coils' frame.
    assert_eq!(800, cc.voltage());
    assert_eq!(2000, cc.current());
}

#[test]
fn pulse_index_wraps_negative_counts() {
    assert_eq!(0, pulse_index(0));
    assert_eq!(2399, pulse_index(-1));
    assert_eq!(5, pulse_index(2405));
    assert_eq!(2400 - 5, pulse_index(-2405));
    assert_eq!(normalize_angle(-1), 359);
    assert_eq!(clamp(-5, 5, 9), 5);
    assert_eq!(clamp(-5, 5, -9), -5);
}

#[test]
fn calibration_progress() {
    let mut cal = Calibration::new(1, false);
    let mut encoder_zeroed = false;
    // Alignment: 359 ticks down to 0, then a full turn up to 0; one tick every two calls.
    let mut calls = 0;
    while cal.state().current_phase != CalibrationPhase::Step3CalibratingForward {
        encoder_zeroed |= cal.update_at(7);
        calls += 1;
    }
    assert_eq!(2 * (359 + 360), calls);
    assert!(encoder_zeroed);
    assert_eq!(0, cal.requested_angle());
    assert_eq!(0, cal.state().current_step);
    assert!(!cal.is_calibrated());
    let mut ticks = 0;
    while !cal.is_calibrated() {
        assert!(!cal.update_at(ticks % 2400));
        ticks += 1;
    }
    assert_eq!(2 * 90 * STEPS_PER_ROTATION as usize, ticks);
    assert_eq!(STEPS_PER_ROTATION, cal.state().current_step);
    assert_eq!(CalibrationPhase::Done, cal.state().current_phase);
    // The first step was recorded at 90 degrees, on the 90th tick (call 179).
    assert_eq!(90, cal.angle_at_position(179));
}

#[test]
fn calibration_with_backward_pass() {
    let mut cal = Calibration::new(0, true);
    while !cal.is_waiting() {
        cal.update_at(3);
    }
    assert!(!cal.is_calibrated());
    cal.continue_backward();
    let mut ticks = 0;
    while !cal.is_calibrated() {
        cal.update_at(11);
        ticks += 1;
    }
    assert_eq!(90 * STEPS_PER_ROTATION as usize, ticks);
    assert_eq!(0, cal.get_reverse_calibration_data().pulse_at_angle[11]);
    assert_eq!(0, cal.state().current_step);
}

#[test]
fn position_dead_zone() {
    let input = DummyInput { position: 500, direction: Direction::Unknown(0) };
    let mut pc = PositionControl::new(input, 10);
    pc.set_position(500);
    pc.update();
    assert_eq!(0, pc.angle());
    pc.set_position(501);
    pc.update();
    assert_eq!(pc.detected_angle(), pc.angle());
    // Small errors pull by twice the error.
    pc.calculate_next_angle(510);
    assert_eq!(360 - 18, pc.angle());
    pc.calculate_next_angle(480);
    assert_eq!(42, pc.angle());
}

#[test]
fn position_calibration_then_lookup() {
    let input = DummyInput { position: 0, direction: Direction::Unknown(0) };
    let mut pc = PositionControl::new(input, 10);
    pc.start_calibration();
    assert_eq!(359, pc.angle());
    assert!(!pc.calibration_is_done());
    let mut calls = 0;
    while !pc.calibration_is_done() {
        pc.update();
        calls += 1;
        assert!(calls < 11 * 20_000);
    }
    assert_eq!(11 * (359 + 360 + 90 * STEPS_PER_ROTATION as usize), calls);
    // Back in normal mode: encoder count 0 reads the table.
    pc.handle_position(0);
    assert_eq!(pc.get_calibration_data().pulse_at_angle[0], pc.detected_angle());
    assert_eq!(0, pc.get_current_position());
}

#[test]
fn motor_modes() {
    let mut motor = MotorControl::new(current_control(), current_control(), DummyInput {
        position: 0,
        direction: Direction::Unknown(0),
    });
    assert_eq!(DISABLED_POLL_PERIOD, motor.update());
    motor.enable(true);
    motor.set_current(1000);
    assert_eq!(SLOW_PERIOD, motor.update());
    // Holding at the last angle (0): coil A at sin 0, coil B a quarter turn ahead.
    assert_eq!(0, motor.coil_a().current_control().current_setpoint());
    assert_eq!(1000, motor.coil_b().current_control().current_setpoint());

    motor.rotate(4);
    assert_eq!(SLOW_PERIOD / 4, motor.update());
    assert_eq!(1, motor.get_angle());
    motor.rotate(-8);
    assert_eq!(SLOW_PERIOD / 8, motor.update());
    assert_eq!(0, motor.get_angle());
    motor.update();
    assert_eq!(359, motor.get_angle());
    motor.rotate(0);
    assert_eq!(SLOW_PERIOD, motor.update());

    motor.set_angle(90);
    assert_eq!(1000, motor.coil_a().current_control().current_setpoint());
    assert_eq!(0, motor.coil_b().current_control().current_setpoint());
    assert_eq!(180, motor.coil_b().angle());

    motor.set_position(500);
    assert_eq!(UPDATE_PERIOD as u32, motor.update());
    assert_eq!(COIL_MAX_PULL_ANGLE, motor.get_angle());

    motor.set_controller_p(10);
    motor.set_controller_i(1);
    motor.set_controller_d(0);
    motor.update_control_loop(1000);

    motor.force_duty(-300);
    motor.update_control_loop(1000);
    assert_eq!(-300, motor.coil_b().current_control().output_value());
    motor.hold();
    motor.handle_new_position();
    motor.set_speed(3);
    assert_eq!(UPDATE_PERIOD as u32, motor.update());
}

#[test]
fn motor_calibration_ends_in_hold() {
    let mut motor = MotorControl::new(current_control(), current_control(), DummyInput {
        position: 42,
        direction: Direction::Unknown(0),
    });
    motor.calibrate();
    let mut calls = 0;
    while motor.position_control().calibration_is_done() == false {
        assert_eq!(UPDATE_PERIOD as u32, motor.update());
        calls += 1;
    }
    assert!(calls > 0);
    // Disabled after calibrating: slow polls only.
    assert_eq!(DISABLED_POLL_PERIOD, motor.update());
}

#[test]
fn calibration_records_every_reading() {
    let input = DummyInput { position: 0, direction: Direction::Unknown(0) };
    let mut pc = PositionControl::new(input, 10);
    pc.start_calibration();
    // Pulse 0 straight after the start: recorded although it is the reset position.
    pc.update_position();
    assert_eq!(359, pc.get_calibration_data().pulse_at_angle[0]);
    for _ in 0..11 {
        pc.update();
    }
    assert_eq!(358, pc.angle());
    // Same pulse again: the new angle replaces the old one.
    pc.handle_position(0);
    assert_eq!(358, pc.get_calibration_data().pulse_at_angle[0]);
    pc.handle_position(-1);
    assert_eq!(358, pc.get_calibration_data().pulse_at_angle[2399]);
}

#[test]
fn start_calibration_always_restarts() {
    let input = DummyInput { position: 5, direction: Direction::Unknown(0) };
    let mut pc = PositionControl::new(input, 10);
    pc.set_hysteresis(true);
    pc.set_position(77);
    pc.start_calibration();
    assert_eq!(0, pc.get_current_position());
    while !pc.calibration().is_waiting() {
        pc.update();
    }
    assert_eq!(0, pc.angle());
    // A new start begins again at 359, not the backward pass.
    pc.start_calibration();
    assert_eq!(359, pc.angle());
    assert!(!pc.calibration().is_waiting());
    assert!(!pc.calibration_is_done());
    while !pc.calibration().is_waiting() {
        pc.update();
    }
    // The backward pass has its own entry point.
    pc.continue_calibration();
    assert_eq!(CalibrationPhase::Step5CalibratingBackward, pc.calibration().state().current_phase);
    while !pc.calibration_is_done() {
        pc.update();
    }
    assert_eq!(0, pc.calibration().state().current_step);
    // Outside calibration mode, continuing does nothing.
    let before = pc.calibration().state().current_phase;
    pc.continue_calibration();
    assert_eq!(before, pc.calibration().state().current_phase);
}

#[test]
fn motor_calibrate_restarts() {
    let mut motor = MotorControl::new(current_control(), current_control(), DummyInput {
        position: 9,
        direction: Direction::Unknown(0),
    });
    motor.calibrate();
    assert_eq!(359, motor.position_control().angle());
    for _ in 0..1000 {
        motor.update();
    }
    motor.calibrate();
    assert_eq!(359, motor.position_control().angle());
    assert!(!motor.position_control().calibration_is_done());
    assert_eq!(UPDATE_PERIOD as u32, motor.update());
    motor.continue_calibration();
}

#[test]
fn pid_integral_grows_then_saturates() {
    let mut pid = PIDController::new(0, 2, 0);
    pid.set_limits(-1000, 1000);
    pid.set_target(50);
    let mut outputs = Vec::new();
    for _ in 0..8 {
        outputs.push(pid.update(20, 3));
    }
    // Each step adds 2 * 30 * 3 = 180, up to the limit.
    assert_eq!(vec![180, 360, 540, 720, 900, 1000, 1000, 1000], outputs);
}

#[test]
fn motor_tuning_reaches_both_loops() {
    let mut motor = MotorControl::new(current_control(), current_control(), DummyInput {
        position: 0,
        direction: Direction::Unknown(0),
    });
    motor.set_controller_p(10);
    motor.enable(true);
    motor.set_current(100);
    motor.set_angle(90);
    motor.update_control_loop(0);
    // Coil A targets 100 mA with no current measured: 10 * 100 = 1000.
    assert_eq!(1000, motor.coil_a().current_control().output_value());
    assert_eq!(0, motor.coil_b().current_control().output_value());
}
