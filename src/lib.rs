//! Closed-loop control for a two-coil stepper actuator: PID current loops,
//! sine commutation, encoder calibration and position control.
pub mod calibration;
pub mod coil;
pub mod current_control;
pub mod motor_control;
pub mod pid;
pub mod position_control;
pub mod serial_commands;
pub mod sine_lookup;
pub mod util;
