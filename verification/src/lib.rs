//! The control core of a small autonomous racing vehicle.
//!
//! Eight distance sensors and an inertial unit go in; a power and a
//! steering angle come out. [`vision`] fuses the distances into a steering
//! target, [`race`] chooses the action of each tick, [`configuration`]
//! holds the parameters that tune both, and [`trace`] keeps a record of
//! the last ticks. [`esp32c3`] holds the dialogue with the network
//! module: it reads the module's replies and chooses the commands. The
//! remaining modules decode the sensors, shape the signals for the motors,
//! and say what the display shows.
//!
//! Nothing in this crate waits, reads a clock or touches a device: time
//! comes in as a number of microseconds, and what a function returns
//! depends on its arguments alone.

pub mod angle;
pub mod arith;
pub mod buttons;
pub mod cmd;
pub mod configuration;
pub mod esp32c3;
pub mod imu;
pub mod lasers;
pub mod lcd;
pub mod motors;
pub mod race;
pub mod rgb;
pub mod screens;
pub mod tcs3472;
pub mod time;
pub mod trace;
pub mod vision;
