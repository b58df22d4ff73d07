//! What the motors and the steering servo are asked to do, and the duty
//! cycles that ask it of them.

use crate::arith::{clamp_int, i64_div, trunc_div};
use vstd::prelude::*;

verus! {

/// Divider of the clock of the motors' pulse-width modulator.
pub const MOTOR_DIV_INT: u8 = 250;

/// Count at which the motors' modulator wraps.
pub const MOTOR_TOP: u16 = 10000;

/// Divider of the clock of the servo's modulator.
pub const SERVO_DIV_INT: u8 = 250;

/// Count at which the servo's modulator wraps.
pub const SERVO_TOP: u16 = 10000;

/// Duty that holds the steering straight.
pub const SERVO_CENTER_DUTY: u16 = 700;

/// Most that the duty moves from the centre.
pub const SERVO_MAX_DELTA_DUTY: u16 = 350;

/// Largest duty of the servo.
pub const SERVO_MAX_DUTY: u16 = 1050;

/// Smallest duty of the servo.
pub const SERVO_MIN_DUTY: u16 = 350;

/// Duty by which one degree of steering moves the servo.
pub const SERVO_DUTY_PER_DEGREE: i32 = 10;

/// Power of the pulses that wake the motors at start.
pub const WAKE_POWER: i16 = 3000;

/// Largest steering angle of the motors test.
pub const TEST_MAX_STEER: i16 = 35;

/// Largest power of the motors test.
pub const TEST_MAX_POWER: i32 = 10000;

/// Pitch, in degrees, under which the motors test gives no power.
pub const TEST_DEAD_PITCH: i32 = 10;

/// What the control loop asks of the motors: power from -10000 to 10000,
/// backward where negative, and a steering angle in degrees.
#[derive(Clone, Copy, Debug, PartialEq, Eq, Structural)]
pub struct MotorsData {
    pub power: i16,
    pub steer: i16,
}

/// The settings of one pulse-width modulator.
#[derive(Clone, Copy, Debug, PartialEq, Eq, Structural)]
pub struct PwmSettings {
    pub invert_a: bool,
    pub invert_b: bool,
    pub phase_correct: bool,
    pub enable: bool,
    pub divider: u8,
    pub compare_a: u16,
    pub compare_b: u16,
    pub top: u16,
}

/// The duty of the forward channel for a power: the power where it is
/// positive, else nothing.
pub open spec fn spec_forward_duty(power: i16) -> u16 {
    if power > 0 {
        power as u16
    } else {
        0
    }
}

/// The duty of the backward channel for a power: the magnitude of the
/// power where it is negative, else nothing.
pub open spec fn spec_backward_duty(power: i16) -> u16 {
    if power < 0 {
        (-power) as u16
    } else {
        0
    }
}

/// The duty of the servo for a steering angle: ten steps per degree from
/// the centre, to the left for an angle to the right, kept within the
/// servo's range. An angle so far right that the duty would fall below
/// nothing gives the largest duty.
pub open spec fn spec_servo_duty(steer: i16) -> u16 {
    let raw = SERVO_CENTER_DUTY - steer * SERVO_DUTY_PER_DEGREE;
    if raw < 0 {
        SERVO_MAX_DUTY
    } else {
        clamp_int(raw, SERVO_MIN_DUTY as int, SERVO_MAX_DUTY as int) as u16
    }
}

/// The steering angle of step `step` of the sweep that wakes the servo:
/// ten degrees further every other step, left and right in turn.
pub open spec fn spec_servo_sweep_angle(step: int) -> int {
    let magnitude = ((step + 1) / 2) * 10;
    if step % 2 == 0 {
        -magnitude
    } else {
        magnitude
    }
}

/// The action of the motors test for a yaw and a pitch in hundredths of a
/// degree: steering against the yaw, and power that grows with the pitch
/// beyond ten degrees either way.
pub open spec fn spec_motors_test_action(yaw: i16, pitch: i16) -> MotorsData {
    let pitch_deg = clamp_int(trunc_div(pitch as int, 100), -90, 90);
    MotorsData {
        steer: (-clamp_int(
            trunc_div(yaw as int, 100),
            -(TEST_MAX_STEER as int),
            TEST_MAX_STEER as int,
        )) as i16,
        power: if pitch_deg > TEST_DEAD_PITCH {
            clamp_int(
                trunc_div((pitch_deg - TEST_DEAD_PITCH) * TEST_MAX_POWER, 80),
                -(TEST_MAX_POWER as int),
                TEST_MAX_POWER as int,
            ) as i16
        } else if pitch < -TEST_DEAD_PITCH {
            clamp_int(
                trunc_div((pitch_deg + TEST_DEAD_PITCH) * TEST_MAX_POWER, 80),
                -(TEST_MAX_POWER as int),
                TEST_MAX_POWER as int,
            ) as i16
        } else {
            0
        },
    }
}

/// The request to drive with a power and a steering angle.
pub fn motors_go(power: i16, steer: i16) -> (data: MotorsData)
    ensures
        data == (MotorsData { power, steer }),
{
    MotorsData { power, steer }
}

/// The request to stand still with the steering straight.
pub fn motors_stop() -> (data: MotorsData)
    ensures
        data == (MotorsData { power: 0, steer: 0 }),
{
    MotorsData { power: 0, steer: 0 }
}

/// The settings of the motors' modulator for a power.
pub fn pwm_config_motor(power: i16) -> (settings: PwmSettings)
    ensures
        settings == (PwmSettings {
            invert_a: false,
            invert_b: false,
            phase_correct: false,
            enable: true,
            divider: MOTOR_DIV_INT,
            compare_a: spec_forward_duty(power),
            compare_b: spec_backward_duty(power),
            top: MOTOR_TOP,
        }),
{
    let duty_a: u16 = if power > 0 {
        power as u16
    } else {
        0
    };
    let duty_b: u16 = if power < 0 {
        (-(power as i32)) as u16
    } else {
        0
    };
    PwmSettings {
        invert_a: false,
        invert_b: false,
        phase_correct: false,
        enable: true,
        divider: MOTOR_DIV_INT,
        compare_a: duty_a,
        compare_b: duty_b,
        top: MOTOR_TOP,
    }
}

/// The settings of the servo's modulator for a steering angle.
pub fn pwm_config_servo(steer: i16) -> (settings: PwmSettings)
    ensures
        settings == (PwmSettings {
            invert_a: false,
            invert_b: false,
            phase_correct: false,
            enable: true,
            divider: SERVO_DIV_INT,
            compare_a: 0,
            compare_b: spec_servo_duty(steer),
            top: SERVO_TOP,
        }),
        SERVO_MIN_DUTY <= settings.compare_b <= SERVO_MAX_DUTY,
{
    let raw: i32 = SERVO_CENTER_DUTY as i32 - (steer as i32) * SERVO_DUTY_PER_DEGREE;
    let duty_b: u16 = if raw < 0 {
        SERVO_MAX_DUTY
    } else if raw < SERVO_MIN_DUTY as i32 {
        SERVO_MIN_DUTY
    } else if raw > SERVO_MAX_DUTY as i32 {
        SERVO_MAX_DUTY
    } else {
        raw as u16
    };
    PwmSettings {
        invert_a: false,
        invert_b: false,
        phase_correct: false,
        enable: true,
        divider: SERVO_DIV_INT,
        compare_a: 0,
        compare_b: duty_b,
        top: SERVO_TOP,
    }
}

/// The steering angle of step `step` of the sweep that wakes the servo.
pub fn servo_sweep_angle(step: i16) -> (angle: i16)
    requires
        0 <= step < 7,
    ensures
        angle == spec_servo_sweep_angle(step as int),
{
    let magnitude: i16 = ((step + 1) / 2) * 10;
    if step % 2 == 0 {
        -magnitude
    } else {
        magnitude
    }
}

/// The power of pulse `pulse` of the train that wakes the motors:
/// backward and forward in turn.
pub fn motor_wake_power(pulse: i16) -> (power: i16)
    requires
        0 <= pulse,
    ensures
        power == if pulse % 2 == 0 {
            -WAKE_POWER
        } else {
            WAKE_POWER as int
        },
{
    if pulse % 2 == 0 {
        -WAKE_POWER
    } else {
        WAKE_POWER
    }
}

/// The action of the motors test for a sample of the inertial unit.
pub fn motors_test_action(yaw: i16, pitch: i16) -> (data: MotorsData)
    ensures
        data == spec_motors_test_action(yaw, pitch),
{
    let yaw_deg: i64 = i64_div(yaw as i64, 100);
    let limited: i64 = if yaw_deg > TEST_MAX_STEER as i64 {
        TEST_MAX_STEER as i64
    } else if yaw_deg < -(TEST_MAX_STEER as i64) {
        -(TEST_MAX_STEER as i64)
    } else {
        yaw_deg
    };
    let raw_pitch: i64 = i64_div(pitch as i64, 100);
    let pitch_deg: i64 = if raw_pitch > 90 {
        90
    } else if raw_pitch < -90 {
        -90
    } else {
        raw_pitch
    };
    let top: i64 = TEST_MAX_POWER as i64;
    let dead: i64 = TEST_DEAD_PITCH as i64;
    let power: i64 = if pitch_deg > dead {
        i64_div((pitch_deg - dead) * top, 80)
    } else if (pitch as i64) < -dead {
        i64_div((pitch_deg + dead) * top, 80)
    } else {
        0
    };
    let limited_power: i64 = if power > top {
        top
    } else if power < -top {
        -top
    } else {
        power
    };
    MotorsData { power: limited_power as i16, steer: (-limited) as i16 }
}

} // verus!
