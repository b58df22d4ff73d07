use countryman::motors::{
    motor_wake_power, motors_go, motors_stop, motors_test_action, pwm_config_motor,
    pwm_config_servo, servo_sweep_angle, MotorsData, MOTOR_DIV_INT, MOTOR_TOP, SERVO_CENTER_DUTY,
    SERVO_DIV_INT, SERVO_MAX_DELTA_DUTY, SERVO_MAX_DUTY, SERVO_MIN_DUTY, SERVO_TOP,
};

#[test]
fn the_servo_range_lies_round_its_centre() {
    assert_eq!(SERVO_MAX_DUTY, SERVO_CENTER_DUTY + SERVO_MAX_DELTA_DUTY);
    assert_eq!(SERVO_MIN_DUTY, SERVO_CENTER_DUTY - SERVO_MAX_DELTA_DUTY);
    assert_eq!((MOTOR_DIV_INT, MOTOR_TOP, SERVO_DIV_INT, SERVO_TOP), (250, 10000, 250, 10000));
}

#[test]
fn requests_carry_power_and_steering() {
    assert_eq!(motors_go(1234, -20), MotorsData { power: 1234, steer: -20 });
    assert_eq!(motors_stop(), MotorsData { power: 0, steer: 0 });
}

#[test]
fn power_goes_to_one_channel_by_its_sign() {
    let forward = pwm_config_motor(3000);
    assert_eq!((forward.compare_a, forward.compare_b), (3000, 0));
    let backward = pwm_config_motor(-4500);
    assert_eq!((backward.compare_a, backward.compare_b), (0, 4500));
    let none = pwm_config_motor(0);
    assert_eq!((none.compare_a, none.compare_b), (0, 0));
    let most = pwm_config_motor(i16::MAX);
    assert_eq!((most.compare_a, most.compare_b), (32767, 0));
    let least = pwm_config_motor(i16::MIN);
    assert_eq!((least.compare_a, least.compare_b), (0, 32768));
    for settings in [forward, backward, none] {
        assert!(!settings.invert_a && !settings.invert_b && !settings.phase_correct);
        assert!(settings.enable);
        assert_eq!(settings.divider, 250);
        assert_eq!(settings.top, 10000);
    }
}

#[test]
fn steering_moves_the_servo_duty_from_the_centre() {
    let cases: [(i16, u16); 13] = [
        (0, 700),
        (35, 350),
        (-35, 1050),
        (10, 600),
        (-10, 800),
        (36, 350),
        (-36, 1050),
        (70, 350),
        (71, 1050),
        (100, 1050),
        (-100, 1050),
        (i16::MAX, 1050),
        (i16::MIN, 1050),
    ];
    for (steer, duty) in cases.iter() {
        let settings = pwm_config_servo(*steer);
        assert_eq!(settings.compare_b, *duty, "steer {}", steer);
        assert_eq!(settings.compare_a, 0);
        assert!(settings.enable);
        assert_eq!(settings.divider, 250);
        assert_eq!(settings.top, 10000);
    }
}

#[test]
fn the_servo_sweep_swings_wider_left_and_right() {
    let angles: Vec<i16> = (0..7).map(servo_sweep_angle).collect();
    assert_eq!(angles, vec![0, 10, -10, 20, -20, 30, -30]);
}

#[test]
fn the_wake_pulses_go_backward_and_forward_in_turn() {
    let powers: Vec<i16> = (0..8).map(motor_wake_power).collect();
    assert_eq!(powers, vec![-3000, 3000, -3000, 3000, -3000, 3000, -3000, 3000]);
}

#[test]
fn the_motors_test_steers_against_the_yaw() {
    assert_eq!(motors_test_action(0, 0), MotorsData { power: 0, steer: 0 });
    assert_eq!(motors_test_action(1000, 0).steer, -10);
    assert_eq!(motors_test_action(-1000, 0).steer, 10);
    assert_eq!(motors_test_action(9000, 0).steer, -35);
    assert_eq!(motors_test_action(-9000, 0).steer, 35);
    assert_eq!(motors_test_action(150, 0).steer, -1);
    assert_eq!(motors_test_action(-150, 0).steer, 1);
    assert_eq!(motors_test_action(99, 0).steer, 0);
}

#[test]
fn the_motors_test_takes_its_power_from_the_pitch() {
    let cases: [(i16, i16); 14] = [
        (1000, 0),
        (1100, 125),
        (5000, 5000),
        (9000, 10000),
        (12000, 10000),
        (-10, 0),
        (-11, 1250),
        (-500, 625),
        (-1000, 0),
        (-1100, -125),
        (-5000, -5000),
        (-9000, -10000),
        (i16::MIN, -10000),
        (i16::MAX, 10000),
    ];
    for (pitch, power) in cases.iter() {
        assert_eq!(motors_test_action(0, *pitch).power, *power, "pitch {}", pitch);
    }
}
