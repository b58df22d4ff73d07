use countryman::angle::Angle;
use countryman::configuration::RaceConfig;
use countryman::lasers::RawLaserReadings;
use countryman::time::{Duration, Instant};
use countryman::vision::{
    interpolate, is_in_window, weighted_average, LaserData, LaserSidePosition, LaserStatus, Vision,
    CENTER_LASER, LASER_OVERFLOW, LIC, LIL, LILL, LIR, LIRR, NUM_LASER_POSITIONS,
};

fn raw(values: [u16; 8]) -> RawLaserReadings {
    RawLaserReadings {
        values,
        timestamp: Instant::from_micros(0),
        dt: Duration::from_micros(100),
    }
}

/// Readings in which both sensors of each logical laser report the same.
fn readings(logical: [u16; 5]) -> RawLaserReadings {
    let mut values = [0u16; 8];
    values[4] = logical[0];
    values[1] = logical[1];
    values[6] = logical[1];
    values[2] = logical[2];
    values[7] = logical[2];
    values[3] = logical[3];
    values[0] = logical[3];
    values[5] = logical[4];
    raw(values)
}

fn seen(logical: [u16; 5]) -> Vision {
    let mut vision = Vision::new();
    vision.update(&readings(logical), &RaceConfig::init(), Angle::zero());
    vision
}

#[test]
fn the_layout_has_five_lasers_round_the_centre() {
    assert_eq!(NUM_LASER_POSITIONS, 5);
    assert_eq!(CENTER_LASER, 2);
    assert_eq!(LASER_OVERFLOW, 1200);
    assert_eq!((LILL, LIL, LIC, LIR, LIRR), (0, 1, 2, 3, 4));
}

#[test]
fn positions_have_an_index_by_side() {
    assert_eq!(LaserSidePosition::Center.index(0), 2);
    assert_eq!(LaserSidePosition::Center.index(1), 2);
    assert_eq!(LaserSidePosition::Side30.index(1), 3);
    assert_eq!(LaserSidePosition::Side30.index(0), 1);
    assert_eq!(LaserSidePosition::Side60.index(1), 4);
    assert_eq!(LaserSidePosition::Side60.index(0), 0);
    assert_eq!(LaserSidePosition::Side60.index(200), 4);
}

#[test]
fn positions_have_an_offset_from_the_centre() {
    assert_eq!(LaserSidePosition::Center.offset(), 0);
    assert_eq!(LaserSidePosition::Side30.offset(), 1);
    assert_eq!(LaserSidePosition::Side60.offset(), 2);
}

#[test]
fn positions_map_to_physical_channels() {
    assert_eq!(LaserSidePosition::Center.physical_index(0, true), 2);
    assert_eq!(LaserSidePosition::Center.physical_index(0, false), 7);
    assert_eq!(LaserSidePosition::Center.physical_index(1, true), 2);
    assert_eq!(LaserSidePosition::Center.physical_index(-1, false), 7);
    assert_eq!(LaserSidePosition::Side30.physical_index(1, true), 3);
    assert_eq!(LaserSidePosition::Side30.physical_index(-1, true), 1);
    assert_eq!(LaserSidePosition::Side30.physical_index(0, true), 1);
    assert_eq!(LaserSidePosition::Side30.physical_index(1, false), 0);
    assert_eq!(LaserSidePosition::Side30.physical_index(-1, false), 6);
    assert_eq!(LaserSidePosition::Side60.physical_index(1, true), 5);
    assert_eq!(LaserSidePosition::Side60.physical_index(-1, true), 4);
    assert_eq!(LaserSidePosition::Side60.physical_index(1, false), 5);
    assert_eq!(LaserSidePosition::Side60.physical_index(-1, false), 4);
}

#[test]
fn status_follows_the_distance_bands() {
    let config = RaceConfig::init();
    let center = LaserSidePosition::Center;
    assert_eq!(LaserStatus::from_value(0, center, &config), LaserStatus::Back);
    assert_eq!(LaserStatus::from_value(79, center, &config), LaserStatus::Back);
    assert_eq!(LaserStatus::from_value(80, center, &config), LaserStatus::Alert);
    assert_eq!(LaserStatus::from_value(379, center, &config), LaserStatus::Alert);
    assert_eq!(LaserStatus::from_value(380, center, &config), LaserStatus::Regular);
    assert_eq!(LaserStatus::from_value(1199, center, &config), LaserStatus::Regular);
    assert_eq!(LaserStatus::from_value(1200, center, &config), LaserStatus::Overflow);
    assert_eq!(LaserStatus::from_value(u16::MAX, center, &config), LaserStatus::Overflow);
    let side = LaserSidePosition::Side30;
    assert_eq!(LaserStatus::from_value(59, side, &config), LaserStatus::Back);
    assert_eq!(LaserStatus::from_value(60, side, &config), LaserStatus::Alert);
    assert_eq!(LaserStatus::from_value(189, side, &config), LaserStatus::Alert);
    assert_eq!(LaserStatus::from_value(190, side, &config), LaserStatus::Regular);
    let far = LaserSidePosition::Side60;
    assert_eq!(LaserStatus::from_value(49, far, &config), LaserStatus::Back);
    assert_eq!(LaserStatus::from_value(50, far, &config), LaserStatus::Alert);
    assert_eq!(LaserStatus::from_value(149, far, &config), LaserStatus::Alert);
    assert_eq!(LaserStatus::from_value(150, far, &config), LaserStatus::Regular);
}

fn rank(status: LaserStatus) -> u8 {
    match status {
        LaserStatus::Back => 0,
        LaserStatus::Alert => 1,
        LaserStatus::Regular => 2,
        LaserStatus::Overflow => 3,
    }
}

#[test]
fn status_never_gets_more_dangerous_with_distance() {
    let mut odd = RaceConfig::init();
    odd.alert_distance_center = 60;
    odd.back_distance_center = 300;
    for config in [RaceConfig::init(), odd] {
        for position in
            [LaserSidePosition::Center, LaserSidePosition::Side30, LaserSidePosition::Side60]
        {
            let mut last = 0;
            let mut value: u16 = 0;
            while value < 1400 {
                let now = rank(LaserStatus::from_value(value, position, &config));
                assert!(now >= last);
                last = now;
                value += 1;
            }
        }
    }
}

#[test]
fn status_is_ok_when_regular_or_overflow() {
    assert!(!LaserStatus::Back.is_ok());
    assert!(!LaserStatus::Alert.is_ok());
    assert!(LaserStatus::Regular.is_ok());
    assert!(LaserStatus::Overflow.is_ok());
}

#[test]
fn status_has_a_name() {
    assert_eq!(LaserStatus::Back.name(), "BACK");
    assert_eq!(LaserStatus::Alert.name(), "ALRT");
    assert_eq!(LaserStatus::Regular.name(), "REGL");
    assert_eq!(LaserStatus::Overflow.name(), "OVER");
}

#[test]
fn a_new_laser_sees_nothing() {
    let laser = LaserData::new(-1, LaserSidePosition::Side30);
    assert_eq!(laser.upper, 1200);
    assert_eq!(laser.lower, 1200);
    assert_eq!(laser.sign, -1);
    assert_eq!(laser.position, LaserSidePosition::Side30);
    assert_eq!(laser.status, LaserStatus::Overflow);
    assert!(!laser.slope);
    assert_eq!(laser.value(), 1200);
}

#[test]
fn value_is_the_shorter_reading_unless_on_a_slope() {
    let mut laser = LaserData::new(0, LaserSidePosition::Center);
    laser.lower = 300;
    laser.upper = 500;
    assert_eq!(laser.value(), 300);
    laser.lower = 700;
    assert_eq!(laser.value(), 500);
    laser.slope = true;
    assert_eq!(laser.value(), 1200);
}

#[test]
fn update_reads_the_pair_of_the_laser() {
    let config = RaceConfig::init();
    let snapshot = raw([10, 11, 12, 13, 14, 15, 16, 17]);
    let pairs: [(i8, LaserSidePosition, u16, u16); 5] = [
        (-1, LaserSidePosition::Side60, 14, 14),
        (-1, LaserSidePosition::Side30, 16, 11),
        (0, LaserSidePosition::Center, 17, 12),
        (1, LaserSidePosition::Side30, 10, 13),
        (1, LaserSidePosition::Side60, 15, 15),
    ];
    for (sign, position, lower, upper) in pairs.iter() {
        let mut laser = LaserData::new(*sign, *position);
        laser.update(&snapshot, &config, Angle::zero());
        assert_eq!(laser.lower, *lower);
        assert_eq!(laser.upper, *upper);
        assert_eq!(laser.sign, *sign);
        assert_eq!(laser.position, *position);
        assert!(!laser.slope);
        assert_eq!(laser.status, LaserStatus::Back);
    }
}

#[test]
fn update_caps_the_readings_at_the_overflow_distance() {
    let config = RaceConfig::init();
    let mut laser = LaserData::new(0, LaserSidePosition::Center);
    laser.update(&raw([0, 0, 1279, 0, 0, 0, 0, 1250]), &config, Angle::zero());
    assert_eq!(laser.upper, 1200);
    assert_eq!(laser.lower, 1200);
    assert_eq!(laser.value(), 1200);
    assert_eq!(laser.status, LaserStatus::Overflow);
    laser.update(&raw([0, 0, u16::MAX, 0, 0, 0, 0, u16::MAX]), &config, Angle::zero());
    assert_eq!(laser.upper, 1200);
    assert_eq!(laser.lower, 1200);
    assert!(!laser.slope);
}

#[test]
fn update_detects_a_slope_from_the_band_above_the_lower_reading() {
    let config = RaceConfig::init();
    let cases: [(u16, u16, bool); 8] = [
        (100, 174, false),
        (100, 175, true),
        (100, 200, true),
        (100, 250, true),
        (100, 251, false),
        (100, 100, false),
        (100, 50, false),
        (1150, 1250, true),
    ];
    for (lower, upper, slope) in cases.iter() {
        let mut laser = LaserData::new(0, LaserSidePosition::Center);
        laser.update(&raw([0, 0, *upper, 0, 0, 0, 0, *lower]), &config, Angle::zero());
        assert_eq!(laser.slope, *slope, "lower {} upper {}", lower, upper);
        if *slope {
            assert_eq!(laser.status, LaserStatus::Overflow);
            assert_eq!(laser.value(), 1200);
        } else {
            assert_eq!(laser.value(), (*lower).min(*upper));
        }
    }
}

#[test]
fn update_widens_the_slope_band_downhill() {
    let config = RaceConfig::init();
    let downhill = Angle::from(-10);
    let level = Angle::from(-9);
    let mut laser = LaserData::new(0, LaserSidePosition::Center);
    laser.update(&raw([0, 0, 400, 0, 0, 0, 0, 100]), &config, level);
    assert!(!laser.slope);
    assert_eq!(laser.status, LaserStatus::Alert);
    laser.update(&raw([0, 0, 400, 0, 0, 0, 0, 100]), &config, downhill);
    assert!(laser.slope);
    assert_eq!(laser.status, LaserStatus::Overflow);
    laser.update(&raw([0, 0, 174, 0, 0, 0, 0, 100]), &config, downhill);
    assert!(!laser.slope);
}

#[test]
fn copy_status_takes_the_readings_and_keeps_the_place() {
    let mut target = LaserData::new(-1, LaserSidePosition::Side60);
    let mut source = LaserData::new(1, LaserSidePosition::Side30);
    source.upper = 321;
    source.lower = 123;
    source.slope = true;
    source.status = LaserStatus::Alert;
    target.copy_status(&source);
    assert_eq!(target.upper, 321);
    assert_eq!(target.lower, 123);
    assert!(target.slope);
    assert_eq!(target.status, LaserStatus::Alert);
    assert_eq!(target.sign, -1);
    assert_eq!(target.position, LaserSidePosition::Side60);
}

#[test]
fn characters_summarise_a_laser() {
    let mut laser = LaserData::new(0, LaserSidePosition::Center);
    laser.lower = 907;
    laser.upper = 1000;
    laser.status = LaserStatus::Back;
    assert_eq!(laser.ch1(), '!');
    laser.status = LaserStatus::Alert;
    assert_eq!(laser.ch1(), 'a');
    laser.status = LaserStatus::Regular;
    assert_eq!(laser.ch1(), ' ');
    laser.status = LaserStatus::Overflow;
    assert_eq!(laser.ch1(), '^');
    assert_eq!(laser.ch2(), '9');
    assert_eq!(laser.ch3(), '0');
    assert_eq!(laser.ch4(), '7');
    laser.slope = true;
    assert_eq!(laser.ch1(), 'S');
    assert_eq!(laser.ch2(), '2');
    assert_eq!(laser.ch3(), '0');
    assert_eq!(laser.ch4(), '0');
    laser.slope = false;
    laser.lower = 65;
    assert_eq!((laser.ch2(), laser.ch3(), laser.ch4()), ('0', '6', '5'));
}

#[test]
fn a_new_vision_has_its_lasers_in_place() {
    let vision = Vision::new();
    let places: [(i8, LaserSidePosition); 5] = [
        (-1, LaserSidePosition::Side60),
        (-1, LaserSidePosition::Side30),
        (0, LaserSidePosition::Center),
        (1, LaserSidePosition::Side30),
        (1, LaserSidePosition::Side60),
    ];
    for (index, (sign, position)) in places.iter().enumerate() {
        assert_eq!(vision.lasers[index], LaserData::new(*sign, *position));
    }
    assert_eq!(vision.lasers[CENTER_LASER].position, LaserSidePosition::Center);
}

#[test]
fn vision_update_brings_every_laser_up_to_date() {
    let vision = seen([100, 200, 300, 400, 500]);
    let expected: [(u16, LaserStatus); 5] = [
        (100, LaserStatus::Alert),
        (200, LaserStatus::Regular),
        (300, LaserStatus::Alert),
        (400, LaserStatus::Regular),
        (500, LaserStatus::Regular),
    ];
    for (index, (value, status)) in expected.iter().enumerate() {
        assert_eq!(vision.lasers[index].value(), *value);
        assert_eq!(vision.lasers[index].status, *status);
    }
    assert_eq!(vision.lasers[2].position, LaserSidePosition::Center);
    assert_eq!(vision.lasers[0].sign, -1);
    assert_eq!(vision.lasers[4].sign, 1);
}

#[test]
fn sensor_angles_are_thirty_degrees_apart() {
    let vision = Vision::new();
    assert_eq!(vision.sensor_angle(LILL).value(), -60);
    assert_eq!(vision.sensor_angle(LIL).value(), -30);
    assert_eq!(vision.sensor_angle(LIC).value(), 0);
    assert_eq!(vision.sensor_angle(LIR).value(), 30);
    assert_eq!(vision.sensor_angle(LIRR).value(), 60);
}

#[test]
fn the_best_laser_is_the_leftmost_of_the_farthest() {
    assert_eq!(seen([300, 400, 900, 400, 300]).find_best_index(), 2);
    assert_eq!(seen([400, 500, 600, 700, 800]).find_best_index(), 4);
    assert_eq!(seen([800, 700, 600, 500, 400]).find_best_index(), 0);
    assert_eq!(seen([100, 900, 100, 900, 100]).find_best_index(), 1);
    assert_eq!(seen([1199, 1199, 1199, 1199, 1199]).find_best_index(), 0);
    assert_eq!(seen([0, 0, 0, 0, 0]).find_best_index(), 0);
    assert_eq!(seen([0, 0, 0, 0, 1]).find_best_index(), 4);
    assert_eq!(seen([1300, 1250, 1279, 1200, 1210]).find_best_index(), 0);
}

#[test]
fn the_open_window_grows_over_clear_lasers() {
    assert_eq!(seen([300, 400, 900, 400, 300]).find_open_window(2), (0, 4));
    assert_eq!(seen([100, 379, 1000, 189, 100]).find_open_window(2), (1, 2));
    assert_eq!(seen([50, 50, 500, 50, 50]).find_open_window(2), (2, 2));
    assert_eq!(seen([1000, 100, 1000, 1000, 200]).find_open_window(0), (0, 0));
    assert_eq!(seen([1000, 100, 1000, 1000, 200]).find_open_window(2), (2, 4));
    assert_eq!(seen([1000, 100, 1000, 1000, 200]).find_open_window(1), (0, 4));
    assert_eq!(seen([160, 200, 250, 500, 1100]).find_open_window(4), (3, 4));
}

#[test]
fn equal_clear_readings_steer_straight() {
    for value in [150u16, 190, 380, 500, 1199, 1200, 5000] {
        let mut vision = Vision::new();
        for laser in vision.lasers.iter_mut() {
            laser.lower = value.min(1200);
            laser.upper = value.min(1200);
            laser.status = LaserStatus::Regular;
        }
        let (target, best, status, window) = vision.compute_target();
        assert_eq!(target.value(), 0);
        assert_eq!(best, 0);
        assert_eq!(status, LaserStatus::Regular);
        assert_eq!(window, Some((0, 4)));
    }
    let (target, best, status, window) = seen([1199; 5]).compute_target();
    assert_eq!((target.value(), best, status, window), (0, 0, LaserStatus::Regular, Some((0, 4))));
}

#[test]
fn equal_readings_that_are_not_clear_do_not_steer_straight() {
    let (target, best, status, window) = seen([100; 5]).compute_target();
    assert_eq!((target.value(), best, status, window), (-60, 0, LaserStatus::Alert, None));
    let (target, best, status, window) = seen([200; 5]).compute_target();
    assert_eq!((target.value(), best, status, window), (-45, 0, LaserStatus::Regular, Some((0, 1))));
}

#[test]
fn compute_target_interpolates_over_the_window() {
    let cases: [([u16; 5], i32, usize, LaserStatus, Option<(usize, usize)>); 12] = [
        ([1200, 1200, 1200, 1200, 1200], 0, 0, LaserStatus::Overflow, Some((0, 4))),
        ([1200, 1200, 49, 1200, 1200], -45, 0, LaserStatus::Overflow, Some((0, 1))),
        ([300, 400, 900, 400, 300], 0, 2, LaserStatus::Regular, Some((0, 4))),
        ([400, 500, 600, 700, 800], 10, 4, LaserStatus::Regular, Some((0, 4))),
        ([800, 700, 600, 500, 400], -10, 0, LaserStatus::Regular, Some((0, 4))),
        ([1000, 100, 1000, 1000, 200], -60, 0, LaserStatus::Regular, Some((0, 0))),
        ([50, 50, 500, 50, 50], 0, 2, LaserStatus::Regular, Some((2, 2))),
        ([160, 200, 250, 500, 1100], 50, 4, LaserStatus::Regular, Some((3, 4))),
        ([700, 300, 100, 100, 1199], 60, 4, LaserStatus::Regular, Some((4, 4))),
        ([100, 379, 1000, 189, 100], -8, 2, LaserStatus::Regular, Some((1, 2))),
        ([150, 190, 380, 190, 150], 0, 2, LaserStatus::Regular, Some((0, 4))),
        ([150, 190, 380, 190, 1200], 29, 4, LaserStatus::Overflow, Some((0, 4))),
    ];
    for (logical, degrees, best, status, window) in cases.iter() {
        let vision = seen(*logical);
        let result = vision.compute_target();
        assert_eq!(result.0.value(), *degrees, "{:?}", logical);
        assert_eq!(result.1, *best, "{:?}", logical);
        assert_eq!(result.2, *status, "{:?}", logical);
        assert_eq!(result.3, *window, "{:?}", logical);
        let again = vision.compute_target_with_windows();
        assert_eq!(again.0.value(), *degrees);
        assert_eq!((again.1, again.2, again.3), (*best, *status, *window));
    }
}

#[test]
fn compute_target_falls_back_to_an_extreme_when_blocked() {
    let cases: [([u16; 5], i32, usize, LaserStatus); 6] = [
        ([100, 100, 100, 100, 100], -60, 0, LaserStatus::Alert),
        ([0, 0, 0, 0, 0], -60, 0, LaserStatus::Back),
        ([40, 40, 70, 40, 40], 60, 2, LaserStatus::Back),
        ([45, 40, 70, 40, 40], -60, 2, LaserStatus::Back),
        ([149, 189, 379, 189, 149], 60, 2, LaserStatus::Alert),
        ([10, 20, 30, 100, 20], 60, 3, LaserStatus::Alert),
    ];
    for (logical, degrees, best, status) in cases.iter() {
        let vision = seen(*logical);
        let result = vision.compute_target();
        assert_eq!(result.0.value(), *degrees, "{:?}", logical);
        assert_eq!(result.1, *best);
        assert_eq!(result.2, *status);
        assert_eq!(result.3, None);
        assert_eq!(vision.find_best_extreme(*best).value(), *degrees);
    }
}

#[test]
fn find_best_extreme_goes_by_the_side_of_the_best_laser() {
    let vision = seen([500, 500, 500, 500, 500]);
    assert_eq!(vision.find_best_extreme(0).value(), -60);
    assert_eq!(vision.find_best_extreme(1).value(), -60);
    assert_eq!(vision.find_best_extreme(2).value(), 60);
    assert_eq!(vision.find_best_extreme(3).value(), 60);
    assert_eq!(vision.find_best_extreme(4).value(), 60);
    assert_eq!(seen([501, 500, 500, 500, 400]).find_best_extreme(2).value(), -60);
}

#[test]
fn compute_target_simple_weighs_all_five_lasers() {
    let cases: [([u16; 5], i32, usize); 8] = [
        ([1199, 1199, 1199, 1199, 1199], 0, 1),
        ([400, 500, 600, 700, 800], 10, 1),
        ([800, 700, 600, 500, 400], -10, 1),
        ([160, 200, 250, 500, 1100], 29, 1),
        ([500, 0, 2, 0, 0], -59, 0),
        ([0, 0, 0, 0, 700], 60, 4),
        ([0, 0, 0, 700, 100], 33, 1),
        ([0, 0, 100, 700, 100], 30, 1),
    ];
    for (logical, degrees, index) in cases.iter() {
        let vision = seen(*logical);
        let result = vision.compute_target_simple();
        assert_eq!(result.0.value(), *degrees, "{:?}", logical);
        assert_eq!(result.1, *index, "{:?}", logical);
        assert_eq!(result.2, vision.lasers[*index].status);
        assert_eq!(result.3, None);
    }
}

#[test]
fn vision_copy_status_takes_over_every_laser() {
    let source = seen([100, 200, 300, 400, 500]);
    let mut vision = Vision::new();
    vision.copy_status(&source);
    for index in 0..5 {
        assert_eq!(vision.lasers[index], source.lasers[index]);
    }
}

#[test]
fn detect_back_panic_when_a_laser_is_under_its_back_distance() {
    let config = RaceConfig::init();
    assert!(seen([1200, 1200, 49, 1200, 1200]).detect_back_panic(&config));
    assert!(seen([1200, 1200, 79, 1200, 1200]).detect_back_panic(&config));
    assert!(!seen([1200, 1200, 80, 1200, 1200]).detect_back_panic(&config));
    assert!(seen([49, 1200, 1200, 1200, 1200]).detect_back_panic(&config));
    assert!(!seen([50, 1200, 1200, 1200, 1200]).detect_back_panic(&config));
    assert!(seen([1200, 1200, 1200, 1200, 49]).detect_back_panic(&config));
    assert!(seen([1200, 59, 1200, 1200, 1200]).detect_back_panic(&config));
    assert!(!seen([1200, 60, 1200, 1200, 1200]).detect_back_panic(&config));
    assert!(seen([1200, 1200, 1200, 59, 1200]).detect_back_panic(&config));
    assert!(!seen([50, 60, 80, 60, 50]).detect_back_panic(&config));
}

#[test]
fn detect_back_panic_is_quiet_when_all_is_far() {
    let config = RaceConfig::init();
    assert!(!seen([1199; 5]).detect_back_panic(&config));
    assert!(!seen([1200; 5]).detect_back_panic(&config));
    assert!(!seen([600, 700, 800, 900, 1000]).detect_back_panic(&config));
    assert!(!Vision::new().detect_back_panic(&config));
}

#[test]
fn detect_back_panic_from_the_centre_pair_of_raw_readings() {
    let config = RaceConfig::init();
    let mut vision = Vision::new();
    vision.update(&raw([1200, 1200, 70, 1200, 1200, 1200, 1200, 60]), &config, Angle::zero());
    assert_eq!(vision.lasers[LIC].value(), 60);
    assert!(vision.detect_back_panic(&config));
    vision.update(&raw([1200, 1200, 300, 1200, 1200, 1200, 1200, 79]), &config, Angle::zero());
    assert!(vision.detect_back_panic(&config));
    vision.update(&raw([1200, 1200, 1199, 1200, 1200, 1200, 1200, 1199]), &config, Angle::zero());
    assert!(!vision.detect_back_panic(&config));
}

#[test]
fn a_slope_hides_a_near_reading_from_back_panic() {
    let config = RaceConfig::init();
    let mut vision = Vision::new();
    vision.update(&raw([1200, 1200, 150, 1200, 1200, 1200, 1200, 40]), &config, Angle::zero());
    assert!(vision.lasers[LIC].slope);
    assert!(!vision.detect_back_panic(&config));
}

#[test]
fn compute_alert_power_rises_from_half_the_alert_distance() {
    let config = RaceConfig::init();
    assert_eq!(seen([1199; 5]).compute_alert_power(&config, None), 3900);
    let cases: [(u16, usize, i16); 10] = [
        (380, 2, 3900),
        (379, 2, 3898),
        (300, 2, 3773),
        (190, 2, 3600),
        (189, 2, 3600),
        (0, 2, 3600),
        (100, 0, 3700),
        (74, 4, 3600),
        (149, 4, 3896),
        (189, 1, 3896),
    ];
    for (distance, index, power) in cases.iter() {
        let mut logical = [1199u16; 5];
        logical[*index] = *distance;
        assert_eq!(
            seen(logical).compute_alert_power(&config, Some(*index)),
            *power,
            "distance {} index {}",
            distance,
            index
        );
    }
}

#[test]
fn compute_alert_power_with_a_tiny_alert_distance() {
    let mut config = RaceConfig::init();
    config.alert_distance_center = 1;
    let mut logical = [1199u16; 5];
    logical[2] = 0;
    assert_eq!(seen(logical).compute_alert_power(&config, Some(2)), 3600);
    config.alert_distance_center = -5;
    assert_eq!(seen(logical).compute_alert_power(&config, Some(2)), 3900);
}

#[test]
fn weighted_average_gives_the_pull_and_the_sum() {
    assert_eq!(weighted_average(&[100, 200, 300]), (200, 600));
    assert_eq!(weighted_average(&[300, 200, 100]), (-200, 600));
    assert_eq!(weighted_average(&[5, 0, 2]), (-3, 7));
    assert_eq!(weighted_average(&[1, 2]), (1, 3));
    assert_eq!(weighted_average(&[-3, 1]), (4, -2));
    assert_eq!(weighted_average(&[7, 7, 7, 7, 7]), (0, 35));
    assert_eq!(weighted_average(&[0, 0, 0, 0, 10]), (10, 10));
    assert_eq!(weighted_average(&[10, 0, 0, 0, 0]), (-10, 10));
}

#[test]
fn weighted_average_of_short_or_empty_rows() {
    let none: [i32; 0] = [];
    assert_eq!(weighted_average(&none), (0, 1));
    assert_eq!(weighted_average(&[7]), (0, 7));
    assert_eq!(weighted_average(&[0]), (0, 0));
    assert_eq!(weighted_average(&[-4]), (0, -4));
}

#[test]
fn weighted_average_of_a_row_that_sums_to_nothing() {
    assert_eq!(weighted_average(&[0, 0]), (0, 1));
    assert_eq!(weighted_average(&[0, 0, 0, 0, 0]), (0, 1));
    assert_eq!(weighted_average(&[-5, 5]), (0, 1));
}

#[test]
fn weighted_average_saturates() {
    assert_eq!(weighted_average(&[i32::MAX, i32::MAX, i32::MAX, i32::MAX]), (0, i32::MAX));
    assert_eq!(weighted_average(&[0, i32::MAX, i32::MAX]), (i32::MAX, i32::MAX));
    assert_eq!(weighted_average(&[i32::MIN, i32::MIN, 0]), (i32::MAX, i32::MIN));
}

#[test]
fn interpolate_leans_toward_the_larger_weights() {
    let from = Angle::from(-30);
    let to = Angle::from(30);
    assert_eq!(interpolate(&[100, 200, 300], from, to).value(), 10);
    assert_eq!(interpolate(&[300, 200, 100], from, to).value(), -10);
    assert_eq!(interpolate(&[5, 0, 2], from, to).value(), -12);
    assert_eq!(interpolate(&[2, 0, 5], from, to).value(), 12);
    assert_eq!(interpolate(&[1, 2], Angle::zero(), to).value(), 20);
    assert_eq!(interpolate(&[2, 1], Angle::zero(), to).value(), 10);
    assert_eq!(interpolate(&[1, 0, 0, 0, 0], Angle::sll(), Angle::srr()).value(), -60);
    assert_eq!(interpolate(&[0, 0, 0, 0, 1], Angle::sll(), Angle::srr()).value(), 60);
}

#[test]
fn interpolate_gives_the_middle_where_nothing_pulls() {
    let from = Angle::from(-30);
    let to = Angle::from(30);
    assert_eq!(interpolate(&[0, 0, 0], from, to).value(), 0);
    assert_eq!(interpolate(&[9, 9, 9], from, to).value(), 0);
    assert_eq!(interpolate(&[7], Angle::from(10), Angle::from(50)).value(), 30);
    assert_eq!(interpolate(&[0], Angle::from(10), Angle::from(50)).value(), 30);
    let none: [i32; 0] = [];
    assert_eq!(interpolate(&none, Angle::from(10), Angle::from(50)).value(), 30);
    assert_eq!(interpolate(&[4, 4], Angle::sll(), Angle::sl()).value(), -45);
}

#[test]
fn is_in_window_tells_whether_an_index_lies_inside() {
    assert!(is_in_window(1, Some((1, 3))));
    assert!(is_in_window(2, Some((1, 3))));
    assert!(is_in_window(3, Some((1, 3))));
    assert!(!is_in_window(0, Some((1, 3))));
    assert!(!is_in_window(4, Some((1, 3))));
    assert!(!is_in_window(2, None));
    assert!(!is_in_window(2, Some((3, 1))));
}
