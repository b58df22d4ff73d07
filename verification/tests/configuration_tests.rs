use countryman::angle::Angle;
use countryman::configuration::{
    RaceConfig, RaceConfigEntry, RACE_CONFIG_ENTRY_END, RACE_CONFIG_ENTRY_START,
};
use countryman::time::Duration;
use countryman::vision::LaserSidePosition;

fn all_entries() -> Vec<RaceConfigEntry> {
    let mut entries = Vec::new();
    let mut index = 0;
    while index < RACE_CONFIG_ENTRY_END {
        entries.push(RaceConfigEntry::from_index(index));
        index += 1;
    }
    entries
}

#[test]
fn the_list_has_twenty_five_entries_and_an_end() {
    assert_eq!(RACE_CONFIG_ENTRY_START, 0);
    assert_eq!(RACE_CONFIG_ENTRY_END, 25);
    assert_eq!(RaceConfigEntry::start(), RaceConfigEntry::MaxSpeed);
    assert_eq!(RaceConfigEntry::end(), RaceConfigEntry::End);
    assert_eq!(RaceConfigEntry::start().index(), 0);
    assert_eq!(RaceConfigEntry::end().index(), 25);
    assert_eq!(RaceConfigEntry::UseColorInversion.index(), 24);
    assert_eq!(RaceConfigEntry::BackDistanceCenter.index(), 11);
}

#[test]
fn entries_are_found_by_index() {
    let entries = all_entries();
    for (index, entry) in entries.iter().enumerate() {
        assert_eq!(entry.index(), index);
        assert_eq!(RaceConfigEntry::from(index), *entry);
    }
    assert_eq!(RaceConfigEntry::from_index(3), RaceConfigEntry::SafeAngle);
    assert_eq!(RaceConfigEntry::from_index(22), RaceConfigEntry::ClimbDirection);
}

#[test]
fn entries_convert_to_their_index() {
    assert_eq!(usize::from(RaceConfigEntry::MaxSpeed), 0);
    assert_eq!(usize::from(RaceConfigEntry::End), 25);
    let index: usize = RaceConfigEntry::SafeAngle.into();
    assert_eq!(index, 3);
}

#[test]
fn an_index_past_the_list_falls_back_to_the_start() {
    assert_eq!(RaceConfigEntry::from_index(25), RaceConfigEntry::MaxSpeed);
    assert_eq!(RaceConfigEntry::from_index(26), RaceConfigEntry::MaxSpeed);
    assert_eq!(RaceConfigEntry::from_index(usize::MAX), RaceConfigEntry::MaxSpeed);
    assert_eq!(RaceConfigEntry::from(1000usize), RaceConfigEntry::MaxSpeed);
}

#[test]
fn prev_of_the_start_is_the_last_entry() {
    assert_eq!(RaceConfigEntry::start().prev(), RaceConfigEntry::UseColorInversion);
    assert_eq!(RaceConfigEntry::MinSpeed.prev(), RaceConfigEntry::MaxSpeed);
    assert_eq!(RaceConfigEntry::End.prev(), RaceConfigEntry::UseColorInversion);
}

#[test]
fn next_of_the_last_entry_is_the_start() {
    assert_eq!(RaceConfigEntry::UseColorInversion.next(), RaceConfigEntry::MaxSpeed);
    assert_eq!(RaceConfigEntry::MaxSpeed.next(), RaceConfigEntry::MinSpeed);
    assert_eq!(RaceConfigEntry::End.next(), RaceConfigEntry::MaxSpeed);
}

#[test]
fn next_closes_the_ring_after_twenty_five_steps() {
    let mut entry = RaceConfigEntry::start();
    let mut steps = 0;
    while steps < 25 {
        entry = entry.next();
        assert_ne!(entry, RaceConfigEntry::End);
        if steps < 24 {
            assert_ne!(entry, RaceConfigEntry::start());
        }
        steps += 1;
    }
    assert_eq!(entry, RaceConfigEntry::start());
}

#[test]
fn prev_undoes_next() {
    for entry in all_entries() {
        assert_eq!(entry.next().prev(), entry);
        assert_eq!(entry.prev().next(), entry);
    }
}

#[test]
fn entries_have_names() {
    assert_eq!(RaceConfigEntry::MaxSpeed.name(), "MAX SPEED");
    assert_eq!(RaceConfigEntry::MinSpeed.name(), "MIN SPEED");
    assert_eq!(RaceConfigEntry::SteerBias.name(), "STEER BIAS");
    assert_eq!(RaceConfigEntry::SafeAngle.name(), "SAFE ANGLE");
    assert_eq!(RaceConfigEntry::BackSpeed.name(), "BACK SPEED");
    assert_eq!(RaceConfigEntry::BackTime.name(), "BACK TIME");
    assert_eq!(RaceConfigEntry::SprintSpeed.name(), "SPRINT SPEED");
    assert_eq!(RaceConfigEntry::SprintTime.name(), "SPRINT TIME");
    assert_eq!(RaceConfigEntry::AlertDistanceCenter.name(), "ALERT D  0");
    assert_eq!(RaceConfigEntry::AlertDistanceSide30.name(), "ALERT D 30");
    assert_eq!(RaceConfigEntry::AlertDistanceSide60.name(), "ALERT D 60");
    assert_eq!(RaceConfigEntry::BackDistanceCenter.name(), "BACK D  0");
    assert_eq!(RaceConfigEntry::BackDistanceSide30.name(), "BACK D 30");
    assert_eq!(RaceConfigEntry::BackDistanceSide60.name(), "BACK D 60");
    assert_eq!(RaceConfigEntry::SlopeDistanceDelta.name(), "SLOPE DELTA");
    assert_eq!(RaceConfigEntry::ClimbingSpeed.name(), "CLIMB SPD");
    assert_eq!(RaceConfigEntry::ClimbingAngle.name(), "CLIMB ANG");
    assert_eq!(RaceConfigEntry::ClimbingIgnore.name(), "CLIMB IGN");
    assert_eq!(RaceConfigEntry::StillnessDelta.name(), "STILL DELTA");
    assert_eq!(RaceConfigEntry::StillnessTime.name(), "STILL TIME");
    assert_eq!(RaceConfigEntry::UseStillness.name(), "USE STILL");
    assert_eq!(RaceConfigEntry::InversionTime.name(), "INV TIME");
    assert_eq!(RaceConfigEntry::ClimbDirection.name(), "CLIMB DIR");
    assert_eq!(RaceConfigEntry::UseClimbDirection.name(), "USE CLIMB DIR");
    assert_eq!(RaceConfigEntry::UseColorInversion.name(), "USE COLOR INV");
    assert_eq!(RaceConfigEntry::End.name(), "END");
}

#[test]
fn entries_have_limits_and_steps() {
    let table: [(RaceConfigEntry, i16, i16, i16); 26] = [
        (RaceConfigEntry::MaxSpeed, 2000, 10000, 500),
        (RaceConfigEntry::MinSpeed, 1000, 9000, 500),
        (RaceConfigEntry::SteerBias, 0, 20, 1),
        (RaceConfigEntry::SafeAngle, 0, 35, 1),
        (RaceConfigEntry::BackSpeed, 2000, 10000, 500),
        (RaceConfigEntry::BackTime, 100, 1000, 10),
        (RaceConfigEntry::SprintSpeed, 2000, 10000, 500),
        (RaceConfigEntry::SprintTime, 0, 3000, 10),
        (RaceConfigEntry::AlertDistanceCenter, 150, 500, 25),
        (RaceConfigEntry::AlertDistanceSide30, 150, 500, 25),
        (RaceConfigEntry::AlertDistanceSide60, 150, 500, 25),
        (RaceConfigEntry::BackDistanceCenter, 25, 400, 25),
        (RaceConfigEntry::BackDistanceSide30, 25, 400, 25),
        (RaceConfigEntry::BackDistanceSide60, 25, 400, 25),
        (RaceConfigEntry::SlopeDistanceDelta, 50, 300, 10),
        (RaceConfigEntry::ClimbingSpeed, 2000, 10000, 500),
        (RaceConfigEntry::ClimbingAngle, 5, 25, 1),
        (RaceConfigEntry::ClimbingIgnore, 0, 10, 1),
        (RaceConfigEntry::StillnessDelta, 0, 100, 1),
        (RaceConfigEntry::StillnessTime, 0, 500, 1),
        (RaceConfigEntry::UseStillness, 0, 1, 1),
        (RaceConfigEntry::InversionTime, 100, 1000, 10),
        (RaceConfigEntry::ClimbDirection, -180, 180, 90),
        (RaceConfigEntry::UseClimbDirection, 0, 1, 1),
        (RaceConfigEntry::UseColorInversion, 0, 1, 1),
        (RaceConfigEntry::End, 0, 1, 1),
    ];
    for (entry, min, max, step) in table.iter() {
        assert_eq!(entry.min(), *min);
        assert_eq!(entry.max(), *max);
        assert_eq!(entry.step(), *step);
    }
}

#[test]
fn switches_name_their_values() {
    for entry in [
        RaceConfigEntry::UseStillness,
        RaceConfigEntry::UseClimbDirection,
        RaceConfigEntry::UseColorInversion,
    ] {
        assert_eq!(entry.value_name(0), Some("NO"));
        assert_eq!(entry.value_name(1), Some("YES"));
        assert_eq!(entry.value_name(2), None);
        assert_eq!(entry.value_name(-1), None);
    }
    assert_eq!(RaceConfigEntry::MaxSpeed.value_name(0), None);
    assert_eq!(RaceConfigEntry::ClimbDirection.value_name(1), None);
    assert_eq!(RaceConfigEntry::End.value_name(1), None);
}

#[test]
fn init_holds_the_boot_values() {
    let config = RaceConfig::init();
    assert_eq!(config.max_speed, 3900);
    assert_eq!(config.min_speed, 3600);
    assert_eq!(config.steer_bias, 0);
    assert_eq!(config.safe_angle, 10);
    assert_eq!(config.back_speed, 5000);
    assert_eq!(config.back_time, 100);
    assert_eq!(config.sprint_speed, 6000);
    assert_eq!(config.sprint_time, 100);
    assert_eq!(config.alert_distance_center, 380);
    assert_eq!(config.alert_distance_side_30, 190);
    assert_eq!(config.alert_distance_side_60, 150);
    assert_eq!(config.back_distance_center, 80);
    assert_eq!(config.back_distance_side_30, 60);
    assert_eq!(config.back_distance_side_60, 50);
    assert_eq!(config.slope_distance_delta, 150);
    assert_eq!(config.climbing_speed, 8000);
    assert_eq!(config.climbing_angle, 15);
    assert_eq!(config.climbing_ignore, 3);
    assert_eq!(config.stillness_delta, 0);
    assert_eq!(config.stillness_time, 500);
    assert_eq!(config.use_stillness, 1);
    assert_eq!(config.inversion_time, 750);
    assert_eq!(config.climb_direction, 0);
    assert_eq!(config.use_climb_direction, 1);
    assert_eq!(config.use_color_inversion, 1);
    assert_eq!(RaceConfig::default(), config);
}

#[test]
fn get_reads_the_field_of_the_entry() {
    let config = RaceConfig::init();
    assert_eq!(config.get(RaceConfigEntry::MaxSpeed), 3900);
    assert_eq!(config.get(RaceConfigEntry::BackDistanceSide60), 50);
    assert_eq!(config.get(RaceConfigEntry::InversionTime), 750);
    assert_eq!(config.get(RaceConfigEntry::UseColorInversion), 1);
    assert_eq!(config.get(RaceConfigEntry::End), 0);
}

#[test]
fn set_stores_any_value_and_leaves_the_rest() {
    for entry in all_entries() {
        let mut config = RaceConfig::init();
        config.set(entry, -12345);
        assert_eq!(config.get(entry), -12345);
        for other in all_entries() {
            if other != entry {
                assert_eq!(config.get(other), RaceConfig::init().get(other));
            }
        }
    }
    let mut config = RaceConfig::init();
    config.set(RaceConfigEntry::End, 7);
    assert_eq!(config, RaceConfig::init());
    assert_eq!(config.get(RaceConfigEntry::End), 0);
}

#[test]
fn reset_restores_the_boot_value_of_one_entry() {
    for entry in all_entries() {
        let mut config = RaceConfig::init();
        config.set(RaceConfigEntry::MaxSpeed, 9999);
        config.set(RaceConfigEntry::ClimbDirection, 90);
        config.set(entry, 77);
        config.reset(entry);
        assert_eq!(config.get(entry), RaceConfig::init().get(entry));
        if entry != RaceConfigEntry::MaxSpeed {
            assert_eq!(config.max_speed, 9999);
        }
        if entry != RaceConfigEntry::ClimbDirection {
            assert_eq!(config.climb_direction, 90);
        }
    }
    let mut config = RaceConfig::init();
    config.set(RaceConfigEntry::MaxSpeed, 9999);
    config.reset(RaceConfigEntry::End);
    assert_eq!(config.max_speed, 9999);
}

#[test]
fn inc_steps_up_and_stops_at_the_largest_value() {
    let mut config = RaceConfig::init();
    assert_eq!(config.inc(RaceConfigEntry::MaxSpeed), 4400);
    assert_eq!(config.max_speed, 4400);
    let mut last = 0;
    for _ in 0..20 {
        last = config.inc(RaceConfigEntry::MaxSpeed);
    }
    assert_eq!(last, 10000);
    assert_eq!(config.max_speed, 10000);
    assert_eq!(config.inc(RaceConfigEntry::SafeAngle), 11);
    assert_eq!(config.inc(RaceConfigEntry::ClimbDirection), 90);
    assert_eq!(config.inc(RaceConfigEntry::ClimbDirection), 180);
    assert_eq!(config.inc(RaceConfigEntry::ClimbDirection), 180);
    assert_eq!(config.inc(RaceConfigEntry::UseStillness), 1);
}

#[test]
fn dec_steps_down_and_stops_at_the_smallest_value() {
    let mut config = RaceConfig::init();
    assert_eq!(config.dec(RaceConfigEntry::MaxSpeed), 3400);
    assert_eq!(config.dec(RaceConfigEntry::MaxSpeed), 2900);
    assert_eq!(config.dec(RaceConfigEntry::MaxSpeed), 2400);
    assert_eq!(config.dec(RaceConfigEntry::MaxSpeed), 2000);
    assert_eq!(config.dec(RaceConfigEntry::MaxSpeed), 2000);
    assert_eq!(config.max_speed, 2000);
    assert_eq!(config.dec(RaceConfigEntry::ClimbDirection), -90);
    assert_eq!(config.dec(RaceConfigEntry::ClimbDirection), -180);
    assert_eq!(config.dec(RaceConfigEntry::ClimbDirection), -180);
    assert_eq!(config.dec(RaceConfigEntry::UseStillness), 0);
    assert_eq!(config.dec(RaceConfigEntry::UseStillness), 0);
    assert_eq!(config.dec(RaceConfigEntry::BackTime), 100);
}

#[test]
fn steps_keep_a_value_within_its_limits() {
    for entry in all_entries() {
        let mut config = RaceConfig::init();
        config.set(entry, entry.min());
        let mut round = 0;
        while round < 60 {
            let value = if round % 7 < 4 { config.inc(entry) } else { config.dec(entry) };
            assert_eq!(config.get(entry), value);
            assert!(entry.min() <= value && value <= entry.max());
            round += 1;
        }
        let mut up = 0;
        while up < 600 {
            config.inc(entry);
            up += 1;
        }
        assert_eq!(config.get(entry), entry.max());
        let mut down = 0;
        while down < 600 {
            config.dec(entry);
            down += 1;
        }
        assert_eq!(config.get(entry), entry.min());
    }
}

#[test]
fn the_boot_table_lies_within_the_limits() {
    let config = RaceConfig::init();
    for entry in all_entries() {
        let value = config.get(entry);
        assert!(entry.min() <= value && value <= entry.max(), "{}", entry.name());
    }
    assert_eq!(RaceConfigEntry::AlertDistanceSide60.min(), 150);
    assert_eq!(RaceConfigEntry::StillnessTime.max(), 500);
}

#[test]
fn a_step_brings_a_value_from_outside_within_the_limits() {
    let mut config = RaceConfig::init();
    config.set(RaceConfigEntry::AlertDistanceSide60, 100);
    assert_eq!(config.inc(RaceConfigEntry::AlertDistanceSide60), 150);
    config.set(RaceConfigEntry::AlertDistanceSide60, 100);
    assert_eq!(config.dec(RaceConfigEntry::AlertDistanceSide60), 150);
    config.set(RaceConfigEntry::StillnessTime, 900);
    assert_eq!(config.dec(RaceConfigEntry::StillnessTime), 500);
    config.set(RaceConfigEntry::StillnessTime, 900);
    assert_eq!(config.inc(RaceConfigEntry::StillnessTime), 500);
    config.set(RaceConfigEntry::SafeAngle, -7);
    assert_eq!(config.inc(RaceConfigEntry::SafeAngle), 0);
    assert_eq!(config.safe_angle, 0);
}

#[test]
fn steps_from_the_boot_table_move_by_one_step() {
    let mut config = RaceConfig::init();
    assert_eq!(config.inc(RaceConfigEntry::AlertDistanceSide60), 175);
    assert_eq!(config.dec(RaceConfigEntry::AlertDistanceSide60), 150);
    assert_eq!(config.dec(RaceConfigEntry::AlertDistanceSide60), 150);
    assert_eq!(config.dec(RaceConfigEntry::AlertDistanceSide30), 165);
    assert_eq!(config.dec(RaceConfigEntry::AlertDistanceSide30), 150);
    assert_eq!(config.dec(RaceConfigEntry::StillnessTime), 499);
    assert_eq!(config.inc(RaceConfigEntry::StillnessTime), 500);
    assert_eq!(config.inc(RaceConfigEntry::StillnessTime), 500);
}

#[test]
fn steps_do_not_overflow() {
    let mut config = RaceConfig::init();
    config.set(RaceConfigEntry::MaxSpeed, i16::MAX);
    assert_eq!(config.inc(RaceConfigEntry::MaxSpeed), 10000);
    config.set(RaceConfigEntry::MaxSpeed, i16::MIN);
    assert_eq!(config.dec(RaceConfigEntry::MaxSpeed), 2000);
    config.set(RaceConfigEntry::MaxSpeed, i16::MIN);
    assert_eq!(config.inc(RaceConfigEntry::MaxSpeed), 2000);
    config.set(RaceConfigEntry::MaxSpeed, i16::MAX);
    assert_eq!(config.dec(RaceConfigEntry::MaxSpeed), 10000);
}

#[test]
fn the_end_marker_holds_nothing() {
    let mut config = RaceConfig::init();
    assert_eq!(config.inc(RaceConfigEntry::End), 1);
    assert_eq!(config.dec(RaceConfigEntry::End), 0);
    assert_eq!(config, RaceConfig::init());
}

#[test]
fn distances_follow_the_position() {
    let config = RaceConfig::init();
    assert_eq!(config.alert_distance(LaserSidePosition::Center), 380);
    assert_eq!(config.alert_distance(LaserSidePosition::Side30), 190);
    assert_eq!(config.alert_distance(LaserSidePosition::Side60), 150);
    assert_eq!(config.back_distance(LaserSidePosition::Center), 80);
    assert_eq!(config.back_distance(LaserSidePosition::Side30), 60);
    assert_eq!(config.back_distance(LaserSidePosition::Side60), 50);
}

#[test]
fn negative_distances_read_as_large_unsigned_ones() {
    let mut config = RaceConfig::init();
    config.alert_distance_center = -1;
    config.back_distance_side_30 = i16::MIN;
    assert_eq!(config.alert_distance(LaserSidePosition::Center), 65535);
    assert_eq!(config.back_distance(LaserSidePosition::Side30), 32768);
}

#[test]
fn climb_power_boost_is_nothing_on_the_level_and_downhill() {
    let config = RaceConfig::init();
    assert_eq!(config.climb_power_boost(Angle::from(0)), 0);
    assert_eq!(config.climb_power_boost(Angle::from(-1)), 0);
    assert_eq!(config.climb_power_boost(Angle::from(-90)), 0);
}

#[test]
fn climb_power_boost_ramps_between_ignore_and_angle() {
    let config = RaceConfig::init();
    assert_eq!(config.climb_power_boost(Angle::from(1)), 0);
    assert_eq!(config.climb_power_boost(Angle::from(3)), 0);
    assert_eq!(config.climb_power_boost(Angle::from(4)), 341);
    assert_eq!(config.climb_power_boost(Angle::from(9)), 2050);
    assert_eq!(config.climb_power_boost(Angle::from(14)), 3758);
    assert_eq!(config.climb_power_boost(Angle::from(15)), 4100);
    assert_eq!(config.climb_power_boost(Angle::from(20)), 4100);
    assert_eq!(config.climb_power_boost(Angle::from(180)), 4100);
}

#[test]
fn climb_power_boost_above_the_climbing_angle_is_the_whole_range() {
    let config = RaceConfig::init();
    let pitch = Angle::from(config.climbing_angle as i32 + 5);
    let boost = config.climb_power_boost(pitch);
    assert!(boost > 0);
    assert!(boost <= config.climbing_speed - config.max_speed);
    assert_eq!(boost, 4100);
}

#[test]
fn climb_power_boost_with_less_climbing_speed_is_negative() {
    let mut config = RaceConfig::init();
    config.climbing_speed = 3000;
    assert_eq!(config.climb_power_boost(Angle::from(15)), -900);
    assert_eq!(config.climb_power_boost(Angle::from(9)), -900);
    assert_eq!(config.climb_power_boost(Angle::from(3)), -900);
}

#[test]
fn climb_power_boost_of_a_ramp_without_width_is_nothing() {
    let mut config = RaceConfig::init();
    config.climbing_ignore = 15;
    assert_eq!(config.climb_power_boost(Angle::from(20)), 0);
    config.climbing_ignore = 20;
    assert_eq!(config.climb_power_boost(Angle::from(30)), 0);
}

#[test]
fn climb_power_boost_saturates() {
    let mut config = RaceConfig::init();
    config.climbing_speed = i16::MAX;
    config.max_speed = i16::MIN;
    assert_eq!(config.climb_power_boost(Angle::from(90)), i16::MAX);
}

#[test]
fn turn_speed_is_full_inside_the_safe_angle() {
    let config = RaceConfig::init();
    assert_eq!(config.turn_speed(Angle::from(0)), 3900);
    assert_eq!(config.turn_speed(Angle::from(10)), 3900);
    assert_eq!(config.turn_speed(Angle::from(-10)), 3900);
    assert_eq!(config.turn_speed(Angle::from(5)), 3900);
}

#[test]
fn turn_speed_falls_to_the_least_at_full_lock() {
    let config = RaceConfig::init();
    assert_eq!(config.turn_speed(Angle::from(35)), 3600);
    assert_eq!(config.turn_speed(Angle::from(-35)), 3600);
    assert_eq!(config.turn_speed(Angle::from(90)), 3600);
    assert_eq!(config.turn_speed(Angle::from(-90)), 3600);
}

#[test]
fn turn_speed_is_linear_in_between_and_even() {
    let config = RaceConfig::init();
    assert_eq!(config.turn_speed(Angle::from(11)), 3888);
    assert_eq!(config.turn_speed(Angle::from(20)), 3780);
    assert_eq!(config.turn_speed(Angle::from(-20)), 3780);
    assert_eq!(config.turn_speed(Angle::from(34)), 3612);
    assert_eq!(config.turn_speed(Angle::from(-34)), 3612);
    let mut degrees = -60;
    while degrees <= 60 {
        assert_eq!(
            config.turn_speed(Angle::from(degrees)),
            config.turn_speed(Angle::from(-degrees))
        );
        degrees += 1;
    }
}

#[test]
fn turn_speed_with_the_safe_angle_at_full_lock_is_full() {
    let mut config = RaceConfig::init();
    config.safe_angle = 35;
    assert_eq!(config.turn_speed(Angle::from(35)), 3900);
    assert_eq!(config.turn_speed(Angle::from(-60)), 3900);
    config.safe_angle = 50;
    assert_eq!(config.turn_speed(Angle::from(35)), 3900);
}

#[test]
fn detect_climb_from_two_thirds_of_the_climbing_angle() {
    let config = RaceConfig::init();
    assert!(config.detect_climb(Angle::from(10)));
    assert!(config.detect_climb(Angle::from(11)));
    assert!(config.detect_climb(Angle::from(90)));
    assert!(!config.detect_climb(Angle::from(9)));
    assert!(!config.detect_climb(Angle::from(0)));
    assert!(!config.detect_climb(Angle::from(-10)));
    let mut steep = RaceConfig::init();
    steep.climbing_angle = 25;
    assert!(steep.detect_climb(Angle::from(16)));
    assert!(!steep.detect_climb(Angle::from(15)));
}

#[test]
fn detect_downhill_from_two_thirds_of_the_climbing_angle() {
    let config = RaceConfig::init();
    assert!(config.detect_downhill(Angle::from(-10)));
    assert!(config.detect_downhill(Angle::from(-45)));
    assert!(!config.detect_downhill(Angle::from(-9)));
    assert!(!config.detect_downhill(Angle::from(0)));
    assert!(!config.detect_downhill(Angle::from(10)));
}

#[test]
fn detect_stillness_from_the_configured_time() {
    let config = RaceConfig::init();
    assert!(!config.detect_stillness(None));
    assert!(!config.detect_stillness(Some(Duration::from_micros(0))));
    assert!(!config.detect_stillness(Some(Duration::from_micros(499_999))));
    assert!(config.detect_stillness(Some(Duration::from_millis(500))));
    assert!(config.detect_stillness(Some(Duration::from_secs(60))));
    let mut quick = RaceConfig::init();
    quick.stillness_time = 0;
    assert!(quick.detect_stillness(Some(Duration::from_micros(0))));
    assert!(!quick.detect_stillness(None));
    let mut never = RaceConfig::init();
    never.stillness_time = -1;
    assert!(!never.detect_stillness(Some(Duration::from_secs(3600))));
}

#[test]
fn climb_direction_is_an_angle() {
    let mut config = RaceConfig::init();
    assert_eq!(config.climb_direction().value(), 0);
    config.climb_direction = 90;
    assert_eq!(config.climb_direction().value(), 90);
    config.climb_direction = -180;
    assert_eq!(config.climb_direction().value(), 180);
    config.climb_direction = 270;
    assert_eq!(config.climb_direction().value(), -90);
}

#[test]
fn use_climb_direction_is_a_switch() {
    let mut config = RaceConfig::init();
    assert!(config.use_climb_direction());
    config.use_climb_direction = 0;
    assert!(!config.use_climb_direction());
    config.use_climb_direction = -3;
    assert!(config.use_climb_direction());
}
