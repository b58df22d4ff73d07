use countryman::rgb::{
    green_matches, red_matches, rgb2hsv, ColorTimes, RgbEvent, RgbTracker, DURATION_MAX_MICROS,
};
use countryman::tcs3472::{
    all_channels, channel_value, is_rgbc_status_valid, register_command, registers_command,
    AllChannelMeasurement, CMD, CMD_AUTO_INC, DEVICE_ADDRESS, REGISTER_BDATA, REGISTER_CDATA,
    REGISTER_GDATA, REGISTER_ID, REGISTER_RDATA, REGISTER_STATUS, RGBC_VALID,
};
use countryman::time::Duration;

fn us(micros: u64) -> Duration {
    Duration::from_micros(micros)
}

fn event(not_red: u64, not_green: u64, last_red: u64, last_green: u64) -> RgbEvent {
    RgbEvent {
        dt: us(2_000),
        r: 0,
        g: 0,
        b: 0,
        l: 0,
        h: 0,
        s: 0,
        v: 0,
        not_red_for: us(not_red),
        not_green_for: us(not_green),
        last_red_for: us(last_red),
        last_green_for: us(last_green),
    }
}

#[test]
fn hue_saturation_and_value_of_colours() {
    let cases: [((i32, i32, i32), (i32, i32, i32)); 14] = [
        ((255, 0, 0), (0, 255, 255)),
        ((0, 255, 0), (120, 255, 255)),
        ((0, 0, 255), (240, 255, 255)),
        ((200, 100, 50), (20, 191, 200)),
        ((50, 100, 200), (220, 191, 200)),
        ((200, 50, 100), (340, 191, 200)),
        ((100, 200, 50), (100, 191, 200)),
        ((65535, 0, 0), (0, 255, 65535)),
        ((65535, 65535, 0), (60, 255, 65535)),
        ((1, 0, 0), (0, 248, 1)),
        ((300, 40, 45), (358, 221, 300)),
        ((40, 300, 120), (138, 221, 300)),
        ((1000, 999, 998), (30, 0, 1000)),
        ((10, 200, 10), (120, 243, 200)),
    ];
    for (rgb, hsv) in cases.iter() {
        assert_eq!(rgb2hsv(rgb.0, rgb.1, rgb.2), *hsv, "{:?}", rgb);
    }
}

#[test]
fn grey_has_no_hue() {
    assert_eq!(rgb2hsv(100, 100, 100), (-1, 0, 100));
    assert_eq!(rgb2hsv(0, 0, 0), (-1, 0, 0));
    assert_eq!(rgb2hsv(65535, 65535, 65535), (-1, 0, 65535));
}

#[test]
fn red_marks_are_told_by_hue_saturation_and_value() {
    assert!(red_matches(0, 90, 40));
    assert!(red_matches(16, 90, 40));
    assert!(!red_matches(17, 90, 40));
    assert!(red_matches(346, 200, 100));
    assert!(red_matches(359, 200, 100));
    assert!(!red_matches(345, 200, 100));
    assert!(!red_matches(0, 89, 40));
    assert!(!red_matches(0, 90, 39));
    assert!(!red_matches(-1, 255, 255));
}

#[test]
fn green_marks_are_told_by_hue_saturation_and_value() {
    assert!(green_matches(110, 40, 40));
    assert!(green_matches(95, 40, 40));
    assert!(green_matches(125, 40, 40));
    assert!(!green_matches(94, 40, 40));
    assert!(!green_matches(126, 40, 40));
    assert!(!green_matches(110, 39, 40));
    assert!(!green_matches(110, 40, 39));
}

#[test]
fn a_colour_is_seen_while_its_time_unseen_is_nothing() {
    assert!(event(0, 5, 0, 0).is_red());
    assert!(!event(1, 5, 0, 0).is_red());
    assert!(event(5, 0, 0, 0).is_green());
    assert!(!event(5, 1, 0, 0).is_green());
}

#[test]
fn an_inversion_is_red_soon_after_green() {
    assert!(event(0, 1_500_000, 10_000, 10_000).detect_inversion());
    assert!(!event(1, 1_500_000, 10_000, 10_000).detect_inversion());
    assert!(!event(0, 1_500_001, 10_000, 10_000).detect_inversion());
    assert!(!event(0, 1_500_000, 9_999, 10_000).detect_inversion());
    assert!(!event(0, 1_500_000, 10_000, 9_999).detect_inversion());
}

#[test]
fn a_good_cross_is_green_soon_after_red() {
    assert!(event(1_500_000, 0, 10_000, 10_000).detect_good_cross());
    assert!(!event(1_500_000, 1, 10_000, 10_000).detect_good_cross());
    assert!(!event(1_500_001, 0, 10_000, 10_000).detect_good_cross());
    assert!(!event(1_500_000, 0, 9_999, 10_000).detect_good_cross());
    assert!(!event(1_500_000, 0, 10_000, 9_999).detect_good_cross());
}

#[test]
fn the_times_of_a_colour_count_up_to_a_minute() {
    let mut times = ColorTimes::new();
    assert_eq!(times.not_seen_for, us(DURATION_MAX_MICROS));
    assert_eq!(times.last_seen_for, us(0));
    times.update(false, us(5_000));
    assert_eq!(times.not_seen_for, us(60_000_000));
    times.update(true, us(3_000));
    assert_eq!((times.not_seen_for, times.last_seen_for), (us(0), us(3_000)));
    times.update(true, us(4_000));
    assert_eq!((times.not_seen_for, times.last_seen_for), (us(0), us(7_000)));
    times.update(false, us(2_000));
    assert_eq!((times.not_seen_for, times.last_seen_for), (us(2_000), us(7_000)));
    times.update(false, us(2_500));
    assert_eq!((times.not_seen_for, times.last_seen_for), (us(4_500), us(7_000)));
    times.update(true, us(1_000));
    assert_eq!((times.not_seen_for, times.last_seen_for), (us(0), us(1_000)));
    times.update(true, us(u64::MAX));
    assert_eq!(times.last_seen_for, us(60_000_000));
}

#[test]
fn the_tracker_follows_red_and_green() {
    let mut tracker = RgbTracker::new();
    let red = AllChannelMeasurement { red: 300, green: 40, blue: 45, clear: 400 };
    let green = AllChannelMeasurement { red: 40, green: 300, blue: 120, clear: 500 };
    let grey = AllChannelMeasurement { red: 100, green: 100, blue: 100, clear: 300 };
    let first = tracker.process(red, us(12_000));
    assert_eq!((first.r, first.g, first.b, first.l), (300, 40, 45, 400));
    assert_eq!((first.h, first.s, first.v), (358, 221, 300));
    assert!(first.is_red());
    assert!(!first.is_green());
    assert_eq!(first.last_red_for, us(12_000));
    assert_eq!(first.not_green_for, us(60_000_000));
    assert!(!first.detect_inversion());
    let second = tracker.process(green, us(11_000));
    assert_eq!((second.h, second.s, second.v), (138, 221, 300));
    assert!(!second.is_red());
    assert!(!second.is_green());
    let lime = AllChannelMeasurement { red: 100, green: 200, blue: 50, clear: 350 };
    let third = tracker.process(lime, us(11_000));
    assert_eq!((third.h, third.s, third.v), (100, 191, 200));
    assert!(third.is_green());
    assert_eq!(third.not_red_for, us(22_000));
    assert_eq!(third.last_green_for, us(11_000));
    assert!(third.detect_good_cross());
    let fourth = tracker.process(grey, us(2_000));
    assert_eq!(fourth.h, 65535);
    assert_eq!((fourth.s, fourth.v), (0, 100));
    assert!(!fourth.is_green());
    assert_eq!(fourth.dt, us(2_000));
}

#[test]
fn channels_are_little_endian() {
    assert_eq!(channel_value(0x34, 0x12), 0x1234);
    assert_eq!(channel_value(0xff, 0xff), 0xffff);
    assert_eq!(channel_value(0x00, 0x80), 0x8000);
    assert_eq!(
        all_channels(&[1, 0, 2, 0, 0, 3, 0xff, 0xff]),
        AllChannelMeasurement { clear: 1, red: 2, green: 0x300, blue: 0xffff }
    );
}

#[test]
fn commands_carry_the_command_bit() {
    assert_eq!((DEVICE_ADDRESS, CMD, CMD_AUTO_INC, RGBC_VALID), (0x29, 0x80, 0x20, 0x01));
    assert_eq!(register_command(REGISTER_STATUS), 0x93);
    assert_eq!(register_command(REGISTER_ID), 0x92);
    assert_eq!(registers_command(REGISTER_CDATA), 0xb4);
    assert_eq!(registers_command(REGISTER_RDATA), 0xb6);
    assert_eq!(registers_command(REGISTER_GDATA), 0xb8);
    assert_eq!(registers_command(REGISTER_BDATA), 0xba);
    assert_eq!(register_command(REGISTER_STATUS), CMD | REGISTER_STATUS);
    assert_eq!(registers_command(REGISTER_CDATA), CMD | CMD_AUTO_INC | REGISTER_CDATA);
}

#[test]
fn the_status_tells_when_a_measurement_is_complete() {
    assert!(is_rgbc_status_valid(0x01));
    assert!(is_rgbc_status_valid(0x11));
    assert!(!is_rgbc_status_valid(0x10));
    assert!(!is_rgbc_status_valid(0x00));
    assert_eq!(is_rgbc_status_valid(0xfe), (0xfeu8 & RGBC_VALID) != 0);
}
