use countryman::angle::Angle;

#[test]
fn from_folds_whole_turns() {
    assert_eq!(Angle::from(0).value(), 0);
    assert_eq!(Angle::from(180).value(), 180);
    assert_eq!(Angle::from(181).value(), -179);
    assert_eq!(Angle::from(-179).value(), -179);
    assert_eq!(Angle::from(-180).value(), 180);
    assert_eq!(Angle::from(540).value(), 180);
    assert_eq!(Angle::from(-900).value(), 180);
    assert_eq!(Angle::from(725).value(), 5);
    assert_eq!(Angle::from(-725).value(), -5);
}

#[test]
fn from_stays_in_the_half_open_range() {
    let mut v: i32 = -2000;
    while v <= 2000 {
        let degrees = Angle::from(v).value();
        assert!(degrees > -180 && degrees <= 180, "{} gave {}", v, degrees);
        v += 1;
    }
}

#[test]
fn from_does_not_see_whole_turns() {
    let mut v: i32 = -400;
    while v <= 400 {
        let mut k: i32 = -3;
        while k <= 3 {
            assert_eq!(Angle::from(v + 360 * k).value(), Angle::from(v).value());
            k += 1;
        }
        v += 7;
    }
}

#[test]
fn from_handles_the_ends_of_the_integer_range() {
    let top = Angle::from(i32::MAX).value();
    let bottom = Angle::from(i32::MIN).value();
    assert_eq!(top, 127);
    assert_eq!(bottom, -128);
}

#[test]
fn from_imu_value_divides_by_a_hundred_and_clamps() {
    assert_eq!(Angle::from_imu_value(0).value(), 0);
    assert_eq!(Angle::from_imu_value(4500).value(), 45);
    assert_eq!(Angle::from_imu_value(4599).value(), 45);
    assert_eq!(Angle::from_imu_value(-150).value(), -1);
    assert_eq!(Angle::from_imu_value(-199).value(), -1);
    assert_eq!(Angle::from_imu_value(-99).value(), 0);
    assert_eq!(Angle::from_imu_value(18000).value(), 180);
    assert_eq!(Angle::from_imu_value(18100).value(), 180);
    assert_eq!(Angle::from_imu_value(i16::MAX).value(), 180);
    assert_eq!(Angle::from_imu_value(-18000).value(), -180);
    assert_eq!(Angle::from_imu_value(i16::MIN).value(), -180);
}

#[test]
fn abs_gives_the_magnitude() {
    assert_eq!(Angle::from(-35).abs().value(), 35);
    assert_eq!(Angle::from(35).abs().value(), 35);
    assert_eq!(Angle::from(0).abs().value(), 0);
    assert_eq!(Angle::from_imu_value(-18000).abs().value(), 180);
}

#[test]
fn sum_and_difference_are_folded() {
    assert_eq!((Angle::from(170) + Angle::from(20)).value(), -170);
    assert_eq!((Angle::from(-170) - Angle::from(20)).value(), 170);
    assert_eq!((Angle::from(90) + Angle::from(90)).value(), 180);
    assert_eq!((Angle::from(-90) - Angle::from(90)).value(), 180);
    assert_eq!((Angle::from(10) - Angle::from(30)).value(), -20);
    assert_eq!((Angle::back() + Angle::back()).value(), 0);
}

#[test]
fn negation_is_folded() {
    assert_eq!((-Angle::from(35)).value(), -35);
    assert_eq!((-Angle::from(-35)).value(), 35);
    assert_eq!((-Angle::back()).value(), 180);
    assert_eq!((-Angle::from_imu_value(-18000)).value(), 180);
    assert_eq!((-Angle::zero()).value(), 0);
}

#[test]
fn angles_are_ordered_by_degrees() {
    assert!(Angle::from(-35) < Angle::from(35));
    assert!(Angle::from(35) > Angle::zero());
    assert!(Angle::from(10) <= Angle::from(10));
    assert!(Angle::from(10) == Angle::from(370));
    assert!(Angle::from(10) != Angle::from(11));
    assert_eq!(Angle::from(50).min(Angle::max_steer()).max(Angle::min_steer()).value(), 35);
}

#[test]
fn clamp_to_limits_to_the_range() {
    let lo = Angle::min_steer();
    let hi = Angle::max_steer();
    assert_eq!(Angle::from(60).clamp_to(lo, hi).value(), 35);
    assert_eq!(Angle::from(-60).clamp_to(lo, hi).value(), -35);
    assert_eq!(Angle::from(12).clamp_to(lo, hi).value(), 12);
    assert_eq!(Angle::from(35).clamp_to(lo, hi).value(), 35);
    assert_eq!(Angle::from(-35).clamp_to(lo, hi).value(), -35);
}

#[test]
fn named_angles_have_their_degrees() {
    assert_eq!(Angle::zero().value(), 0);
    assert_eq!(Angle::r90().value(), 90);
    assert_eq!(Angle::l90().value(), -90);
    assert_eq!(Angle::back().value(), 180);
    assert_eq!(Angle::l45().value(), -45);
    assert_eq!(Angle::r45().value(), 45);
    assert_eq!(Angle::r100().value(), 100);
    assert_eq!(Angle::l100().value(), -100);
    assert_eq!(Angle::small().value(), 5);
    assert_eq!(Angle::sll().value(), -60);
    assert_eq!(Angle::sl().value(), -30);
    assert_eq!(Angle::sc().value(), 0);
    assert_eq!(Angle::sr().value(), 30);
    assert_eq!(Angle::srr().value(), 60);
    assert_eq!(Angle::shalf().value(), 15);
    assert_eq!(Angle::tilt_alert().value(), 45);
    assert_eq!(Angle::max_steer().value(), 35);
    assert_eq!(Angle::min_steer().value(), -35);
}

#[test]
fn angles_convert_to_integers() {
    assert_eq!(i32::from(Angle::from(-170)), -170);
    assert_eq!(i16::from(Angle::from(170)), 170);
    let degrees: i32 = Angle::from(45).into();
    assert_eq!(degrees, 45);
    let short: i16 = Angle::from_imu_value(-18000).into();
    assert_eq!(short, -180);
}

#[test]
fn angles_add_and_subtract_in_place() {
    let mut angle = Angle::from(170);
    angle += Angle::from(20);
    assert_eq!(angle.value(), -170);
    angle -= Angle::from(10);
    assert_eq!(angle.value(), 180);
    angle -= Angle::from(180);
    assert_eq!(angle.value(), 0);
}
