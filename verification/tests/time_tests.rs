use countryman::time::{Duration, Instant};

#[test]
fn spans_convert_between_units() {
    assert_eq!(Duration::from_micros(1500).as_micros(), 1500);
    assert_eq!(Duration::from_millis(750).as_micros(), 750_000);
    assert_eq!(Duration::from_secs(5).as_micros(), 5_000_000);
    assert_eq!(Duration::from_micros(1999).as_millis(), 1);
    assert_eq!(Duration::from_micros(999).as_millis(), 0);
    assert_eq!(Duration::from_millis(3000).as_millis(), 3000);
}

#[test]
fn spans_saturate() {
    assert_eq!(Duration::from_millis(u64::MAX).as_micros(), u64::MAX);
    assert_eq!(Duration::from_millis(u64::MAX / 1000).as_micros(), (u64::MAX / 1000) * 1000);
    assert_eq!(Duration::from_millis(u64::MAX / 1000 + 1).as_micros(), u64::MAX);
    assert_eq!(Duration::from_secs(u64::MAX / 1_000_000 + 1).as_micros(), u64::MAX);
    let long = Duration::from_micros(u64::MAX - 5);
    assert_eq!(long.saturating_add(Duration::from_micros(5)).as_micros(), u64::MAX);
    assert_eq!(long.saturating_add(Duration::from_micros(6)).as_micros(), u64::MAX);
    assert_eq!(long.saturating_add(Duration::from_micros(4)).as_micros(), u64::MAX - 1);
}

#[test]
fn spans_add_and_subtract() {
    let a = Duration::from_micros(700);
    let b = Duration::from_micros(300);
    assert_eq!(a.saturating_add(b).as_micros(), 1000);
    assert_eq!(a.saturating_sub(b).as_micros(), 400);
    assert_eq!(b.saturating_sub(a).as_micros(), 0);
    assert_eq!(a.saturating_sub(a).as_micros(), 0);
}

#[test]
fn spans_are_ordered_by_length() {
    let a = Duration::from_micros(700);
    let b = Duration::from_micros(300);
    assert!(b < a);
    assert!(a >= b);
    assert!(a == Duration::from_micros(700));
    assert_eq!(a.at_least(b).as_micros(), 700);
    assert_eq!(b.at_least(a).as_micros(), 700);
    assert_eq!(a.at_most(b).as_micros(), 300);
    assert_eq!(b.at_most(a).as_micros(), 300);
    assert_eq!(a.max(b), a);
}

#[test]
fn instants_measure_spans() {
    let early = Instant::from_micros(1_000);
    let late = Instant::from_micros(4_500);
    assert_eq!(late.duration_since(early).as_micros(), 3_500);
    assert_eq!(early.duration_since(late).as_micros(), 0);
    assert_eq!(late.as_micros(), 4_500);
    assert!(early < late);
}
