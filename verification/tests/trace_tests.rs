use countryman::angle::Angle;
use countryman::imu::ImuData;
use countryman::race::{BackSteering, RouteTarget};
use countryman::time::{Duration, Instant};
use countryman::trace::{TraceCommand, TraceData, TraceEvent, TRACE_CAPACITY, TRACE_EVENTS};

fn event(speed: i16, dt_us: u32) -> TraceEvent {
    let mut event = TraceEvent::empty();
    event.speed = speed;
    event.dt_us = dt_us;
    event
}

#[test]
fn the_ring_keeps_one_slot_free() {
    assert_eq!(TRACE_EVENTS, 3000);
    assert_eq!(TRACE_CAPACITY, 2999);
}

#[test]
fn an_empty_event_holds_nothing() {
    let empty = TraceEvent::empty();
    assert_eq!(empty.absolute_heading.value(), 0);
    assert_eq!(empty.track_heading.value(), 0);
    assert_eq!(empty.steer.value(), 0);
    assert_eq!(empty.speed, 0);
    assert_eq!(empty.target.value(), 0);
    assert!(!empty.has_back_panic && !empty.has_target && !empty.target_back);
    assert_eq!(empty.remaining_back_panic_ms, 0);
    assert_eq!(empty.remaining_target_ms, 0);
    assert_eq!(empty.stillness_ms, 0);
    assert_eq!(empty.dt_us, 0);
}

#[test]
fn an_event_records_a_tick() {
    let mut sample = ImuData::init(Instant::from_micros(5));
    sample.yaw = 12_345;
    sample.pitch = -678;
    sample.roll = 4_599;
    sample.forward = 11;
    sample.side = -22;
    sample.vertical = 33;
    sample.stillness = Some(Duration::from_micros(1_234_567));
    let back = Some(BackSteering {
        remaining_time: Duration::from_micros(99_999),
        steer: Angle::from(-20),
    });
    let route = Some(RouteTarget {
        remaining_time: Duration::from_millis(750),
        go_back: true,
        was_still: false,
        start: Angle::from(10),
        target: Angle::from(-170),
    });
    let event = TraceEvent::new(
        Angle::from(100),
        Angle::from(-80),
        &sample,
        true,
        &back,
        &route,
        Angle::from(35),
        -5000,
        Duration::from_micros(10_500),
    );
    assert_eq!(event.absolute_heading.value(), 100);
    assert_eq!(event.track_heading.value(), -80);
    assert_eq!(event.steer.value(), 35);
    assert_eq!(event.speed, -5000);
    assert_eq!(event.roll.value(), 45);
    assert_eq!(event.pitch.value(), -6);
    assert_eq!(event.yaw.value(), 123);
    assert_eq!(event.forward, 11);
    assert_eq!(event.side, -22);
    assert_eq!(event.vertical, 33);
    assert!(event.has_back_panic);
    assert_eq!(event.remaining_back_panic_ms, 99);
    assert!(event.has_target);
    assert_eq!(event.remaining_target_ms, 750);
    assert_eq!(event.target.value(), -170);
    assert!(event.target_back);
    assert_eq!(event.stillness_ms, 1234);
    assert_eq!(event.dt_us, 10_500);
}

#[test]
fn an_event_without_reverse_or_turn_records_nothing_of_them() {
    let sample = ImuData::init(Instant::from_micros(0));
    let event = TraceEvent::new(
        Angle::zero(),
        Angle::zero(),
        &sample,
        false,
        &None,
        &None,
        Angle::zero(),
        3900,
        Duration::from_micros(100),
    );
    assert!(!event.has_back_panic);
    assert_eq!(event.remaining_back_panic_ms, 0);
    assert!(!event.has_target);
    assert_eq!(event.remaining_target_ms, 0);
    assert_eq!(event.target.value(), 0);
    assert!(!event.target_back);
    assert_eq!(event.stillness_ms, 0);
    assert_eq!(event.speed, 3900);
}

#[test]
fn an_event_keeps_the_low_bits_of_long_times() {
    let mut sample = ImuData::init(Instant::from_micros(0));
    sample.stillness = Some(Duration::from_millis(0x1_0000_0007));
    let event = TraceEvent::new(
        Angle::zero(),
        Angle::zero(),
        &sample,
        false,
        &None,
        &None,
        Angle::zero(),
        0,
        Duration::from_micros(0x2_0000_0009),
    );
    assert_eq!(event.stillness_ms, 7);
    assert_eq!(event.dt_us, 9);
}

#[test]
fn a_new_record_is_empty() {
    let data = TraceData::new();
    assert_eq!(data.len(), 0);
    assert!(data.is_empty());
    assert_eq!(data.start(), 0);
    assert_eq!(data.end(), 0);
    assert!(data.replay().is_empty());
}

#[test]
fn push_appends_in_order() {
    let mut data = TraceData::new();
    data.push(event(1, 10));
    data.push(event(2, 20));
    data.push(event(3, 30));
    assert_eq!(data.len(), 3);
    assert!(!data.is_empty());
    assert_eq!(data.start(), 0);
    assert_eq!(data.end(), 3);
    assert_eq!(data.get(0).speed, 1);
    assert_eq!(data.get(1).speed, 2);
    assert_eq!(data.get(2).speed, 3);
}

#[test]
fn a_full_record_keeps_every_event() {
    let mut data = TraceData::new();
    let mut pushed: i16 = 0;
    while (pushed as usize) < TRACE_CAPACITY {
        data.push(event(pushed, 1));
        pushed += 1;
    }
    assert_eq!(data.len(), TRACE_CAPACITY);
    assert_eq!(data.start(), 0);
    assert_eq!(data.end(), 2999);
    assert_eq!(data.get(0).speed, 0);
    assert_eq!(data.get(2998).speed, 2998);
}

#[test]
fn one_event_more_than_fits_drops_the_oldest() {
    let mut data = TraceData::new();
    let mut pushed: i16 = 0;
    while (pushed as usize) < TRACE_CAPACITY + 1 {
        data.push(event(pushed, 1));
        pushed += 1;
    }
    assert_eq!(data.len(), TRACE_CAPACITY);
    assert_eq!(data.start(), 1);
    assert_eq!(data.end(), 0);
    let mut index = 0;
    while index < TRACE_CAPACITY {
        assert_eq!(data.get(index).speed, index as i16 + 1);
        index += 1;
    }
}

#[test]
fn the_ring_goes_round_more_than_once() {
    let mut data = TraceData::new();
    let mut pushed: i32 = 0;
    while pushed < 7000 {
        data.push(event((pushed % 30000) as i16, 1));
        pushed += 1;
    }
    assert_eq!(data.len(), TRACE_CAPACITY);
    assert_eq!(data.get(0).speed, 7000 - 2999);
    assert_eq!(data.get(2998).speed, 6999);
    assert_eq!(data.start(), (7000 - 2999) % 3000);
    assert_eq!(data.end(), 7000 % 3000);
}

#[test]
fn clear_forgets_every_event() {
    let mut data = TraceData::new();
    data.push(event(1, 10));
    data.push(event(2, 20));
    data.clear();
    assert_eq!(data.len(), 0);
    assert!(data.is_empty());
    assert_eq!(data.start(), 0);
    assert_eq!(data.end(), 0);
    data.push(event(9, 90));
    assert_eq!(data.len(), 1);
    assert_eq!(data.get(0).speed, 9);
}

#[test]
fn replay_sums_the_time_steps() {
    let mut data = TraceData::new();
    data.push(event(1, 10));
    data.push(event(2, 20));
    data.push(event(3, 30));
    let lines = data.replay();
    assert_eq!(lines.len(), 3);
    assert_eq!((lines[0].slot, lines[0].elapsed.as_micros(), lines[0].event.speed), (0, 0, 1));
    assert_eq!((lines[1].slot, lines[1].elapsed.as_micros(), lines[1].event.speed), (1, 10, 2));
    assert_eq!((lines[2].slot, lines[2].elapsed.as_micros(), lines[2].event.speed), (2, 30, 3));
}

#[test]
fn replay_follows_the_ring_round() {
    let mut data = TraceData::new();
    let mut pushed: i32 = 0;
    while pushed < 3001 {
        data.push(event(pushed as i16, 2));
        pushed += 1;
    }
    let lines = data.replay();
    assert_eq!(lines.len(), 2999);
    assert_eq!(lines[0].slot, 2);
    assert_eq!(lines[0].event.speed, 2);
    assert_eq!(lines[2997].slot, 2999);
    assert_eq!(lines[2998].slot, 0);
    assert_eq!(lines[2998].event.speed, 3000);
    assert_eq!(lines[2998].elapsed.as_micros(), 2 * 2998);
}

#[test]
fn trace_commands_carry_events() {
    let pushed = TraceCommand::Push(event(5, 50));
    assert_ne!(pushed, TraceCommand::Clear);
    assert_ne!(TraceCommand::Print, TraceCommand::Clear);
    match pushed {
        TraceCommand::Push(e) => assert_eq!(e.speed, 5),
        _ => panic!("a push carries its event"),
    }
}
