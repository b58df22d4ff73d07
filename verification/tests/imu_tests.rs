use countryman::imu::{
    Bno080Decoder, Bno080RawRvcData, ExpectedByte, ImuData, ImuStillnessDetector, StillnessMemory,
    HEADER_BYTE,
};
use countryman::time::{Duration, Instant};

fn frame(counter: u8, words: [i16; 6], unused: [u8; 3]) -> Vec<u8> {
    let mut bytes = vec![0xaa, 0xaa, counter];
    for word in words.iter() {
        let bits = *word as u16;
        bytes.push((bits & 0xff) as u8);
        bytes.push((bits >> 8) as u8);
    }
    bytes.extend_from_slice(&unused);
    let mut sum: u8 = 0;
    for byte in bytes[2..].iter() {
        sum = sum.wrapping_add(*byte);
    }
    bytes.push(sum);
    bytes
}

fn feed(decoder: &mut Bno080Decoder, bytes: &[u8]) -> Vec<Bno080RawRvcData> {
    let mut frames = Vec::new();
    for byte in bytes.iter() {
        if let Some(data) = decoder.update(*byte) {
            frames.push(data);
        }
    }
    frames
}

#[test]
fn a_new_decoder_waits_for_a_header() {
    let decoder = Bno080Decoder::init();
    assert_eq!(decoder.expected, ExpectedByte::Header1);
    assert_eq!(decoder.checksum, 0);
    assert_eq!(decoder.lsb, 0);
    assert_eq!(decoder.current.yaw, 0);
    assert_eq!(decoder, Bno080Decoder::default());
    assert_eq!(HEADER_BYTE, 0xaa);
}

#[test]
fn a_whole_frame_is_decoded() {
    let mut decoder = Bno080Decoder::init();
    let bytes = frame(7, [1234, -567, 18000, -150, 149, 1000], [1, 2, 3]);
    assert_eq!(bytes.len(), 19);
    let frames = feed(&mut decoder, &bytes);
    assert_eq!(
        frames,
        vec![Bno080RawRvcData {
            yaw: 1234,
            pitch: -567,
            roll: 18000,
            side: -150,
            forward: 149,
            vertical: 1000,
            counter: 7,
        }]
    );
    assert_eq!(decoder.expected, ExpectedByte::Header1);
}

#[test]
fn only_the_last_byte_of_a_frame_yields_it() {
    let mut decoder = Bno080Decoder::init();
    let bytes = frame(1, [1, 2, 3, 4, 5, 6], [0, 0, 0]);
    for (index, byte) in bytes.iter().enumerate() {
        let out = decoder.update(*byte);
        assert_eq!(out.is_some(), index == 18);
    }
}

#[test]
fn frames_follow_each_other() {
    let mut decoder = Bno080Decoder::init();
    let mut bytes = frame(1, [100, 200, 300, 400, 500, 600], [9, 9, 9]);
    bytes.extend(frame(2, [-1, -2, -3, -4, -5, -6], [0, 0, 0]));
    let frames = feed(&mut decoder, &bytes);
    assert_eq!(frames.len(), 2);
    assert_eq!(frames[0].counter, 1);
    assert_eq!(frames[0].vertical, 600);
    assert_eq!(frames[1].counter, 2);
    assert_eq!(frames[1].yaw, -1);
    assert_eq!(frames[1].vertical, -6);
}

#[test]
fn bytes_before_the_header_are_skipped() {
    let mut decoder = Bno080Decoder::init();
    let mut bytes = vec![1u8, 2, 3, 0xaa, 5];
    bytes.extend(frame(3, [10, 20, 30, 40, 50, 60], [0, 0, 0]));
    let frames = feed(&mut decoder, &bytes);
    assert_eq!(frames.len(), 1);
    assert_eq!(frames[0].counter, 3);
    assert_eq!(frames[0].yaw, 10);
}

#[test]
fn words_are_little_endian_and_signed() {
    let mut decoder = Bno080Decoder::init();
    decoder.lsb = 0xff;
    assert_eq!(decoder.value(0xff), -1);
    assert_eq!(decoder.value(0x7f), 0x7fff);
    assert_eq!(decoder.value(0x80), -32513);
    assert_eq!(decoder.value(0x00), 255);
    decoder.lsb = 0x00;
    assert_eq!(decoder.value(0x80), i16::MIN);
    decoder.lsb = 0x34;
    assert_eq!(decoder.value(0x12), 0x1234);
}

#[test]
fn a_header_byte_in_place_of_a_low_byte_starts_a_new_frame() {
    let mut decoder = Bno080Decoder::init();
    feed(&mut decoder, &[0xaa, 0xaa, 9]);
    assert_eq!(decoder.expected, ExpectedByte::YavLsb);
    assert_eq!(decoder.update(0xaa), None);
    assert_eq!(decoder.expected, ExpectedByte::Header2);
    assert_eq!(decoder.update(0xaa), None);
    assert_eq!(decoder.expected, ExpectedByte::Counter);
}

#[test]
fn a_header_byte_in_place_of_a_high_byte_is_data() {
    let mut decoder = Bno080Decoder::init();
    feed(&mut decoder, &[0xaa, 0xaa, 9, 0x01]);
    assert_eq!(decoder.expected, ExpectedByte::YavMsb);
    assert_eq!(decoder.update(0xaa), None);
    assert_eq!(decoder.expected, ExpectedByte::PitchLsb);
    assert_eq!(decoder.current.yaw, 0xaa01u16 as i16);
}

#[test]
fn a_header_byte_in_place_of_an_unused_byte_starts_a_new_frame() {
    let mut decoder = Bno080Decoder::init();
    let bytes = frame(1, [1, 2, 3, 4, 5, 6], [0, 0, 0]);
    feed(&mut decoder, &bytes[..15]);
    assert_eq!(decoder.expected, ExpectedByte::Unused1);
    assert!(decoder.process_unused(5));
    assert_eq!(decoder.expected, ExpectedByte::Unused1);
    assert!(!decoder.process_unused(0xaa));
    assert_eq!(decoder.expected, ExpectedByte::Header2);
}

#[test]
fn the_checksum_is_summed_from_the_counter_on() {
    let mut decoder = Bno080Decoder::init();
    let bytes = frame(200, [30000, -30000, 255, 256, -1, 1], [250, 251, 252]);
    feed(&mut decoder, &bytes[..18]);
    assert_eq!(decoder.expected, ExpectedByte::Checksum);
    assert_eq!(decoder.checksum, bytes[18]);
    assert!(decoder.checksum_matches(bytes[18]));
    assert!(!decoder.checksum_matches(bytes[18].wrapping_add(1)));
}

#[test]
fn a_frame_with_a_wrong_checksum_is_still_handed_out() {
    let mut decoder = Bno080Decoder::init();
    let mut bytes = frame(4, [1, 2, 3, 4, 5, 6], [0, 0, 0]);
    bytes[18] = bytes[18].wrapping_add(1);
    let frames = feed(&mut decoder, &bytes);
    assert_eq!(frames.len(), 1);
    assert_eq!(frames[0].counter, 4);
    assert_eq!(decoder.expected, ExpectedByte::Header1);
}

#[test]
fn a_single_header_byte_is_not_enough() {
    let mut decoder = Bno080Decoder::init();
    assert_eq!(decoder.update(0xaa), None);
    assert_eq!(decoder.expected, ExpectedByte::Header2);
    assert_eq!(decoder.update(0x01), None);
    assert_eq!(decoder.expected, ExpectedByte::Header1);
}

#[test]
fn handle_lsb_and_process_msb_sum_the_bytes() {
    let mut decoder = Bno080Decoder::init();
    decoder.checksum = 250;
    decoder.handle_lsb(10, ExpectedByte::PitchMsb);
    assert_eq!(decoder.lsb, 10);
    assert_eq!(decoder.checksum, 4);
    assert_eq!(decoder.expected, ExpectedByte::PitchMsb);
    let value = decoder.process_msb(2);
    assert_eq!(value, 522);
    assert_eq!(decoder.checksum, 6);
    assert_eq!(decoder.expected, ExpectedByte::PitchMsb);
}

#[test]
fn a_sample_starts_empty() {
    let data = ImuData::init(Instant::from_micros(77));
    assert_eq!((data.yaw, data.pitch, data.roll), (0, 0, 0));
    assert_eq!((data.side, data.forward, data.vertical), (0, 0, 0));
    assert_eq!(data.timestamp.as_micros(), 77);
    assert_eq!(data.dt.as_micros(), 100);
    assert_eq!(data.stillness, None);
}

#[test]
fn a_sample_takes_over_a_frame() {
    let mut data = ImuData::init(Instant::from_micros(0));
    let raw = Bno080RawRvcData {
        yaw: 1,
        pitch: 2,
        roll: 3,
        side: 4,
        forward: 5,
        vertical: 6,
        counter: 7,
    };
    data.update(
        &raw,
        Instant::from_micros(5000),
        Duration::from_micros(2500),
        Some(Duration::from_millis(40)),
    );
    assert_eq!((data.yaw, data.pitch, data.roll), (1, 2, 3));
    assert_eq!((data.side, data.forward, data.vertical), (4, 5, 6));
    assert_eq!(data.timestamp.as_micros(), 5000);
    assert_eq!(data.dt.as_micros(), 2500);
    assert_eq!(data.stillness, Some(Duration::from_millis(40)));
    data.update(&raw, Instant::from_micros(5000), Duration::from_micros(0), None);
    assert_eq!(data.dt.as_micros(), 100);
    assert_eq!(data.stillness, None);
}

#[test]
fn a_window_sums_time_and_stillness() {
    let mut memory = StillnessMemory::new();
    assert!(!memory.ended());
    assert!(!memory.is_still());
    memory.update(Duration::from_millis(200), true);
    memory.update(Duration::from_millis(149), false);
    memory.update(Duration::from_millis(150), true);
    assert_eq!(memory.time_window.as_micros(), 499_000);
    assert_eq!(memory.cumulative_stillness.as_micros(), 350_000);
    assert!(!memory.ended());
    assert!(memory.is_still());
    memory.update(Duration::from_millis(1), false);
    assert!(memory.ended());
    let mut restless = StillnessMemory::new();
    restless.update(Duration::from_micros(349_999), true);
    assert!(!restless.is_still());
}

fn raw(side: i16, forward: i16) -> Bno080RawRvcData {
    Bno080RawRvcData { yaw: 0, pitch: 0, roll: 0, side, forward, vertical: 1000, counter: 0 }
}

#[test]
fn the_detector_confirms_stillness_at_the_end_of_a_window() {
    let mut detector = ImuStillnessDetector::new();
    let step = Duration::from_millis(100);
    detector.process_data(&raw(500, 500), Instant::from_micros(0), step);
    assert_eq!(detector.memory, None);
    detector.process_data(&raw(10, 500), Instant::from_micros(100_000), step);
    assert_eq!(detector.memory, Some(StillnessMemory::new()));
    let mut now = 200_000;
    for _ in 0..4 {
        detector.process_data(&raw(149, 500), Instant::from_micros(now), step);
        assert!(detector.memory.is_some());
        assert_eq!(detector.last_stillness, None);
        now += 100_000;
    }
    detector.process_data(&raw(-149, 500), Instant::from_micros(now), step);
    assert_eq!(detector.memory, None);
    assert_eq!(detector.last_stillness, Some(Instant::from_micros(now)));
    assert!(detector.is_still(Instant::from_micros(now)));
    assert!(detector.is_still(Instant::from_micros(now + 49_999)));
    assert!(!detector.is_still(Instant::from_micros(now + 50_000)));
}

#[test]
fn the_detector_drops_a_restless_window() {
    let mut detector = ImuStillnessDetector::new();
    let step = Duration::from_millis(100);
    detector.process_data(&raw(0, 0), Instant::from_micros(0), step);
    let mut now = 100_000;
    for _ in 0..5 {
        detector.process_data(&raw(150, -150), Instant::from_micros(now), step);
        now += 100_000;
    }
    assert_eq!(detector.memory, None);
    assert_eq!(detector.last_stillness, None);
    assert!(!detector.is_still(Instant::from_micros(now)));
}

#[test]
fn either_axis_at_rest_counts_as_still() {
    for (side, forward, still) in
        [(149i16, 9000i16, true), (9000, 149, true), (150, 150, false), (-149, -9000, true), (i16::MIN, i16::MIN, false)]
    {
        let mut detector = ImuStillnessDetector::new();
        detector.process_data(&raw(side, forward), Instant::from_micros(0), Duration::from_micros(1));
        assert_eq!(detector.memory.is_some(), still);
    }
}

#[test]
fn the_detector_tells_the_stillness_of_the_window_under_way() {
    let mut detector = ImuStillnessDetector::new();
    assert_eq!(detector.stillness(), None);
    let step = Duration::from_millis(100);
    detector.process_data(&raw(0, 0), Instant::from_micros(0), step);
    assert_eq!(detector.stillness(), Some(Duration::from_micros(0)));
    detector.process_data(&raw(0, 0), Instant::from_micros(100_000), step);
    detector.process_data(&raw(900, 900), Instant::from_micros(200_000), step);
    detector.process_data(&raw(0, 0), Instant::from_micros(300_000), step);
    assert_eq!(detector.stillness(), Some(Duration::from_millis(200)));
    detector.process_data(&raw(0, 0), Instant::from_micros(400_000), step);
    detector.process_data(&raw(0, 0), Instant::from_micros(500_000), step);
    assert_eq!(detector.stillness(), None);
}
