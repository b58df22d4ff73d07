//! The inertial unit: decoding its serial frames, and telling from its
//! readings whether the vehicle stands still.

use crate::arith::abs_int;
use crate::time::{Duration, Instant};
use vstd::prelude::*;

verus! {

/// The byte that opens a frame, sent twice.
pub const HEADER_BYTE: u8 = 0xaa;

/// Sideways acceleration under which the vehicle may be standing still.
pub const STILLNESS_SIDE: i16 = 150;

/// Forward acceleration under which the vehicle may be standing still.
pub const STILLNESS_FORWARD: i16 = 150;

/// Microseconds for which a confirmed stillness is held to last.
pub const STILL_FOR_MICROS: u64 = 50_000;

/// Microseconds that one observation window lasts.
pub const STILLNESS_TIME_WINDOW_MICROS: u64 = 500_000;

/// Microseconds of stillness within one window that confirm it.
pub const STILLNESS_TIME_THRESHOLD_MICROS: u64 = 350_000;

/// Shortest time step, in microseconds, that a sample is stamped with.
pub const DT_MIN_MICROS: u64 = 100;

/// One decoded frame: angles in hundredths of a degree, accelerations in
/// thousandths of the standard gravity, and the frame counter.
#[derive(Clone, Copy, Debug, PartialEq, Eq, Structural)]
pub struct Bno080RawRvcData {
    pub yaw: i16,
    pub pitch: i16,
    pub roll: i16,
    pub side: i16,
    pub forward: i16,
    pub vertical: i16,
    pub counter: u8,
}

/// The latest sample of the inertial unit as the control loop sees it.
#[derive(Clone, Copy, Debug, PartialEq, Eq, Structural)]
pub struct ImuData {
    pub yaw: i16,
    pub pitch: i16,
    pub roll: i16,
    pub side: i16,
    pub forward: i16,
    pub vertical: i16,
    pub timestamp: Instant,
    pub dt: Duration,
    pub stillness: Option<Duration>,
}

impl ImuData {
    /// The sample before anything was received, stamped `now`.
    pub fn init(now: Instant) -> (data: ImuData)
        ensures
            data == (ImuData {
                yaw: 0,
                pitch: 0,
                roll: 0,
                side: 0,
                forward: 0,
                vertical: 0,
                timestamp: now,
                dt: Duration { micros: DT_MIN_MICROS },
                stillness: None,
            }),
    {
        ImuData {
            yaw: 0,
            pitch: 0,
            roll: 0,
            side: 0,
            forward: 0,
            vertical: 0,
            timestamp: now,
            dt: Duration::from_micros(DT_MIN_MICROS),
            stillness: None,
        }
    }

    /// Takes over a decoded frame received at `now`, `dt` after the one
    /// before. A time step of nothing counts as the shortest one.
    pub fn update(
        &mut self,
        data: &Bno080RawRvcData,
        now: Instant,
        dt: Duration,
        stillness: Option<Duration>,
    )
        ensures
            *final(self) == (ImuData {
                yaw: data.yaw,
                pitch: data.pitch,
                roll: data.roll,
                side: data.side,
                forward: data.forward,
                vertical: data.vertical,
                timestamp: now,
                dt: if dt.micros == 0 {
                    Duration { micros: DT_MIN_MICROS }
                } else {
                    dt
                },
                stillness,
            }),
    {
        let dt = if dt.as_micros() == 0 {
            Duration::from_micros(DT_MIN_MICROS)
        } else {
            dt
        };
        self.yaw = data.yaw;
        self.pitch = data.pitch;
        self.roll = data.roll;
        self.side = data.side;
        self.forward = data.forward;
        self.vertical = data.vertical;
        self.stillness = stillness;
        self.timestamp = now;
        self.dt = dt;
    }
}

/// What one observation window has seen so far.
#[derive(Clone, Copy, Debug, PartialEq, Eq, Structural)]
pub struct StillnessMemory {
    pub time_window: Duration,
    pub cumulative_stillness: Duration,
}

impl StillnessMemory {
    /// The memory after a further `dt`, still or not.
    pub open spec fn spec_update(self, dt: Duration, is_still: bool) -> StillnessMemory {
        StillnessMemory {
            time_window: self.time_window.spec_saturating_add(dt),
            cumulative_stillness: if is_still {
                self.cumulative_stillness.spec_saturating_add(dt)
            } else {
                self.cumulative_stillness
            },
        }
    }

    /// Whether the window has run its full length.
    pub open spec fn spec_ended(self) -> bool {
        self.time_window.micros >= STILLNESS_TIME_WINDOW_MICROS
    }

    /// Whether the window has seen enough stillness to confirm it.
    pub open spec fn spec_is_still(self) -> bool {
        self.cumulative_stillness.micros >= STILLNESS_TIME_THRESHOLD_MICROS
    }

    /// A window that has seen nothing yet.
    pub fn new() -> (memory: StillnessMemory)
        ensures
            memory.time_window.micros == 0,
            memory.cumulative_stillness.micros == 0,
    {
        StillnessMemory {
            time_window: Duration::from_micros(0),
            cumulative_stillness: Duration::from_micros(0),
        }
    }

    /// Whether the window has run its full length.
    pub fn ended(&self) -> (ended: bool)
        ensures
            ended == self.spec_ended(),
    {
        self.time_window.micros >= STILLNESS_TIME_WINDOW_MICROS
    }

    /// Takes in a further `dt`, still or not.
    pub fn update(&mut self, dt: Duration, is_still: bool)
        ensures
            *final(self) == old(self).spec_update(dt, is_still),
    {
        self.time_window = self.time_window.saturating_add(dt);
        if is_still {
            self.cumulative_stillness = self.cumulative_stillness.saturating_add(dt);
        }
    }

    /// Whether the window has seen enough stillness to confirm it.
    pub fn is_still(&self) -> (still: bool)
        ensures
            still == self.spec_is_still(),
    {
        self.cumulative_stillness.micros >= STILLNESS_TIME_THRESHOLD_MICROS
    }
}

/// Watches the accelerations in windows of fixed length and remembers when
/// a window last confirmed that the vehicle stood still.
#[derive(Clone, Copy, Debug, PartialEq, Eq, Structural)]
pub struct ImuStillnessDetector {
    pub memory: Option<StillnessMemory>,
    pub last_stillness: Option<Instant>,
}

/// Whether a frame shows accelerations small enough for standing still:
/// sideways or forward under its limit.
pub open spec fn spec_frame_is_still(raw: Bno080RawRvcData) -> bool {
    abs_int(raw.side as int) < STILLNESS_SIDE || abs_int(raw.forward as int) < STILLNESS_FORWARD
}

impl ImuStillnessDetector {
    /// The detector after a frame received at `now`, `dt` after the one
    /// before: a still frame opens a window where none is open, an open
    /// window takes the frame in, and a window that has run its length
    /// closes and, if it saw enough stillness, stamps `now`.
    pub open spec fn spec_process_data(
        self,
        raw: Bno080RawRvcData,
        now: Instant,
        dt: Duration,
    ) -> ImuStillnessDetector {
        let is_still = spec_frame_is_still(raw);
        match self.memory {
            Some(memory) => {
                let seen = memory.spec_update(dt, is_still);
                if seen.spec_ended() {
                    ImuStillnessDetector {
                        memory: None,
                        last_stillness: if seen.spec_is_still() {
                            Some(now)
                        } else {
                            self.last_stillness
                        },
                    }
                } else {
                    ImuStillnessDetector { memory: Some(seen), last_stillness: self.last_stillness }
                }
            },
            None => ImuStillnessDetector {
                memory: if is_still {
                    Some(
                        StillnessMemory {
                            time_window: Duration { micros: 0 },
                            cumulative_stillness: Duration { micros: 0 },
                        },
                    )
                } else {
                    None
                },
                last_stillness: self.last_stillness,
            },
        }
    }

    /// A detector with no window open and no stillness confirmed.
    pub fn new() -> (detector: ImuStillnessDetector)
        ensures
            detector == (ImuStillnessDetector { memory: None, last_stillness: None }),
    {
        ImuStillnessDetector { memory: None, last_stillness: None }
    }

    /// Takes in a frame received at `now`, `dt` after the one before.
    pub fn process_data(&mut self, raw: &Bno080RawRvcData, now: Instant, dt: Duration)
        ensures
            *final(self) == old(self).spec_process_data(*raw, now, dt),
    {
        let side: i32 = if raw.side < 0 {
            -(raw.side as i32)
        } else {
            raw.side as i32
        };
        let forward: i32 = if raw.forward < 0 {
            -(raw.forward as i32)
        } else {
            raw.forward as i32
        };
        let is_still = side < STILLNESS_SIDE as i32 || forward < STILLNESS_FORWARD as i32;
        match self.memory {
            Some(memory) => {
                let mut memory = memory;
                memory.update(dt, is_still);
                if memory.ended() {
                    if memory.is_still() {
                        self.last_stillness = Some(now);
                    }
                    self.memory = None;
                } else {
                    self.memory = Some(memory);
                }
            },
            None => {
                if is_still {
                    self.memory = Some(StillnessMemory::new());
                }
            },
        }
    }

    /// For how long the window under way has seen the vehicle stand still;
    /// nothing where no window is open. This is the stillness that a
    /// sample of the inertial unit carries to the control loop.
    pub open spec fn spec_stillness(self) -> Option<Duration> {
        match self.memory {
            Some(memory) => Some(memory.cumulative_stillness),
            None => None,
        }
    }

    /// For how long the window under way has seen the vehicle stand still.
    pub fn stillness(&self) -> (stillness: Option<Duration>)
        ensures
            stillness == self.spec_stillness(),
    {
        match self.memory {
            Some(memory) => Some(memory.cumulative_stillness),
            None => None,
        }
    }

    /// Whether stillness was confirmed less than the holding time before `now`.
    pub fn is_still(&self, now: Instant) -> (still: bool)
        ensures
            still == (self.last_stillness matches Some(since) && (if now.micros >= since.micros {
                now.micros - since.micros
            } else {
                0
            }) < STILL_FOR_MICROS),
    {
        match self.last_stillness {
            Some(since) => now.duration_since(since).micros < STILL_FOR_MICROS,
            None => false,
        }
    }
}

/// The byte of the frame that the decoder waits for.
#[derive(Clone, Copy, Debug, PartialEq, Eq, Structural)]
pub enum ExpectedByte {
    Header1,
    Header2,
    Counter,
    YavLsb,
    YavMsb,
    PitchLsb,
    PitchMsb,
    RollLsb,
    RollMsb,
    SideLsb,
    SideMsb,
    ForwardLsb,
    ForwardMsb,
    VerticalLsb,
    VerticalMsb,
    Unused1,
    Unused2,
    Unused3,
    Checksum,
}

/// The signed number whose low byte is `lsb` and whose high byte is `msb`.
pub open spec fn spec_word(lsb: u8, msb: u8) -> i16 {
    let word = lsb + 256 * msb;
    if word >= 0x8000 {
        (word - 0x1_0000) as i16
    } else {
        word as i16
    }
}

/// `sum + byte` modulo 256.
pub open spec fn spec_checksum_add(sum: u8, byte: u8) -> u8 {
    ((sum + byte) % 256) as u8
}

/// Decoder of the inertial unit's frames, fed one byte at a time.
#[derive(Clone, Copy, Debug, PartialEq, Eq, Structural)]
pub struct Bno080Decoder {
    pub expected: ExpectedByte,
    pub current: Bno080RawRvcData,
    pub checksum: u8,
    pub lsb: u8,
}

impl Bno080Decoder {
    /// The decoder that waits for the start of a frame.
    pub open spec fn spec_init() -> Bno080Decoder {
        Bno080Decoder {
            expected: ExpectedByte::Header1,
            current: Bno080RawRvcData {
                yaw: 0,
                pitch: 0,
                roll: 0,
                side: 0,
                forward: 0,
                vertical: 0,
                counter: 0,
            },
            checksum: 0,
            lsb: 0,
        }
    }

    /// The decoder after the low byte of a number, `next` being what it
    /// waits for then. A header byte in that place means that a new frame
    /// has begun.
    pub open spec fn spec_handle_lsb(self, received: u8, next: ExpectedByte) -> Bno080Decoder {
        if received == HEADER_BYTE {
            Bno080Decoder { expected: ExpectedByte::Header2, ..self }
        } else {
            Bno080Decoder {
                lsb: received,
                checksum: spec_checksum_add(self.checksum, received),
                expected: next,
                ..self
            }
        }
    }

    /// The decoder after the high byte of a number: the byte is summed, and
    /// the decoder waits for `next`.
    pub open spec fn spec_after_msb(self, received: u8, next: ExpectedByte) -> Bno080Decoder {
        Bno080Decoder {
            checksum: spec_checksum_add(self.checksum, received),
            expected: next,
            ..self
        }
    }

    /// The decoder after one of the three unused bytes. A header byte in
    /// that place means that a new frame has begun.
    pub open spec fn spec_process_unused(self, received: u8, next: ExpectedByte) -> Bno080Decoder {
        if received != HEADER_BYTE {
            Bno080Decoder {
                checksum: spec_checksum_add(self.checksum, received),
                expected: next,
                ..self
            }
        } else {
            Bno080Decoder { expected: ExpectedByte::Header2, ..self }
        }
    }

    /// The decoder after the byte `received`.
    pub open spec fn spec_update(self, received: u8) -> Bno080Decoder {
        match self.expected {
            ExpectedByte::Header1 => if received == HEADER_BYTE {
                Bno080Decoder { expected: ExpectedByte::Header2, ..self }
            } else {
                self
            },
            ExpectedByte::Header2 => if received == HEADER_BYTE {
                Bno080Decoder { expected: ExpectedByte::Counter, ..self }
            } else {
                Bno080Decoder { expected: ExpectedByte::Header1, ..self }
            },
            ExpectedByte::Counter => Bno080Decoder {
                checksum: received,
                current: Bno080RawRvcData { counter: received, ..self.current },
                expected: ExpectedByte::YavLsb,
                ..self
            },
            ExpectedByte::YavLsb => self.spec_handle_lsb(received, ExpectedByte::YavMsb),
            ExpectedByte::YavMsb => Bno080Decoder {
                current: Bno080RawRvcData { yaw: spec_word(self.lsb, received), ..self.current },
                ..self.spec_after_msb(received, ExpectedByte::PitchLsb)
            },
            ExpectedByte::PitchLsb => self.spec_handle_lsb(received, ExpectedByte::PitchMsb),
            ExpectedByte::PitchMsb => Bno080Decoder {
                current: Bno080RawRvcData { pitch: spec_word(self.lsb, received), ..self.current },
                ..self.spec_after_msb(received, ExpectedByte::RollLsb)
            },
            ExpectedByte::RollLsb => self.spec_handle_lsb(received, ExpectedByte::RollMsb),
            ExpectedByte::RollMsb => Bno080Decoder {
                current: Bno080RawRvcData { roll: spec_word(self.lsb, received), ..self.current },
                ..self.spec_after_msb(received, ExpectedByte::SideLsb)
            },
            ExpectedByte::SideLsb => self.spec_handle_lsb(received, ExpectedByte::SideMsb),
            ExpectedByte::SideMsb => Bno080Decoder {
                current: Bno080RawRvcData { side: spec_word(self.lsb, received), ..self.current },
                ..self.spec_after_msb(received, ExpectedByte::ForwardLsb)
            },
            ExpectedByte::ForwardLsb => self.spec_handle_lsb(received, ExpectedByte::ForwardMsb),
            ExpectedByte::ForwardMsb => Bno080Decoder {
                current: Bno080RawRvcData { forward: spec_word(self.lsb, received), ..self.current },
                ..self.spec_after_msb(received, ExpectedByte::VerticalLsb)
            },
            ExpectedByte::VerticalLsb => self.spec_handle_lsb(received, ExpectedByte::VerticalMsb),
            ExpectedByte::VerticalMsb => Bno080Decoder {
                current: Bno080RawRvcData { vertical: spec_word(self.lsb, received), ..self.current },
                ..self.spec_after_msb(received, ExpectedByte::Unused1)
            },
            ExpectedByte::Unused1 => self.spec_process_unused(received, ExpectedByte::Unused2),
            ExpectedByte::Unused2 => self.spec_process_unused(received, ExpectedByte::Unused3),
            ExpectedByte::Unused3 => self.spec_process_unused(received, ExpectedByte::Checksum),
            ExpectedByte::Checksum => Bno080Decoder { expected: ExpectedByte::Header1, ..self },
        }
    }

    /// The frame that the byte `received` completes, if it completes one:
    /// the byte in the place of the checksum does, whatever it holds.
    pub open spec fn spec_output(self, received: u8) -> Option<Bno080RawRvcData> {
        if self.expected == ExpectedByte::Checksum {
            Some(self.current)
        } else {
            None
        }
    }

    /// Whether the byte in the place of the checksum matches the sum of the
    /// frame's bytes from the counter on.
    pub open spec fn spec_checksum_matches(self, received: u8) -> bool {
        self.checksum == received
    }

    /// The decoder that waits for the start of a frame.
    pub fn init() -> (decoder: Bno080Decoder)
        ensures
            decoder == Bno080Decoder::spec_init(),
    {
        Bno080Decoder {
            expected: ExpectedByte::Header1,
            current: Bno080RawRvcData {
                yaw: 0,
                pitch: 0,
                roll: 0,
                side: 0,
                forward: 0,
                vertical: 0,
                counter: 0,
            },
            checksum: 0,
            lsb: 0,
        }
    }

    /// Takes the low byte of a number, `expected` being what to wait for then.
    pub fn handle_lsb(&mut self, received: u8, expected: ExpectedByte)
        ensures
            *final(self) == old(self).spec_handle_lsb(received, expected),
    {
        if received == HEADER_BYTE {
            self.expected = ExpectedByte::Header2;
        } else {
            self.lsb = received;
            self.checksum = self.checksum.wrapping_add(received);
            self.expected = expected;
        }
    }

    /// The number whose low byte was received before and whose high byte is `received`.
    pub fn value(&self, received: u8) -> (value: i16)
        ensures
            value == spec_word(self.lsb, received),
    {
        let word: i32 = self.lsb as i32 + 256 * (received as i32);
        if word >= 0x8000 {
            (word - 0x1_0000) as i16
        } else {
            word as i16
        }
    }

    /// Sums the high byte of a number and returns the number.
    pub fn process_msb(&mut self, received: u8) -> (value: i16)
        ensures
            value == spec_word(old(self).lsb, received),
            *final(self) == (Bno080Decoder {
                checksum: spec_checksum_add(old(self).checksum, received),
                ..*old(self)
            }),
    {
        self.checksum = self.checksum.wrapping_add(received);
        self.value(received)
    }

    /// Sums an unused byte; tells whether it was one, and not a header byte.
    pub fn process_unused(&mut self, received: u8) -> (unused: bool)
        ensures
            unused == (received != HEADER_BYTE),
            *final(self) == if received != HEADER_BYTE {
                Bno080Decoder {
                    checksum: spec_checksum_add(old(self).checksum, received),
                    ..*old(self)
                }
            } else {
                Bno080Decoder { expected: ExpectedByte::Header2, ..*old(self) }
            },
    {
        if received != HEADER_BYTE {
            self.checksum = self.checksum.wrapping_add(received);
            true
        } else {
            self.expected = ExpectedByte::Header2;
            false
        }
    }

    /// Feeds one byte; returns the frame that the byte completes, if any.
    pub fn update(&mut self, received: u8) -> (frame: Option<Bno080RawRvcData>)
        ensures
            *final(self) == old(self).spec_update(received),
            frame == old(self).spec_output(received),
    {
        match self.expected {
            ExpectedByte::Header1 => {
                if received == HEADER_BYTE {
                    self.expected = ExpectedByte::Header2;
                }
                None
            },
            ExpectedByte::Header2 => {
                if received == HEADER_BYTE {
                    self.expected = ExpectedByte::Counter;
                } else {
                    self.expected = ExpectedByte::Header1;
                }
                None
            },
            ExpectedByte::Counter => {
                self.checksum = received;
                self.current.counter = received;
                self.expected = ExpectedByte::YavLsb;
                None
            },
            ExpectedByte::YavLsb => {
                self.handle_lsb(received, ExpectedByte::YavMsb);
                None
            },
            ExpectedByte::YavMsb => {
                let value = self.process_msb(received);
                self.current.yaw = value;
                self.expected = ExpectedByte::PitchLsb;
                None
            },
            ExpectedByte::PitchLsb => {
                self.handle_lsb(received, ExpectedByte::PitchMsb);
                None
            },
            ExpectedByte::PitchMsb => {
                let value = self.process_msb(received);
                self.current.pitch = value;
                self.expected = ExpectedByte::RollLsb;
                None
            },
            ExpectedByte::RollLsb => {
                self.handle_lsb(received, ExpectedByte::RollMsb);
                None
            },
            ExpectedByte::RollMsb => {
                let value = self.process_msb(received);
                self.current.roll = value;
                self.expected = ExpectedByte::SideLsb;
                None
            },
            ExpectedByte::SideLsb => {
                self.handle_lsb(received, ExpectedByte::SideMsb);
                None
            },
            ExpectedByte::SideMsb => {
                let value = self.process_msb(received);
                self.current.side = value;
                self.expected = ExpectedByte::ForwardLsb;
                None
            },
            ExpectedByte::ForwardLsb => {
                self.handle_lsb(received, ExpectedByte::ForwardMsb);
                None
            },
            ExpectedByte::ForwardMsb => {
                let value = self.process_msb(received);
                self.current.forward = value;
                self.expected = ExpectedByte::VerticalLsb;
                None
            },
            ExpectedByte::VerticalLsb => {
                self.handle_lsb(received, ExpectedByte::VerticalMsb);
                None
            },
            ExpectedByte::VerticalMsb => {
                let value = self.process_msb(received);
                self.current.vertical = value;
                self.expected = ExpectedByte::Unused1;
                None
            },
            ExpectedByte::Unused1 => {
                if self.process_unused(received) {
                    self.expected = ExpectedByte::Unused2;
                }
                None
            },
            ExpectedByte::Unused2 => {
                if self.process_unused(received) {
                    self.expected = ExpectedByte::Unused3;
                }
                None
            },
            ExpectedByte::Unused3 => {
                if self.process_unused(received) {
                    self.expected = ExpectedByte::Checksum;
                }
                None
            },
            ExpectedByte::Checksum => {
                self.expected = ExpectedByte::Header1;
                Some(self.current)
            },
        }
    }

    /// Whether `received`, standing in the place of the checksum, matches
    /// the bytes summed so far.
    pub fn checksum_matches(&self, received: u8) -> (matches: bool)
        ensures
            matches == self.spec_checksum_matches(received),
    {
        self.checksum == received
    }
}

impl Default for Bno080Decoder {
    fn default() -> (decoder: Bno080Decoder)
        ensures
            decoder == Bno080Decoder::spec_init(),
    {
        Bno080Decoder::init()
    }
}

/// Number of bytes of a frame before its checksum.
pub const FRAME_BODY_LEN: usize = 18;

/// The decoder after the first `count` of `bytes`.
pub open spec fn spec_feed(decoder: Bno080Decoder, bytes: Seq<u8>, count: nat) -> Bno080Decoder
    decreases count,
{
    if count == 0 {
        decoder
    } else {
        spec_feed(decoder, bytes, (count - 1) as nat).spec_update(bytes[count - 1])
    }
}

/// The sum, modulo 256, of the bytes from place `from` up to place `to`.
pub open spec fn spec_bytes_sum(bytes: Seq<u8>, from: int, to: int) -> u8
    decreases to - from,
{
    if to <= from {
        0
    } else {
        spec_checksum_add(spec_bytes_sum(bytes, from, to - 1), bytes[to - 1])
    }
}

/// Whether `bytes` are the body of a frame: two header bytes, the counter,
/// six numbers low byte first, and three unused bytes, with no header
/// byte in the place of a low byte or of an unused byte.
pub open spec fn spec_is_frame_body(bytes: Seq<u8>) -> bool {
    &&& bytes.len() == FRAME_BODY_LEN
    &&& bytes[0] == HEADER_BYTE
    &&& bytes[1] == HEADER_BYTE
    &&& bytes[3] != HEADER_BYTE
    &&& bytes[5] != HEADER_BYTE
    &&& bytes[7] != HEADER_BYTE
    &&& bytes[9] != HEADER_BYTE
    &&& bytes[11] != HEADER_BYTE
    &&& bytes[13] != HEADER_BYTE
    &&& bytes[15] != HEADER_BYTE
    &&& bytes[16] != HEADER_BYTE
    &&& bytes[17] != HEADER_BYTE
}

/// The frame that a body holds.
pub open spec fn spec_frame_of(bytes: Seq<u8>) -> Bno080RawRvcData {
    Bno080RawRvcData {
        counter: bytes[2],
        yaw: spec_word(bytes[3], bytes[4]),
        pitch: spec_word(bytes[5], bytes[6]),
        roll: spec_word(bytes[7], bytes[8]),
        side: spec_word(bytes[9], bytes[10]),
        forward: spec_word(bytes[11], bytes[12]),
        vertical: spec_word(bytes[13], bytes[14]),
    }
}

impl ExpectedByte {
    /// The place in the frame of the byte waited for.
    pub open spec fn spec_place(self) -> nat {
        match self {
            ExpectedByte::Header1 => 0,
            ExpectedByte::Header2 => 1,
            ExpectedByte::Counter => 2,
            ExpectedByte::YavLsb => 3,
            ExpectedByte::YavMsb => 4,
            ExpectedByte::PitchLsb => 5,
            ExpectedByte::PitchMsb => 6,
            ExpectedByte::RollLsb => 7,
            ExpectedByte::RollMsb => 8,
            ExpectedByte::SideLsb => 9,
            ExpectedByte::SideMsb => 10,
            ExpectedByte::ForwardLsb => 11,
            ExpectedByte::ForwardMsb => 12,
            ExpectedByte::VerticalLsb => 13,
            ExpectedByte::VerticalMsb => 14,
            ExpectedByte::Unused1 => 15,
            ExpectedByte::Unused2 => 16,
            ExpectedByte::Unused3 => 17,
            ExpectedByte::Checksum => 18,
        }
    }
}

/// Whether `decoder` is where the first `count` bytes of the frame body
/// `bytes` lead: it waits for the byte at place `count`, and holds the sum
/// and every number of the bytes before.
pub open spec fn spec_decoded_upto(decoder: Bno080Decoder, bytes: Seq<u8>, count: nat) -> bool {
    &&& decoder.expected.spec_place() == count
    &&& count >= 3 ==> decoder.current.counter == bytes[2] && decoder.checksum == spec_bytes_sum(
        bytes,
        2,
        count as int,
    )
    &&& (count >= 4 && count <= 14 && count % 2 == 0) ==> decoder.lsb == bytes[count - 1]
    &&& count >= 5 ==> decoder.current.yaw == spec_word(bytes[3], bytes[4])
    &&& count >= 7 ==> decoder.current.pitch == spec_word(bytes[5], bytes[6])
    &&& count >= 9 ==> decoder.current.roll == spec_word(bytes[7], bytes[8])
    &&& count >= 11 ==> decoder.current.side == spec_word(bytes[9], bytes[10])
    &&& count >= 13 ==> decoder.current.forward == spec_word(bytes[11], bytes[12])
    &&& count >= 15 ==> decoder.current.vertical == spec_word(bytes[13], bytes[14])
}

/// One byte of a frame body leads from its place to the next.
proof fn lemma_decode_step(decoder: Bno080Decoder, bytes: Seq<u8>, count: nat)
    requires
        spec_is_frame_body(bytes),
        count < FRAME_BODY_LEN,
        spec_decoded_upto(decoder, bytes, count),
    ensures
        spec_decoded_upto(decoder.spec_update(bytes[count as int]), bytes, count + 1),
        decoder.spec_output(bytes[count as int]) is None,
{
    assert(spec_bytes_sum(bytes, 2, 2) == 0);
    assert(spec_bytes_sum(bytes, 2, count as int + 1) == if count < 2 {
        0u8
    } else {
        spec_checksum_add(spec_bytes_sum(bytes, 2, count as int), bytes[count as int])
    });
}

/// The first bytes of a frame body lead a decoder that waits for a header
/// to the place after them.
proof fn lemma_decode_prefix(start: Bno080Decoder, bytes: Seq<u8>, count: nat)
    requires
        start.expected == ExpectedByte::Header1,
        spec_is_frame_body(bytes),
        count <= FRAME_BODY_LEN,
    ensures
        spec_decoded_upto(spec_feed(start, bytes, count), bytes, count),
    decreases count,
{
    if count > 0 {
        lemma_decode_prefix(start, bytes, (count - 1) as nat);
        lemma_decode_step(spec_feed(start, bytes, (count - 1) as nat), bytes, (count - 1) as nat);
    }
}

/// A decoder that waits for a header and is fed the body of a frame then
/// waits for the checksum, holds the frame and the sum of its bytes from
/// the counter on, and hands the frame out on the next byte, whatever
/// that byte is, to wait for a header again. No byte of the body itself
/// hands a frame out.
pub proof fn lemma_frame_decoded(start: Bno080Decoder, bytes: Seq<u8>, last: u8)
    requires
        start.expected == ExpectedByte::Header1,
        spec_is_frame_body(bytes),
    ensures
        spec_feed(start, bytes, FRAME_BODY_LEN as nat).expected == ExpectedByte::Checksum,
        spec_feed(start, bytes, FRAME_BODY_LEN as nat).current == spec_frame_of(bytes),
        spec_feed(start, bytes, FRAME_BODY_LEN as nat).checksum == spec_bytes_sum(
            bytes,
            2,
            FRAME_BODY_LEN as int,
        ),
        spec_feed(start, bytes, FRAME_BODY_LEN as nat).spec_output(last) == Some(
            spec_frame_of(bytes),
        ),
        spec_feed(start, bytes, FRAME_BODY_LEN as nat).spec_update(last).expected
            == ExpectedByte::Header1,
        forall|count: nat|
            count < FRAME_BODY_LEN ==> (#[trigger] spec_feed(start, bytes, count)).spec_output(
                bytes[count as int],
            ) is None,
{
    lemma_decode_prefix(start, bytes, FRAME_BODY_LEN as nat);
    assert forall|count: nat| count < FRAME_BODY_LEN implies (#[trigger] spec_feed(
        start,
        bytes,
        count,
    )).spec_output(bytes[count as int]) is None by {
        lemma_decode_prefix(start, bytes, count);
        lemma_decode_step(spec_feed(start, bytes, count), bytes, count);
    }
}

} // verus!
