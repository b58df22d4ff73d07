//! A record of the last ticks of a race, kept in a ring of fixed size.

use crate::angle::Angle;
use crate::arith::saturate_u64;
use crate::imu::ImuData;
use crate::race::{BackSteering, RouteTarget};
use crate::time::Duration;
use vstd::prelude::*;

verus! {

/// Number of slots of the ring. One slot always stays free, so the ring
/// holds one event less.
pub const TRACE_EVENTS: usize = 3000;

/// Number of events that the ring holds when it is full.
pub const TRACE_CAPACITY: usize = 2999;

/// What the recorder is asked to do.
#[derive(Clone, Copy, Debug, PartialEq, Eq, Structural)]
pub enum TraceCommand {
    Clear,
    Print,
    Push(TraceEvent),
}

/// The state of the vehicle at one tick.
#[derive(Clone, Copy, Debug, PartialEq, Eq, Structural)]
pub struct TraceEvent {
    pub absolute_heading: Angle,
    pub track_heading: Angle,
    pub steer: Angle,
    pub speed: i16,
    pub roll: Angle,
    pub pitch: Angle,
    pub yaw: Angle,
    pub forward: i16,
    pub side: i16,
    pub vertical: i16,
    pub has_back_panic: bool,
    pub remaining_back_panic_ms: u32,
    pub has_target: bool,
    pub remaining_target_ms: u32,
    pub target: Angle,
    pub target_back: bool,
    pub stillness_ms: u32,
    pub dt_us: u32,
}

/// The low 32 bits of a count.
pub open spec fn spec_low_u32(count: int) -> u32 {
    (count % 0x1_0000_0000) as u32
}

/// The whole milliseconds of a span, if there is one, as the low 32 bits
/// of their count; 0 where there is none.
pub open spec fn spec_millis_or_zero(span: Option<Duration>) -> u32 {
    match span {
        Some(d) => spec_low_u32(d@ / 1000),
        None => 0,
    }
}

/// The low 32 bits of `count`.
fn low_u32(count: u64) -> (low: u32)
    ensures
        low == spec_low_u32(count as int),
{
    (count % 0x1_0000_0000) as u32
}

impl TraceEvent {
    /// The event that records a tick.
    pub open spec fn spec_new(
        absolute_heading: Angle,
        track_heading: Angle,
        imu_data: ImuData,
        has_back_panic: bool,
        remaining_back_panic: Option<BackSteering>,
        target: Option<RouteTarget>,
        steer: Angle,
        speed: i16,
        dt: Duration,
    ) -> TraceEvent {
        TraceEvent {
            absolute_heading,
            track_heading,
            steer,
            speed,
            roll: Angle::spec_from_imu_value(imu_data.roll),
            pitch: Angle::spec_from_imu_value(imu_data.pitch),
            yaw: Angle::spec_from_imu_value(imu_data.yaw),
            forward: imu_data.forward,
            side: imu_data.side,
            vertical: imu_data.vertical,
            has_back_panic,
            remaining_back_panic_ms: spec_millis_or_zero(
                match remaining_back_panic {
                    Some(back) => Some(back.remaining_time),
                    None => None,
                },
            ),
            has_target: target is Some,
            remaining_target_ms: spec_millis_or_zero(
                match target {
                    Some(route) => Some(route.remaining_time),
                    None => None,
                },
            ),
            target: match target {
                Some(route) => route.target,
                None => Angle::spec_new(0),
            },
            target_back: match target {
                Some(route) => route.go_back,
                None => false,
            },
            stillness_ms: spec_millis_or_zero(imu_data.stillness),
            dt_us: spec_low_u32(dt@),
        }
    }

    /// The event of a tick on which nothing happened.
    pub open spec fn spec_empty() -> TraceEvent {
        TraceEvent {
            absolute_heading: Angle::spec_new(0),
            track_heading: Angle::spec_new(0),
            steer: Angle::spec_new(0),
            speed: 0,
            roll: Angle::spec_new(0),
            pitch: Angle::spec_new(0),
            yaw: Angle::spec_new(0),
            forward: 0,
            side: 0,
            vertical: 0,
            has_back_panic: false,
            remaining_back_panic_ms: 0,
            has_target: false,
            remaining_target_ms: 0,
            target: Angle::spec_new(0),
            target_back: false,
            stillness_ms: 0,
            dt_us: 0,
        }
    }

    /// The event that records a tick.
    pub fn new(
        absolute_heading: Angle,
        track_heading: Angle,
        imu_data: &ImuData,
        has_back_panic: bool,
        remaining_back_panic: &Option<BackSteering>,
        target: &Option<RouteTarget>,
        steer: Angle,
        speed: i16,
        dt: Duration,
    ) -> (event: TraceEvent)
        ensures
            event == TraceEvent::spec_new(
                absolute_heading,
                track_heading,
                *imu_data,
                has_back_panic,
                *remaining_back_panic,
                *target,
                steer,
                speed,
                dt,
            ),
    {
        TraceEvent {
            absolute_heading,
            track_heading,
            steer,
            speed,
            roll: Angle::from_imu_value(imu_data.roll),
            pitch: Angle::from_imu_value(imu_data.pitch),
            yaw: Angle::from_imu_value(imu_data.yaw),
            forward: imu_data.forward,
            side: imu_data.side,
            vertical: imu_data.vertical,
            has_back_panic,
            remaining_back_panic_ms: match remaining_back_panic {
                Some(back) => low_u32(back.remaining_time.as_millis()),
                None => 0,
            },
            has_target: target.is_some(),
            remaining_target_ms: match target {
                Some(route) => low_u32(route.remaining_time.as_millis()),
                None => 0,
            },
            target: match target {
                Some(route) => route.target,
                None => Angle::zero(),
            },
            target_back: match target {
                Some(route) => route.go_back,
                None => false,
            },
            stillness_ms: match imu_data.stillness {
                Some(still) => low_u32(still.as_millis()),
                None => 0,
            },
            dt_us: low_u32(dt.as_micros()),
        }
    }

    /// The event of a tick on which nothing happened.
    pub fn empty() -> (event: TraceEvent)
        ensures
            event == TraceEvent::spec_empty(),
    {
        TraceEvent {
            absolute_heading: Angle::zero(),
            track_heading: Angle::zero(),
            steer: Angle::zero(),
            speed: 0,
            roll: Angle::zero(),
            pitch: Angle::zero(),
            yaw: Angle::zero(),
            forward: 0,
            side: 0,
            vertical: 0,
            has_back_panic: false,
            remaining_back_panic_ms: 0,
            has_target: false,
            remaining_target_ms: 0,
            target: Angle::zero(),
            target_back: false,
            stillness_ms: 0,
            dt_us: 0,
        }
    }
}

/// One line of a replay: the slot that the event lies in, the time that
/// the events before it took, and the event.
#[derive(Clone, Copy, Debug, PartialEq, Eq, Structural)]
pub struct TraceLine {
    pub slot: usize,
    pub elapsed: Duration,
    pub event: TraceEvent,
}

/// The time, in microseconds, that the first `count` of `events` took.
pub open spec fn spec_elapsed(events: Seq<TraceEvent>, count: int) -> int
    decreases count,
{
    if count <= 0 {
        0
    } else {
        saturate_u64(spec_elapsed(events, count - 1) + events[count - 1].dt_us)
    }
}

/// What a full or not yet full record holds after one more event: the
/// event comes last, and a full record drops its oldest event for it.
pub open spec fn spec_pushed(held: Seq<TraceEvent>, event: TraceEvent) -> Seq<TraceEvent> {
    if held.len() >= TRACE_CAPACITY {
        held.skip(held.len() - TRACE_CAPACITY + 1).push(event)
    } else {
        held.push(event)
    }
}

/// What a record holds after a run of events, oldest first.
pub open spec fn spec_pushed_all(held: Seq<TraceEvent>, events: Seq<TraceEvent>) -> Seq<TraceEvent>
    decreases events.len(),
{
    if events.len() == 0 {
        held
    } else {
        spec_pushed(spec_pushed_all(held, events.drop_last()), events.last())
    }
}

/// The ring of events.
pub struct TraceData {
    start: usize,
    end: usize,
    events: [TraceEvent; TRACE_EVENTS],
}

impl View for TraceData {
    type V = Seq<TraceEvent>;

    /// The events held, oldest first.
    closed spec fn view(&self) -> Seq<TraceEvent> {
        Seq::new(
            self.spec_len() as nat,
            |i: int| self.events[(self.start + i) % (TRACE_EVENTS as int)],
        )
    }
}

impl TraceData {
    #[verifier::type_invariant]
    spec fn wf(self) -> bool {
        self.start < TRACE_EVENTS && self.end < TRACE_EVENTS
    }

    /// Number of events held.
    closed spec fn spec_len(self) -> int {
        if self.end >= self.start {
            self.end - self.start
        } else {
            self.end + TRACE_EVENTS - self.start
        }
    }

    /// The slot of the oldest event.
    pub closed spec fn spec_start(self) -> int {
        self.start as int
    }

    /// An empty record.
    pub fn new() -> (data: TraceData)
        ensures
            data@ == Seq::<TraceEvent>::empty(),
            data.spec_start() == 0,
    {
        let data = TraceData { start: 0, end: 0, events: [TraceEvent::empty();TRACE_EVENTS] };
        assert(data@ =~= Seq::<TraceEvent>::empty());
        data
    }

    /// Forgets every event.
    pub fn clear(&mut self)
        ensures
            final(self)@ == Seq::<TraceEvent>::empty(),
            final(self).spec_start() == 0,
    {
        proof {
            use_type_invariant(&*self);
        }
        self.start = 0;
        self.end = 0;
        assert(self@ =~= Seq::<TraceEvent>::empty());
    }

    /// Number of events held.
    pub fn len(&self) -> (len: usize)
        ensures
            len == self@.len(),
            len <= TRACE_CAPACITY,
    {
        proof {
            use_type_invariant(self);
        }
        if self.end >= self.start {
            self.end - self.start
        } else {
            self.end + TRACE_EVENTS - self.start
        }
    }

    /// Whether no event is held.
    pub fn is_empty(&self) -> (empty: bool)
        ensures
            empty == (self@.len() == 0),
    {
        proof {
            use_type_invariant(self);
        }
        self.start == self.end
    }

    /// The slot of the oldest event.
    pub fn start(&self) -> (slot: usize)
        ensures
            slot == self.spec_start(),
            slot < TRACE_EVENTS,
    {
        proof {
            use_type_invariant(self);
        }
        self.start
    }

    /// The slot that the next event goes to.
    pub fn end(&self) -> (slot: usize)
        ensures
            slot == (self.spec_start() + self@.len()) % (TRACE_EVENTS as int),
            slot < TRACE_EVENTS,
    {
        proof {
            use_type_invariant(self);
        }
        self.end
    }

    /// The event at `index`, counted from the oldest.
    pub fn get(&self, index: usize) -> (event: TraceEvent)
        requires
            index < self@.len(),
        ensures
            event == self@[index as int],
    {
        proof {
            use_type_invariant(self);
        }
        self.events[(self.start + index) % TRACE_EVENTS]
    }

    /// Records an event. A full record drops its oldest event for it.
    pub fn push(&mut self, event: TraceEvent)
        ensures
            final(self)@ == spec_pushed(old(self)@, event),
            final(self).spec_start() == if old(self)@.len() == TRACE_CAPACITY {
                (old(self).spec_start() + 1) % (TRACE_EVENTS as int)
            } else {
                old(self).spec_start()
            },
    {
        proof {
            use_type_invariant(&*self);
        }
        let ghost before = *self;
        let new_end: usize = (self.end + 1) % TRACE_EVENTS;
        if self.start == new_end {
            self.start = (self.start + 1) % TRACE_EVENTS;
        }
        self.events[self.end] = event;
        self.end = new_end;
        proof {
            let after = *self;
            let n = TRACE_EVENTS as int;
            assert(after.spec_len() == spec_pushed(before@, event).len());
            assert forall|i: int| 0 <= i < after.spec_len() implies after@[i] == spec_pushed(
                before@,
                event,
            )[i] by {
                if before.spec_len() == TRACE_CAPACITY {
                    if i < after.spec_len() - 1 {
                        assert((after.start + i) % n == (before.start + (i + 1)) % n);
                        assert(before@[i + 1] == before.events[(before.start + (i + 1)) % n]);
                    }
                } else {
                    if i < after.spec_len() - 1 {
                        assert(before@[i] == before.events[(before.start + i) % n]);
                    }
                }
            }
            assert(after@ =~= spec_pushed(before@, event));
        }
    }

    /// The events held, oldest first, each with the slot it lies in and
    /// the time that the events before it took.
    pub fn replay(&self) -> (lines: Vec<TraceLine>)
        ensures
            lines@.len() == self@.len(),
            forall|i: int|
                0 <= i < lines@.len() ==> (#[trigger] lines@[i]).event == self@[i] && lines@[i].slot
                    == (self.spec_start() + i) % (TRACE_EVENTS as int) && lines@[i].elapsed@
                    == spec_elapsed(self@, i),
    {
        proof {
            use_type_invariant(self);
        }
        let count = self.len();
        let mut lines: Vec<TraceLine> = Vec::new();
        let mut elapsed = Duration::from_micros(0);
        let mut index: usize = 0;
        while index < count
            invariant
                index <= count,
                count == self@.len(),
                count <= TRACE_CAPACITY,
                self.wf(),
                lines@.len() == index,
                elapsed@ == spec_elapsed(self@, index as int),
                forall|i: int|
                    0 <= i < index ==> (#[trigger] lines@[i]).event == self@[i] && lines@[i].slot
                        == (self.spec_start() + i) % (TRACE_EVENTS as int) && lines@[i].elapsed@
                        == spec_elapsed(self@, i),
            decreases count - index,
        {
            let slot: usize = (self.start + index) % TRACE_EVENTS;
            let event = self.events[slot];
            lines.push(TraceLine { slot, elapsed, event });
            elapsed = elapsed.saturating_add(Duration::from_micros(event.dt_us as u64));
            index = index + 1;
        }
        lines
    }
}

/// A record that is not full keeps every event pushed; a full one keeps
/// the newest ones, as many as it has room for, in the order they came.
pub proof fn lemma_pushed_keeps_newest(held: Seq<TraceEvent>, event: TraceEvent)
    requires
        held.len() <= TRACE_CAPACITY,
    ensures
        spec_pushed(held, event).len() == if held.len() < TRACE_CAPACITY {
            held.len() + 1
        } else {
            TRACE_CAPACITY as nat
        },
        spec_pushed(held, event).last() == event,
        forall|i: int|
            0 <= i < spec_pushed(held, event).len() - 1 ==> #[trigger] spec_pushed(held, event)[i]
                == held[i + (held.len() + 1 - spec_pushed(held, event).len())],
{
}

/// After any run of events pushed into an empty record, the record holds
/// the last of them, as many as it has room for, oldest first.
pub proof fn lemma_ring_keeps_newest(events: Seq<TraceEvent>)
    ensures
        spec_pushed_all(Seq::empty(), events) == if events.len() <= TRACE_CAPACITY {
            events
        } else {
            events.skip(events.len() - TRACE_CAPACITY)
        },
    decreases events.len(),
{
    if events.len() > 0 {
        let earlier = events.drop_last();
        lemma_ring_keeps_newest(earlier);
        let held = spec_pushed_all(Seq::empty(), earlier);
        let kept = spec_pushed(held, events.last());
        let expected = if events.len() <= TRACE_CAPACITY {
            events
        } else {
            events.skip(events.len() - TRACE_CAPACITY)
        };
        assert(kept =~= expected);
    } else {
        assert(spec_pushed_all(Seq::empty(), events) =~= events);
    }
}

/// One event more than a full record holds leaves the record full with the
/// newest events in order: the oldest one is gone, the rest moved up by one.
pub proof fn lemma_overfull_drops_oldest(events: Seq<TraceEvent>)
    requires
        events.len() == TRACE_CAPACITY + 1,
    ensures
        spec_pushed_all(Seq::empty(), events).len() == TRACE_CAPACITY,
        forall|i: int|
            0 <= i < TRACE_CAPACITY ==> #[trigger] spec_pushed_all(Seq::empty(), events)[i]
                == events[i + 1],
{
    lemma_ring_keeps_newest(events);
}

} // verus!
