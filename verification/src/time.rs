//! Spans of time and points in time, counted in whole microseconds.

use crate::arith::saturate_u64;
use core::cmp::Ordering;
use vstd::prelude::*;
use vstd::std_specs::cmp::PartialOrdSpecImpl;

verus! {

/// Microseconds in one millisecond.
pub const MICROS_PER_MILLI: u64 = 1000;

/// Microseconds in one second.
pub const MICROS_PER_SEC: u64 = 1_000_000;

/// A span of time.
#[derive(Clone, Copy, Debug, PartialEq, Eq, Ord, Structural)]
pub struct Duration {
    pub micros: u64,
}

impl View for Duration {
    type V = int;

    /// The span in microseconds.
    open spec fn view(&self) -> int {
        self.micros as int
    }
}

impl Duration {
    /// `self + other`, saturating at the longest span.
    pub open spec fn spec_saturating_add(self, other: Duration) -> Duration {
        Duration { micros: saturate_u64(self.micros + other.micros) as u64 }
    }

    /// `self - other`, or the empty span where `other` is the longer one.
    pub open spec fn spec_saturating_sub(self, other: Duration) -> Duration {
        Duration { micros: saturate_u64(self.micros - other.micros) as u64 }
    }

    /// A span of `millis` milliseconds, saturating at the longest span.
    pub open spec fn spec_from_millis(millis: u64) -> Duration {
        Duration { micros: saturate_u64(millis * MICROS_PER_MILLI) as u64 }
    }

    /// A span of `micros` microseconds.
    pub fn from_micros(micros: u64) -> (d: Duration)
        ensures
            d@ == micros,
    {
        Duration { micros }
    }

    /// A span of `millis` milliseconds, saturating at the longest span.
    pub fn from_millis(millis: u64) -> (d: Duration)
        ensures
            d == Duration::spec_from_millis(millis),
            d@ == saturate_u64(millis * MICROS_PER_MILLI),
    {
        if millis > u64::MAX / MICROS_PER_MILLI {
            Duration { micros: u64::MAX }
        } else {
            Duration { micros: millis * MICROS_PER_MILLI }
        }
    }

    /// A span of `secs` seconds, saturating at the longest span.
    pub fn from_secs(secs: u64) -> (d: Duration)
        ensures
            d@ == saturate_u64(secs * MICROS_PER_SEC),
    {
        if secs > u64::MAX / MICROS_PER_SEC {
            Duration { micros: u64::MAX }
        } else {
            Duration { micros: secs * MICROS_PER_SEC }
        }
    }

    /// The span in microseconds.
    pub fn as_micros(self) -> (us: u64)
        ensures
            us == self@,
    {
        self.micros
    }

    /// Whole milliseconds in the span.
    pub fn as_millis(self) -> (ms: u64)
        ensures
            ms == self@ / 1000,
    {
        self.micros / MICROS_PER_MILLI
    }

    /// `self + other`, saturating at the longest span.
    pub fn saturating_add(self, other: Duration) -> (d: Duration)
        ensures
            d == self.spec_saturating_add(other),
            d@ == saturate_u64(self@ + other@),
    {
        if self.micros > u64::MAX - other.micros {
            Duration { micros: u64::MAX }
        } else {
            Duration { micros: self.micros + other.micros }
        }
    }

    /// `self - other`, or the empty span where `other` is the longer one.
    pub fn saturating_sub(self, other: Duration) -> (d: Duration)
        ensures
            d == self.spec_saturating_sub(other),
            d@ == saturate_u64(self@ - other@),
    {
        if self.micros < other.micros {
            Duration { micros: 0 }
        } else {
            Duration { micros: self.micros - other.micros }
        }
    }

    /// The longer of the two spans.
    pub fn at_least(self, floor: Duration) -> (d: Duration)
        ensures
            d@ == if self@ < floor@ {
                floor@
            } else {
                self@
            },
    {
        if self.micros < floor.micros {
            floor
        } else {
            self
        }
    }

    /// The shorter of the two spans.
    pub fn at_most(self, cap: Duration) -> (d: Duration)
        ensures
            d@ == if self@ > cap@ {
                cap@
            } else {
                self@
            },
    {
        if self.micros > cap.micros {
            cap
        } else {
            self
        }
    }
}

impl PartialOrd for Duration {
    fn partial_cmp(&self, other: &Duration) -> (r: Option<Ordering>) {
        if self.micros < other.micros {
            Some(Ordering::Less)
        } else if self.micros > other.micros {
            Some(Ordering::Greater)
        } else {
            Some(Ordering::Equal)
        }
    }
}

impl PartialOrdSpecImpl for Duration {
    open spec fn obeys_partial_cmp_spec() -> bool {
        true
    }

    /// Spans are ordered by their length.
    open spec fn partial_cmp_spec(&self, other: &Duration) -> Option<Ordering> {
        if self@ < other@ {
            Some(Ordering::Less)
        } else if self@ > other@ {
            Some(Ordering::Greater)
        } else {
            Some(Ordering::Equal)
        }
    }
}

/// A point in time, as the span since the clock started.
#[derive(Clone, Copy, Debug, PartialEq, Eq, Ord, Structural)]
pub struct Instant {
    pub micros: u64,
}

impl View for Instant {
    type V = int;

    /// Microseconds since the clock started.
    open spec fn view(&self) -> int {
        self.micros as int
    }
}

impl Instant {
    /// The point in time `micros` microseconds after the clock started.
    pub fn from_micros(micros: u64) -> (t: Instant)
        ensures
            t@ == micros,
    {
        Instant { micros }
    }

    /// Microseconds since the clock started.
    pub fn as_micros(self) -> (us: u64)
        ensures
            us == self@,
    {
        self.micros
    }

    /// The span from `earlier` to `self`; empty where `earlier` is the later one.
    pub fn duration_since(self, earlier: Instant) -> (d: Duration)
        ensures
            d@ == saturate_u64(self@ - earlier@),
    {
        if self.micros < earlier.micros {
            Duration { micros: 0 }
        } else {
            Duration { micros: self.micros - earlier.micros }
        }
    }
}

impl PartialOrd for Instant {
    fn partial_cmp(&self, other: &Instant) -> (r: Option<Ordering>) {
        if self.micros < other.micros {
            Some(Ordering::Less)
        } else if self.micros > other.micros {
            Some(Ordering::Greater)
        } else {
            Some(Ordering::Equal)
        }
    }
}

impl PartialOrdSpecImpl for Instant {
    open spec fn obeys_partial_cmp_spec() -> bool {
        true
    }

    /// Points in time are ordered by when they occur.
    open spec fn partial_cmp_spec(&self, other: &Instant) -> Option<Ordering> {
        if self@ < other@ {
            Some(Ordering::Less)
        } else if self@ > other@ {
            Some(Ordering::Greater)
        } else {
            Some(Ordering::Equal)
        }
    }
}

} // verus!
