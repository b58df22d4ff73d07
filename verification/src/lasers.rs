//! The raw distance readings and the arithmetic of the sensor's registers.

use crate::time::{Duration, Instant};
use vstd::prelude::*;

verus! {

/// Number of physical distance sensors.
pub const RAW_LASERS_COUNT: usize = 8;

/// One snapshot of all physical sensors, in millimetres.
#[derive(Clone, Copy, Debug)]
pub struct RawLaserReadings {
    pub values: [u16; RAW_LASERS_COUNT],
    pub timestamp: Instant,
    pub dt: Duration,
}

/// The measuring range that the sensor is set to.
#[derive(Clone, Copy, Debug, PartialEq, Eq, Structural)]
pub enum Gp2Y0E02bShift {
    Cm128,
    Cm64,
}

/// The width of the sensor's median filter.
#[derive(Clone, Copy, Debug, PartialEq, Eq, Structural)]
pub enum Gp2Y0E02bMedian {
    Med7,
    Med5,
    Med9,
    Med1,
}

/// The number of measurements that the sensor accumulates.
#[derive(Clone, Copy, Debug, PartialEq, Eq, Structural)]
pub enum Gp2Y0E02bAcc {
    Acc1,
    Acc5,
    Acc30,
    Acc10,
}

impl Gp2Y0E02bShift {
    /// The value of the shift register for this range.
    pub fn code(self) -> (code: u8)
        ensures
            code == match self {
                Gp2Y0E02bShift::Cm128 => 1u8,
                Gp2Y0E02bShift::Cm64 => 2u8,
            },
    {
        match self {
            Gp2Y0E02bShift::Cm128 => 1,
            Gp2Y0E02bShift::Cm64 => 2,
        }
    }

    /// The power of two by which a raw reading is divided.
    pub open spec fn spec_divisor(self) -> u16 {
        match self {
            Gp2Y0E02bShift::Cm128 => 5,
            Gp2Y0E02bShift::Cm64 => 6,
        }
    }

    /// The power of two by which a raw reading is divided.
    pub fn divisor(self) -> (d: u16)
        ensures
            d == self.spec_divisor(),
    {
        match self {
            Gp2Y0E02bShift::Cm128 => 5,
            Gp2Y0E02bShift::Cm64 => 6,
        }
    }
}

impl Gp2Y0E02bMedian {
    /// The value of the median register for this filter.
    pub fn code(self) -> (code: u8)
        ensures
            code == match self {
                Gp2Y0E02bMedian::Med7 => 0x00u8,
                Gp2Y0E02bMedian::Med5 => 0x10u8,
                Gp2Y0E02bMedian::Med9 => 0x20u8,
                Gp2Y0E02bMedian::Med1 => 0x30u8,
            },
    {
        match self {
            Gp2Y0E02bMedian::Med7 => 0x00,
            Gp2Y0E02bMedian::Med5 => 0x10,
            Gp2Y0E02bMedian::Med9 => 0x20,
            Gp2Y0E02bMedian::Med1 => 0x30,
        }
    }
}

impl Gp2Y0E02bAcc {
    /// The value of the accumulation register for this count.
    pub fn code(self) -> (code: u8)
        ensures
            code == match self {
                Gp2Y0E02bAcc::Acc1 => 0u8,
                Gp2Y0E02bAcc::Acc5 => 1u8,
                Gp2Y0E02bAcc::Acc30 => 2u8,
                Gp2Y0E02bAcc::Acc10 => 3u8,
            },
    {
        match self {
            Gp2Y0E02bAcc::Acc1 => 0,
            Gp2Y0E02bAcc::Acc5 => 1,
            Gp2Y0E02bAcc::Acc30 => 2,
            Gp2Y0E02bAcc::Acc10 => 3,
        }
    }
}

/// The twelve-bit reading that the sensor's two data registers hold: the
/// first register gives the upper eight bits, the low half of the second the
/// lower four.
pub open spec fn spec_raw_distance(high: u8, low: u8) -> int {
    high * 16 + low % 16
}

/// The distance in millimetres that the two data registers stand for.
pub open spec fn spec_distance_mm(high: u8, low: u8, shift: Gp2Y0E02bShift) -> int {
    match shift {
        Gp2Y0E02bShift::Cm128 => (spec_raw_distance(high, low) * 10) / 32,
        Gp2Y0E02bShift::Cm64 => (spec_raw_distance(high, low) * 10) / 64,
    }
}

/// Converts the sensor's two data registers to millimetres.
pub fn distance_mm(high: u8, low: u8, shift: Gp2Y0E02bShift) -> (mm: u16)
    ensures
        mm == spec_distance_mm(high, low, shift),
        mm < 1280,
{
    let raw: u16 = (high as u16) * 16 + (low % 16) as u16;
    match shift {
        Gp2Y0E02bShift::Cm128 => (raw * 10) / 32,
        Gp2Y0E02bShift::Cm64 => (raw * 10) / 64,
    }
}

/// The byte that selects channel `chan` of the bus multiplexer.
pub fn channel_mask(chan: usize) -> (mask: u8)
    requires
        chan < RAW_LASERS_COUNT,
    ensures
        mask == vstd::arithmetic::power2::pow2(chan as nat),
{
    proof {
        vstd::arithmetic::power2::lemma2_to64();
    }
    match chan {
        0 => 1,
        1 => 2,
        2 => 4,
        3 => 8,
        4 => 16,
        5 => 32,
        6 => 64,
        _ => 128,
    }
}

} // verus!
