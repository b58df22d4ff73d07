//! Fusion of the distance sensors into a steering target.
//!
//! Eight physical sensors back five logical lasers, far left to far right.
//! Each laser is classified against the configured distances, and the
//! steering target is the weighted centre of the widest run of clear lasers
//! around the one that sees farthest.

use crate::angle::{normalize_deg, Angle, SHALF_DEG, SLL_DEG, SL_DEG, SRR_DEG, SR_DEG};
use crate::arith::{
    i128_to_i32_saturating, i16_bits_as_u16, i64_div, i64_to_i16_saturating, reinterpret_u16,
    saturate_i16, saturate_i32, trunc_div,
};
use crate::configuration::RaceConfig;
use crate::lasers::{RawLaserReadings, RAW_LASERS_COUNT};
use vstd::prelude::*;

verus! {

/// Number of logical lasers.
pub const NUM_LASER_POSITIONS: usize = 5;

/// Index of the laser that looks straight ahead.
pub const CENTER_LASER: usize = 2;

/// Distance, in millimetres, at and beyond which a laser sees nothing.
pub const LASER_OVERFLOW: u16 = 1200;

/// Index of the far-left laser.
pub const LILL: usize = 0;

/// Index of the left laser.
pub const LIL: usize = 1;

/// Index of the centre laser.
pub const LIC: usize = 2;

/// Index of the right laser.
pub const LIR: usize = 3;

/// Index of the far-right laser.
pub const LIRR: usize = 4;

/// Where a logical laser sits relative to the centre line.
#[derive(Debug, PartialEq, Eq, Clone, Copy, Structural)]
pub enum LaserSidePosition {
    Center,
    Side30,
    Side60,
}

impl LaserSidePosition {
    /// Index of the logical laser at this position on the side of `sign`
    /// (right where positive).
    pub open spec fn spec_index(self, sign: int) -> int {
        match self {
            LaserSidePosition::Center => 2,
            LaserSidePosition::Side30 => if sign > 0 {
                3
            } else {
                1
            },
            LaserSidePosition::Side60 => if sign > 0 {
                4
            } else {
                0
            },
        }
    }

    /// Steps from the centre to this position.
    pub open spec fn spec_offset(self) -> int {
        match self {
            LaserSidePosition::Center => 0,
            LaserSidePosition::Side30 => 1,
            LaserSidePosition::Side60 => 2,
        }
    }

    /// Channel of the physical sensor that backs this position on the side
    /// of `sign`, the upper or the lower one of the pair.
    pub open spec fn spec_physical_index(self, sign: int, upper: bool) -> int {
        match self {
            LaserSidePosition::Center => if upper {
                2
            } else {
                7
            },
            LaserSidePosition::Side30 => if upper {
                if sign > 0 {
                    3
                } else {
                    1
                }
            } else {
                if sign > 0 {
                    0
                } else {
                    6
                }
            },
            LaserSidePosition::Side60 => if sign > 0 {
                5
            } else {
                4
            },
        }
    }

    /// Index of the logical laser at this position on the side of `sign`.
    pub fn index(&self, sign: u8) -> (index: usize)
        ensures
            index == self.spec_index(sign as int),
            index < NUM_LASER_POSITIONS,
    {
        match self {
            LaserSidePosition::Center => 2,
            LaserSidePosition::Side30 => {
                if sign > 0 {
                    3
                } else {
                    1
                }
            },
            LaserSidePosition::Side60 => {
                if sign > 0 {
                    4
                } else {
                    0
                }
            },
        }
    }

    /// Steps from the centre to this position.
    pub fn offset(&self) -> (offset: usize)
        ensures
            offset == self.spec_offset(),
    {
        match self {
            LaserSidePosition::Center => 0,
            LaserSidePosition::Side30 => 1,
            LaserSidePosition::Side60 => 2,
        }
    }

    /// Channel of the physical sensor that backs this position.
    pub fn physical_index(&self, sign: i8, upper: bool) -> (channel: usize)
        ensures
            channel == self.spec_physical_index(sign as int, upper),
            channel < RAW_LASERS_COUNT,
    {
        if upper {
            match self {
                LaserSidePosition::Center => 2,
                LaserSidePosition::Side30 => {
                    if sign > 0 {
                        3
                    } else {
                        1
                    }
                },
                LaserSidePosition::Side60 => {
                    if sign > 0 {
                        5
                    } else {
                        4
                    }
                },
            }
        } else {
            match self {
                LaserSidePosition::Center => 7,
                LaserSidePosition::Side30 => {
                    if sign > 0 {
                        0
                    } else {
                        6
                    }
                },
                LaserSidePosition::Side60 => {
                    if sign > 0 {
                        5
                    } else {
                        4
                    }
                },
            }
        }
    }
}

/// What a laser's distance means for driving, most dangerous first.
#[derive(Debug, PartialEq, Eq, Clone, Copy, Structural)]
pub enum LaserStatus {
    Back,
    Alert,
    Regular,
    Overflow,
}

impl LaserStatus {
    /// How clear the way is: 0 for `Back` up to 3 for `Overflow`.
    pub open spec fn rank(self) -> int {
        match self {
            LaserStatus::Back => 0,
            LaserStatus::Alert => 1,
            LaserStatus::Regular => 2,
            LaserStatus::Overflow => 3,
        }
    }

    /// The class of a distance of `value` against an alert distance and a
    /// back distance: `Overflow` from the overflow distance on, else
    /// `Regular` from the alert distance on, else `Alert` from the back
    /// distance on, else `Back`.
    pub open spec fn classify(value: int, alert_distance: int, back_distance: int) -> LaserStatus {
        if value >= LASER_OVERFLOW {
            LaserStatus::Overflow
        } else if value >= alert_distance {
            LaserStatus::Regular
        } else if value >= back_distance {
            LaserStatus::Alert
        } else {
            LaserStatus::Back
        }
    }

    /// The class of a distance of `value` for a laser at `position`.
    pub open spec fn spec_from_value(
        value: u16,
        position: LaserSidePosition,
        config: RaceConfig,
    ) -> LaserStatus {
        LaserStatus::classify(
            value as int,
            config.spec_alert_distance(position),
            config.spec_back_distance(position),
        )
    }

    /// Whether the way is clear enough to steer into.
    pub open spec fn spec_is_ok(self) -> bool {
        self == LaserStatus::Regular || self == LaserStatus::Overflow
    }

    /// The four-letter display name of the status.
    pub open spec fn spec_name(self) -> Seq<char> {
        match self {
            LaserStatus::Back => "BACK"@,
            LaserStatus::Alert => "ALRT"@,
            LaserStatus::Regular => "REGL"@,
            LaserStatus::Overflow => "OVER"@,
        }
    }

    /// The class of a distance of `value` for a laser at `position`.
    pub fn from_value(value: u16, position: LaserSidePosition, config: &RaceConfig) -> (status:
        LaserStatus)
        ensures
            status == LaserStatus::spec_from_value(value, position, *config),
    {
        if value >= LASER_OVERFLOW {
            LaserStatus::Overflow
        } else if value >= config.alert_distance(position) {
            LaserStatus::Regular
        } else if value >= config.back_distance(position) {
            LaserStatus::Alert
        } else {
            LaserStatus::Back
        }
    }

    /// Whether the way is clear enough to steer into.
    pub fn is_ok(self) -> (ok: bool)
        ensures
            ok == self.spec_is_ok(),
    {
        match self {
            LaserStatus::Back | LaserStatus::Alert => false,
            LaserStatus::Regular | LaserStatus::Overflow => true,
        }
    }

    /// The four-letter display name of the status.
    pub fn name(&self) -> (name: &'static str)
        ensures
            name@ == self.spec_name(),
    {
        match self {
            LaserStatus::Back => "BACK",
            LaserStatus::Alert => "ALRT",
            LaserStatus::Regular => "REGL",
            LaserStatus::Overflow => "OVER",
        }
    }
}

/// Whether an upper reading against a lower one shows a ramp rather than an
/// obstacle: the upper reading lies from half `slope_delta` to all of it
/// above the lower one, or, going downhill, at least half of it above.
pub open spec fn spec_slope(lower: int, upper: int, slope_delta: int, downhill: bool) -> bool {
    (upper <= lower + slope_delta && upper >= lower + slope_delta / 2) || (downhill && upper
        >= lower + slope_delta / 2)
}

/// A reading limited to the overflow distance.
pub open spec fn spec_capped(reading: u16) -> u16 {
    if reading > LASER_OVERFLOW {
        LASER_OVERFLOW
    } else {
        reading
    }
}

/// The position of the logical laser at `index`.
pub open spec fn spec_layout_position(index: int) -> LaserSidePosition {
    if index == 2 {
        LaserSidePosition::Center
    } else if index == 1 || index == 3 {
        LaserSidePosition::Side30
    } else {
        LaserSidePosition::Side60
    }
}

/// The side of the logical laser at `index`: -1 left, 0 centre, 1 right.
pub open spec fn spec_layout_sign(index: int) -> int {
    if index < 2 {
        -1
    } else if index == 2 {
        0
    } else {
        1
    }
}

/// The direction, in degrees, in which the logical laser at `index` looks.
pub open spec fn spec_sensor_deg(index: int) -> int {
    (index - 2) * 30
}

/// One logical laser: its pair of readings and what they mean.
#[derive(Debug, PartialEq, Eq, Clone, Copy, Structural)]
pub struct LaserData {
    pub upper: u16,
    pub lower: u16,
    pub sign: i8,
    pub position: LaserSidePosition,
    pub status: LaserStatus,
    pub slope: bool,
}

impl LaserData {
    /// The distance that the laser reports: the overflow distance on a
    /// slope, else the shorter of its two readings.
    pub open spec fn spec_value(self) -> u16 {
        if self.slope {
            LASER_OVERFLOW
        } else if self.lower <= self.upper {
            self.lower
        } else {
            self.upper
        }
    }

    /// The laser after a snapshot of readings taken at a pitch for which
    /// `downhill` tells whether the vehicle goes downhill.
    pub open spec fn spec_update(
        self,
        values: Seq<u16>,
        config: RaceConfig,
        downhill: bool,
    ) -> LaserData {
        let raw_lower = values[self.position.spec_physical_index(self.sign as int, false)];
        let raw_upper = values[self.position.spec_physical_index(self.sign as int, true)];
        let slope = spec_slope(
            raw_lower as int,
            raw_upper as int,
            reinterpret_u16(config.slope_distance_delta as int),
            downhill,
        );
        let seen = LaserData {
            upper: spec_capped(raw_upper),
            lower: spec_capped(raw_lower),
            sign: self.sign,
            position: self.position,
            status: self.status,
            slope,
        };
        LaserData {
            status: if slope {
                LaserStatus::Overflow
            } else {
                LaserStatus::spec_from_value(seen.spec_value(), self.position, config)
            },
            ..seen
        }
    }

    /// The one-character summary of the laser.
    pub open spec fn spec_ch1(self) -> char {
        if self.slope {
            'S'
        } else {
            match self.status {
                LaserStatus::Back => '!',
                LaserStatus::Alert => 'a',
                LaserStatus::Regular => ' ',
                LaserStatus::Overflow => '^',
            }
        }
    }

    /// A laser that sees nothing.
    pub fn new(sign: i8, position: LaserSidePosition) -> (laser: LaserData)
        ensures
            laser == (LaserData {
                upper: LASER_OVERFLOW,
                lower: LASER_OVERFLOW,
                sign,
                position,
                status: LaserStatus::Overflow,
                slope: false,
            }),
    {
        LaserData {
            upper: LASER_OVERFLOW,
            lower: LASER_OVERFLOW,
            sign,
            position,
            status: LaserStatus::Overflow,
            slope: false,
        }
    }

    /// The distance that the laser reports.
    pub fn value(&self) -> (value: u16)
        ensures
            value == self.spec_value(),
    {
        if self.slope {
            LASER_OVERFLOW
        } else if self.lower <= self.upper {
            self.lower
        } else {
            self.upper
        }
    }

    /// Takes the laser's pair of readings from a snapshot, stores them
    /// limited to the overflow distance, and classifies the laser anew.
    pub fn update(&mut self, raw_readings: &RawLaserReadings, config: &RaceConfig, pitch: Angle)
        ensures
            *final(self) == old(self).spec_update(
                raw_readings.values@,
                *config,
                pitch@ <= normalize_deg(-config.spec_climbing_threshold()),
            ),
    {
        let lower: u16 = raw_readings.values[self.position.physical_index(self.sign, false)];
        let upper: u16 = raw_readings.values[self.position.physical_index(self.sign, true)];
        let slope_delta: u32 = i16_bits_as_u16(config.slope_distance_delta) as u32;
        let near: u32 = lower as u32 + slope_delta / 2;
        let far: u32 = lower as u32 + slope_delta;
        let slope: bool = (upper as u32 <= far && upper as u32 >= near) || (config.detect_downhill(
            pitch,
        ) && upper as u32 >= near);
        self.lower = if lower > LASER_OVERFLOW {
            LASER_OVERFLOW
        } else {
            lower
        };
        self.upper = if upper > LASER_OVERFLOW {
            LASER_OVERFLOW
        } else {
            upper
        };
        self.slope = slope;
        self.status = if slope {
            LaserStatus::Overflow
        } else {
            LaserStatus::from_value(self.value(), self.position, config)
        };
    }

    /// Takes over the readings and the classification of `other`, and keeps
    /// the laser's own place.
    pub fn copy_status(&mut self, other: &LaserData)
        ensures
            *final(self) == (LaserData { sign: old(self).sign, position: old(self).position, ..*other }),
    {
        self.upper = other.upper;
        self.lower = other.lower;
        self.slope = other.slope;
        self.status = other.status;
    }

    /// The one-character summary of the laser.
    pub fn ch1(&self) -> (c: char)
        ensures
            c == self.spec_ch1(),
    {
        if self.slope {
            'S'
        } else {
            match self.status {
                LaserStatus::Back => '!',
                LaserStatus::Alert => 'a',
                LaserStatus::Regular => ' ',
                LaserStatus::Overflow => '^',
            }
        }
    }

    /// The hundreds digit of the reported distance.
    pub fn ch2(&self) -> (c: char)
        ensures
            c == spec_digit_char(((self.spec_value() / 100) % 10) as int),
    {
        digit_char(((self.value() / 100) % 10) as u8)
    }

    /// The tens digit of the reported distance.
    pub fn ch3(&self) -> (c: char)
        ensures
            c == spec_digit_char(((self.spec_value() / 10) % 10) as int),
    {
        digit_char(((self.value() / 10) % 10) as u8)
    }

    /// The units digit of the reported distance.
    pub fn ch4(&self) -> (c: char)
        ensures
            c == spec_digit_char((self.spec_value() % 10) as int),
    {
        digit_char((self.value() % 10) as u8)
    }
}

/// The character that shows the decimal digit `digit`.
pub open spec fn spec_digit_char(digit: int) -> char {
    if digit == 0 {
        '0'
    } else if digit == 1 {
        '1'
    } else if digit == 2 {
        '2'
    } else if digit == 3 {
        '3'
    } else if digit == 4 {
        '4'
    } else if digit == 5 {
        '5'
    } else if digit == 6 {
        '6'
    } else if digit == 7 {
        '7'
    } else if digit == 8 {
        '8'
    } else {
        '9'
    }
}

/// The character that shows the decimal digit `digit`.
pub fn digit_char(digit: u8) -> (c: char)
    requires
        digit < 10,
    ensures
        c == spec_digit_char(digit as int),
{
    match digit {
        0 => '0',
        1 => '1',
        2 => '2',
        3 => '3',
        4 => '4',
        5 => '5',
        6 => '6',
        7 => '7',
        8 => '8',
        _ => '9',
    }
}

/// The sum of `values`.
pub open spec fn spec_sum(values: Seq<i32>) -> int
    decreases values.len(),
{
    if values.len() == 0 {
        0
    } else {
        spec_sum(values.drop_last()) + values.last()
    }
}

/// The sum of `values`, each weighted by twice its distance from the middle
/// of a row of `n` places: the value at place `i` counts `2 * i - (n - 1)` times.
pub open spec fn spec_tilt(values: Seq<i32>, n: int) -> int
    decreases values.len(),
{
    if values.len() == 0 {
        0
    } else {
        spec_tilt(values.drop_last(), n) + values.last() * (2 * (values.len() - 1) - (n - 1))
    }
}

/// The pull of `values` toward the far end of their row, scaled by their
/// sum, and that sum; `(0, 1)` stands for a row that pulls nowhere.
pub open spec fn spec_weighted_average(values: Seq<i32>) -> (int, int) {
    let n = values.len() as int;
    if n < 1 {
        (0, 1)
    } else if n < 2 {
        (0, values[0] as int)
    } else if spec_sum(values) == 0 {
        (0, 1)
    } else {
        (saturate_i32(trunc_div(spec_tilt(values, n), n - 1)), saturate_i32(spec_sum(values)))
    }
}

/// The direction, in degrees, between `from` and `to` toward which
/// `weights` pull: the middle where they balance, nearer an end where the
/// weights on that side are larger.
pub open spec fn spec_interpolate(weights: Seq<i32>, from: int, to: int) -> int {
    let (weight, sum) = spec_weighted_average(weights);
    let pull = if sum == 0 {
        0
    } else {
        trunc_div(weight * (to - from), sum)
    };
    normalize_deg(saturate_i32(trunc_div(from + to + pull, 2)))
}

/// The five logical lasers, far left to far right.
#[derive(Debug, Clone, Copy)]
pub struct Vision {
    pub lasers: [LaserData; NUM_LASER_POSITIONS],
}

impl Vision {
    /// Whether every laser stands at the place that its index gives it.
    pub open spec fn well_placed(self) -> bool {
        forall|i: int|
            0 <= i < NUM_LASER_POSITIONS ==> (#[trigger] self.lasers[i]).position
                == spec_layout_position(i) && self.lasers[i].sign == spec_layout_sign(i)
    }

    /// The distances that the lasers report, far left to far right.
    pub open spec fn spec_values(self) -> Seq<i32> {
        Seq::new(NUM_LASER_POSITIONS as nat, |i: int| self.lasers[i].spec_value() as i32)
    }

    /// Whether `best` is the laser that sees farthest, the leftmost of
    /// several that see equally far.
    pub open spec fn is_best_index(self, best: int) -> bool {
        &&& 0 <= best < NUM_LASER_POSITIONS
        &&& forall|j: int|
            0 <= j < NUM_LASER_POSITIONS ==> (#[trigger] self.lasers[j]).spec_value()
                <= self.lasers[best].spec_value()
        &&& forall|j: int|
            0 <= j < best ==> (#[trigger] self.lasers[j]).spec_value()
                < self.lasers[best].spec_value()
    }

    /// Whether `left..=right` is the widest run of lasers round `best` in
    /// which every laser but `best` itself is clear.
    pub open spec fn is_open_window(self, best: int, left: int, right: int) -> bool {
        &&& 0 <= left <= best <= right < NUM_LASER_POSITIONS
        &&& forall|j: int|
            left <= j <= right && j != best ==> (#[trigger] self.lasers[j]).status.spec_is_ok()
        &&& (left == 0 || !self.lasers[left - 1].status.spec_is_ok())
        &&& (right == NUM_LASER_POSITIONS - 1 || !self.lasers[right + 1].status.spec_is_ok())
    }

    /// The target, in degrees, for the window `left..=right`.
    pub open spec fn spec_window_target(self, left: int, right: int) -> int {
        if left == right {
            spec_sensor_deg(left)
        } else {
            spec_interpolate(
                self.spec_values().subrange(left, right + 1),
                spec_sensor_deg(left),
                spec_sensor_deg(right),
            )
        }
    }

    /// The target, in degrees, that all five lasers give together.
    pub open spec fn spec_simple_target(self) -> int {
        spec_interpolate(self.spec_values(), SLL_DEG as int, SRR_DEG as int)
    }

    /// The laser that `compute_target_simple` names for its target.
    pub open spec fn spec_simple_index(self) -> int {
        let target = self.spec_simple_target();
        if target < SL_DEG - SHALF_DEG {
            LILL as int
        } else if target < SHALF_DEG {
            LIL as int
        } else if target > SR_DEG + SHALF_DEG {
            LIRR as int
        } else if target > SHALF_DEG {
            LIL as int
        } else {
            LIC as int
        }
    }

    /// The way out, in degrees, when the laser that sees farthest is not
    /// clear: hard to its side, and for the centre laser hard to the side
    /// that all five lasers lean to.
    pub open spec fn spec_extreme(self, best: int) -> int {
        if best < LIC {
            SLL_DEG as int
        } else if best > LIC {
            SRR_DEG as int
        } else if self.spec_simple_target() < 0 {
            SLL_DEG as int
        } else {
            SRR_DEG as int
        }
    }

    /// Whether `result` is the steering target: the direction, the laser
    /// that sees farthest, its status, and the window steered into, if any.
    pub open spec fn is_target(self, result: (Angle, usize, LaserStatus, Option<(usize, usize)>)) -> bool {
        let best = result.1 as int;
        &&& self.is_best_index(best)
        &&& result.2 == self.lasers[best].status
        &&& if result.2.spec_is_ok() {
            &&& result.3 matches Some(window)
            &&& self.is_open_window(best, window.0 as int, window.1 as int)
            &&& result.0@ == self.spec_window_target(window.0 as int, window.1 as int)
        } else {
            &&& result.3 is None
            &&& result.0@ == self.spec_extreme(best)
        }
    }

    /// Whether some laser reports less than the back distance of its place.
    pub open spec fn spec_back_panic(self, config: RaceConfig) -> bool {
        exists|i: int|
            0 <= i < NUM_LASER_POSITIONS && (#[trigger] self.lasers[i]).spec_value()
                < config.spec_back_distance(spec_layout_position(i))
    }

    /// The alert distance, as a signed number, for the laser at `index`.
    pub open spec fn spec_alert_for(config: RaceConfig, index: int) -> int {
        if index == LILL || index == LIRR {
            config.alert_distance_side_60 as int
        } else if index == LIL || index == LIR {
            config.alert_distance_side_30 as int
        } else if index == LIC {
            config.alert_distance_center as int
        } else {
            LASER_OVERFLOW as int
        }
    }

    /// The power for a target seen by the laser `target_index`: `max_speed`
    /// with no such laser or from its alert distance on, `min_speed` up to
    /// half that distance, and a linear rise in between.
    pub open spec fn spec_alert_power(self, config: RaceConfig, target_index: Option<usize>) -> int {
        match target_index {
            None => config.max_speed as int,
            Some(index) => {
                let distance = self.lasers[index as int].spec_value() as int;
                let alert = Vision::spec_alert_for(config, index as int);
                if distance >= alert {
                    config.max_speed as int
                } else {
                    let speed_span = config.max_speed - config.min_speed;
                    let alert_span = alert / 2;
                    let alert_delta = if distance > alert_span {
                        distance - alert_span
                    } else {
                        0
                    };
                    let speed_delta = if alert_span == 0 {
                        0
                    } else {
                        trunc_div(speed_span * alert_delta, alert_span)
                    };
                    saturate_i16(config.min_speed + speed_delta)
                }
            },
        }
    }

    /// Five lasers in their places that see nothing.
    pub fn new() -> (vision: Vision)
        ensures
            vision.well_placed(),
            forall|i: int|
                0 <= i < NUM_LASER_POSITIONS ==> #[trigger] vision.lasers[i] == (LaserData {
                    upper: LASER_OVERFLOW,
                    lower: LASER_OVERFLOW,
                    sign: spec_layout_sign(i) as i8,
                    position: spec_layout_position(i),
                    status: LaserStatus::Overflow,
                    slope: false,
                }),
    {
        Vision {
            lasers: [
                LaserData::new(-1, LaserSidePosition::Side60),
                LaserData::new(-1, LaserSidePosition::Side30),
                LaserData::new(0, LaserSidePosition::Center),
                LaserData::new(1, LaserSidePosition::Side30),
                LaserData::new(1, LaserSidePosition::Side60),
            ],
        }
    }

    /// Brings every laser up to date with a snapshot of readings.
    pub fn update(&mut self, raw_readings: &RawLaserReadings, config: &RaceConfig, pitch: Angle)
        ensures
            forall|i: int|
                0 <= i < NUM_LASER_POSITIONS ==> #[trigger] final(self).lasers[i] == old(
                    self,
                ).lasers[i].spec_update(
                    raw_readings.values@,
                    *config,
                    pitch@ <= normalize_deg(-config.spec_climbing_threshold()),
                ),
            old(self).well_placed() ==> final(self).well_placed(),
    {
        let mut i: usize = 0;
        while i < NUM_LASER_POSITIONS
            invariant
                i <= NUM_LASER_POSITIONS,
                forall|j: int|
                    0 <= j < i ==> #[trigger] self.lasers[j] == old(self).lasers[j].spec_update(
                        raw_readings.values@,
                        *config,
                        pitch@ <= normalize_deg(-config.spec_climbing_threshold()),
                    ),
                forall|j: int|
                    i <= j < NUM_LASER_POSITIONS ==> #[trigger] self.lasers[j] == old(
                        self,
                    ).lasers[j],
            decreases NUM_LASER_POSITIONS - i,
        {
            let mut laser: LaserData = self.lasers[i];
            laser.update(raw_readings, config, pitch);
            self.lasers[i] = laser;
            i = i + 1;
        }
    }

    /// The steering target.
    pub fn compute_target(&self) -> (result: (Angle, usize, LaserStatus, Option<(usize, usize)>))
        ensures
            self.is_target(result),
    {
        self.compute_target_with_windows()
    }

    /// The laser that sees farthest, the leftmost of several that see
    /// equally far.
    pub fn find_best_index(&self) -> (best: usize)
        ensures
            self.is_best_index(best as int),
    {
        let mut best_index: usize = 0;
        let mut best_value: u16 = 0;
        let mut i: usize = 0;
        while i < NUM_LASER_POSITIONS
            invariant
                i <= NUM_LASER_POSITIONS,
                i == 0 ==> best_index == 0 && best_value == 0,
                i > 0 ==> best_index < i && best_value == self.lasers[best_index as int].spec_value(),
                forall|j: int| 0 <= j < i ==> (#[trigger] self.lasers[j]).spec_value() <= best_value,
                forall|j: int|
                    0 <= j < best_index ==> (#[trigger] self.lasers[j]).spec_value() < best_value,
            decreases NUM_LASER_POSITIONS - i,
        {
            let value: u16 = self.lasers[i].value();
            if value > best_value {
                best_index = i;
                best_value = value;
            }
            i = i + 1;
        }
        best_index
    }

    /// The way out when the laser that sees farthest is not clear.
    pub fn find_best_extreme(&self, best_index: usize) -> (extreme: Angle)
        ensures
            extreme@ == self.spec_extreme(best_index as int),
    {
        if best_index < LIC {
            Angle::sll()
        } else if best_index > LIC {
            Angle::srr()
        } else {
            let simple = self.compute_target_simple();
            if simple.0.value() < 0 {
                Angle::sll()
            } else {
                Angle::srr()
            }
        }
    }

    /// The widest run of clear lasers round `best_index`.
    pub fn find_open_window(&self, best_index: usize) -> (window: (usize, usize))
        requires
            best_index < NUM_LASER_POSITIONS,
        ensures
            self.is_open_window(best_index as int, window.0 as int, window.1 as int),
    {
        let mut left_index: usize = best_index;
        let mut right_index: usize = best_index;
        while left_index > 0 && self.lasers[left_index - 1].status.is_ok()
            invariant
                left_index <= best_index < NUM_LASER_POSITIONS,
                forall|j: int|
                    left_index <= j < best_index ==> (#[trigger] self.lasers[j]).status.spec_is_ok(),
            decreases left_index,
        {
            left_index = left_index - 1;
        }
        while right_index < NUM_LASER_POSITIONS - 1 && self.lasers[right_index + 1].status.is_ok()
            invariant
                best_index <= right_index < NUM_LASER_POSITIONS,
                forall|j: int|
                    best_index < j <= right_index ==> (#[trigger] self.lasers[j]).status.spec_is_ok(),
            decreases NUM_LASER_POSITIONS - right_index,
        {
            right_index = right_index + 1;
        }
        (left_index, right_index)
    }

    /// The direction in which the laser at `index` looks.
    pub fn sensor_angle(&self, index: usize) -> (direction: Angle)
        requires
            index < NUM_LASER_POSITIONS,
        ensures
            direction@ == spec_sensor_deg(index as int),
    {
        if index == LILL {
            Angle::sll()
        } else if index == LIL {
            Angle::sl()
        } else if index == LIC {
            Angle::sc()
        } else if index == LIR {
            Angle::sr()
        } else {
            Angle::srr()
        }
    }

    /// The distance that the laser at `index` reports, as a weight.
    fn weight_at(&self, index: usize) -> (weight: i32)
        requires
            index < NUM_LASER_POSITIONS,
        ensures
            weight == self.spec_values()[index as int],
            weight == self.lasers[index as int].spec_value(),
    {
        self.lasers[index].value() as i32
    }

    /// The steering target: the weighted centre of the open window round the
    /// laser that sees farthest, or a way out hard to one side when that
    /// laser is not clear.
    pub fn compute_target_with_windows(&self) -> (result: (
        Angle,
        usize,
        LaserStatus,
        Option<(usize, usize)>,
    ))
        ensures
            self.is_target(result),
    {
        let best_index = self.find_best_index();
        let best_status = self.lasers[best_index].status;

        if best_status.is_ok() {
            let (window_left, window_right) = self.find_open_window(best_index);
            let from = self.sensor_angle(window_left);
            let to = self.sensor_angle(window_right);
            let ghost window = self.spec_values().subrange(window_left as int, window_right + 1);
            let width: usize = window_right - window_left + 1;
            let target = if width == 1 {
                self.sensor_angle(best_index)
            } else if width == 2 {
                let weights: [i32; 2] = [
                    self.weight_at(window_left),
                    self.weight_at(window_left + 1),
                ];
                assert(weights@ =~= window);
                interpolate(&weights, from, to)
            } else if width == 3 {
                let weights: [i32; 3] = [
                    self.weight_at(window_left),
                    self.weight_at(window_left + 1),
                    self.weight_at(window_left + 2),
                ];
                assert(weights@ =~= window);
                interpolate(&weights, from, to)
            } else if width == 4 {
                let weights: [i32; 4] = [
                    self.weight_at(window_left),
                    self.weight_at(window_left + 1),
                    self.weight_at(window_left + 2),
                    self.weight_at(window_left + 3),
                ];
                assert(weights@ =~= window);
                interpolate(&weights, from, to)
            } else {
                let weights: [i32; 5] = [
                    self.weight_at(0),
                    self.weight_at(1),
                    self.weight_at(2),
                    self.weight_at(3),
                    self.weight_at(4),
                ];
                assert(weights@ =~= window);
                interpolate(&weights, from, to)
            };
            (target, best_index, best_status, Some((window_left, window_right)))
        } else {
            (self.find_best_extreme(best_index), best_index, best_status, None)
        }
    }

    /// The target that all five lasers give together, whatever their
    /// status, with the laser that it names and that laser's status.
    pub fn compute_target_simple(&self) -> (result: (
        Angle,
        usize,
        LaserStatus,
        Option<(usize, usize)>,
    ))
        ensures
            result.0@ == self.spec_simple_target(),
            result.1 == self.spec_simple_index(),
            result.2 == self.lasers[result.1 as int].status,
            result.3 is None,
    {
        let weights: [i32; 5] = [
            self.weight_at(0),
            self.weight_at(1),
            self.weight_at(2),
            self.weight_at(3),
            self.weight_at(4),
        ];
        assert(weights@ =~= self.spec_values());
        let target = interpolate(&weights, Angle::sll(), Angle::srr());
        let degrees: i32 = target.value();
        let index: usize = if degrees < SL_DEG - SHALF_DEG {
            LILL
        } else if degrees < SHALF_DEG {
            LIL
        } else if degrees > SR_DEG + SHALF_DEG {
            LIRR
        } else if degrees > SHALF_DEG {
            LIL
        } else {
            LIC
        };
        (target, index, self.lasers[index].status, None)
    }

    /// Takes over the readings and the classification of every laser of `other`.
    pub fn copy_status(&mut self, other: &Vision)
        ensures
            forall|i: int|
                0 <= i < NUM_LASER_POSITIONS ==> #[trigger] final(self).lasers[i] == (LaserData {
                    sign: old(self).lasers[i].sign,
                    position: old(self).lasers[i].position,
                    ..other.lasers[i]
                }),
            old(self).well_placed() ==> final(self).well_placed(),
    {
        let mut i: usize = 0;
        while i < NUM_LASER_POSITIONS
            invariant
                i <= NUM_LASER_POSITIONS,
                forall|j: int|
                    0 <= j < i ==> #[trigger] self.lasers[j] == (LaserData {
                        sign: old(self).lasers[j].sign,
                        position: old(self).lasers[j].position,
                        ..other.lasers[j]
                    }),
                forall|j: int|
                    i <= j < NUM_LASER_POSITIONS ==> #[trigger] self.lasers[j] == old(
                        self,
                    ).lasers[j],
            decreases NUM_LASER_POSITIONS - i,
        {
            let mut laser: LaserData = self.lasers[i];
            laser.copy_status(&other.lasers[i]);
            self.lasers[i] = laser;
            i = i + 1;
        }
    }

    /// Whether some laser reports less than the back distance of its place.
    pub fn detect_back_panic(&self, config: &RaceConfig) -> (panic: bool)
        ensures
            panic == self.spec_back_panic(*config),
    {
        let side_60: u16 = i16_bits_as_u16(config.back_distance_side_60);
        let side_30: u16 = i16_bits_as_u16(config.back_distance_side_30);
        let center: u16 = i16_bits_as_u16(config.back_distance_center);
        let panic = self.lasers[LILL].value() < side_60 || self.lasers[LIRR].value() < side_60
            || self.lasers[LIL].value() < side_30 || self.lasers[LIR].value() < side_30
            || self.lasers[LIC].value() < center;
        proof {
            if panic {
                let i: int = if self.lasers[0].spec_value() < side_60 {
                    0
                } else if self.lasers[4].spec_value() < side_60 {
                    4
                } else if self.lasers[1].spec_value() < side_30 {
                    1
                } else if self.lasers[3].spec_value() < side_30 {
                    3
                } else {
                    2
                };
                assert(self.lasers[i].spec_value() < config.spec_back_distance(
                    spec_layout_position(i),
                ));
            }
        }
        panic
    }

    /// The power for a target seen by the laser `target_index`.
    pub fn compute_alert_power(&self, config: &RaceConfig, target_index: Option<usize>) -> (power:
        i16)
        requires
            target_index matches Some(index) ==> index < NUM_LASER_POSITIONS,
        ensures
            power == self.spec_alert_power(*config, target_index),
    {
        match target_index {
            Some(index) => {
                let distance: i64 = self.lasers[index].value() as i64;
                let alert: i64 = if index == LILL || index == LIRR {
                    config.alert_distance_side_60 as i64
                } else if index == LIL || index == LIR {
                    config.alert_distance_side_30 as i64
                } else {
                    config.alert_distance_center as i64
                };
                if distance >= alert {
                    config.max_speed
                } else {
                    let speed_span: i64 = config.max_speed as i64 - config.min_speed as i64;
                    let alert_span: i64 = alert / 2;
                    let alert_delta: i64 = if distance > alert_span {
                        distance - alert_span
                    } else {
                        0
                    };
                    assert(-0x1_0000_0000 <= speed_span * alert_delta <= 0x1_0000_0000)
                        by (nonlinear_arith)
                        requires
                            0 <= alert_delta <= 0x1_0000,
                            -0x1_0000 <= speed_span <= 0x1_0000,
                    ;
                    let speed_delta: i64 = if alert_span == 0 {
                        0
                    } else {
                        proof {
                            crate::arith::lemma_trunc_div_shrinks(
                                speed_span * alert_delta,
                                alert_span as int,
                            );
                        }
                        i64_div(speed_span * alert_delta, alert_span)
                    };
                    i64_to_i16_saturating(config.min_speed as i64 + speed_delta)
                }
            },
            None => config.max_speed,
        }
    }
}

/// The pull of `values` toward the far end of their row, scaled by their
/// sum, and that sum. Both saturate at the ends of the `i32` range.
pub fn weighted_average<const N: usize>(values: &[i32; N]) -> (result: (i32, i32))
    requires
        N <= i32::MAX,
    ensures
        result.0 == spec_weighted_average(values@).0,
        result.1 == spec_weighted_average(values@).1,
{
    if N < 1 {
        return (0, 1);
    }
    if N < 2 {
        return (0, values[0]);
    }
    let center_double: i128 = N as i128 - 1;
    let mut sum: i128 = 0;
    let mut tilt: i128 = 0;
    let mut i: usize = 0;
    while i < N
        invariant
            i <= N,
            2 <= N <= i32::MAX,
            center_double == N - 1,
            sum == spec_sum(values@.take(i as int)),
            tilt == spec_tilt(values@.take(i as int), N as int),
            -i * 0x8000_0000 <= sum <= i * 0x8000_0000,
            -i * 0x4000_0000_0000_0000 <= tilt <= i * 0x4000_0000_0000_0000,
        decreases N - i,
    {
        let value: i128 = values[i] as i128;
        let weight: i128 = 2 * (i as i128) - center_double;
        assert(-0x4000_0000_0000_0000 <= value * weight <= 0x4000_0000_0000_0000)
            by (nonlinear_arith)
            requires
                -0x8000_0000 <= value <= 0x8000_0000,
                -0x8000_0000 <= weight <= 0x8000_0000,
        ;
        proof {
            let next = values@.take(i + 1);
            assert(next.drop_last() =~= values@.take(i as int));
            assert(next.last() == values@[i as int]);
        }
        sum = sum + value;
        tilt = tilt + value * weight;
        i = i + 1;
    }
    assert(values@.take(N as int) =~= values@);
    if sum == 0 {
        return (0, 1);
    }
    proof {
        crate::arith::lemma_trunc_div_shrinks(tilt as int, center_double as int);
    }
    let average: i128 = if tilt < 0 {
        -((-tilt) / center_double)
    } else {
        tilt / center_double
    };
    (i128_to_i32_saturating(average), i128_to_i32_saturating(sum))
}

/// The direction between `from` and `to` toward which `weights` pull.
pub fn interpolate<const N: usize>(weights: &[i32; N], from: Angle, to: Angle) -> (target: Angle)
    requires
        N <= i32::MAX,
    ensures
        target@ == spec_interpolate(weights@, from@, to@),
{
    let from_deg: i64 = from.value() as i64;
    let to_deg: i64 = to.value() as i64;
    let (weight, sum) = weighted_average(weights);
    let middle2: i64 = from_deg + to_deg;
    let side2: i64 = to_deg - from_deg;
    assert(-0x100_0000_0000 <= weight * side2 <= 0x100_0000_0000) by (nonlinear_arith)
        requires
            -0x8000_0000 <= weight <= 0x8000_0000,
            -360 <= side2 <= 360,
    ;
    let normalized_side2: i64 = if sum == 0 {
        0
    } else {
        proof {
            crate::arith::lemma_trunc_div_shrinks(weight * side2, sum as int);
        }
        i64_div(weight as i64 * side2, sum as i64)
    };
    let normalized: i64 = i64_div(middle2 + normalized_side2, 2);
    proof {
        crate::arith::lemma_trunc_div_shrinks(middle2 + normalized_side2, 2);
    }
    Angle::from(i128_to_i32_saturating(normalized as i128))
}

/// Whether `index` lies inside the window `borders`.
pub fn is_in_window(index: usize, borders: Option<(usize, usize)>) -> (inside: bool)
    ensures
        inside == (borders matches Some(window) && window.0 <= index <= window.1),
{
    match borders {
        Some((left, right)) => index >= left && index <= right,
        None => false,
    }
}

/// The class of a distance never gets more dangerous as the distance grows.
pub proof fn lemma_status_monotonic(
    nearer: u16,
    farther: u16,
    position: LaserSidePosition,
    config: RaceConfig,
)
    requires
        nearer <= farther,
    ensures
        LaserStatus::spec_from_value(nearer, position, config).rank()
            <= LaserStatus::spec_from_value(farther, position, config).rank(),
{
}

/// With the back distance no more than the alert distance, and that no more
/// than the overflow distance, the four classes split the distances into
/// four bands in that order.
pub proof fn lemma_status_bands(value: u16, position: LaserSidePosition, config: RaceConfig)
    requires
        config.spec_back_distance(position) <= config.spec_alert_distance(position)
            <= LASER_OVERFLOW,
    ensures
        value < config.spec_back_distance(position) <==> LaserStatus::spec_from_value(
            value,
            position,
            config,
        ) == LaserStatus::Back,
        config.spec_back_distance(position) <= value < config.spec_alert_distance(position)
            <==> LaserStatus::spec_from_value(value, position, config) == LaserStatus::Alert,
        config.spec_alert_distance(position) <= value < LASER_OVERFLOW
            <==> LaserStatus::spec_from_value(value, position, config) == LaserStatus::Regular,
        value >= LASER_OVERFLOW <==> LaserStatus::spec_from_value(value, position, config)
            == LaserStatus::Overflow,
{
}


/// The steering target is determined: two results that both meet
/// `is_target` name the same direction, laser, status and window.
pub proof fn lemma_target_unique(
    vision: Vision,
    first: (Angle, usize, LaserStatus, Option<(usize, usize)>),
    second: (Angle, usize, LaserStatus, Option<(usize, usize)>),
)
    requires
        vision.is_target(first),
        vision.is_target(second),
    ensures
        first.0@ == second.0@,
        first.1 == second.1,
        first.2 == second.2,
        first.3 == second.3,
{
    lemma_best_index_unique(vision, first.1 as int, second.1 as int);
    if first.2.spec_is_ok() {
        let a = first.3->Some_0;
        let b = second.3->Some_0;
        lemma_open_window_unique(
            vision,
            first.1 as int,
            a.0 as int,
            a.1 as int,
            b.0 as int,
            b.1 as int,
        );
    }
}

/// Only one laser is the leftmost of those that see farthest.
pub proof fn lemma_best_index_unique(vision: Vision, first: int, second: int)
    requires
        vision.is_best_index(first),
        vision.is_best_index(second),
    ensures
        first == second,
{
    if first < second {
        assert(vision.lasers[first].spec_value() < vision.lasers[second].spec_value());
        assert(vision.lasers[second].spec_value() <= vision.lasers[first].spec_value());
    } else if second < first {
        assert(vision.lasers[second].spec_value() < vision.lasers[first].spec_value());
        assert(vision.lasers[first].spec_value() <= vision.lasers[second].spec_value());
    }
}

/// Only one run of lasers is the open window round a clear laser.
pub proof fn lemma_open_window_unique(
    vision: Vision,
    best: int,
    left_a: int,
    right_a: int,
    left_b: int,
    right_b: int,
)
    requires
        vision.lasers[best].status.spec_is_ok(),
        vision.is_open_window(best, left_a, right_a),
        vision.is_open_window(best, left_b, right_b),
    ensures
        left_a == left_b,
        right_a == right_b,
{
    if left_a < left_b {
        assert(vision.lasers[left_b - 1].status.spec_is_ok());
    } else if left_b < left_a {
        assert(vision.lasers[left_a - 1].status.spec_is_ok());
    }
    if right_a < right_b {
        assert(vision.lasers[right_a + 1].status.spec_is_ok());
    } else if right_b < right_a {
        assert(vision.lasers[right_b + 1].status.spec_is_ok());
    }
}

/// Five clear lasers that all report the same distance steer straight
/// ahead: the far-left laser counts as the one that sees farthest, the
/// window is the whole row, and the target is 0 degrees.
pub proof fn lemma_equal_values_steer_straight(
    vision: Vision,
    result: (Angle, usize, LaserStatus, Option<(usize, usize)>),
)
    requires
        vision.is_target(result),
        forall|i: int|
            0 <= i < NUM_LASER_POSITIONS ==> (#[trigger] vision.lasers[i]).spec_value()
                == vision.lasers[0].spec_value(),
        forall|i: int|
            0 <= i < NUM_LASER_POSITIONS ==> (#[trigger] vision.lasers[i]).status.spec_is_ok(),
    ensures
        result.0@ == 0,
        result.1 == 0,
        result.3 == Some((0usize, 4usize)),
{
    assert(vision.is_best_index(0));
    lemma_best_index_unique(vision, 0, result.1 as int);
    assert(vision.lasers[0].status.spec_is_ok());
    assert(vision.is_open_window(0, 0, 4));
    let window = result.3->Some_0;
    lemma_open_window_unique(vision, 0, 0, 4, window.0 as int, window.1 as int);
    let values = vision.spec_values();
    assert(values.subrange(0, 5) =~= values);
    lemma_balanced_row(values);
}

/// A row of five equal values pulls to neither side.
proof fn lemma_balanced_row(values: Seq<i32>)
    requires
        values.len() == 5,
        forall|i: int| 0 <= i < 5 ==> #[trigger] values[i] == values[0],
    ensures
        spec_weighted_average(values).0 == 0,
        spec_interpolate(values, SLL_DEG as int, SRR_DEG as int) == 0,
{
    let v = values[0] as int;
    let s4 = values.drop_last();
    let s3 = s4.drop_last();
    let s2 = s3.drop_last();
    let s1 = s2.drop_last();
    assert(s1.drop_last().len() == 0);
    assert(values.last() == v && s4.last() == v && s3.last() == v && s2.last() == v && s1.last()
        == v) by {
        assert(values[4] == values[0]);
        assert(values[3] == values[0]);
        assert(values[2] == values[0]);
        assert(values[1] == values[0]);
    }
    reveal_with_fuel(spec_tilt, 6);
    assert(spec_tilt(values, 5) == v * 4 + v * 2 + v * 0 + v * (-2) + v * (-4));
    assert(spec_tilt(values, 5) == 0) by (nonlinear_arith)
        requires
            spec_tilt(values, 5) == v * 4 + v * 2 + v * 0 + v * (-2) + v * (-4),
    ;
}

/// Every weight of a row of `n` places is at most `n - 1` in magnitude, so
/// values that are not negative pull by no more than `n - 1` times their sum.
pub proof fn lemma_tilt_bounded(values: Seq<i32>, n: int)
    requires
        values.len() <= n,
        forall|i: int| 0 <= i < values.len() ==> #[trigger] values[i] >= 0,
    ensures
        spec_sum(values) >= 0,
        -(n - 1) * spec_sum(values) <= spec_tilt(values, n) <= (n - 1) * spec_sum(values),
    decreases values.len(),
{
    if values.len() > 0 {
        let rest = values.drop_last();
        assert(forall|i: int| 0 <= i < rest.len() ==> #[trigger] rest[i] == values[i]);
        lemma_tilt_bounded(rest, n);
        let v = values.last() as int;
        let w = 2 * (values.len() - 1) - (n - 1);
        let s = spec_sum(rest);
        assert(v >= 0);
        assert(-(n - 1) * v <= v * w <= (n - 1) * v) by (nonlinear_arith)
            requires
                v >= 0,
                -(n - 1) <= w <= n - 1,
        ;
        assert((n - 1) * (s + v) == (n - 1) * s + (n - 1) * v) by (nonlinear_arith);
        assert(-(n - 1) * (s + v) == -(n - 1) * s + (-(n - 1) * v)) by (nonlinear_arith);
        assert(-(n - 1) * s == -((n - 1) * s)) by (nonlinear_arith);
    } else {
        assert((n - 1) * 0 == 0) by (nonlinear_arith);
    }
}

/// Weights that are not negative give a direction between the two bounds.
pub proof fn lemma_interpolate_between(weights: Seq<i32>, from: int, to: int)
    requires
        -180 < from <= to <= 180,
        forall|i: int| 0 <= i < weights.len() ==> #[trigger] weights[i] >= 0,
        spec_sum(weights) <= i32::MAX,
    ensures
        from <= spec_interpolate(weights, from, to) <= to,
{
    let n = weights.len() as int;
    let (weight, sum) = spec_weighted_average(weights);
    let side2 = to - from;
    let pull = if sum == 0 {
        0
    } else {
        trunc_div(weight * side2, sum)
    };
    lemma_tilt_bounded(weights, n);
    if n >= 2 && spec_sum(weights) != 0 {
        let total = spec_sum(weights);
        let tilt = spec_tilt(weights, n);
        assert(-(n - 1) * total == -((n - 1) * total)) by (nonlinear_arith);
        crate::arith::lemma_trunc_div_within(tilt, n - 1, total);
        assert(sum == total);
        assert(-total <= weight <= total);
        assert(-(total * side2) <= weight * side2 <= total * side2) by (nonlinear_arith)
            requires
                -total <= weight <= total,
                side2 >= 0,
        ;
        crate::arith::lemma_trunc_div_within(weight * side2, total, side2);
    } else {
        assert(weight == 0);
        assert(weight * side2 == 0) by (nonlinear_arith)
            requires
                weight == 0,
        ;
        if sum != 0 {
            assert(sum > 0) by {
                if n == 1 {
                    assert(weights[0] >= 0);
                }
            }
            assert(sum * 0 == 0) by (nonlinear_arith);
            crate::arith::lemma_trunc_div_within(0, sum, 0);
        }
    }
    assert(-side2 <= pull <= side2);
    let doubled = from + to + pull;
    assert(trunc_div(doubled, 2) == if doubled >= 0 {
        doubled / 2
    } else {
        -((-doubled) / 2)
    });
}

/// A centre laser that reports less than the centre's back distance calls
/// for a reverse, and lasers that all report at least the back distance
/// of their place call for none.
pub proof fn lemma_back_panic_trigger(vision: Vision, config: RaceConfig)
    ensures
        vision.lasers[CENTER_LASER as int].spec_value() < config.spec_back_distance(
            LaserSidePosition::Center,
        ) ==> vision.spec_back_panic(config),
        (forall|i: int|
            0 <= i < NUM_LASER_POSITIONS ==> (#[trigger] vision.lasers[i]).spec_value()
                >= config.spec_back_distance(spec_layout_position(i))) ==> !vision.spec_back_panic(
            config,
        ),
{
    if vision.lasers[CENTER_LASER as int].spec_value() < config.spec_back_distance(
        LaserSidePosition::Center,
    ) {
        assert(spec_layout_position(2) == LaserSidePosition::Center);
        assert(vision.lasers[2].spec_value() < config.spec_back_distance(spec_layout_position(2)));
    }
}

/// After a snapshot of readings, the centre laser reports the overflow
/// distance on a slope and else the shorter of the readings of channels 2
/// and 7, each limited to the overflow distance.
pub proof fn lemma_centre_reading(
    laser: LaserData,
    values: Seq<u16>,
    config: RaceConfig,
    downhill: bool,
)
    requires
        laser.position == LaserSidePosition::Center,
        values.len() == RAW_LASERS_COUNT,
    ensures
        laser.spec_update(values, config, downhill).spec_value() == if laser.spec_update(
            values,
            config,
            downhill,
        ).slope {
            LASER_OVERFLOW
        } else if spec_capped(values[7]) <= spec_capped(values[2]) {
            spec_capped(values[7])
        } else {
            spec_capped(values[2])
        },
        laser.spec_update(values, config, downhill).slope == spec_slope(
            values[7] as int,
            values[2] as int,
            reinterpret_u16(config.slope_distance_delta as int),
            downhill,
        ),
{
}

} // verus!
