//! The colour of the floor: hue, saturation and value of a measurement,
//! and for how long red and green have or have not been seen.

use crate::arith::{i64_div, trunc_div};
use crate::tcs3472::AllChannelMeasurement;
use crate::time::Duration;
use vstd::prelude::*;

verus! {

/// Steps that one degree of hue is worked out in.
pub const HUE_DEGREE: i32 = 512;

/// Hue, in degrees, of the red marks.
pub const RED_HUE: i32 = 1;

/// Least saturation of the red marks.
pub const RED_SAT: i32 = 90;

/// Hue, in degrees, of the green marks.
pub const GREEN_HUE: i32 = 110;

/// Least saturation of the green marks.
pub const GREEN_SAT: i32 = 40;

/// Least value of a mark of either colour.
pub const MIN_VAL: i32 = 40;

/// Degrees of hue that a mark may be off its colour.
pub const HUE_DELTA: i32 = 15;

/// Microseconds that a colour must have been seen for to count.
pub const DETECT_COLOR_AT_LEAST_FOR_MICROS: u64 = 10_000;

/// Microseconds within which the other colour must have been seen.
pub const DETECT_CROSS_AT_MOST_SINCE_MICROS: u64 = 1_500_000;

/// Microseconds at which the times of the colours stop counting.
pub const DURATION_MAX_MICROS: u64 = 60_000_000;

/// Shortest time, in microseconds, between two measurements.
pub const MIN_DT_MICROS: u64 = 2_000;

/// The largest of three numbers.
pub open spec fn spec_max3(r: int, g: int, b: int) -> int {
    if r >= g && r >= b {
        r
    } else if g >= b {
        g
    } else {
        b
    }
}

/// The smallest of three numbers.
pub open spec fn spec_min3(r: int, g: int, b: int) -> int {
    if r <= g && r <= b {
        r
    } else if g <= b {
        g
    } else {
        b
    }
}

/// The hue of a colour that is not grey, in steps of `1 / HUE_DEGREE`
/// degrees from 0 to just under 360 degrees: the sixth of the circle that
/// the strongest channel names, moved by the balance of the other two.
pub open spec fn spec_hue_steps(r: int, g: int, b: int) -> int {
    let max = spec_max3(r, g, b);
    let delta = max - spec_min3(r, g, b);
    let h = if r == max {
        trunc_div((g - b) * 60 * HUE_DEGREE, delta)
    } else if g == max {
        trunc_div((b - r) * 60 * HUE_DEGREE, delta) + 120 * HUE_DEGREE
    } else {
        trunc_div((r - g) * 60 * HUE_DEGREE, delta) + 240 * HUE_DEGREE
    };
    if h < 0 {
        h + 360 * HUE_DEGREE
    } else {
        h
    }
}

/// Hue in degrees, saturation up to 256 and value of a colour. Grey has
/// no hue, told by -1, and no saturation.
pub open spec fn spec_rgb2hsv(r: int, g: int, b: int) -> (int, int, int) {
    let max = spec_max3(r, g, b);
    let delta = max - spec_min3(r, g, b);
    if delta == 0 {
        (-1, 0, max)
    } else {
        (spec_hue_steps(r, g, b) / (HUE_DEGREE as int), trunc_div(256 * delta - 8, max), max)
    }
}

/// Whether hue, saturation and value are those of a red mark.
pub open spec fn spec_red_matches(h: int, s: int, v: int) -> bool {
    (h >= 0 && h <= RED_HUE + HUE_DELTA || h >= RED_HUE + 360 - HUE_DELTA) && s >= RED_SAT && v
        >= MIN_VAL
}

/// Whether hue, saturation and value are those of a green mark.
pub open spec fn spec_green_matches(h: int, s: int, v: int) -> bool {
    h >= GREEN_HUE - HUE_DELTA && h <= GREEN_HUE + HUE_DELTA && s >= GREEN_SAT && v >= MIN_VAL
}

/// Hue, saturation and value of a colour given by its three channels.
pub fn rgb2hsv(r: i32, g: i32, b: i32) -> (hsv: (i32, i32, i32))
    requires
        0 <= r,
        0 <= g,
        0 <= b,
    ensures
        hsv.0 == spec_rgb2hsv(r as int, g as int, b as int).0,
        hsv.1 == spec_rgb2hsv(r as int, g as int, b as int).1,
        hsv.2 == spec_rgb2hsv(r as int, g as int, b as int).2,
        -1 <= hsv.0 < 360,
        0 <= hsv.1 <= 256,
        hsv.2 == spec_max3(r as int, g as int, b as int),
{
    let max: i32 = if r >= g && r >= b {
        r
    } else if g >= b {
        g
    } else {
        b
    };
    let min: i32 = if r <= g && r <= b {
        r
    } else if g <= b {
        g
    } else {
        b
    };
    let delta: i32 = max - min;
    if delta == 0 {
        (-1, 0, max)
    } else {
        let sixth: i64 = 60 * (HUE_DEGREE as i64);
        let (balance, base): (i64, i64) = if r == max {
            (g as i64 - b as i64, 0)
        } else if g == max {
            (b as i64 - r as i64, 120 * (HUE_DEGREE as i64))
        } else {
            (r as i64 - g as i64, 240 * (HUE_DEGREE as i64))
        };
        proof {
            lemma_balance_share(balance as int, delta as int, sixth as int);
        }
        let turned: i64 = i64_div(balance * sixth, delta as i64) + base;
        let h: i64 = if turned < 0 {
            turned + 360 * (HUE_DEGREE as i64)
        } else {
            turned
        };
        proof {
            lemma_saturation_share(delta as int, max as int);
        }
        let s: i64 = i64_div(256 * (delta as i64) - 8, max as i64);
        ((h / (HUE_DEGREE as i64)) as i32, s as i32, max)
    }
}

/// A balance of two channels is at most the spread of the three, so its
/// share of a sixth of the circle is at most that sixth either way.
proof fn lemma_balance_share(balance: int, delta: int, sixth: int)
    requires
        0 < delta <= 0x8000_0000,
        -delta <= balance <= delta,
        0 < sixth <= 0x1_0000,
    ensures
        -sixth <= trunc_div(balance * sixth, delta) <= sixth,
        -0x8000_0000_0000 <= balance * sixth <= 0x8000_0000_0000,
        (balance * 60) * HUE_DEGREE == balance * (60 * (HUE_DEGREE as int)),
{
    assert(-(delta * sixth) <= balance * sixth <= delta * sixth) by (nonlinear_arith)
        requires
            -delta <= balance <= delta,
            0 < sixth,
    ;
    assert(delta * sixth <= 0x8000_0000 * 0x1_0000) by (nonlinear_arith)
        requires
            0 < delta <= 0x8000_0000,
            0 < sixth <= 0x1_0000,
    ;
    crate::arith::lemma_trunc_div_within(balance * sixth, delta, sixth);
    assert((balance * 60) * HUE_DEGREE == balance * (60 * (HUE_DEGREE as int)))
        by (nonlinear_arith);
}

/// The spread of the channels is at most the strongest of them, so the
/// saturation is at most 256.
proof fn lemma_saturation_share(delta: int, max: int)
    requires
        0 < delta <= max,
    ensures
        0 <= trunc_div(256 * delta - 8, max) <= 256,
{
    assert(256 * delta - 8 <= max * 256) by (nonlinear_arith)
        requires
            0 < delta <= max,
    ;
    crate::arith::lemma_trunc_div_within(256 * delta - 8, max, 256);
    crate::arith::lemma_trunc_div_shrinks(256 * delta - 8, max);
}

/// Whether hue, saturation and value are those of a red mark.
pub fn red_matches(h: i32, s: i32, v: i32) -> (matches: bool)
    ensures
        matches == spec_red_matches(h as int, s as int, v as int),
{
    (h >= 0 && h <= RED_HUE + HUE_DELTA || h >= RED_HUE + 360 - HUE_DELTA) && s >= RED_SAT && v
        >= MIN_VAL
}

/// Whether hue, saturation and value are those of a green mark.
pub fn green_matches(h: i32, s: i32, v: i32) -> (matches: bool)
    ensures
        matches == spec_green_matches(h as int, s as int, v as int),
{
    h >= GREEN_HUE - HUE_DELTA && h <= GREEN_HUE + HUE_DELTA && s >= GREEN_SAT && v >= MIN_VAL
}

/// One measurement of the floor's colour with the times of red and green.
#[derive(Clone, Copy, Debug, PartialEq, Eq, Structural)]
pub struct RgbEvent {
    pub dt: Duration,
    pub r: u16,
    pub g: u16,
    pub b: u16,
    pub l: u16,
    pub h: u16,
    pub s: u16,
    pub v: u16,
    pub not_red_for: Duration,
    pub not_green_for: Duration,
    pub last_red_for: Duration,
    pub last_green_for: Duration,
}

impl RgbEvent {
    /// Whether red is seen right now.
    pub open spec fn spec_is_red(self) -> bool {
        self.not_red_for.micros == 0
    }

    /// Whether green is seen right now.
    pub open spec fn spec_is_green(self) -> bool {
        self.not_green_for.micros == 0
    }

    /// Whether the vehicle has crossed from green to red, and so goes the
    /// wrong way round: red is seen and has been for long enough, and
    /// green was seen for long enough not long ago.
    pub open spec fn spec_detect_inversion(self) -> bool {
        &&& self.spec_is_red()
        &&& self.last_red_for.micros >= DETECT_COLOR_AT_LEAST_FOR_MICROS
        &&& self.not_green_for.micros <= DETECT_CROSS_AT_MOST_SINCE_MICROS
        &&& self.last_green_for.micros >= DETECT_COLOR_AT_LEAST_FOR_MICROS
    }

    /// Whether the vehicle has crossed from red to green, the right way round.
    pub open spec fn spec_detect_good_cross(self) -> bool {
        &&& self.spec_is_green()
        &&& self.last_green_for.micros >= DETECT_COLOR_AT_LEAST_FOR_MICROS
        &&& self.not_red_for.micros <= DETECT_CROSS_AT_MOST_SINCE_MICROS
        &&& self.last_red_for.micros >= DETECT_COLOR_AT_LEAST_FOR_MICROS
    }

    /// Whether red is seen right now.
    pub fn is_red(&self) -> (red: bool)
        ensures
            red == self.spec_is_red(),
    {
        self.not_red_for.micros == 0
    }

    /// Whether green is seen right now.
    pub fn is_green(&self) -> (green: bool)
        ensures
            green == self.spec_is_green(),
    {
        self.not_green_for.micros == 0
    }

    /// Whether the vehicle has crossed from green to red.
    pub fn detect_inversion(&self) -> (inversion: bool)
        ensures
            inversion == self.spec_detect_inversion(),
    {
        self.is_red() && self.last_red_for.micros >= DETECT_COLOR_AT_LEAST_FOR_MICROS
            && self.not_green_for.micros <= DETECT_CROSS_AT_MOST_SINCE_MICROS
            && self.last_green_for.micros >= DETECT_COLOR_AT_LEAST_FOR_MICROS
    }

    /// Whether the vehicle has crossed from red to green.
    pub fn detect_good_cross(&self) -> (cross: bool)
        ensures
            cross == self.spec_detect_good_cross(),
    {
        self.is_green() && self.last_green_for.micros >= DETECT_COLOR_AT_LEAST_FOR_MICROS
            && self.not_red_for.micros <= DETECT_CROSS_AT_MOST_SINCE_MICROS
            && self.last_red_for.micros >= DETECT_COLOR_AT_LEAST_FOR_MICROS
    }
}

/// For how long one colour has not been seen, and for how long it was
/// seen when it last was.
#[derive(Clone, Copy, Debug, PartialEq, Eq, Structural)]
pub struct ColorTimes {
    pub not_seen_for: Duration,
    pub last_seen_for: Duration,
}

/// `span + dt`, counting no further than a minute.
pub open spec fn spec_counted(span: Duration, dt: Duration) -> Duration {
    let sum = span.spec_saturating_add(dt);
    if sum.micros > DURATION_MAX_MICROS {
        Duration { micros: DURATION_MAX_MICROS }
    } else {
        sum
    }
}

impl ColorTimes {
    /// The times after a measurement `dt` after the one before: while
    /// the colour is seen, the time it has been seen for grows, from
    /// nothing where it was not seen before; while it is not seen, the
    /// time it has not been seen for grows.
    pub open spec fn spec_after(self, seen: bool, dt: Duration) -> ColorTimes {
        if seen {
            ColorTimes {
                not_seen_for: Duration { micros: 0 },
                last_seen_for: spec_counted(
                    if self.not_seen_for.micros > 0 {
                        Duration { micros: 0 }
                    } else {
                        self.last_seen_for
                    },
                    dt,
                ),
            }
        } else {
            ColorTimes { not_seen_for: spec_counted(self.not_seen_for, dt), ..self }
        }
    }

    /// The times of a colour that has not been seen yet.
    pub fn new() -> (times: ColorTimes)
        ensures
            times == (ColorTimes {
                not_seen_for: Duration { micros: DURATION_MAX_MICROS },
                last_seen_for: Duration { micros: 0 },
            }),
    {
        ColorTimes {
            not_seen_for: Duration::from_micros(DURATION_MAX_MICROS),
            last_seen_for: Duration::from_micros(0),
        }
    }

    /// Takes in a measurement made `dt` after the one before.
    pub fn update(&mut self, seen: bool, dt: Duration)
        ensures
            *final(self) == old(self).spec_after(seen, dt),
    {
        let cap = Duration::from_micros(DURATION_MAX_MICROS);
        if seen {
            if self.not_seen_for.micros > 0 {
                self.last_seen_for = Duration::from_micros(0);
            }
            self.last_seen_for = self.last_seen_for.saturating_add(dt).at_most(cap);
            self.not_seen_for = Duration::from_micros(0);
        } else {
            self.not_seen_for = self.not_seen_for.saturating_add(dt).at_most(cap);
        }
    }
}

/// The low 16 bits of a number that fits in 17 bits either way.
pub open spec fn spec_low_u16(value: int) -> u16 {
    if value < 0 {
        (value + 0x1_0000) as u16
    } else {
        value as u16
    }
}

/// The times of red and of green.
#[derive(Clone, Copy, Debug, PartialEq, Eq, Structural)]
pub struct RgbTracker {
    pub red: ColorTimes,
    pub green: ColorTimes,
}

impl RgbTracker {
    /// The times of two colours that have not been seen yet.
    pub fn new() -> (tracker: RgbTracker)
        ensures
            tracker.red == (ColorTimes {
                not_seen_for: Duration { micros: DURATION_MAX_MICROS },
                last_seen_for: Duration { micros: 0 },
            }),
            tracker.green == tracker.red,
    {
        RgbTracker { red: ColorTimes::new(), green: ColorTimes::new() }
    }

    /// Takes a measurement made `dt` after the one before and tells what
    /// it shows.
    pub fn process(&mut self, rgbc: AllChannelMeasurement, dt: Duration) -> (event: RgbEvent)
        ensures
            ({
                let hsv = spec_rgb2hsv(rgbc.red as int, rgbc.green as int, rgbc.blue as int);
                &&& final(self).red == old(self).red.spec_after(
                    spec_red_matches(hsv.0, hsv.1, hsv.2),
                    dt,
                )
                &&& final(self).green == old(self).green.spec_after(
                    spec_green_matches(hsv.0, hsv.1, hsv.2),
                    dt,
                )
                &&& event == (RgbEvent {
                    dt,
                    r: rgbc.red,
                    g: rgbc.green,
                    b: rgbc.blue,
                    l: rgbc.clear,
                    h: spec_low_u16(hsv.0),
                    s: hsv.1 as u16,
                    v: hsv.2 as u16,
                    not_red_for: final(self).red.not_seen_for,
                    not_green_for: final(self).green.not_seen_for,
                    last_red_for: final(self).red.last_seen_for,
                    last_green_for: final(self).green.last_seen_for,
                })
            }),
    {
        let (h, s, v) = rgb2hsv(rgbc.red as i32, rgbc.green as i32, rgbc.blue as i32);
        self.red.update(red_matches(h, s, v), dt);
        self.green.update(green_matches(h, s, v), dt);
        RgbEvent {
            dt,
            r: rgbc.red,
            g: rgbc.green,
            b: rgbc.blue,
            l: rgbc.clear,
            h: if h < 0 {
                (h + 0x1_0000) as u16
            } else {
                h as u16
            },
            s: s as u16,
            v: v as u16,
            not_red_for: self.red.not_seen_for,
            not_green_for: self.green.not_seen_for,
            last_red_for: self.red.last_seen_for,
            last_green_for: self.green.last_seen_for,
        }
    }
}

} // verus!
