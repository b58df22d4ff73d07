//! What the display shows: five rows of text, numbers or gauges above five
//! columns, one for each laser.

use crate::angle::Angle;
use crate::arith::{abs_int, i64_div, trunc_div};
use crate::rgb::RgbEvent;
use crate::vision::{LaserData, LaserStatus, Vision, LASER_OVERFLOW};
use vstd::prelude::*;

verus! {

/// Number of rows, and of columns.
pub const STATES_COUNT: usize = 5;

/// Height of a row in pixels.
pub const VISUAL_STATE_H_HEIGHT: i32 = 24;

/// Width of a row in pixels.
pub const VISUAL_STATE_H_WIDTH: i32 = 135;

/// Height of a column in pixels.
pub const VISUAL_STATE_V_HEIGHT: i32 = 120;

/// Width of a column in pixels.
pub const VISUAL_STATE_V_WIDTH: i32 = 27;

/// Full scale of the gauge that shows the steering angle.
pub const STEER_GAUGE_MAX: i16 = 35;

/// Full scale of the gauge that shows the target.
pub const TARGET_GAUGE_MAX: i16 = 60;

/// The colours that the display is asked for.
#[derive(Clone, Copy, Debug, PartialEq, Eq, Structural)]
pub enum Color {
    Black,
    White,
    Red,
    Green,
    Blue,
    Yellow,
}

/// The colour that stands for a laser's status.
pub open spec fn spec_status_color(status: LaserStatus) -> Color {
    match status {
        LaserStatus::Back => Color::Red,
        LaserStatus::Alert => Color::Yellow,
        LaserStatus::Regular => Color::Blue,
        LaserStatus::Overflow => Color::Green,
    }
}

/// The colour that stands for a laser's status.
pub fn status_color(status: LaserStatus) -> (color: Color)
    ensures
        color == spec_status_color(status),
{
    match status {
        LaserStatus::Back => Color::Red,
        LaserStatus::Alert => Color::Yellow,
        LaserStatus::Regular => Color::Blue,
        LaserStatus::Overflow => Color::Green,
    }
}

/// What one row shows.
#[allow(inconsistent_fields)]
#[derive(Clone, Copy, Debug, PartialEq, Eq)]
pub enum VisualStateH {
    Empty,
    Text { text: &'static str, color: Color },
    Value { value: i16, color: Color },
    Value2 { value1: i16, value2: i16, color: Color },
    Gauge { value: i16, max: i16, color: Color },
    Imu { yaw: i16, pitch: i16, roll: i16, climb: bool, downhill: bool },
    Rgb { r: u16, g: u16, b: u16 },
    Hsv { r: u16, g: u16, b: u16, h: u16, s: u16, v: u16 },
    ImuAngles { roll: Angle, pitch: Angle, yaw: Angle },
}

impl VisualStateH {
    /// The colour in which a power is shown: green forward, red backward,
    /// blue for none.
    pub open spec fn spec_power_color(power: i16) -> Color {
        if power > 0 {
            Color::Green
        } else if power < 0 {
            Color::Red
        } else {
            Color::Blue
        }
    }

    /// Whether the row is drawn with a border.
    pub open spec fn spec_needs_border(self) -> bool {
        self is Imu
    }

    /// Whether the row is cleared before it is drawn.
    pub open spec fn spec_needs_clearing(self) -> bool {
        !(self is Rgb || self is Hsv)
    }

    /// Shows nothing.
    pub fn empty(&mut self)
        ensures
            *final(self) == VisualStateH::Empty,
    {
        *self = VisualStateH::Empty
    }

    /// Shows a text in white.
    pub fn text(&mut self, text: &'static str)
        ensures
            *final(self) == (VisualStateH::Text { text, color: Color::White }),
    {
        *self = VisualStateH::Text { text, color: Color::White }
    }

    /// Shows a text in red.
    pub fn text_red(&mut self, text: &'static str)
        ensures
            *final(self) == (VisualStateH::Text { text, color: Color::Red }),
    {
        *self = VisualStateH::Text { text, color: Color::Red }
    }

    /// Shows a text in green.
    pub fn text_green(&mut self, text: &'static str)
        ensures
            *final(self) == (VisualStateH::Text { text, color: Color::Green }),
    {
        *self = VisualStateH::Text { text, color: Color::Green }
    }

    /// Shows a text in blue.
    pub fn text_blue(&mut self, text: &'static str)
        ensures
            *final(self) == (VisualStateH::Text { text, color: Color::Blue }),
    {
        *self = VisualStateH::Text { text, color: Color::Blue }
    }

    /// Shows a number in white.
    pub fn value(&mut self, value: i16)
        ensures
            *final(self) == (VisualStateH::Value { value, color: Color::White }),
    {
        *self = VisualStateH::Value { value, color: Color::White }
    }

    /// Shows two numbers in red.
    pub fn value2_red(&mut self, value1: i16, value2: i16)
        ensures
            *final(self) == (VisualStateH::Value2 { value1, value2, color: Color::Red }),
    {
        *self = VisualStateH::Value2 { value1, value2, color: Color::Red }
    }

    /// Shows two numbers in green.
    pub fn value2_green(&mut self, value1: i16, value2: i16)
        ensures
            *final(self) == (VisualStateH::Value2 { value1, value2, color: Color::Green }),
    {
        *self = VisualStateH::Value2 { value1, value2, color: Color::Green }
    }

    /// Shows two numbers in blue.
    pub fn value2_blue(&mut self, value1: i16, value2: i16)
        ensures
            *final(self) == (VisualStateH::Value2 { value1, value2, color: Color::Blue }),
    {
        *self = VisualStateH::Value2 { value1, value2, color: Color::Blue }
    }

    /// Shows a steering angle on a gauge.
    pub fn steer(&mut self, angle: i16)
        ensures
            *final(self) == (VisualStateH::Gauge {
                value: angle,
                max: STEER_GAUGE_MAX,
                color: Color::White,
            }),
    {
        *self = VisualStateH::Gauge { value: angle, max: STEER_GAUGE_MAX, color: Color::White }
    }

    /// Shows a target on a gauge, in the colour of the status it was found with.
    pub fn target(&mut self, angle: i16, status: LaserStatus)
        ensures
            *final(self) == (VisualStateH::Gauge {
                value: angle,
                max: TARGET_GAUGE_MAX,
                color: spec_status_color(status),
            }),
    {
        *self = VisualStateH::Gauge {
            value: angle,
            max: TARGET_GAUGE_MAX,
            color: status_color(status),
        }
    }

    /// Shows a sample of the inertial unit as three lines.
    pub fn imu(&mut self, yaw: i16, pitch: i16, roll: i16, climb: bool, downhill: bool)
        ensures
            *final(self) == (VisualStateH::Imu { yaw, pitch, roll, climb, downhill }),
    {
        *self = VisualStateH::Imu { yaw, pitch, roll, climb, downhill }
    }

    /// Shows a power, coloured by its direction.
    pub fn power(&mut self, power: i16)
        ensures
            *final(self) == (VisualStateH::Value {
                value: power,
                color: VisualStateH::spec_power_color(power),
            }),
    {
        *self = VisualStateH::Value {
            value: power,
            color: if power > 0 {
                Color::Green
            } else if power < 0 {
                Color::Red
            } else {
                Color::Blue
            },
        }
    }

    /// Shows the three channels of a colour, on that colour.
    pub fn rgb(&mut self, data: RgbEvent)
        ensures
            *final(self) == (VisualStateH::Rgb { r: data.r, g: data.g, b: data.b }),
    {
        *self = VisualStateH::Rgb { r: data.r, g: data.g, b: data.b }
    }

    /// Shows hue, saturation and value of a colour, on that colour.
    pub fn hsv(&mut self, data: RgbEvent)
        ensures
            *final(self) == (VisualStateH::Hsv {
                r: data.r,
                g: data.g,
                b: data.b,
                h: data.h,
                s: data.s,
                v: data.v,
            }),
    {
        *self = VisualStateH::Hsv {
            r: data.r,
            g: data.g,
            b: data.b,
            h: data.h,
            s: data.s,
            v: data.v,
        }
    }

    /// Shows roll, pitch and yaw in degrees.
    pub fn imu_angles(&mut self, yaw: i16, pitch: i16, roll: i16)
        ensures
            *final(self) == (VisualStateH::ImuAngles {
                roll: Angle::spec_from_imu_value(roll),
                pitch: Angle::spec_from_imu_value(pitch),
                yaw: Angle::spec_from_imu_value(yaw),
            }),
    {
        *self = VisualStateH::ImuAngles {
            roll: Angle::from_imu_value(roll),
            pitch: Angle::from_imu_value(pitch),
            yaw: Angle::from_imu_value(yaw),
        }
    }

    /// The top left corner of row `index`.
    pub fn position(index: usize) -> (corner: (i32, i32))
        requires
            index < STATES_COUNT,
        ensures
            corner.0 == 0,
            corner.1 == VISUAL_STATE_H_HEIGHT * index,
    {
        (0, VISUAL_STATE_H_HEIGHT * (index as i32))
    }

    /// Width and height of a row.
    pub fn size() -> (size: (u32, u32))
        ensures
            size.0 == VISUAL_STATE_H_WIDTH,
            size.1 == VISUAL_STATE_H_HEIGHT,
    {
        (VISUAL_STATE_H_WIDTH as u32, VISUAL_STATE_H_HEIGHT as u32)
    }

    /// Whether the row is drawn with a border.
    pub fn needs_border(&self) -> (border: bool)
        ensures
            border == self.spec_needs_border(),
    {
        match self {
            VisualStateH::Imu { .. } => true,
            _ => false,
        }
    }

    /// Whether the row is cleared before it is drawn.
    pub fn needs_clearing(&self) -> (clearing: bool)
        ensures
            clearing == self.spec_needs_clearing(),
    {
        match self {
            VisualStateH::Rgb { .. } => false,
            VisualStateH::Hsv { .. } => false,
            _ => true,
        }
    }
}

/// What one column shows.
#[allow(inconsistent_fields)]
#[derive(Clone, Copy, Debug, PartialEq, Eq, Structural)]
pub enum VisualStateV {
    Gauge { value: i16, max: i16, color: Color },
    Bar { value: u16, max: u16, mark: u16, color: Color, mark_color: Color, selected: bool },
    Solid { color: Color },
}

impl VisualStateV {
    /// The bar that shows a laser: the lower reading as the bar, the upper
    /// one as the mark, both limited to the overflow distance, green on a
    /// slope and else in the colour of the status.
    pub open spec fn spec_laser(data: LaserData, selected: bool) -> VisualStateV {
        VisualStateV::Bar {
            value: if data.lower > LASER_OVERFLOW {
                LASER_OVERFLOW
            } else {
                data.lower
            },
            max: LASER_OVERFLOW,
            mark: if data.upper > LASER_OVERFLOW {
                LASER_OVERFLOW
            } else {
                data.upper
            },
            color: if data.slope {
                Color::Green
            } else {
                spec_status_color(data.status)
            },
            mark_color: Color::White,
            selected,
        }
    }

    /// Whether the column is cleared before it is drawn.
    pub open spec fn spec_needs_clearing(self) -> bool {
        !(self is Solid)
    }

    /// Shows a laser as a bar with a mark.
    pub fn laser(&mut self, data: &LaserData, selected: bool)
        ensures
            *final(self) == VisualStateV::spec_laser(*data, selected),
    {
        let color = if data.slope {
            Color::Green
        } else {
            status_color(data.status)
        };
        *self = VisualStateV::Bar {
            value: if data.lower > LASER_OVERFLOW {
                LASER_OVERFLOW
            } else {
                data.lower
            },
            max: LASER_OVERFLOW,
            mark: if data.upper > LASER_OVERFLOW {
                LASER_OVERFLOW
            } else {
                data.upper
            },
            color,
            mark_color: Color::White,
            selected,
        }
    }

    /// Fills the column with black.
    pub fn empty(&mut self)
        ensures
            *final(self) == (VisualStateV::Solid { color: Color::Black }),
    {
        *self = VisualStateV::Solid { color: Color::Black }
    }

    /// Fills the column with `color`.
    pub fn solid(&mut self, color: Color)
        ensures
            *final(self) == (VisualStateV::Solid { color }),
    {
        *self = VisualStateV::Solid { color }
    }

    /// Fills the column with green.
    pub fn green(&mut self)
        ensures
            *final(self) == (VisualStateV::Solid { color: Color::Green }),
    {
        self.solid(Color::Green)
    }

    /// Fills the column with red.
    pub fn red(&mut self)
        ensures
            *final(self) == (VisualStateV::Solid { color: Color::Red }),
    {
        self.solid(Color::Red)
    }

    /// Fills the column with yellow.
    pub fn yellow(&mut self)
        ensures
            *final(self) == (VisualStateV::Solid { color: Color::Yellow }),
    {
        self.solid(Color::Yellow)
    }

    /// Fills the column with black.
    pub fn black(&mut self)
        ensures
            *final(self) == (VisualStateV::Solid { color: Color::Black }),
    {
        self.solid(Color::Black)
    }

    /// The top left corner of column `index`.
    pub fn position(index: usize) -> (corner: (i32, i32))
        requires
            index < STATES_COUNT,
        ensures
            corner.0 == VISUAL_STATE_V_WIDTH * index,
            corner.1 == VISUAL_STATE_V_HEIGHT,
    {
        (VISUAL_STATE_V_WIDTH * (index as i32), VISUAL_STATE_V_HEIGHT)
    }

    /// Whether the column is cleared before it is drawn.
    pub fn needs_clearing(&self) -> (clearing: bool)
        ensures
            clearing == self.spec_needs_clearing(),
    {
        match self {
            VisualStateV::Solid { .. } => false,
            _ => true,
        }
    }
}

/// All that the display shows.
#[derive(Clone, Copy, Debug, PartialEq, Eq)]
pub struct VisualState {
    pub values_h: [VisualStateH; STATES_COUNT],
    pub values_v: [VisualStateV; STATES_COUNT],
}

impl VisualState {
    /// Whether every column shows `color`, and nothing else.
    pub open spec fn all_solid(self, color: Color) -> bool {
        forall|i: int|
            0 <= i < STATES_COUNT ==> #[trigger] self.values_v[i] == (VisualStateV::Solid { color })
    }

    /// A display with nothing on it yet.
    pub fn init() -> (state: VisualState)
        ensures
            forall|i: int|
                0 <= i < STATES_COUNT ==> #[trigger] state.values_h[i] == (VisualStateH::Text {
                    text: "",
                    color: Color::Black,
                }),
            forall|i: int|
                0 <= i < STATES_COUNT ==> #[trigger] state.values_v[i] == (VisualStateV::Gauge {
                    value: 0,
                    max: 1,
                    color: Color::Black,
                }),
    {
        VisualState {
            values_h: [VisualStateH::Text { text: "", color: Color::Black };STATES_COUNT],
            values_v: [VisualStateV::Gauge { value: 0, max: 1, color: Color::Black };STATES_COUNT],
        }
    }

    /// Shows the five lasers in the columns, those inside `window` marked.
    pub fn update_vision(&mut self, v: &Vision, window: Option<(usize, usize)>)
        ensures
            final(self).values_h == old(self).values_h,
            forall|i: int|
                0 <= i < STATES_COUNT ==> #[trigger] final(self).values_v[i]
                    == VisualStateV::spec_laser(
                    v.lasers[i],
                    window matches Some(w) && w.0 <= i <= w.1,
                ),
    {
        let mut i: usize = 0;
        while i < STATES_COUNT
            invariant
                i <= STATES_COUNT,
                self.values_h == old(self).values_h,
                forall|j: int|
                    0 <= j < i ==> #[trigger] self.values_v[j] == VisualStateV::spec_laser(
                        v.lasers[j],
                        window matches Some(w) && w.0 <= j <= w.1,
                    ),
            decreases STATES_COUNT - i,
        {
            let mut column = self.values_v[i];
            column.laser(&v.lasers[i], crate::vision::is_in_window(i, window));
            self.values_v[i] = column;
            i = i + 1;
        }
    }

    /// Fills every column with `color`.
    pub fn solid(&mut self, color: Color)
        ensures
            final(self).values_h == old(self).values_h,
            final(self).all_solid(color),
    {
        self.values_v = [VisualStateV::Solid { color };STATES_COUNT];
    }

    /// Fills every column with green.
    pub fn green(&mut self)
        ensures
            final(self).values_h == old(self).values_h,
            final(self).all_solid(Color::Green),
    {
        self.solid(Color::Green);
    }

    /// Fills every column with red.
    pub fn red(&mut self)
        ensures
            final(self).values_h == old(self).values_h,
            final(self).all_solid(Color::Red),
    {
        self.solid(Color::Red);
    }

    /// Fills every column with yellow.
    pub fn yellow(&mut self)
        ensures
            final(self).values_h == old(self).values_h,
            final(self).all_solid(Color::Yellow),
    {
        self.solid(Color::Yellow);
    }

    /// Fills every column with blue.
    pub fn blue(&mut self)
        ensures
            final(self).values_h == old(self).values_h,
            final(self).all_solid(Color::Blue),
    {
        self.solid(Color::Blue);
    }

    /// Fills every column with black.
    pub fn black(&mut self)
        ensures
            final(self).values_h == old(self).values_h,
            final(self).all_solid(Color::Black),
    {
        self.solid(Color::Black);
    }

    /// Fills every column with white.
    pub fn white(&mut self)
        ensures
            final(self).values_h == old(self).values_h,
            final(self).all_solid(Color::White),
    {
        self.solid(Color::White);
    }
}

/// Degrees that half the width of a row stands for on the row of the
/// inertial unit.
pub const IMU_FULL_SCALE: i32 = 90;

/// Pixels from the left edge of a row to its middle.
pub const H_CENTER_X: i32 = 67;

/// Pixels from the top of a row to its middle.
pub const H_CENTER_Y: i32 = 12;

/// Pixels from the top of a column to its middle.
pub const V_CENTER_Y: i32 = 60;

/// Pixels of a column's height that a full bar fills.
pub const V_BAR_ROOM: u32 = 118;

/// How far from the middle of a strip a gauge draws its line, for a strip
/// whose middle lies `half` pixels in: the value's share of the full
/// scale `max`, of the pixels up to one short of the edge.
pub open spec fn spec_gauge_offset(value: i16, max: i16, half: i32) -> int {
    trunc_div(value * (half - 1), max as int)
}

/// An angle in whole degrees folded onto the front half of the circle:
/// one in the back half is mirrored about the side it lies on. Tells also
/// whether the angle lay in the back half.
pub open spec fn spec_fold_front(degrees: int) -> (int, bool) {
    if degrees < -IMU_FULL_SCALE {
        (degrees + 180, true)
    } else if degrees < IMU_FULL_SCALE {
        (degrees, false)
    } else {
        (180 - degrees, true)
    }
}

/// The three lines that show a sample of the inertial unit in a row.
#[derive(Clone, Copy, Debug, PartialEq, Eq, Structural)]
pub struct ImuLines {
    pub yaw_x: i32,
    pub yaw_color: Color,
    pub pitch_y: i32,
    pub pitch_color: Color,
    pub roll_x: i32,
    pub roll_color: Color,
}

/// The lines for a yaw, a pitch and a roll in hundredths of a degree. The
/// yaw moves an upright line from the middle, green in the front half of
/// the circle and yellow in the back half. The pitch moves a level line,
/// up for a climb: yellow while climbing, green while going downhill,
/// else blue, and red for a pitch beyond upright. The roll moves a second
/// upright line, blue, or red for a roll beyond a quarter turn to the
/// left or with the yaw in the back right quarter; which of the two
/// mirrored positions it takes goes by the yaw's half, not its own.
pub open spec fn spec_imu_lines(
    yaw: i16,
    pitch: i16,
    roll: i16,
    climb: bool,
    downhill: bool,
) -> ImuLines {
    let center_x = H_CENTER_X as int;
    let center_y = H_CENTER_Y as int;
    let yaw_deg = trunc_div(yaw as int, 100);
    let pitch_deg = trunc_div(pitch as int, 100);
    let roll_deg = trunc_div(roll as int, 100);
    let yaw_fold = spec_fold_front(yaw_deg);
    let pitch_fold = spec_fold_front(pitch_deg);
    let roll_delta = if roll_deg < -IMU_FULL_SCALE {
        roll_deg + 180
    } else if yaw_deg < IMU_FULL_SCALE {
        roll_deg
    } else {
        180 - roll_deg
    };
    ImuLines {
        yaw_x: (center_x + trunc_div(yaw_fold.0 * (center_x - 1), IMU_FULL_SCALE as int)) as i32,
        yaw_color: if yaw_fold.1 {
            Color::Yellow
        } else {
            Color::Green
        },
        pitch_y: (center_y - trunc_div(pitch_fold.0 * (center_y - 1), IMU_FULL_SCALE as int)) as i32,
        pitch_color: if pitch_fold.1 {
            Color::Red
        } else if climb {
            Color::Yellow
        } else if downhill {
            Color::Green
        } else {
            Color::Blue
        },
        roll_x: (center_x + trunc_div(roll_delta * (center_x - 1), IMU_FULL_SCALE as int)) as i32,
        roll_color: if roll_deg < -IMU_FULL_SCALE || yaw_deg >= IMU_FULL_SCALE {
            Color::Red
        } else {
            Color::Blue
        },
    }
}

/// The shape of the bar that shows a laser, in pixels from the top of the
/// column: the height of the bar, where it begins, and where the mark lies.
#[derive(Clone, Copy, Debug, PartialEq, Eq, Structural)]
pub struct BarShape {
    pub height: u32,
    pub top: i32,
    pub mark_y: i32,
}

/// The shape of a bar for a value and a mark on a scale up to `max`: the
/// bar stands on the bottom of the column and fills the value's share of
/// the column's height less a border, and the mark lies at its own share.
pub open spec fn spec_bar_shape(value: u16, max: u16, mark: u16) -> BarShape {
    let room = V_BAR_ROOM as int;
    let height = (value * room) / (max as int);
    BarShape {
        height: height as u32,
        top: (VISUAL_STATE_V_HEIGHT - (height + 1)) as i32,
        mark_y: (VISUAL_STATE_V_HEIGHT - ((mark * room) / (max as int) + 1)) as i32,
    }
}

/// The strength, from 0 to 255, in which a channel of the colour sensor
/// is shown: a quarter of the reading, at most 255.
pub open spec fn spec_color_byte(channel: u16) -> u8 {
    if channel / 4 > 255 {
        255
    } else {
        (channel / 4) as u8
    }
}

/// Whether an angle is negative, and the three decimal digits of its magnitude.
pub open spec fn spec_angle_digits(degrees: int) -> (bool, int, int, int) {
    let magnitude = abs_int(degrees);
    (degrees < 0, (magnitude / 100) % 10, (magnitude / 10) % 10, magnitude % 10)
}

/// How far from the middle of a strip a gauge draws its line.
pub fn gauge_offset(value: i16, max: i16, half: i32) -> (offset: i32)
    requires
        max != 0,
        0 < half <= 0x8000,
    ensures
        offset == spec_gauge_offset(value, max, half),
{
    assert(-0x4000_0000 <= value * (half - 1) <= 0x4000_0000) by (nonlinear_arith)
        requires
            -0x8000 <= value <= 0x8000,
            0 <= half - 1 <= 0x8000,
    ;
    proof {
        crate::arith::lemma_trunc_div_shrinks(value * (half - 1), max as int);
    }
    let offset: i64 = i64_div((value as i64) * (half as i64 - 1), max as i64);
    offset as i32
}

/// The three lines that show a sample of the inertial unit in a row.
pub fn imu_lines(yaw: i16, pitch: i16, roll: i16, climb: bool, downhill: bool) -> (lines: ImuLines)
    ensures
        lines == spec_imu_lines(yaw, pitch, roll, climb, downhill),
{
    let center_x: i64 = H_CENTER_X as i64;
    let center_y: i64 = H_CENTER_Y as i64;
    let scale: i64 = IMU_FULL_SCALE as i64;
    let yaw_deg: i64 = i64_div(yaw as i64, 100);
    let pitch_deg: i64 = i64_div(pitch as i64, 100);
    let roll_deg: i64 = i64_div(roll as i64, 100);
    proof {
        crate::arith::lemma_trunc_div_shrinks(yaw as int, 100);
        crate::arith::lemma_trunc_div_shrinks(pitch as int, 100);
        crate::arith::lemma_trunc_div_shrinks(roll as int, 100);
    }
    assert(-0x8000 <= yaw_deg <= 0x8000 && -0x8000 <= pitch_deg <= 0x8000 && -0x8000 <= roll_deg
        <= 0x8000);
    let (yaw_delta, yaw_back): (i64, bool) = if yaw_deg < -scale {
        (yaw_deg + 180, true)
    } else if yaw_deg < scale {
        (yaw_deg, false)
    } else {
        (180 - yaw_deg, true)
    };
    let (pitch_delta, pitch_back): (i64, bool) = if pitch_deg < -scale {
        (pitch_deg + 180, true)
    } else if pitch_deg < scale {
        (pitch_deg, false)
    } else {
        (180 - pitch_deg, true)
    };
    let roll_delta: i64 = if roll_deg < -scale {
        roll_deg + 180
    } else if yaw_deg < scale {
        roll_deg
    } else {
        180 - roll_deg
    };
    proof {
        crate::arith::lemma_trunc_div_shrinks(yaw_delta * (center_x - 1), scale as int);
        crate::arith::lemma_trunc_div_shrinks(pitch_delta * (center_y - 1), scale as int);
        crate::arith::lemma_trunc_div_shrinks(roll_delta * (center_x - 1), scale as int);
    }
    ImuLines {
        yaw_x: (center_x + i64_div(yaw_delta * (center_x - 1), scale)) as i32,
        yaw_color: if yaw_back {
            Color::Yellow
        } else {
            Color::Green
        },
        pitch_y: (center_y - i64_div(pitch_delta * (center_y - 1), scale)) as i32,
        pitch_color: if pitch_back {
            Color::Red
        } else if climb {
            Color::Yellow
        } else if downhill {
            Color::Green
        } else {
            Color::Blue
        },
        roll_x: (center_x + i64_div(roll_delta * (center_x - 1), scale)) as i32,
        roll_color: if roll_deg < -scale || yaw_deg >= scale {
            Color::Red
        } else {
            Color::Blue
        },
    }
}

/// The shape of the bar that shows a laser.
pub fn bar_shape(value: u16, max: u16, mark: u16) -> (shape: BarShape)
    requires
        max != 0,
    ensures
        shape == spec_bar_shape(value, max, mark),
{
    let room: u32 = V_BAR_ROOM;
    assert(value * room <= 0xffff * 118 && mark * room <= 0xffff * 118) by (nonlinear_arith)
        requires
            0 <= value <= 0xffff,
            0 <= mark <= 0xffff,
            room == 118,
    ;
    proof {
        vstd::arithmetic::div_mod::lemma_div_is_ordered_by_denominator(
            value * room,
            1,
            max as int,
        );
        vstd::arithmetic::div_mod::lemma_div_is_ordered_by_denominator(mark * room, 1, max as int);
        vstd::arithmetic::div_mod::lemma_div_pos_is_pos(value * room, max as int);
        vstd::arithmetic::div_mod::lemma_div_pos_is_pos(mark * room, max as int);
        assert((value * room) / 1 == value * room);
        assert((mark * room) / 1 == mark * room);
    }
    let height: u32 = (value as u32) * room / (max as u32);
    let mark_value: u32 = (mark as u32) * room / (max as u32);
    BarShape {
        height,
        top: VISUAL_STATE_V_HEIGHT - (height as i32 + 1),
        mark_y: VISUAL_STATE_V_HEIGHT - (mark_value as i32 + 1),
    }
}

/// The strength in which a channel of the colour sensor is shown.
pub fn color_byte(channel: u16) -> (byte: u8)
    ensures
        byte == spec_color_byte(channel),
{
    let quarter: u16 = channel / 4;
    if quarter > 255 {
        255
    } else {
        quarter as u8
    }
}

/// Whether an angle is negative, and the three decimal digits of its magnitude.
pub fn angle_digits(angle: Angle) -> (digits: (bool, u8, u8, u8))
    ensures
        digits.0 == spec_angle_digits(angle@).0,
        digits.1 == spec_angle_digits(angle@).1,
        digits.2 == spec_angle_digits(angle@).2,
        digits.3 == spec_angle_digits(angle@).3,
{
    let degrees: i32 = angle.value();
    let magnitude: i32 = if degrees < 0 {
        -degrees
    } else {
        degrees
    };
    (
        degrees < 0,
        ((magnitude / 100) % 10) as u8,
        ((magnitude / 10) % 10) as u8,
        (magnitude % 10) as u8,
    )
}

} // verus!
