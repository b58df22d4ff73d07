//! What the screen of the colour sensor shows and remembers.

use crate::arith::saturate_u64;
use crate::cmd::Cmd;
use crate::lcd::{Color, VisualState, VisualStateH, VisualStateV, STATES_COUNT};
use crate::rgb::RgbEvent;
use crate::screens::Screen;
use crate::time::Instant;
use vstd::prelude::*;

verus! {

/// Microseconds for which a crossing stays on the display.
pub const SHOW_CROSSING_MICROS: u64 = 500_000;

/// The least and the most seen of each channel, and when the marks were
/// last crossed either way.
#[derive(Clone, Copy, Debug, PartialEq, Eq, Structural)]
pub struct RgbScreen {
    pub r_min: i16,
    pub g_min: i16,
    pub b_min: i16,
    pub r_max: i16,
    pub g_max: i16,
    pub b_max: i16,
    pub last_inversion: Instant,
    pub last_good_cross: Instant,
}

/// The bits of a channel read as a signed number.
pub open spec fn spec_channel_i16(channel: u16) -> i16 {
    if channel >= 0x8000 {
        (channel - 0x1_0000) as i16
    } else {
        channel as i16
    }
}

/// The bits of a channel read as a signed number.
fn channel_i16(channel: u16) -> (value: i16)
    ensures
        value == spec_channel_i16(channel),
{
    if channel >= 0x8000 {
        (channel as i32 - 0x1_0000) as i16
    } else {
        channel as i16
    }
}

/// The smaller of two numbers.
pub open spec fn spec_min_i16(a: i16, b: i16) -> i16 {
    if a <= b {
        a
    } else {
        b
    }
}

/// The larger of two numbers.
pub open spec fn spec_max_i16(a: i16, b: i16) -> i16 {
    if a >= b {
        a
    } else {
        b
    }
}

impl RgbScreen {
    /// The memory with nothing seen, as at `now`.
    pub open spec fn spec_new(now: Instant) -> RgbScreen {
        RgbScreen {
            r_min: i16::MAX,
            g_min: i16::MAX,
            b_min: i16::MAX,
            r_max: 0,
            g_max: 0,
            b_max: 0,
            last_inversion: now,
            last_good_cross: now,
        }
    }

    /// The memory after a measurement seen at `now`.
    pub open spec fn spec_after(self, data: RgbEvent, now: Instant) -> RgbScreen {
        RgbScreen {
            r_min: spec_min_i16(self.r_min, spec_channel_i16(data.r)),
            g_min: spec_min_i16(self.g_min, spec_channel_i16(data.g)),
            b_min: spec_min_i16(self.b_min, spec_channel_i16(data.b)),
            r_max: spec_max_i16(self.r_max, spec_channel_i16(data.r)),
            g_max: spec_max_i16(self.g_max, spec_channel_i16(data.g)),
            b_max: spec_max_i16(self.b_max, spec_channel_i16(data.b)),
            last_inversion: if data.spec_detect_inversion() {
                now
            } else {
                self.last_inversion
            },
            last_good_cross: if data.spec_detect_good_cross() {
                now
            } else {
                self.last_good_cross
            },
        }
    }

    /// The colour of the middle column at `now`: red shortly after a
    /// crossing the wrong way, else green shortly after one the right way.
    pub open spec fn spec_crossing_color(self, now: Instant) -> Color {
        if saturate_u64(now@ - self.last_inversion@) < SHOW_CROSSING_MICROS {
            Color::Red
        } else if saturate_u64(now@ - self.last_good_cross@) < SHOW_CROSSING_MICROS {
            Color::Green
        } else {
            Color::Black
        }
    }

    /// The memory after a command: plus or minus forget the least and the
    /// most seen.
    pub open spec fn spec_command(self, cmd: Cmd) -> RgbScreen {
        if cmd == Cmd::Plus || cmd == Cmd::Minus {
            RgbScreen {
                last_inversion: self.last_inversion,
                last_good_cross: self.last_good_cross,
                ..RgbScreen::spec_new(self.last_inversion)
            }
        } else {
            self
        }
    }

    /// The memory with nothing seen, as at `now`.
    pub fn new(now: Instant) -> (screen: RgbScreen)
        ensures
            screen == RgbScreen::spec_new(now),
    {
        RgbScreen {
            r_min: i16::MAX,
            g_min: i16::MAX,
            b_min: i16::MAX,
            r_max: 0,
            g_max: 0,
            b_max: 0,
            last_inversion: now,
            last_good_cross: now,
        }
    }

    /// The display on entering the screen.
    pub fn start() -> (ui: VisualState)
        ensures
            ui.values_h[0] == (VisualStateH::Text { text: "RGB", color: Color::White }),
            forall|i: int|
                1 <= i < 4 ==> #[trigger] ui.values_h[i] == (VisualStateH::Value2 {
                    value1: 0,
                    value2: 0,
                    color: Color::Red,
                }),
            ui.values_h[4] == (VisualStateH::Text { text: "", color: Color::White }),
            ui.all_solid(Color::Black),
    {
        let mut ui = VisualState::init();
        ui.values_h[0] = VisualStateH::Text { text: "RGB", color: Color::White };
        ui.values_h[1] = VisualStateH::Value2 { value1: 0, value2: 0, color: Color::Red };
        ui.values_h[2] = VisualStateH::Value2 { value1: 0, value2: 0, color: Color::Red };
        ui.values_h[3] = VisualStateH::Value2 { value1: 0, value2: 0, color: Color::Red };
        ui.values_h[4] = VisualStateH::Text { text: "", color: Color::White };
        ui.values_v = [VisualStateV::Solid { color: Color::Black };STATES_COUNT];
        ui
    }

    /// Takes a measurement seen at `now` and shows it: the least and the
    /// most of each channel, the colour itself, red to the left while red
    /// is seen, green to the right while green is seen, and the last
    /// crossing in the middle.
    pub fn show_rgb(&mut self, ui: &mut VisualState, data: RgbEvent, now: Instant)
        ensures
            *final(self) == old(self).spec_after(data, now),
            final(ui).values_h[0] == old(ui).values_h[0],
            final(ui).values_h[1] == (VisualStateH::Value2 {
                value1: final(self).r_min,
                value2: final(self).r_max,
                color: Color::Red,
            }),
            final(ui).values_h[2] == (VisualStateH::Value2 {
                value1: final(self).g_min,
                value2: final(self).g_max,
                color: Color::Green,
            }),
            final(ui).values_h[3] == (VisualStateH::Value2 {
                value1: final(self).b_min,
                value2: final(self).b_max,
                color: Color::Blue,
            }),
            final(ui).values_h[4] == (VisualStateH::Rgb { r: data.r, g: data.g, b: data.b }),
            forall|i: int|
                0 <= i < STATES_COUNT ==> #[trigger] final(ui).values_v[i] == (VisualStateV::Solid {
                    color: if i < 2 {
                        if data.spec_is_red() {
                            Color::Red
                        } else {
                            Color::Black
                        }
                    } else if i > 2 {
                        if data.spec_is_green() {
                            Color::Green
                        } else {
                            Color::Black
                        }
                    } else {
                        final(self).spec_crossing_color(now)
                    },
                }),
    {
        if data.detect_inversion() {
            self.last_inversion = now;
        }
        if data.detect_good_cross() {
            self.last_good_cross = now;
        }
        let r = channel_i16(data.r);
        let g = channel_i16(data.g);
        let b = channel_i16(data.b);
        if r < self.r_min {
            self.r_min = r;
        }
        if g < self.g_min {
            self.g_min = g;
        }
        if b < self.b_min {
            self.b_min = b;
        }
        if r > self.r_max {
            self.r_max = r;
        }
        if g > self.g_max {
            self.g_max = g;
        }
        if b > self.b_max {
            self.b_max = b;
        }
        ui.values_h[1] = VisualStateH::Value2 {
            value1: self.r_min,
            value2: self.r_max,
            color: Color::Red,
        };
        ui.values_h[2] = VisualStateH::Value2 {
            value1: self.g_min,
            value2: self.g_max,
            color: Color::Green,
        };
        ui.values_h[3] = VisualStateH::Value2 {
            value1: self.b_min,
            value2: self.b_max,
            color: Color::Blue,
        };
        ui.values_h[4] = VisualStateH::Rgb { r: data.r, g: data.g, b: data.b };
        let red = VisualStateV::Solid {
            color: if data.is_red() {
                Color::Red
            } else {
                Color::Black
            },
        };
        let green = VisualStateV::Solid {
            color: if data.is_green() {
                Color::Green
            } else {
                Color::Black
            },
        };
        let crossing = VisualStateV::Solid {
            color: if now.duration_since(self.last_inversion).micros < SHOW_CROSSING_MICROS {
                Color::Red
            } else if now.duration_since(self.last_good_cross).micros < SHOW_CROSSING_MICROS {
                Color::Green
            } else {
                Color::Black
            },
        };
        ui.values_v[0] = red;
        ui.values_v[1] = red;
        ui.values_v[2] = crossing;
        ui.values_v[3] = green;
        ui.values_v[4] = green;
    }

    /// Takes a command; returns the screen to go to where the command
    /// leaves this one.
    pub fn handle_command(&mut self, cmd: Cmd) -> (next: Option<Screen>)
        ensures
            *final(self) == old(self).spec_command(cmd),
            next == match cmd {
                Cmd::Previous => Some(Screen::Imu),
                Cmd::Next => Some(Screen::Ready),
                _ => None,
            },
    {
        match cmd {
            Cmd::Previous => Some(Screen::Imu),
            Cmd::Next => Some(Screen::Ready),
            Cmd::Plus | Cmd::Minus => {
                self.r_min = i16::MAX;
                self.g_min = i16::MAX;
                self.b_min = i16::MAX;
                self.r_max = 0;
                self.g_max = 0;
                self.b_max = 0;
                None
            },
            _ => None,
        }
    }
}

} // verus!
