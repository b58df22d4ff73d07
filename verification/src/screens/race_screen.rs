//! What the race shows, and the countdown before it.

use crate::lcd::{
    spec_status_color, status_color, Color, VisualState, VisualStateH, VisualStateV, STATES_COUNT,
    STEER_GAUGE_MAX, TARGET_GAUGE_MAX,
};
use crate::race::{RaceMode, RaceState, RaceTick};
use crate::vision::Vision;
use vstd::prelude::*;

verus! {

/// Seconds of the countdown before a race.
pub const COUNTDOWN_SECONDS: usize = 5;

/// The colour that fills the columns in a real race for the mode that
/// rules the tick. A turn toward a heading is blue after stillness and
/// yellow on a climb.
pub open spec fn spec_mode_color(mode: RaceMode, route_was_still: bool) -> Color {
    match mode {
        RaceMode::TiltAlert => Color::Black,
        RaceMode::BackPanic => Color::Red,
        RaceMode::RouteTarget => if route_was_still {
            Color::Blue
        } else {
            Color::Yellow
        },
        RaceMode::Sprint => Color::White,
        RaceMode::Normal => Color::Green,
    }
}

/// The colour that fills the columns in a real race.
pub fn mode_color(mode: RaceMode, route_was_still: bool) -> (color: Color)
    ensures
        color == spec_mode_color(mode, route_was_still),
{
    match mode {
        RaceMode::TiltAlert => Color::Black,
        RaceMode::BackPanic => Color::Red,
        RaceMode::RouteTarget => if route_was_still {
            Color::Blue
        } else {
            Color::Yellow
        },
        RaceMode::Sprint => Color::White,
        RaceMode::Normal => Color::Green,
    }
}

/// The display at the start of a race: a real one is announced in the
/// third row over green columns, a simulated one in the first row over
/// the lasers as a fresh vision sees them.
pub fn start(simulate: bool) -> (ui: VisualState)
    ensures
        ui.values_h[0] == if simulate {
            VisualStateH::Text { text: "SYM", color: Color::Green }
        } else {
            VisualStateH::Empty
        },
        ui.values_h[1] == VisualStateH::Empty,
        ui.values_h[2] == if simulate {
            VisualStateH::Empty
        } else {
            VisualStateH::Text { text: "RACE", color: Color::Green }
        },
        ui.values_h[3] == VisualStateH::Empty,
        ui.values_h[4] == VisualStateH::Empty,
        !simulate ==> ui.all_solid(Color::Green),
        simulate ==> forall|i: int|
            0 <= i < STATES_COUNT ==> #[trigger] ui.values_v[i] == VisualStateV::spec_laser(
                crate::vision::LaserData {
                    upper: crate::vision::LASER_OVERFLOW,
                    lower: crate::vision::LASER_OVERFLOW,
                    sign: crate::vision::spec_layout_sign(i) as i8,
                    position: crate::vision::spec_layout_position(i),
                    status: crate::vision::LaserStatus::Overflow,
                    slope: false,
                },
                false,
            ),
{
    let mut ui = VisualState::init();
    ui.values_h[1] = VisualStateH::Empty;
    ui.values_h[3] = VisualStateH::Empty;
    ui.values_h[4] = VisualStateH::Empty;
    if simulate {
        ui.values_h[0] = VisualStateH::Text { text: "SYM", color: Color::Green };
        ui.values_h[2] = VisualStateH::Empty;
        let fresh = Vision::new();
        ui.update_vision(&fresh, None);
    } else {
        ui.values_h[0] = VisualStateH::Empty;
        ui.values_h[2] = VisualStateH::Text { text: "RACE", color: Color::Green };
        ui.values_v = [VisualStateV::Solid { color: Color::Green };STATES_COUNT];
    }
    ui
}

/// Shows a tick. A real race fills the columns with the colour of the
/// mode. A simulated one shows the heading on the track, the power, the
/// steering angle and the target in the rows, blue in the first row while
/// the vehicle stands still, and the lasers with the window in the columns.
pub fn show_tick(ui: &mut VisualState, state: &RaceState, tick: &RaceTick)
    ensures
        !state.simulate ==> final(ui).values_h == old(ui).values_h && final(ui).all_solid(
            spec_mode_color(tick.mode, tick.route_was_still),
        ),
        state.simulate ==> {
            &&& final(ui).values_h[0] == (VisualStateH::Text {
                text: "SYM",
                color: if state.imu.stillness is Some {
                    Color::Blue
                } else {
                    Color::Green
                },
            })
            &&& final(ui).values_h[1] == (VisualStateH::Value {
                value: state.track_heading@ as i16,
                color: Color::White,
            })
            &&& final(ui).values_h[2] == (VisualStateH::Value {
                value: tick.action.power,
                color: Color::White,
            })
            &&& final(ui).values_h[3] == (VisualStateH::Gauge {
                value: tick.action.steer@ as i16,
                max: STEER_GAUGE_MAX,
                color: Color::White,
            })
            &&& final(ui).values_h[4] == (VisualStateH::Gauge {
                value: tick.relative_target@ as i16,
                max: TARGET_GAUGE_MAX,
                color: spec_status_color(tick.power_state),
            })
            &&& forall|i: int|
                0 <= i < STATES_COUNT ==> #[trigger] final(ui).values_v[i]
                    == VisualStateV::spec_laser(
                    state.vision.lasers[i],
                    tick.window_borders matches Some(w) && w.0 <= i <= w.1,
                )
        },
{
    if state.simulate {
        ui.values_h[0] = VisualStateH::Text {
            text: "SYM",
            color: if state.imu.stillness.is_some() {
                Color::Blue
            } else {
                Color::Green
            },
        };
        ui.values_h[1] = VisualStateH::Value {
            value: state.track_heading.value() as i16,
            color: Color::White,
        };
        ui.values_h[2] = VisualStateH::Value { value: tick.action.power, color: Color::White };
        ui.values_h[3] = VisualStateH::Gauge {
            value: tick.action.steer.value() as i16,
            max: STEER_GAUGE_MAX,
            color: Color::White,
        };
        ui.values_h[4] = VisualStateH::Gauge {
            value: tick.relative_target.value() as i16,
            max: TARGET_GAUGE_MAX,
            color: status_color(tick.power_state),
        };
        ui.update_vision(&state.vision, tick.window_borders);
    } else {
        ui.solid(mode_color(tick.mode, tick.route_was_still));
    }
}

/// Seconds to wait before a race: one for a race that starts now, else five.
pub fn countdown_seconds(now: bool) -> (seconds: usize)
    ensures
        seconds == if now {
            1
        } else {
            COUNTDOWN_SECONDS as int
        },
{
    if now {
        1
    } else {
        COUNTDOWN_SECONDS
    }
}

/// The display at the start of the countdown: the first column yellow,
/// and for a race that starts now the third and the fifth as well, the
/// rest red.
pub fn countdown_start(now: bool) -> (ui: VisualState)
    ensures
        ui.values_h[0] == VisualStateH::Empty,
        ui.values_h[1] == VisualStateH::Empty,
        ui.values_h[2] == (VisualStateH::Text { text: "WAIT", color: Color::Red }),
        ui.values_h[3] == VisualStateH::Empty,
        ui.values_h[4] == VisualStateH::Empty,
        forall|i: int|
            0 <= i < STATES_COUNT ==> #[trigger] ui.values_v[i] == (VisualStateV::Solid {
                color: if i == 0 || (now && i % 2 == 0) {
                    Color::Yellow
                } else {
                    Color::Red
                },
            }),
{
    let mut ui = VisualState::init();
    ui.values_h[0] = VisualStateH::Empty;
    ui.values_h[1] = VisualStateH::Empty;
    ui.values_h[2] = VisualStateH::Text { text: "WAIT", color: Color::Red };
    ui.values_h[3] = VisualStateH::Empty;
    ui.values_h[4] = VisualStateH::Empty;
    let other = if now {
        Color::Yellow
    } else {
        Color::Red
    };
    ui.values_v[0] = VisualStateV::Solid { color: Color::Yellow };
    ui.values_v[1] = VisualStateV::Solid { color: Color::Red };
    ui.values_v[2] = VisualStateV::Solid { color: other };
    ui.values_v[3] = VisualStateV::Solid { color: Color::Red };
    ui.values_v[4] = VisualStateV::Solid { color: other };
    ui
}

/// Shows that second `second` of the countdown is over: the next column
/// turns yellow.
pub fn countdown_step(ui: &mut VisualState, second: usize)
    requires
        second + 1 < STATES_COUNT,
    ensures
        final(ui).values_h == old(ui).values_h,
        final(ui).values_v@ == old(ui).values_v@.update(
            second + 1,
            VisualStateV::Solid { color: Color::Yellow },
        ),
{
    ui.values_v[second + 1] = VisualStateV::Solid { color: Color::Yellow };
}

} // verus!
