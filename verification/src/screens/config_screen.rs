//! What the configuration screen shows.

use crate::configuration::RaceConfig;
use crate::lcd::{Color, VisualState, VisualStateH, VisualStateV, STATES_COUNT};
use crate::screens::ConfigScreen;
use vstd::prelude::*;

verus! {

/// The display on entering the configuration screen: the title in the
/// second and third row, everything else empty.
pub fn start() -> (ui: VisualState)
    ensures
        ui.values_h[0] == VisualStateH::Empty,
        ui.values_h[1] == (VisualStateH::Text { text: "COUNTRYMAN", color: Color::Red }),
        ui.values_h[2] == (VisualStateH::Text { text: "CONFIG", color: Color::Green }),
        ui.values_h[3] == VisualStateH::Empty,
        ui.values_h[4] == VisualStateH::Empty,
        ui.all_solid(Color::Black),
{
    let mut ui = VisualState::init();
    ui.values_h[0] = VisualStateH::Empty;
    ui.values_h[1] = VisualStateH::Text { text: "COUNTRYMAN", color: Color::Red };
    ui.values_h[2] = VisualStateH::Text { text: "CONFIG", color: Color::Green };
    ui.values_h[3] = VisualStateH::Empty;
    ui.values_h[4] = VisualStateH::Empty;
    ui.values_v = [VisualStateV::Solid { color: Color::Black };STATES_COUNT];
    ui
}

/// Shows the entry that the screen stands at, green while its value is
/// being changed, and under it the value, by its name where it has one.
pub fn show(ui: &mut VisualState, screen: &ConfigScreen, config: &RaceConfig)
    ensures
        final(ui).values_v == old(ui).values_v,
        forall|i: int| 0 <= i < 3 ==> #[trigger] final(ui).values_h[i] == old(ui).values_h[i],
        final(ui).values_h[3] matches VisualStateH::Text { text, color } && text@
            == screen.entry.spec_name() && color == if screen.editing {
            Color::Green
        } else {
            Color::White
        },
        match screen.entry.spec_value_name(config.spec_get(screen.entry)) {
            Some(name) => final(ui).values_h[4] matches VisualStateH::Text { text, color } && text@
                == name && color == Color::White,
            None => final(ui).values_h[4] == (VisualStateH::Value {
                value: config.spec_get(screen.entry),
                color: Color::White,
            }),
        },
{
    let name = screen.entry.name();
    ui.values_h[3] = VisualStateH::Text {
        text: name,
        color: if screen.editing {
            Color::Green
        } else {
            Color::White
        },
    };
    let value = config.get(screen.entry);
    ui.values_h[4] = match screen.entry.value_name(value) {
        Some(name) => VisualStateH::Text { text: name, color: Color::White },
        None => VisualStateH::Value { value, color: Color::White },
    };
}

} // verus!
