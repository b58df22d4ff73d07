//! What the ready screen shows.

use crate::angle::{normalize_deg, Angle};
use crate::configuration::RaceConfig;
use crate::imu::ImuData;
use crate::lcd::{Color, VisualState, VisualStateH, VisualStateV};
use crate::rgb::RgbEvent;
use crate::vision::Vision;
use vstd::prelude::*;

verus! {

/// The display on entering the ready screen: the title in the second and
/// third row.
pub fn start() -> (ui: VisualState)
    ensures
        ui.values_h[0] == VisualStateH::Empty,
        ui.values_h[1] == (VisualStateH::Text { text: "COUNTRYMAN", color: Color::Red }),
        ui.values_h[2] == (VisualStateH::Text { text: "READY", color: Color::Green }),
        ui.values_h[3] == VisualStateH::Empty,
        ui.values_h[4] == (VisualStateH::Text { text: "", color: Color::Black }),
        forall|i: int|
            0 <= i < 5 ==> #[trigger] ui.values_v[i] == (VisualStateV::Gauge {
                value: 0,
                max: 1,
                color: Color::Black,
            }),
{
    let mut ui = VisualState::init();
    ui.values_h[0] = VisualStateH::Empty;
    ui.values_h[1] = VisualStateH::Text { text: "COUNTRYMAN", color: Color::Red };
    ui.values_h[2] = VisualStateH::Text { text: "READY", color: Color::Green };
    ui.values_h[3] = VisualStateH::Empty;
    ui
}

/// Shows the lasers in the columns.
pub fn show_lasers(ui: &mut VisualState, vision: &Vision)
    ensures
        final(ui).values_h == old(ui).values_h,
        forall|i: int|
            0 <= i < 5 ==> #[trigger] final(ui).values_v[i] == VisualStateV::spec_laser(
                vision.lasers[i],
                false,
            ),
{
    ui.update_vision(vision, None);
}

/// Shows a sample of the inertial unit in the last row, with whether it
/// counts as climbing or as going downhill. Returns the pitch of the sample.
pub fn show_imu(ui: &mut VisualState, config: &RaceConfig, data: &ImuData) -> (pitch: Angle)
    ensures
        pitch == Angle::spec_from_imu_value(data.pitch),
        final(ui).values_v == old(ui).values_v,
        forall|i: int| 0 <= i < 4 ==> #[trigger] final(ui).values_h[i] == old(ui).values_h[i],
        final(ui).values_h[4] == (VisualStateH::Imu {
            yaw: data.yaw,
            pitch: data.pitch,
            roll: data.roll,
            climb: pitch@ >= config.spec_climbing_threshold(),
            downhill: pitch@ <= normalize_deg(-config.spec_climbing_threshold()),
        }),
{
    let pitch = Angle::from_imu_value(data.pitch);
    ui.values_h[4] = VisualStateH::Imu {
        yaw: data.yaw,
        pitch: data.pitch,
        roll: data.roll,
        climb: config.detect_climb(pitch),
        downhill: config.detect_downhill(pitch),
    };
    pitch
}

/// Shows a measurement of the floor's colour in the fourth row.
pub fn show_rgb(ui: &mut VisualState, data: RgbEvent)
    ensures
        final(ui).values_v == old(ui).values_v,
        forall|i: int|
            0 <= i < 5 && i != 3 ==> #[trigger] final(ui).values_h[i] == old(ui).values_h[i],
        final(ui).values_h[3] == (VisualStateH::Rgb { r: data.r, g: data.g, b: data.b }),
{
    ui.values_h[3] = VisualStateH::Rgb { r: data.r, g: data.g, b: data.b };
}

} // verus!
