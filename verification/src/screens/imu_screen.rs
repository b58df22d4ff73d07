//! What the screen of the inertial unit shows.

use crate::angle::Angle;
use crate::imu::ImuData;
use crate::lcd::{Color, VisualState, VisualStateH, VisualStateV};
use crate::vision::Vision;
use vstd::prelude::*;

verus! {

/// The display on entering the screen: the title, and four empty rows.
pub fn start() -> (ui: VisualState)
    ensures
        ui.values_h[0] == (VisualStateH::Text { text: "IMU", color: Color::Green }),
        forall|i: int|
            1 <= i < 5 ==> #[trigger] ui.values_h[i] == (VisualStateH::Text {
                text: "",
                color: Color::White,
            }),
        forall|i: int|
            0 <= i < 5 ==> #[trigger] ui.values_v[i] == (VisualStateV::Gauge {
                value: 0,
                max: 1,
                color: Color::Black,
            }),
{
    let mut ui = VisualState::init();
    ui.values_h[0] = VisualStateH::Text { text: "IMU", color: Color::Green };
    ui.values_h[1] = VisualStateH::Text { text: "", color: Color::White };
    ui.values_h[2] = VisualStateH::Text { text: "", color: Color::White };
    ui.values_h[3] = VisualStateH::Text { text: "", color: Color::White };
    ui.values_h[4] = VisualStateH::Text { text: "", color: Color::White };
    ui
}

/// Shows the lasers in the columns.
pub fn show_lasers(ui: &mut VisualState, vision: &Vision)
    ensures
        final(ui).values_h == old(ui).values_h,
        forall|i: int|
            0 <= i < 5 ==> #[trigger] final(ui).values_v[i] == VisualStateV::spec_laser(
                vision.lasers[i],
                false,
            ),
{
    ui.update_vision(vision, None);
}

/// Shows a sample of the inertial unit: the three angles in the second
/// row, then the forward, the sideways and the vertical acceleration.
/// Returns the pitch of the sample.
pub fn show_imu(ui: &mut VisualState, data: &ImuData) -> (pitch: Angle)
    ensures
        pitch == Angle::spec_from_imu_value(data.pitch),
        final(ui).values_v == old(ui).values_v,
        final(ui).values_h[0] == old(ui).values_h[0],
        final(ui).values_h[1] == (VisualStateH::ImuAngles {
            roll: Angle::spec_from_imu_value(data.roll),
            pitch: Angle::spec_from_imu_value(data.pitch),
            yaw: Angle::spec_from_imu_value(data.yaw),
        }),
        final(ui).values_h[2] == (VisualStateH::Value { value: data.forward, color: Color::White }),
        final(ui).values_h[3] == (VisualStateH::Value { value: data.side, color: Color::White }),
        final(ui).values_h[4] == (VisualStateH::Value { value: data.vertical, color: Color::White }),
{
    let pitch = Angle::from_imu_value(data.pitch);
    ui.values_h[1] = VisualStateH::ImuAngles {
        roll: Angle::from_imu_value(data.roll),
        pitch,
        yaw: Angle::from_imu_value(data.yaw),
    };
    ui.values_h[2] = VisualStateH::Value { value: data.forward, color: Color::White };
    ui.values_h[3] = VisualStateH::Value { value: data.side, color: Color::White };
    ui.values_h[4] = VisualStateH::Value { value: data.vertical, color: Color::White };
    pitch
}

} // verus!
