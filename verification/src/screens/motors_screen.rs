//! What the motors test shows.

use crate::arith::trunc_div;
use crate::imu::ImuData;
use crate::lcd::{Color, VisualState, VisualStateH, VisualStateV};
use crate::motors::{motors_test_action, spec_motors_test_action, MotorsData};
use crate::vision::Vision;
use vstd::prelude::*;

verus! {

/// The display on entering the motors test.
pub fn start() -> (ui: VisualState)
    ensures
        ui.values_h[0] == VisualStateH::Empty,
        ui.values_h[1] == (VisualStateH::Text { text: "COUNTRYMAN", color: Color::Red }),
        ui.values_h[2] == (VisualStateH::Text { text: "MOTORS", color: Color::Green }),
        ui.values_h[3] == VisualStateH::Empty,
        ui.values_h[4] == VisualStateH::Empty,
        forall|i: int|
            0 <= i < 5 ==> #[trigger] ui.values_v[i] == (VisualStateV::Gauge {
                value: 0,
                max: 1,
                color: Color::Black,
            }),
{
    let mut ui = VisualState::init();
    ui.values_h[0] = VisualStateH::Empty;
    ui.values_h[1] = VisualStateH::Text { text: "COUNTRYMAN", color: Color::Red };
    ui.values_h[2] = VisualStateH::Text { text: "MOTORS", color: Color::Green };
    ui.values_h[3] = VisualStateH::Empty;
    ui.values_h[4] = VisualStateH::Empty;
    ui
}

/// Shows the lasers in the columns.
pub fn show_lasers(ui: &mut VisualState, vision: &Vision)
    ensures
        final(ui).values_h == old(ui).values_h,
        forall|i: int|
            0 <= i < 5 ==> #[trigger] final(ui).values_v[i] == VisualStateV::spec_laser(
                vision.lasers[i],
                false,
            ),
{
    ui.update_vision(vision, None);
}

/// Works out what the motors do for a sample of the inertial unit, and
/// shows the yaw in degrees and the power in the last two rows.
pub fn show_imu(ui: &mut VisualState, data: &ImuData) -> (action: MotorsData)
    ensures
        action == spec_motors_test_action(data.yaw, data.pitch),
        final(ui).values_v == old(ui).values_v,
        forall|i: int| 0 <= i < 3 ==> #[trigger] final(ui).values_h[i] == old(ui).values_h[i],
        final(ui).values_h[3] == (VisualStateH::Value {
            value: trunc_div(data.yaw as int, 100) as i16,
            color: Color::White,
        }),
        final(ui).values_h[4] == (VisualStateH::Value { value: action.power, color: Color::White }),
{
    let action = motors_test_action(data.yaw, data.pitch);
    ui.values_h[3] = VisualStateH::Value { value: data.yaw / 100, color: Color::White };
    ui.values_h[4] = VisualStateH::Value { value: action.power, color: Color::White };
    action
}

} // verus!
