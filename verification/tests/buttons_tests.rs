use countryman::buttons::{Buttons, DEBOUNCE_MICROS, HOLD_MICROS};
use countryman::cmd::Cmd;
use countryman::time::Instant;

fn at(micros: u64) -> Instant {
    Instant::from_micros(micros)
}

#[test]
fn the_thresholds_are_set() {
    assert_eq!(DEBOUNCE_MICROS, 900);
    assert_eq!(HOLD_MICROS, 370_000);
}

#[test]
fn a_short_press_of_the_left_button_is_previous() {
    let mut buttons = Buttons::new();
    assert_eq!(buttons.on_edge(true, false, at(1_000)), (None, None));
    assert_eq!(buttons.left_pressed, Some(at(1_000)));
    assert_eq!(buttons.on_edge(false, false, at(101_000)), (Some(Cmd::Previous), None));
    assert_eq!(buttons, Buttons::new());
}

#[test]
fn a_long_press_of_the_left_button_is_minus() {
    let mut buttons = Buttons::new();
    buttons.on_edge(true, false, at(0));
    assert_eq!(buttons.on_edge(false, false, at(370_001)), (Some(Cmd::Minus), None));
    let mut edge = Buttons::new();
    edge.on_edge(true, false, at(0));
    assert_eq!(edge.on_edge(false, false, at(370_000)), (Some(Cmd::Previous), None));
}

#[test]
fn a_bounce_is_no_command() {
    let mut buttons = Buttons::new();
    buttons.on_edge(true, false, at(0));
    assert_eq!(buttons.on_edge(false, false, at(900)), (None, None));
    let mut just = Buttons::new();
    just.on_edge(true, false, at(0));
    assert_eq!(just.on_edge(false, false, at(901)), (Some(Cmd::Previous), None));
    let mut right = Buttons::new();
    right.on_edge(false, true, at(0));
    assert_eq!(right.on_edge(false, false, at(500)), (None, None));
}

#[test]
fn the_right_button_is_next_and_plus() {
    let mut buttons = Buttons::new();
    buttons.on_edge(false, true, at(5_000));
    assert_eq!(buttons.right_pressed, Some(at(5_000)));
    assert_eq!(buttons.on_edge(false, false, at(10_000)), (None, Some(Cmd::Next)));
    buttons.on_edge(false, true, at(20_000));
    assert_eq!(buttons.on_edge(false, false, at(500_000)), (None, Some(Cmd::Plus)));
    assert_eq!(buttons, Buttons::new());
}

#[test]
fn releasing_the_left_button_while_the_right_is_down_is_confirm() {
    let mut buttons = Buttons::new();
    buttons.on_edge(true, false, at(0));
    buttons.on_edge(true, true, at(10_000));
    assert_eq!(buttons.left_pressed, Some(at(10_000)));
    assert_eq!(buttons.right_pressed, Some(at(10_000)));
    assert_eq!(buttons.on_edge(false, true, at(50_000)), (Some(Cmd::Okay), None));
    assert_eq!(buttons, Buttons::new());
    assert_eq!(buttons.on_edge(false, false, at(60_000)), (None, None));
}

#[test]
fn releasing_the_right_button_while_the_left_is_down_is_exit() {
    let mut buttons = Buttons::new();
    buttons.on_edge(false, true, at(0));
    buttons.on_edge(true, true, at(10_000));
    assert_eq!(buttons.on_edge(true, false, at(50_000)), (None, Some(Cmd::Exit)));
    assert_eq!(buttons, Buttons::new());
    assert_eq!(buttons.on_edge(false, false, at(60_000)), (None, None));
}

#[test]
fn a_long_double_press_is_no_command() {
    let mut buttons = Buttons::new();
    buttons.on_edge(true, true, at(0));
    assert_eq!(buttons.on_edge(false, true, at(400_000)), (None, None));
    assert_eq!(buttons, Buttons::new());
    assert_eq!(buttons.on_edge(false, false, at(500_000)), (None, None));
}

#[test]
fn releasing_both_at_once_gives_both_commands() {
    let mut buttons = Buttons::new();
    buttons.on_edge(true, true, at(0));
    assert_eq!(buttons.on_edge(false, false, at(100_000)), (Some(Cmd::Previous), Some(Cmd::Next)));
    assert_eq!(buttons, Buttons::new());
}

#[test]
fn an_edge_of_the_other_button_restarts_a_press() {
    let mut buttons = Buttons::new();
    buttons.on_edge(true, false, at(0));
    buttons.on_edge(true, true, at(369_500));
    assert_eq!(buttons.left_pressed, Some(at(369_500)));
    assert_eq!(buttons.on_edge(true, false, at(369_600)), (None, None));
    assert_eq!(buttons.left_pressed, Some(at(369_600)));
    assert_eq!(buttons.right_pressed, None);
    assert_eq!(buttons.on_edge(false, false, at(700_000)), (Some(Cmd::Previous), None));
}

#[test]
fn a_release_before_the_press_counts_as_no_time() {
    let mut buttons = Buttons::new();
    buttons.on_edge(true, false, at(1_000_000));
    assert_eq!(buttons.on_edge(false, false, at(5)), (None, None));
}
