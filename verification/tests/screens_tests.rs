use countryman::cmd::Cmd;
use countryman::configuration::{RaceConfig, RaceConfigEntry};
use countryman::screens::{ConfigScreen, Screen, FAST_STEPS};

#[test]
fn the_ready_screen_leads_to_the_others() {
    assert_eq!(Screen::ready_command(Cmd::Previous), Some(Screen::RaceNow));
    assert_eq!(Screen::ready_command(Cmd::Next), Some(Screen::Race));
    assert_eq!(Screen::ready_command(Cmd::Plus), Some(Screen::Simulation));
    assert_eq!(Screen::ready_command(Cmd::Minus), Some(Screen::Config));
    assert_eq!(Screen::ready_command(Cmd::Okay), None);
    assert_eq!(Screen::ready_command(Cmd::Exit), None);
}

#[test]
fn the_motors_and_imu_screens_lead_to_their_neighbours() {
    assert_eq!(Screen::motors_command(Cmd::Previous), Some(Screen::Simulation));
    assert_eq!(Screen::motors_command(Cmd::Next), Some(Screen::Imu));
    assert_eq!(Screen::motors_command(Cmd::Plus), None);
    assert_eq!(Screen::imu_command(Cmd::Previous), Some(Screen::Motors));
    assert_eq!(Screen::imu_command(Cmd::Next), Some(Screen::Ready));
    assert_eq!(Screen::imu_command(Cmd::Exit), None);
}

#[test]
fn a_race_ends_at_the_ready_screen() {
    assert_eq!(Screen::Race.after(), Some(Screen::Ready));
    assert_eq!(Screen::RaceNow.after(), Some(Screen::Ready));
    assert_eq!(Screen::Ready.after(), None);
    assert_eq!(Screen::Config.after(), None);
    assert_eq!(Screen::Simulation.after(), None);
}

#[test]
fn the_configuration_screen_starts_at_the_first_entry() {
    let screen = ConfigScreen::new();
    assert_eq!(screen.entry, RaceConfigEntry::MaxSpeed);
    assert!(!screen.editing);
    assert_eq!(FAST_STEPS, 5);
}

#[test]
fn previous_and_next_walk_the_entries() {
    let mut config = RaceConfig::init();
    let mut screen = ConfigScreen::new();
    assert_eq!(screen.handle_command(&mut config, Cmd::Next), None);
    assert_eq!(screen.entry, RaceConfigEntry::MinSpeed);
    assert_eq!(screen.handle_command(&mut config, Cmd::Previous), None);
    assert_eq!(screen.handle_command(&mut config, Cmd::Previous), None);
    assert_eq!(screen.entry, RaceConfigEntry::UseColorInversion);
    assert_eq!(screen.handle_command(&mut config, Cmd::Next), None);
    assert_eq!(screen.entry, RaceConfigEntry::MaxSpeed);
    assert_eq!(config, RaceConfig::init());
}

#[test]
fn plus_or_minus_begin_a_change_and_exit_or_confirm_end_it() {
    let mut config = RaceConfig::init();
    for (begin, end) in [(Cmd::Plus, Cmd::Exit), (Cmd::Minus, Cmd::Okay)] {
        let mut screen = ConfigScreen::new();
        assert_eq!(screen.handle_command(&mut config, begin), None);
        assert!(screen.editing);
        assert_eq!(config, RaceConfig::init());
        assert_eq!(screen.handle_command(&mut config, end), None);
        assert!(!screen.editing);
        assert_eq!(screen.entry, RaceConfigEntry::MaxSpeed);
    }
}

#[test]
fn a_change_steps_the_value_by_one_or_by_five() {
    let mut config = RaceConfig::init();
    let mut screen = ConfigScreen { entry: RaceConfigEntry::SafeAngle, editing: true };
    assert_eq!(screen.handle_command(&mut config, Cmd::Next), None);
    assert_eq!(config.safe_angle, 11);
    assert_eq!(screen.handle_command(&mut config, Cmd::Plus), None);
    assert_eq!(config.safe_angle, 16);
    assert_eq!(screen.handle_command(&mut config, Cmd::Previous), None);
    assert_eq!(config.safe_angle, 15);
    assert_eq!(screen.handle_command(&mut config, Cmd::Minus), None);
    assert_eq!(config.safe_angle, 10);
    assert_eq!(screen.handle_command(&mut config, Cmd::Minus), None);
    assert_eq!(screen.handle_command(&mut config, Cmd::Minus), None);
    assert_eq!(screen.handle_command(&mut config, Cmd::Minus), None);
    assert_eq!(config.safe_angle, 0);
    assert!(screen.editing);
    assert_eq!(screen.entry, RaceConfigEntry::SafeAngle);
    let mut rest = config;
    rest.safe_angle = 10;
    assert_eq!(rest, RaceConfig::init());
}

#[test]
fn exit_or_confirm_leave_the_screen_when_nothing_is_being_changed() {
    let mut config = RaceConfig::init();
    let mut screen = ConfigScreen::new();
    assert_eq!(screen.handle_command(&mut config, Cmd::Exit), Some(Screen::Ready));
    assert_eq!(screen.handle_command(&mut config, Cmd::Okay), Some(Screen::Ready));
    assert_eq!(screen, ConfigScreen::new());
}
