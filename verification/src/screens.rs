//! The screens of the menu and how commands move between them.

use crate::cmd::Cmd;
use crate::configuration::{RaceConfig, RaceConfigEntry};
use vstd::prelude::*;

pub mod config_screen;
pub mod imu_screen;
pub mod motors_screen;
pub mod race_screen;
pub mod ready_screen;
pub mod rgb_screen;

verus! {

/// What the vehicle is busy with.
#[derive(Clone, Copy, Debug, PartialEq, Eq, Structural)]
pub enum Screen {
    Ready,
    Race,
    RaceNow,
    Motors,
    Config,
    Simulation,
    Imu,
}

/// How many steps a long press changes a value by.
pub const FAST_STEPS: usize = 5;

impl Screen {
    /// The screen that a command leads to from the ready screen, if it
    /// leaves that screen.
    pub open spec fn spec_ready_command(cmd: Cmd) -> Option<Screen> {
        match cmd {
            Cmd::Previous => Some(Screen::RaceNow),
            Cmd::Next => Some(Screen::Race),
            Cmd::Plus => Some(Screen::Simulation),
            Cmd::Minus => Some(Screen::Config),
            _ => None,
        }
    }

    /// The screen that a command leads to from the motors test, if it
    /// leaves that screen.
    pub open spec fn spec_motors_command(cmd: Cmd) -> Option<Screen> {
        match cmd {
            Cmd::Previous => Some(Screen::Simulation),
            Cmd::Next => Some(Screen::Imu),
            _ => None,
        }
    }

    /// The screen that a command leads to from the inertial unit's screen,
    /// if it leaves that screen.
    pub open spec fn spec_imu_command(cmd: Cmd) -> Option<Screen> {
        match cmd {
            Cmd::Previous => Some(Screen::Motors),
            Cmd::Next => Some(Screen::Ready),
            _ => None,
        }
    }

    /// The screen that follows once this one has run its course, for the
    /// screens that end by themselves.
    pub open spec fn spec_after(self) -> Option<Screen> {
        match self {
            Screen::Race | Screen::RaceNow => Some(Screen::Ready),
            _ => None,
        }
    }

    /// The screen that a command leads to from the ready screen, if it leaves that screen.
    pub fn ready_command(cmd: Cmd) -> (next: Option<Screen>)
        ensures
            next == Screen::spec_ready_command(cmd),
    {
        match cmd {
            Cmd::Previous => Some(Screen::RaceNow),
            Cmd::Next => Some(Screen::Race),
            Cmd::Plus => Some(Screen::Simulation),
            Cmd::Minus => Some(Screen::Config),
            _ => None,
        }
    }

    /// The screen that a command leads to from the motors test, if it leaves that screen.
    pub fn motors_command(cmd: Cmd) -> (next: Option<Screen>)
        ensures
            next == Screen::spec_motors_command(cmd),
    {
        match cmd {
            Cmd::Previous => Some(Screen::Simulation),
            Cmd::Next => Some(Screen::Imu),
            _ => None,
        }
    }

    /// The screen that a command leads to from the inertial unit's screen, if it leaves that screen.
    pub fn imu_command(cmd: Cmd) -> (next: Option<Screen>)
        ensures
            next == Screen::spec_imu_command(cmd),
    {
        match cmd {
            Cmd::Previous => Some(Screen::Motors),
            Cmd::Next => Some(Screen::Ready),
            _ => None,
        }
    }

    /// The screen that follows once this one has run its course, for the screens that end by themselves.
    pub fn after(self) -> (next: Option<Screen>)
        ensures
            next == self.spec_after(),
    {
        match self {
            Screen::Race | Screen::RaceNow => Some(Screen::Ready),
            _ => None,
        }
    }
}

/// Where the configuration screen stands: the entry shown, and whether its
/// value is being changed.
#[derive(Clone, Copy, Debug, PartialEq, Eq, Structural)]
pub struct ConfigScreen {
    pub entry: RaceConfigEntry,
    pub editing: bool,
}

/// `steps` steps up or down of one entry.
pub open spec fn spec_repeat(up: bool, steps: nat) -> Seq<bool> {
    Seq::new(steps, |i: int| up)
}

impl ConfigScreen {
    /// The screen after a command. While a value is being changed,
    /// previous and next step it down and up, minus and plus do so five
    /// times, and exit or confirm end the change. Otherwise previous and
    /// next move to the neighbouring entry, and plus or minus begin a change.
    pub open spec fn spec_command(self, cmd: Cmd) -> ConfigScreen {
        if self.editing {
            ConfigScreen {
                editing: !(cmd == Cmd::Exit || cmd == Cmd::Okay),
                ..self
            }
        } else {
            match cmd {
                Cmd::Previous => ConfigScreen { entry: self.entry.spec_prev(), ..self },
                Cmd::Next => ConfigScreen { entry: self.entry.spec_next(), ..self },
                Cmd::Plus | Cmd::Minus => ConfigScreen { editing: true, ..self },
                Cmd::Exit | Cmd::Okay => self,
            }
        }
    }

    /// The table after a command given on this screen.
    pub open spec fn spec_config_after(self, config: RaceConfig, cmd: Cmd) -> RaceConfig {
        if self.editing {
            match cmd {
                Cmd::Previous => config.spec_dec(self.entry),
                Cmd::Next => config.spec_inc(self.entry),
                Cmd::Plus => config.spec_nudge(self.entry, spec_repeat(true, FAST_STEPS as nat)),
                Cmd::Minus => config.spec_nudge(self.entry, spec_repeat(false, FAST_STEPS as nat)),
                Cmd::Exit | Cmd::Okay => config,
            }
        } else {
            config
        }
    }

    /// Whether a command leaves the configuration screen: exit or confirm
    /// do, unless they end a change.
    pub open spec fn spec_leaves(self, cmd: Cmd) -> bool {
        !self.editing && (cmd == Cmd::Exit || cmd == Cmd::Okay)
    }

    /// The screen at the first entry, with nothing being changed.
    pub fn new() -> (screen: ConfigScreen)
        ensures
            screen == (ConfigScreen { entry: RaceConfigEntry::MaxSpeed, editing: false }),
    {
        ConfigScreen { entry: RaceConfigEntry::start(), editing: false }
    }

    /// Steps the entry shown `steps` times up or down.
    fn nudge(&self, config: &mut RaceConfig, up: bool, steps: usize)
        ensures
            *final(config) == old(config).spec_nudge(self.entry, spec_repeat(up, steps as nat)),
    {
        let mut done: usize = 0;
        assert(spec_repeat(up, 0).len() == 0);
        while done < steps
            invariant
                done <= steps,
                *config == old(config).spec_nudge(self.entry, spec_repeat(up, done as nat)),
            decreases steps - done,
        {
            proof {
                let longer = spec_repeat(up, (done + 1) as nat);
                assert(longer.drop_last() =~= spec_repeat(up, done as nat));
                assert(longer.last() == up);
            }
            if up {
                config.inc(self.entry);
            } else {
                config.dec(self.entry);
            }
            done = done + 1;
        }
    }

    /// Takes a command; returns the screen to go to where the command
    /// leaves this one.
    pub fn handle_command(&mut self, config: &mut RaceConfig, cmd: Cmd) -> (next: Option<Screen>)
        ensures
            *final(self) == old(self).spec_command(cmd),
            *final(config) == old(self).spec_config_after(*old(config), cmd),
            next == if old(self).spec_leaves(cmd) {
                Some(Screen::Ready)
            } else {
                None
            },
    {
        match cmd {
            Cmd::Previous => {
                if self.editing {
                    config.dec(self.entry);
                } else {
                    self.entry = self.entry.prev();
                }
                None
            },
            Cmd::Next => {
                if self.editing {
                    config.inc(self.entry);
                } else {
                    self.entry = self.entry.next();
                }
                None
            },
            Cmd::Plus => {
                if self.editing {
                    self.nudge(config, true, FAST_STEPS);
                } else {
                    self.editing = true;
                }
                None
            },
            Cmd::Minus => {
                if self.editing {
                    self.nudge(config, false, FAST_STEPS);
                } else {
                    self.editing = true;
                }
                None
            },
            Cmd::Exit | Cmd::Okay => {
                if self.editing {
                    self.editing = false;
                    None
                } else {
                    Some(Screen::Ready)
                }
            },
        }
    }
}

} // verus!
