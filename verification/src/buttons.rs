//! The two buttons: how long and in what combination they were held
//! decides the command.

use crate::arith::saturate_u64;
use crate::cmd::Cmd;
use crate::time::Instant;
use vstd::prelude::*;

verus! {

/// Microseconds that a press must exceed to count at all.
pub const DEBOUNCE_MICROS: u64 = 900;

/// Microseconds that a press must exceed to count as a long one.
pub const HOLD_MICROS: u64 = 370_000;

/// When each button went down, for the buttons that are down.
#[derive(Clone, Copy, Debug, PartialEq, Eq, Structural)]
pub struct Buttons {
    pub left_pressed: Option<Instant>,
    pub right_pressed: Option<Instant>,
}

/// What the release of a button means: the command that it gives, if any,
/// and whether the press of the other button is to be forgotten.
#[derive(Clone, Copy, Debug, PartialEq, Eq, Structural)]
pub struct Release {
    pub cmd: Option<Cmd>,
    pub forget_other: bool,
}

/// What a release after `elapsed` microseconds means: nothing for a
/// bounce; alone, `short` or, past the holding time, `long`; with the
/// other button down, `both` for a short press, and either way the other
/// button's press is then forgotten.
pub open spec fn spec_release(
    elapsed: int,
    other_down: bool,
    short: Cmd,
    long: Cmd,
    both: Cmd,
) -> Release {
    if other_down {
        if elapsed > HOLD_MICROS {
            Release { cmd: None, forget_other: true }
        } else if elapsed > DEBOUNCE_MICROS {
            Release { cmd: Some(both), forget_other: true }
        } else {
            Release { cmd: None, forget_other: false }
        }
    } else {
        if elapsed > HOLD_MICROS {
            Release { cmd: Some(long), forget_other: false }
        } else if elapsed > DEBOUNCE_MICROS {
            Release { cmd: Some(short), forget_other: false }
        } else {
            Release { cmd: None, forget_other: false }
        }
    }
}

/// What a release after `elapsed` microseconds means.
fn release(elapsed: u64, other_down: bool, short: Cmd, long: Cmd, both: Cmd) -> (outcome: Release)
    ensures
        outcome == spec_release(elapsed as int, other_down, short, long, both),
{
    if other_down {
        if elapsed > HOLD_MICROS {
            Release { cmd: None, forget_other: true }
        } else if elapsed > DEBOUNCE_MICROS {
            Release { cmd: Some(both), forget_other: true }
        } else {
            Release { cmd: None, forget_other: false }
        }
    } else {
        if elapsed > HOLD_MICROS {
            Release { cmd: Some(long), forget_other: false }
        } else if elapsed > DEBOUNCE_MICROS {
            Release { cmd: Some(short), forget_other: false }
        } else {
            Release { cmd: None, forget_other: false }
        }
    }
}

impl Buttons {
    /// What the left button does on an edge seen at `now` with the
    /// buttons down as `left` and `right` tell: nothing while it is down
    /// or was not down before, else what its release means.
    pub open spec fn spec_left_release(self, left: bool, right: bool, now: Instant) -> Release {
        match self.left_pressed {
            Some(pressed) if !left => spec_release(
                saturate_u64(now@ - pressed@),
                right,
                Cmd::Previous,
                Cmd::Minus,
                Cmd::Okay,
            ),
            _ => Release { cmd: None, forget_other: false },
        }
    }

    /// What the right button does on an edge seen at `now`.
    pub open spec fn spec_right_release(self, left: bool, right: bool, now: Instant) -> Release {
        match self.right_pressed {
            Some(pressed) if !right => spec_release(
                saturate_u64(now@ - pressed@),
                left,
                Cmd::Next,
                Cmd::Plus,
                Cmd::Exit,
            ),
            _ => Release { cmd: None, forget_other: false },
        }
    }

    /// The buttons after an edge seen at `now`: a button that is down is
    /// down since `now`, one that is up is up, and a press that the other
    /// button's release made part of a double press is forgotten. The
    /// right button is looked at with the left one's time already set.
    pub open spec fn spec_on_edge(self, left: bool, right: bool, now: Instant) -> Buttons {
        let left_release = self.spec_left_release(left, right, now);
        let right_release = self.spec_right_release(left, right, now);
        Buttons {
            left_pressed: if left && !right_release.forget_other {
                Some(now)
            } else {
                None
            },
            right_pressed: if right && !left_release.forget_other {
                Some(now)
            } else {
                None
            },
        }
    }

    /// Both buttons up.
    pub fn new() -> (buttons: Buttons)
        ensures
            buttons == (Buttons { left_pressed: None, right_pressed: None }),
    {
        Buttons { left_pressed: None, right_pressed: None }
    }

    /// Takes an edge of either button, seen at `now` with the buttons down
    /// as `left` and `right` tell. Returns the command of the left button
    /// and that of the right one, in the order in which they are given.
    pub fn on_edge(&mut self, left: bool, right: bool, now: Instant) -> (cmds: (
        Option<Cmd>,
        Option<Cmd>,
    ))
        ensures
            cmds.0 == old(self).spec_left_release(left, right, now).cmd,
            cmds.1 == old(self).spec_right_release(left, right, now).cmd,
            *final(self) == old(self).spec_on_edge(left, right, now),
    {
        let mut forget_left = false;
        let mut forget_right = false;
        let mut left_cmd: Option<Cmd> = None;
        let mut right_cmd: Option<Cmd> = None;

        if left {
            self.left_pressed = Some(now);
        } else {
            if let Some(pressed) = self.left_pressed {
                self.left_pressed = None;
                let elapsed = now.duration_since(pressed).as_micros();
                let outcome = release(elapsed, right, Cmd::Previous, Cmd::Minus, Cmd::Okay);
                left_cmd = outcome.cmd;
                forget_right = outcome.forget_other;
            }
        }

        if right {
            self.right_pressed = Some(now);
        } else {
            if let Some(pressed) = self.right_pressed {
                self.right_pressed = None;
                let elapsed = now.duration_since(pressed).as_micros();
                let outcome = release(elapsed, left, Cmd::Next, Cmd::Plus, Cmd::Exit);
                right_cmd = outcome.cmd;
                forget_left = outcome.forget_other;
            }
        }

        if forget_left {
            self.left_pressed = None;
        }
        if forget_right {
            self.right_pressed = None;
        }
        (left_cmd, right_cmd)
    }
}

} // verus!
