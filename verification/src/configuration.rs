//! The table of tunable parameters and the control curves derived from it.

use crate::angle::{normalize_deg, Angle, MAX_STEER_DEG};
use crate::arith::{
    clamp_int, i16_bits_as_u16, i16_bits_as_u64, i64_div, i64_to_i16_saturating, reinterpret_u16,
    reinterpret_u64, saturate_i16, saturate_u64, trunc_div,
};
use crate::time::Duration;
use crate::vision::LaserSidePosition;
use core::ops::Neg;
use vstd::prelude::*;

verus! {

/// Number of selectable entries; also the index of the `End` marker.
pub const RACE_CONFIG_ENTRY_END: usize = 25;

/// Index of the first entry.
pub const RACE_CONFIG_ENTRY_START: usize = 0;

/// One tunable parameter. `End` closes the list and cannot be selected.
#[derive(Clone, Copy, Debug, PartialEq, Eq, Structural)]
pub enum RaceConfigEntry {
    MaxSpeed,
    MinSpeed,
    SteerBias,
    SafeAngle,
    BackSpeed,
    BackTime,
    SprintSpeed,
    SprintTime,
    AlertDistanceCenter,
    AlertDistanceSide30,
    AlertDistanceSide60,
    BackDistanceCenter,
    BackDistanceSide30,
    BackDistanceSide60,
    SlopeDistanceDelta,
    ClimbingSpeed,
    ClimbingAngle,
    ClimbingIgnore,
    StillnessDelta,
    StillnessTime,
    UseStillness,
    InversionTime,
    ClimbDirection,
    UseClimbDirection,
    UseColorInversion,
    End,
}

/// The entry at `index`; an index past the last entry falls back to the first.
pub open spec fn spec_entry_at(index: int) -> RaceConfigEntry {
    if index == 1 {
        RaceConfigEntry::MinSpeed
    } else if index == 2 {
        RaceConfigEntry::SteerBias
    } else if index == 3 {
        RaceConfigEntry::SafeAngle
    } else if index == 4 {
        RaceConfigEntry::BackSpeed
    } else if index == 5 {
        RaceConfigEntry::BackTime
    } else if index == 6 {
        RaceConfigEntry::SprintSpeed
    } else if index == 7 {
        RaceConfigEntry::SprintTime
    } else if index == 8 {
        RaceConfigEntry::AlertDistanceCenter
    } else if index == 9 {
        RaceConfigEntry::AlertDistanceSide30
    } else if index == 10 {
        RaceConfigEntry::AlertDistanceSide60
    } else if index == 11 {
        RaceConfigEntry::BackDistanceCenter
    } else if index == 12 {
        RaceConfigEntry::BackDistanceSide30
    } else if index == 13 {
        RaceConfigEntry::BackDistanceSide60
    } else if index == 14 {
        RaceConfigEntry::SlopeDistanceDelta
    } else if index == 15 {
        RaceConfigEntry::ClimbingSpeed
    } else if index == 16 {
        RaceConfigEntry::ClimbingAngle
    } else if index == 17 {
        RaceConfigEntry::ClimbingIgnore
    } else if index == 18 {
        RaceConfigEntry::StillnessDelta
    } else if index == 19 {
        RaceConfigEntry::StillnessTime
    } else if index == 20 {
        RaceConfigEntry::UseStillness
    } else if index == 21 {
        RaceConfigEntry::InversionTime
    } else if index == 22 {
        RaceConfigEntry::ClimbDirection
    } else if index == 23 {
        RaceConfigEntry::UseClimbDirection
    } else if index == 24 {
        RaceConfigEntry::UseColorInversion
    } else {
        RaceConfigEntry::MaxSpeed
    }
}

/// The entry reached from `entry` by `steps` uses of `next`.
pub open spec fn spec_next_n(entry: RaceConfigEntry, steps: nat) -> RaceConfigEntry
    decreases steps,
{
    if steps == 0 {
        entry
    } else {
        spec_next_n(entry, (steps - 1) as nat).spec_next()
    }
}

impl RaceConfigEntry {
    /// Position of the entry in the list.
    pub open spec fn spec_index(self) -> int {
        match self {
            RaceConfigEntry::MaxSpeed => 0,
            RaceConfigEntry::MinSpeed => 1,
            RaceConfigEntry::SteerBias => 2,
            RaceConfigEntry::SafeAngle => 3,
            RaceConfigEntry::BackSpeed => 4,
            RaceConfigEntry::BackTime => 5,
            RaceConfigEntry::SprintSpeed => 6,
            RaceConfigEntry::SprintTime => 7,
            RaceConfigEntry::AlertDistanceCenter => 8,
            RaceConfigEntry::AlertDistanceSide30 => 9,
            RaceConfigEntry::AlertDistanceSide60 => 10,
            RaceConfigEntry::BackDistanceCenter => 11,
            RaceConfigEntry::BackDistanceSide30 => 12,
            RaceConfigEntry::BackDistanceSide60 => 13,
            RaceConfigEntry::SlopeDistanceDelta => 14,
            RaceConfigEntry::ClimbingSpeed => 15,
            RaceConfigEntry::ClimbingAngle => 16,
            RaceConfigEntry::ClimbingIgnore => 17,
            RaceConfigEntry::StillnessDelta => 18,
            RaceConfigEntry::StillnessTime => 19,
            RaceConfigEntry::UseStillness => 20,
            RaceConfigEntry::InversionTime => 21,
            RaceConfigEntry::ClimbDirection => 22,
            RaceConfigEntry::UseClimbDirection => 23,
            RaceConfigEntry::UseColorInversion => 24,
            RaceConfigEntry::End => 25,
        }
    }

    /// Whether the entry can be selected, that is, is not the `End` marker.
    pub open spec fn selectable(self) -> bool {
        self != RaceConfigEntry::End
    }

    /// The entry before this one, the list taken as a ring without `End`.
    pub open spec fn spec_prev(self) -> RaceConfigEntry {
        if self == RaceConfigEntry::MaxSpeed || self == RaceConfigEntry::End {
            spec_entry_at(RACE_CONFIG_ENTRY_END - 1)
        } else {
            spec_entry_at(self.spec_index() - 1)
        }
    }

    /// The entry after this one, the list taken as a ring without `End`.
    pub open spec fn spec_next(self) -> RaceConfigEntry {
        spec_entry_at(self.spec_index() + 1)
    }

    /// The display name of the entry.
    pub open spec fn spec_name(self) -> Seq<char> {
        match self {
            RaceConfigEntry::MaxSpeed => "MAX SPEED"@,
            RaceConfigEntry::MinSpeed => "MIN SPEED"@,
            RaceConfigEntry::SteerBias => "STEER BIAS"@,
            RaceConfigEntry::SafeAngle => "SAFE ANGLE"@,
            RaceConfigEntry::BackSpeed => "BACK SPEED"@,
            RaceConfigEntry::BackTime => "BACK TIME"@,
            RaceConfigEntry::SprintSpeed => "SPRINT SPEED"@,
            RaceConfigEntry::SprintTime => "SPRINT TIME"@,
            RaceConfigEntry::AlertDistanceCenter => "ALERT D  0"@,
            RaceConfigEntry::AlertDistanceSide30 => "ALERT D 30"@,
            RaceConfigEntry::AlertDistanceSide60 => "ALERT D 60"@,
            RaceConfigEntry::BackDistanceCenter => "BACK D  0"@,
            RaceConfigEntry::BackDistanceSide30 => "BACK D 30"@,
            RaceConfigEntry::BackDistanceSide60 => "BACK D 60"@,
            RaceConfigEntry::SlopeDistanceDelta => "SLOPE DELTA"@,
            RaceConfigEntry::ClimbingSpeed => "CLIMB SPD"@,
            RaceConfigEntry::ClimbingAngle => "CLIMB ANG"@,
            RaceConfigEntry::ClimbingIgnore => "CLIMB IGN"@,
            RaceConfigEntry::StillnessDelta => "STILL DELTA"@,
            RaceConfigEntry::StillnessTime => "STILL TIME"@,
            RaceConfigEntry::UseStillness => "USE STILL"@,
            RaceConfigEntry::InversionTime => "INV TIME"@,
            RaceConfigEntry::ClimbDirection => "CLIMB DIR"@,
            RaceConfigEntry::UseClimbDirection => "USE CLIMB DIR"@,
            RaceConfigEntry::UseColorInversion => "USE COLOR INV"@,
            RaceConfigEntry::End => "END"@,
        }
    }

    /// Smallest value that stepping down reaches.
    pub open spec fn spec_min(self) -> i16 {
        match self {
            RaceConfigEntry::MaxSpeed => 2000,
            RaceConfigEntry::MinSpeed => 1000,
            RaceConfigEntry::SteerBias => 0,
            RaceConfigEntry::SafeAngle => 0,
            RaceConfigEntry::BackSpeed => 2000,
            RaceConfigEntry::BackTime => 100,
            RaceConfigEntry::SprintSpeed => 2000,
            RaceConfigEntry::SprintTime => 0,
            RaceConfigEntry::AlertDistanceCenter => 150,
            RaceConfigEntry::AlertDistanceSide30 => 150,
            RaceConfigEntry::AlertDistanceSide60 => 150,
            RaceConfigEntry::BackDistanceCenter => 25,
            RaceConfigEntry::BackDistanceSide30 => 25,
            RaceConfigEntry::BackDistanceSide60 => 25,
            RaceConfigEntry::SlopeDistanceDelta => 50,
            RaceConfigEntry::ClimbingSpeed => 2000,
            RaceConfigEntry::ClimbingAngle => 5,
            RaceConfigEntry::ClimbingIgnore => 0,
            RaceConfigEntry::StillnessDelta => 0,
            RaceConfigEntry::StillnessTime => 0,
            RaceConfigEntry::UseStillness => 0,
            RaceConfigEntry::InversionTime => 100,
            RaceConfigEntry::ClimbDirection => (-180) as i16,
            RaceConfigEntry::UseClimbDirection => 0,
            RaceConfigEntry::UseColorInversion => 0,
            RaceConfigEntry::End => 0,
        }
    }

    /// Largest value that stepping up reaches.
    pub open spec fn spec_max(self) -> i16 {
        match self {
            RaceConfigEntry::MaxSpeed => 10000,
            RaceConfigEntry::MinSpeed => 9000,
            RaceConfigEntry::SteerBias => 20,
            RaceConfigEntry::SafeAngle => 35,
            RaceConfigEntry::BackSpeed => 10000,
            RaceConfigEntry::BackTime => 1000,
            RaceConfigEntry::SprintSpeed => 10000,
            RaceConfigEntry::SprintTime => 3000,
            RaceConfigEntry::AlertDistanceCenter => 500,
            RaceConfigEntry::AlertDistanceSide30 => 500,
            RaceConfigEntry::AlertDistanceSide60 => 500,
            RaceConfigEntry::BackDistanceCenter => 400,
            RaceConfigEntry::BackDistanceSide30 => 400,
            RaceConfigEntry::BackDistanceSide60 => 400,
            RaceConfigEntry::SlopeDistanceDelta => 300,
            RaceConfigEntry::ClimbingSpeed => 10000,
            RaceConfigEntry::ClimbingAngle => 25,
            RaceConfigEntry::ClimbingIgnore => 10,
            RaceConfigEntry::StillnessDelta => 100,
            RaceConfigEntry::StillnessTime => 500,
            RaceConfigEntry::UseStillness => 1,
            RaceConfigEntry::InversionTime => 1000,
            RaceConfigEntry::ClimbDirection => 180,
            RaceConfigEntry::UseClimbDirection => 1,
            RaceConfigEntry::UseColorInversion => 1,
            RaceConfigEntry::End => 1,
        }
    }

    /// Amount by which one step changes the value.
    pub open spec fn spec_step(self) -> i16 {
        match self {
            RaceConfigEntry::MaxSpeed => 500,
            RaceConfigEntry::MinSpeed => 500,
            RaceConfigEntry::SteerBias => 1,
            RaceConfigEntry::SafeAngle => 1,
            RaceConfigEntry::BackSpeed => 500,
            RaceConfigEntry::BackTime => 10,
            RaceConfigEntry::SprintSpeed => 500,
            RaceConfigEntry::SprintTime => 10,
            RaceConfigEntry::AlertDistanceCenter => 25,
            RaceConfigEntry::AlertDistanceSide30 => 25,
            RaceConfigEntry::AlertDistanceSide60 => 25,
            RaceConfigEntry::BackDistanceCenter => 25,
            RaceConfigEntry::BackDistanceSide30 => 25,
            RaceConfigEntry::BackDistanceSide60 => 25,
            RaceConfigEntry::SlopeDistanceDelta => 10,
            RaceConfigEntry::ClimbingSpeed => 500,
            RaceConfigEntry::ClimbingAngle => 1,
            RaceConfigEntry::ClimbingIgnore => 1,
            RaceConfigEntry::StillnessDelta => 1,
            RaceConfigEntry::StillnessTime => 1,
            RaceConfigEntry::UseStillness => 1,
            RaceConfigEntry::InversionTime => 10,
            RaceConfigEntry::ClimbDirection => 90,
            RaceConfigEntry::UseClimbDirection => 1,
            RaceConfigEntry::UseColorInversion => 1,
            RaceConfigEntry::End => 1,
        }
    }

    /// Whether the entry is a yes/no switch.
    pub open spec fn is_switch(self) -> bool {
        self == RaceConfigEntry::UseStillness || self == RaceConfigEntry::UseClimbDirection
            || self == RaceConfigEntry::UseColorInversion
    }

    /// The word shown in place of `value`, for the entries that have one.
    pub open spec fn spec_value_name(self, value: i16) -> Option<Seq<char>> {
        if self.is_switch() && value == 0 {
            Some("NO"@)
        } else if self.is_switch() && value == 1 {
            Some("YES"@)
        } else {
            None
        }
    }

    /// The first entry.
    pub fn start() -> (entry: RaceConfigEntry)
        ensures
            entry == RaceConfigEntry::MaxSpeed,
            entry.spec_index() == RACE_CONFIG_ENTRY_START,
    {
        RaceConfigEntry::MaxSpeed
    }

    /// The marker that closes the list.
    pub fn end() -> (entry: RaceConfigEntry)
        ensures
            entry == RaceConfigEntry::End,
            entry.spec_index() == RACE_CONFIG_ENTRY_END,
    {
        RaceConfigEntry::End
    }

    /// The entry at `index`; an index past the last entry falls back to the first.
    pub fn from_index(index: usize) -> (entry: RaceConfigEntry)
        ensures
            entry == spec_entry_at(index as int),
            entry.selectable(),
            index < RACE_CONFIG_ENTRY_END ==> entry.spec_index() == index,
    {
        match index {
            1 => RaceConfigEntry::MinSpeed,
            2 => RaceConfigEntry::SteerBias,
            3 => RaceConfigEntry::SafeAngle,
            4 => RaceConfigEntry::BackSpeed,
            5 => RaceConfigEntry::BackTime,
            6 => RaceConfigEntry::SprintSpeed,
            7 => RaceConfigEntry::SprintTime,
            8 => RaceConfigEntry::AlertDistanceCenter,
            9 => RaceConfigEntry::AlertDistanceSide30,
            10 => RaceConfigEntry::AlertDistanceSide60,
            11 => RaceConfigEntry::BackDistanceCenter,
            12 => RaceConfigEntry::BackDistanceSide30,
            13 => RaceConfigEntry::BackDistanceSide60,
            14 => RaceConfigEntry::SlopeDistanceDelta,
            15 => RaceConfigEntry::ClimbingSpeed,
            16 => RaceConfigEntry::ClimbingAngle,
            17 => RaceConfigEntry::ClimbingIgnore,
            18 => RaceConfigEntry::StillnessDelta,
            19 => RaceConfigEntry::StillnessTime,
            20 => RaceConfigEntry::UseStillness,
            21 => RaceConfigEntry::InversionTime,
            22 => RaceConfigEntry::ClimbDirection,
            23 => RaceConfigEntry::UseClimbDirection,
            24 => RaceConfigEntry::UseColorInversion,
            _ => RaceConfigEntry::MaxSpeed,
        }
    }

    /// Position of the entry in the list.
    pub fn index(self) -> (index: usize)
        ensures
            index == self.spec_index(),
            index <= RACE_CONFIG_ENTRY_END,
            spec_entry_at(index as int) == if self.selectable() {
                self
            } else {
                RaceConfigEntry::MaxSpeed
            },
    {
        match self {
            RaceConfigEntry::MaxSpeed => 0,
            RaceConfigEntry::MinSpeed => 1,
            RaceConfigEntry::SteerBias => 2,
            RaceConfigEntry::SafeAngle => 3,
            RaceConfigEntry::BackSpeed => 4,
            RaceConfigEntry::BackTime => 5,
            RaceConfigEntry::SprintSpeed => 6,
            RaceConfigEntry::SprintTime => 7,
            RaceConfigEntry::AlertDistanceCenter => 8,
            RaceConfigEntry::AlertDistanceSide30 => 9,
            RaceConfigEntry::AlertDistanceSide60 => 10,
            RaceConfigEntry::BackDistanceCenter => 11,
            RaceConfigEntry::BackDistanceSide30 => 12,
            RaceConfigEntry::BackDistanceSide60 => 13,
            RaceConfigEntry::SlopeDistanceDelta => 14,
            RaceConfigEntry::ClimbingSpeed => 15,
            RaceConfigEntry::ClimbingAngle => 16,
            RaceConfigEntry::ClimbingIgnore => 17,
            RaceConfigEntry::StillnessDelta => 18,
            RaceConfigEntry::StillnessTime => 19,
            RaceConfigEntry::UseStillness => 20,
            RaceConfigEntry::InversionTime => 21,
            RaceConfigEntry::ClimbDirection => 22,
            RaceConfigEntry::UseClimbDirection => 23,
            RaceConfigEntry::UseColorInversion => 24,
            RaceConfigEntry::End => 25,
        }
    }

    /// The entry before this one, the list taken as a ring without `End`.
    pub fn prev(self) -> (entry: RaceConfigEntry)
        ensures
            entry == self.spec_prev(),
            entry.selectable(),
    {
        let index: usize = if self.index() != RACE_CONFIG_ENTRY_START {
            self.index()
        } else {
            RACE_CONFIG_ENTRY_END
        };
        RaceConfigEntry::from_index(index - 1)
    }

    /// The entry after this one, the list taken as a ring without `End`.
    pub fn next(self) -> (entry: RaceConfigEntry)
        ensures
            entry == self.spec_next(),
            entry.selectable(),
    {
        RaceConfigEntry::from_index(self.index() + 1)
    }

    /// The display name of the entry.
    pub fn name(self) -> (name: &'static str)
        ensures
            name@ == self.spec_name(),
    {
        match self {
            RaceConfigEntry::MaxSpeed => "MAX SPEED",
            RaceConfigEntry::MinSpeed => "MIN SPEED",
            RaceConfigEntry::SteerBias => "STEER BIAS",
            RaceConfigEntry::SafeAngle => "SAFE ANGLE",
            RaceConfigEntry::BackSpeed => "BACK SPEED",
            RaceConfigEntry::BackTime => "BACK TIME",
            RaceConfigEntry::SprintSpeed => "SPRINT SPEED",
            RaceConfigEntry::SprintTime => "SPRINT TIME",
            RaceConfigEntry::AlertDistanceCenter => "ALERT D  0",
            RaceConfigEntry::AlertDistanceSide30 => "ALERT D 30",
            RaceConfigEntry::AlertDistanceSide60 => "ALERT D 60",
            RaceConfigEntry::BackDistanceCenter => "BACK D  0",
            RaceConfigEntry::BackDistanceSide30 => "BACK D 30",
            RaceConfigEntry::BackDistanceSide60 => "BACK D 60",
            RaceConfigEntry::SlopeDistanceDelta => "SLOPE DELTA",
            RaceConfigEntry::ClimbingSpeed => "CLIMB SPD",
            RaceConfigEntry::ClimbingAngle => "CLIMB ANG",
            RaceConfigEntry::ClimbingIgnore => "CLIMB IGN",
            RaceConfigEntry::StillnessDelta => "STILL DELTA",
            RaceConfigEntry::StillnessTime => "STILL TIME",
            RaceConfigEntry::UseStillness => "USE STILL",
            RaceConfigEntry::InversionTime => "INV TIME",
            RaceConfigEntry::ClimbDirection => "CLIMB DIR",
            RaceConfigEntry::UseClimbDirection => "USE CLIMB DIR",
            RaceConfigEntry::UseColorInversion => "USE COLOR INV",
            RaceConfigEntry::End => "END",
        }
    }

    /// Smallest value that stepping down reaches.
    pub fn min(self) -> (v: i16)
        ensures
            v == self.spec_min(),
    {
        match self {
            RaceConfigEntry::MaxSpeed => 2000,
            RaceConfigEntry::MinSpeed => 1000,
            RaceConfigEntry::SteerBias => 0,
            RaceConfigEntry::SafeAngle => 0,
            RaceConfigEntry::BackSpeed => 2000,
            RaceConfigEntry::BackTime => 100,
            RaceConfigEntry::SprintSpeed => 2000,
            RaceConfigEntry::SprintTime => 0,
            RaceConfigEntry::AlertDistanceCenter => 150,
            RaceConfigEntry::AlertDistanceSide30 => 150,
            RaceConfigEntry::AlertDistanceSide60 => 150,
            RaceConfigEntry::BackDistanceCenter => 25,
            RaceConfigEntry::BackDistanceSide30 => 25,
            RaceConfigEntry::BackDistanceSide60 => 25,
            RaceConfigEntry::SlopeDistanceDelta => 50,
            RaceConfigEntry::ClimbingSpeed => 2000,
            RaceConfigEntry::ClimbingAngle => 5,
            RaceConfigEntry::ClimbingIgnore => 0,
            RaceConfigEntry::StillnessDelta => 0,
            RaceConfigEntry::StillnessTime => 0,
            RaceConfigEntry::UseStillness => 0,
            RaceConfigEntry::InversionTime => 100,
            RaceConfigEntry::ClimbDirection => -180,
            RaceConfigEntry::UseClimbDirection => 0,
            RaceConfigEntry::UseColorInversion => 0,
            RaceConfigEntry::End => 0,
        }
    }

    /// Largest value that stepping up reaches.
    pub fn max(self) -> (v: i16)
        ensures
            v == self.spec_max(),
    {
        match self {
            RaceConfigEntry::MaxSpeed => 10000,
            RaceConfigEntry::MinSpeed => 9000,
            RaceConfigEntry::SteerBias => 20,
            RaceConfigEntry::SafeAngle => 35,
            RaceConfigEntry::BackSpeed => 10000,
            RaceConfigEntry::BackTime => 1000,
            RaceConfigEntry::SprintSpeed => 10000,
            RaceConfigEntry::SprintTime => 3000,
            RaceConfigEntry::AlertDistanceCenter => 500,
            RaceConfigEntry::AlertDistanceSide30 => 500,
            RaceConfigEntry::AlertDistanceSide60 => 500,
            RaceConfigEntry::BackDistanceCenter => 400,
            RaceConfigEntry::BackDistanceSide30 => 400,
            RaceConfigEntry::BackDistanceSide60 => 400,
            RaceConfigEntry::SlopeDistanceDelta => 300,
            RaceConfigEntry::ClimbingSpeed => 10000,
            RaceConfigEntry::ClimbingAngle => 25,
            RaceConfigEntry::ClimbingIgnore => 10,
            RaceConfigEntry::StillnessDelta => 100,
            RaceConfigEntry::StillnessTime => 500,
            RaceConfigEntry::UseStillness => 1,
            RaceConfigEntry::InversionTime => 1000,
            RaceConfigEntry::ClimbDirection => 180,
            RaceConfigEntry::UseClimbDirection => 1,
            RaceConfigEntry::UseColorInversion => 1,
            RaceConfigEntry::End => 1,
        }
    }

    /// Amount by which one step changes the value.
    pub fn step(self) -> (v: i16)
        ensures
            v == self.spec_step(),
    {
        match self {
            RaceConfigEntry::MaxSpeed => 500,
            RaceConfigEntry::MinSpeed => 500,
            RaceConfigEntry::SteerBias => 1,
            RaceConfigEntry::SafeAngle => 1,
            RaceConfigEntry::BackSpeed => 500,
            RaceConfigEntry::BackTime => 10,
            RaceConfigEntry::SprintSpeed => 500,
            RaceConfigEntry::SprintTime => 10,
            RaceConfigEntry::AlertDistanceCenter => 25,
            RaceConfigEntry::AlertDistanceSide30 => 25,
            RaceConfigEntry::AlertDistanceSide60 => 25,
            RaceConfigEntry::BackDistanceCenter => 25,
            RaceConfigEntry::BackDistanceSide30 => 25,
            RaceConfigEntry::BackDistanceSide60 => 25,
            RaceConfigEntry::SlopeDistanceDelta => 10,
            RaceConfigEntry::ClimbingSpeed => 500,
            RaceConfigEntry::ClimbingAngle => 1,
            RaceConfigEntry::ClimbingIgnore => 1,
            RaceConfigEntry::StillnessDelta => 1,
            RaceConfigEntry::StillnessTime => 1,
            RaceConfigEntry::UseStillness => 1,
            RaceConfigEntry::InversionTime => 10,
            RaceConfigEntry::ClimbDirection => 90,
            RaceConfigEntry::UseClimbDirection => 1,
            RaceConfigEntry::UseColorInversion => 1,
            RaceConfigEntry::End => 1,
        }
    }

    /// The word shown in place of `value`, for the entries that have one.
    pub fn value_name(self, value: i16) -> (name: Option<&'static str>)
        ensures
            name.is_some() == self.spec_value_name(value).is_some(),
            name matches Some(n) ==> self.spec_value_name(value) == Some(n@),
    {
        match self {
            RaceConfigEntry::UseStillness
            | RaceConfigEntry::UseClimbDirection
            | RaceConfigEntry::UseColorInversion => {
                if value == 0 {
                    Some("NO")
                } else if value == 1 {
                    Some("YES")
                } else {
                    None
                }
            },
            _ => None,
        }
    }
}

impl From<usize> for RaceConfigEntry {
    fn from(index: usize) -> (entry: RaceConfigEntry)
        ensures
            entry == spec_entry_at(index as int),
    {
        RaceConfigEntry::from_index(index)
    }
}

impl vstd::std_specs::convert::FromSpecImpl<usize> for RaceConfigEntry {
    open spec fn obeys_from_spec() -> bool {
        true
    }

    open spec fn from_spec(index: usize) -> RaceConfigEntry {
        spec_entry_at(index as int)
    }
}

impl From<RaceConfigEntry> for usize {
    fn from(entry: RaceConfigEntry) -> (index: usize)
        ensures
            index == entry.spec_index(),
    {
        entry.index()
    }
}

impl vstd::std_specs::convert::FromSpecImpl<RaceConfigEntry> for usize {
    open spec fn obeys_from_spec() -> bool {
        true
    }

    open spec fn from_spec(entry: RaceConfigEntry) -> usize {
        entry.spec_index() as usize
    }
}

/// The live value of every tunable parameter.
#[derive(Clone, Copy, Debug, PartialEq, Eq, Structural)]
pub struct RaceConfig {
    pub max_speed: i16,
    pub min_speed: i16,
    pub steer_bias: i16,
    pub safe_angle: i16,
    pub back_speed: i16,
    pub back_time: i16,
    pub sprint_speed: i16,
    pub sprint_time: i16,
    pub alert_distance_center: i16,
    pub alert_distance_side_30: i16,
    pub alert_distance_side_60: i16,
    pub back_distance_center: i16,
    pub back_distance_side_30: i16,
    pub back_distance_side_60: i16,
    pub slope_distance_delta: i16,
    pub climbing_speed: i16,
    pub climbing_angle: i16,
    pub climbing_ignore: i16,
    pub stillness_delta: i16,
    pub stillness_time: i16,
    pub use_stillness: i16,
    pub inversion_time: i16,
    pub climb_direction: i16,
    pub use_climb_direction: i16,
    pub use_color_inversion: i16,
}

impl RaceConfig {
    /// The values that the vehicle boots with.
    pub open spec fn spec_init() -> RaceConfig {
        RaceConfig {
            max_speed: 3900,
            min_speed: 3600,
            steer_bias: 0,
            safe_angle: 10,
            back_speed: 5000,
            back_time: 100,
            sprint_speed: 6000,
            sprint_time: 100,
            alert_distance_center: 380,
            alert_distance_side_30: 190,
            alert_distance_side_60: 150,
            back_distance_center: 80,
            back_distance_side_30: 60,
            back_distance_side_60: 50,
            slope_distance_delta: 150,
            climbing_speed: 8000,
            climbing_angle: 15,
            climbing_ignore: 3,
            stillness_delta: 0,
            stillness_time: 500,
            use_stillness: 1,
            inversion_time: 750,
            climb_direction: 0,
            use_climb_direction: 1,
            use_color_inversion: 1,
        }
    }

    /// The value held for `entry`; `End` holds none and reads as 0.
    pub open spec fn spec_get(self, entry: RaceConfigEntry) -> i16 {
        match entry {
            RaceConfigEntry::MaxSpeed => self.max_speed,
            RaceConfigEntry::MinSpeed => self.min_speed,
            RaceConfigEntry::SteerBias => self.steer_bias,
            RaceConfigEntry::SafeAngle => self.safe_angle,
            RaceConfigEntry::BackSpeed => self.back_speed,
            RaceConfigEntry::BackTime => self.back_time,
            RaceConfigEntry::SprintSpeed => self.sprint_speed,
            RaceConfigEntry::SprintTime => self.sprint_time,
            RaceConfigEntry::AlertDistanceCenter => self.alert_distance_center,
            RaceConfigEntry::AlertDistanceSide30 => self.alert_distance_side_30,
            RaceConfigEntry::AlertDistanceSide60 => self.alert_distance_side_60,
            RaceConfigEntry::BackDistanceCenter => self.back_distance_center,
            RaceConfigEntry::BackDistanceSide30 => self.back_distance_side_30,
            RaceConfigEntry::BackDistanceSide60 => self.back_distance_side_60,
            RaceConfigEntry::SlopeDistanceDelta => self.slope_distance_delta,
            RaceConfigEntry::ClimbingSpeed => self.climbing_speed,
            RaceConfigEntry::ClimbingAngle => self.climbing_angle,
            RaceConfigEntry::ClimbingIgnore => self.climbing_ignore,
            RaceConfigEntry::StillnessDelta => self.stillness_delta,
            RaceConfigEntry::StillnessTime => self.stillness_time,
            RaceConfigEntry::UseStillness => self.use_stillness,
            RaceConfigEntry::InversionTime => self.inversion_time,
            RaceConfigEntry::ClimbDirection => self.climb_direction,
            RaceConfigEntry::UseClimbDirection => self.use_climb_direction,
            RaceConfigEntry::UseColorInversion => self.use_color_inversion,
            RaceConfigEntry::End => 0,
        }
    }

    /// The table with `value` stored for `entry`; `End` stores nothing.
    pub open spec fn spec_set(self, entry: RaceConfigEntry, value: i16) -> RaceConfig {
        match entry {
            RaceConfigEntry::MaxSpeed => RaceConfig { max_speed: value, ..self },
            RaceConfigEntry::MinSpeed => RaceConfig { min_speed: value, ..self },
            RaceConfigEntry::SteerBias => RaceConfig { steer_bias: value, ..self },
            RaceConfigEntry::SafeAngle => RaceConfig { safe_angle: value, ..self },
            RaceConfigEntry::BackSpeed => RaceConfig { back_speed: value, ..self },
            RaceConfigEntry::BackTime => RaceConfig { back_time: value, ..self },
            RaceConfigEntry::SprintSpeed => RaceConfig { sprint_speed: value, ..self },
            RaceConfigEntry::SprintTime => RaceConfig { sprint_time: value, ..self },
            RaceConfigEntry::AlertDistanceCenter => RaceConfig {
                alert_distance_center: value,
                ..self
            },
            RaceConfigEntry::AlertDistanceSide30 => RaceConfig {
                alert_distance_side_30: value,
                ..self
            },
            RaceConfigEntry::AlertDistanceSide60 => RaceConfig {
                alert_distance_side_60: value,
                ..self
            },
            RaceConfigEntry::BackDistanceCenter => RaceConfig {
                back_distance_center: value,
                ..self
            },
            RaceConfigEntry::BackDistanceSide30 => RaceConfig {
                back_distance_side_30: value,
                ..self
            },
            RaceConfigEntry::BackDistanceSide60 => RaceConfig {
                back_distance_side_60: value,
                ..self
            },
            RaceConfigEntry::SlopeDistanceDelta => RaceConfig {
                slope_distance_delta: value,
                ..self
            },
            RaceConfigEntry::ClimbingSpeed => RaceConfig { climbing_speed: value, ..self },
            RaceConfigEntry::ClimbingAngle => RaceConfig { climbing_angle: value, ..self },
            RaceConfigEntry::ClimbingIgnore => RaceConfig { climbing_ignore: value, ..self },
            RaceConfigEntry::StillnessDelta => RaceConfig { stillness_delta: value, ..self },
            RaceConfigEntry::StillnessTime => RaceConfig { stillness_time: value, ..self },
            RaceConfigEntry::UseStillness => RaceConfig { use_stillness: value, ..self },
            RaceConfigEntry::InversionTime => RaceConfig { inversion_time: value, ..self },
            RaceConfigEntry::ClimbDirection => RaceConfig { climb_direction: value, ..self },
            RaceConfigEntry::UseClimbDirection => RaceConfig { use_climb_direction: value, ..self },
            RaceConfigEntry::UseColorInversion => RaceConfig { use_color_inversion: value, ..self },
            RaceConfigEntry::End => self,
        }
    }

    /// Whether the value held for `entry` lies within the entry's limits.
    pub open spec fn in_bounds(self, entry: RaceConfigEntry) -> bool {
        entry.spec_min() <= self.spec_get(entry) <= entry.spec_max()
    }

    /// The value that one step up leaves for `entry`: a step more than it
    /// holds, brought within the entry's limits.
    pub open spec fn spec_inc_value(self, entry: RaceConfigEntry) -> i16 {
        clamp_int(
            self.spec_get(entry) + entry.spec_step(),
            entry.spec_min() as int,
            entry.spec_max() as int,
        ) as i16
    }

    /// The value that one step down leaves for `entry`: a step less than it
    /// holds, brought within the entry's limits.
    pub open spec fn spec_dec_value(self, entry: RaceConfigEntry) -> i16 {
        clamp_int(
            self.spec_get(entry) - entry.spec_step(),
            entry.spec_min() as int,
            entry.spec_max() as int,
        ) as i16
    }

    /// The table after one step up of `entry`.
    pub open spec fn spec_inc(self, entry: RaceConfigEntry) -> RaceConfig {
        self.spec_set(entry, self.spec_inc_value(entry))
    }

    /// The table after one step down of `entry`.
    pub open spec fn spec_dec(self, entry: RaceConfigEntry) -> RaceConfig {
        self.spec_set(entry, self.spec_dec_value(entry))
    }

    /// The table after a run of steps on `entry`, `true` for a step up.
    pub open spec fn spec_nudge(self, entry: RaceConfigEntry, ups: Seq<bool>) -> RaceConfig
        decreases ups.len(),
    {
        if ups.len() == 0 {
            self
        } else if ups.last() {
            self.spec_nudge(entry, ups.drop_last()).spec_inc(entry)
        } else {
            self.spec_nudge(entry, ups.drop_last()).spec_dec(entry)
        }
    }

    /// The values that the vehicle boots with.
    pub fn init() -> (config: RaceConfig)
        ensures
            config == RaceConfig::spec_init(),
    {
        RaceConfig {
            max_speed: 3900,
            min_speed: 3600,
            steer_bias: 0,
            safe_angle: 10,
            back_speed: 5000,
            back_time: 100,
            sprint_speed: 6000,
            sprint_time: 100,
            alert_distance_center: 380,
            alert_distance_side_30: 190,
            alert_distance_side_60: 150,
            back_distance_center: 80,
            back_distance_side_30: 60,
            back_distance_side_60: 50,
            slope_distance_delta: 150,
            climbing_speed: 8000,
            climbing_angle: 15,
            climbing_ignore: 3,
            stillness_delta: 0,
            stillness_time: 500,
            use_stillness: 1,
            inversion_time: 750,
            climb_direction: 0,
            use_climb_direction: 1,
            use_color_inversion: 1,
        }
    }

    /// The value held for `entry`; `End` holds none and reads as 0.
    pub fn get(&self, entry: RaceConfigEntry) -> (value: i16)
        ensures
            value == self.spec_get(entry),
    {
        match entry {
            RaceConfigEntry::MaxSpeed => self.max_speed,
            RaceConfigEntry::MinSpeed => self.min_speed,
            RaceConfigEntry::SteerBias => self.steer_bias,
            RaceConfigEntry::SafeAngle => self.safe_angle,
            RaceConfigEntry::BackSpeed => self.back_speed,
            RaceConfigEntry::BackTime => self.back_time,
            RaceConfigEntry::SprintSpeed => self.sprint_speed,
            RaceConfigEntry::SprintTime => self.sprint_time,
            RaceConfigEntry::AlertDistanceCenter => self.alert_distance_center,
            RaceConfigEntry::AlertDistanceSide30 => self.alert_distance_side_30,
            RaceConfigEntry::AlertDistanceSide60 => self.alert_distance_side_60,
            RaceConfigEntry::BackDistanceCenter => self.back_distance_center,
            RaceConfigEntry::BackDistanceSide30 => self.back_distance_side_30,
            RaceConfigEntry::BackDistanceSide60 => self.back_distance_side_60,
            RaceConfigEntry::SlopeDistanceDelta => self.slope_distance_delta,
            RaceConfigEntry::ClimbingSpeed => self.climbing_speed,
            RaceConfigEntry::ClimbingAngle => self.climbing_angle,
            RaceConfigEntry::ClimbingIgnore => self.climbing_ignore,
            RaceConfigEntry::StillnessDelta => self.stillness_delta,
            RaceConfigEntry::StillnessTime => self.stillness_time,
            RaceConfigEntry::UseStillness => self.use_stillness,
            RaceConfigEntry::InversionTime => self.inversion_time,
            RaceConfigEntry::ClimbDirection => self.climb_direction,
            RaceConfigEntry::UseClimbDirection => self.use_climb_direction,
            RaceConfigEntry::UseColorInversion => self.use_color_inversion,
            RaceConfigEntry::End => 0,
        }
    }

    /// Stores `value` for `entry`, whatever the entry's limits; `End` stores nothing.
    pub fn set(&mut self, entry: RaceConfigEntry, value: i16)
        ensures
            *final(self) == old(self).spec_set(entry, value),
    {
        match entry {
            RaceConfigEntry::MaxSpeed => { self.max_speed = value; },
            RaceConfigEntry::MinSpeed => { self.min_speed = value; },
            RaceConfigEntry::SteerBias => { self.steer_bias = value; },
            RaceConfigEntry::SafeAngle => { self.safe_angle = value; },
            RaceConfigEntry::BackSpeed => { self.back_speed = value; },
            RaceConfigEntry::BackTime => { self.back_time = value; },
            RaceConfigEntry::SprintSpeed => { self.sprint_speed = value; },
            RaceConfigEntry::SprintTime => { self.sprint_time = value; },
            RaceConfigEntry::AlertDistanceCenter => { self.alert_distance_center = value; },
            RaceConfigEntry::AlertDistanceSide30 => { self.alert_distance_side_30 = value; },
            RaceConfigEntry::AlertDistanceSide60 => { self.alert_distance_side_60 = value; },
            RaceConfigEntry::BackDistanceCenter => { self.back_distance_center = value; },
            RaceConfigEntry::BackDistanceSide30 => { self.back_distance_side_30 = value; },
            RaceConfigEntry::BackDistanceSide60 => { self.back_distance_side_60 = value; },
            RaceConfigEntry::SlopeDistanceDelta => { self.slope_distance_delta = value; },
            RaceConfigEntry::ClimbingSpeed => { self.climbing_speed = value; },
            RaceConfigEntry::ClimbingAngle => { self.climbing_angle = value; },
            RaceConfigEntry::ClimbingIgnore => { self.climbing_ignore = value; },
            RaceConfigEntry::StillnessDelta => { self.stillness_delta = value; },
            RaceConfigEntry::StillnessTime => { self.stillness_time = value; },
            RaceConfigEntry::UseStillness => { self.use_stillness = value; },
            RaceConfigEntry::InversionTime => { self.inversion_time = value; },
            RaceConfigEntry::ClimbDirection => { self.climb_direction = value; },
            RaceConfigEntry::UseClimbDirection => { self.use_climb_direction = value; },
            RaceConfigEntry::UseColorInversion => { self.use_color_inversion = value; },
            RaceConfigEntry::End => {},
        }
    }

    /// Restores the boot value of `entry` and leaves every other entry as it is.
    pub fn reset(&mut self, entry: RaceConfigEntry)
        ensures
            *final(self) == old(self).spec_set(entry, RaceConfig::spec_init().spec_get(entry)),
    {
        let boot = RaceConfig::init();
        self.set(entry, boot.get(entry));
    }

    /// Steps `entry` up and brings it within its limits; returns what it now holds.
    pub fn inc(&mut self, entry: RaceConfigEntry) -> (value: i16)
        ensures
            value == old(self).spec_inc_value(entry),
            *final(self) == old(self).spec_inc(entry),
    {
        let raised: i32 = self.get(entry) as i32 + entry.step() as i32;
        let value: i16 = if raised < entry.min() as i32 {
            entry.min()
        } else if raised > entry.max() as i32 {
            entry.max()
        } else {
            raised as i16
        };
        self.set(entry, value);
        value
    }

    /// Steps `entry` down and brings it within its limits; returns what it now holds.
    pub fn dec(&mut self, entry: RaceConfigEntry) -> (value: i16)
        ensures
            value == old(self).spec_dec_value(entry),
            *final(self) == old(self).spec_dec(entry),
    {
        let lowered: i32 = self.get(entry) as i32 - entry.step() as i32;
        let value: i16 = if lowered < entry.min() as i32 {
            entry.min()
        } else if lowered > entry.max() as i32 {
            entry.max()
        } else {
            lowered as i16
        };
        self.set(entry, value);
        value
    }
}

impl Default for RaceConfig {
    fn default() -> (config: RaceConfig)
        ensures
            config == RaceConfig::spec_init(),
    {
        RaceConfig::init()
    }
}

impl RaceConfig {
    /// The distance under which a laser at `position` raises an alert.
    pub open spec fn spec_alert_distance(self, position: LaserSidePosition) -> int {
        match position {
            LaserSidePosition::Center => reinterpret_u16(self.alert_distance_center as int),
            LaserSidePosition::Side30 => reinterpret_u16(self.alert_distance_side_30 as int),
            LaserSidePosition::Side60 => reinterpret_u16(self.alert_distance_side_60 as int),
        }
    }

    /// The distance under which a laser at `position` calls for reversing.
    pub open spec fn spec_back_distance(self, position: LaserSidePosition) -> int {
        match position {
            LaserSidePosition::Center => reinterpret_u16(self.back_distance_center as int),
            LaserSidePosition::Side30 => reinterpret_u16(self.back_distance_side_30 as int),
            LaserSidePosition::Side60 => reinterpret_u16(self.back_distance_side_60 as int),
        }
    }

    /// Extra power on a climb of `pitch` degrees: nothing up to
    /// `climbing_ignore`, then a linear ramp that reaches
    /// `climbing_speed - max_speed` at `climbing_angle`. A ramp of no width
    /// gives nothing.
    pub open spec fn spec_climb_power_boost(self, pitch: int) -> int {
        if pitch <= 0 {
            0
        } else {
            let boost_range = self.climbing_speed - self.max_speed;
            let pitch_range = self.climbing_angle - self.climbing_ignore;
            let pitch_delta = vstd::math::max(
                vstd::math::min(pitch - self.climbing_ignore, pitch_range),
                0,
            );
            let boost = if pitch_range == 0 {
                0
            } else {
                trunc_div(pitch_delta * boost_range, pitch_range)
            };
            saturate_i16(vstd::math::min(boost, boost_range))
        }
    }

    /// How far `steer` degrees, limited to the steering range, lie outside
    /// the band of `safe_angle` on either side of straight ahead.
    pub open spec fn spec_steer_excess(self, steer: int) -> int {
        let s = clamp_int(steer, -MAX_STEER_DEG, MAX_STEER_DEG as int);
        if s < -self.safe_angle {
            -(s + self.safe_angle)
        } else if s > self.safe_angle {
            s - self.safe_angle
        } else {
            0
        }
    }

    /// Speed for a steering angle of `steer` degrees: `max_speed` inside the
    /// safe band, falling linearly to `min_speed` at full lock. A safe band
    /// that reaches full lock leaves `max_speed`.
    pub open spec fn spec_turn_speed(self, steer: int) -> int {
        let speed_range = self.max_speed - self.min_speed;
        let steer_range = MAX_STEER_DEG - self.safe_angle;
        let speed_delta = if steer_range == 0 {
            0
        } else {
            trunc_div(self.spec_steer_excess(steer) * speed_range, steer_range)
        };
        saturate_i16(self.max_speed - speed_delta)
    }

    /// The pitch, in degrees, from which the vehicle counts as climbing:
    /// two thirds of `climbing_angle`.
    pub open spec fn spec_climbing_threshold(self) -> int {
        normalize_deg(trunc_div(self.climbing_angle * 2, 3))
    }

    /// The time, in microseconds, that stillness must last to count.
    pub open spec fn spec_stillness_limit(self) -> int {
        saturate_u64(reinterpret_u64(self.stillness_time as int) * 1000)
    }

    /// The distance under which a laser at `position` raises an alert.
    pub fn alert_distance(&self, position: LaserSidePosition) -> (distance: u16)
        ensures
            distance == self.spec_alert_distance(position),
    {
        match position {
            LaserSidePosition::Center => i16_bits_as_u16(self.alert_distance_center),
            LaserSidePosition::Side30 => i16_bits_as_u16(self.alert_distance_side_30),
            LaserSidePosition::Side60 => i16_bits_as_u16(self.alert_distance_side_60),
        }
    }

    /// The distance under which a laser at `position` calls for reversing.
    pub fn back_distance(&self, position: LaserSidePosition) -> (distance: u16)
        ensures
            distance == self.spec_back_distance(position),
    {
        match position {
            LaserSidePosition::Center => i16_bits_as_u16(self.back_distance_center),
            LaserSidePosition::Side30 => i16_bits_as_u16(self.back_distance_side_30),
            LaserSidePosition::Side60 => i16_bits_as_u16(self.back_distance_side_60),
        }
    }

    /// Extra power on a climb of `pitch`.
    pub fn climb_power_boost(&self, pitch: Angle) -> (boost: i16)
        ensures
            boost == self.spec_climb_power_boost(pitch@),
    {
        let pitch_deg: i64 = pitch.value() as i64;
        if pitch_deg <= 0 {
            0
        } else {
            let boost_range: i64 = self.climbing_speed as i64 - self.max_speed as i64;
            let pitch_range: i64 = self.climbing_angle as i64 - self.climbing_ignore as i64;
            let above_ignore: i64 = pitch_deg - self.climbing_ignore as i64;
            let capped: i64 = if above_ignore > pitch_range {
                pitch_range
            } else {
                above_ignore
            };
            let pitch_delta: i64 = if capped < 0 {
                0
            } else {
                capped
            };
            assert(-0x1_0000_0000 <= pitch_delta * boost_range <= 0x1_0000_0000)
                by (nonlinear_arith)
                requires
                    0 <= pitch_delta <= 0x1_0000,
                    -0x1_0000 <= boost_range <= 0x1_0000,
            ;
            let boost: i64 = if pitch_range == 0 {
                0
            } else {
                i64_div(pitch_delta * boost_range, pitch_range)
            };
            let limited: i64 = if boost < boost_range {
                boost
            } else {
                boost_range
            };
            i64_to_i16_saturating(limited)
        }
    }

    /// Speed for a steering angle of `steer`.
    pub fn turn_speed(&self, steer: Angle) -> (speed: i16)
        ensures
            speed == self.spec_turn_speed(steer@),
    {
        let safe_angle: i64 = self.safe_angle as i64;
        let max_steer: i64 = MAX_STEER_DEG as i64;
        let raw: i64 = steer.value() as i64;
        let limited: i64 = if raw < -max_steer {
            -max_steer
        } else if raw > max_steer {
            max_steer
        } else {
            raw
        };
        let speed_range: i64 = self.max_speed as i64 - self.min_speed as i64;
        let steer_range: i64 = max_steer - safe_angle;
        let steer_delta: i64 = if limited < -safe_angle {
            -(limited + safe_angle)
        } else if limited > safe_angle {
            limited - safe_angle
        } else {
            0
        };
        assert(-0x1_0000_0000 <= steer_delta * speed_range <= 0x1_0000_0000) by (nonlinear_arith)
            requires
                0 <= steer_delta <= 0x1_0000,
                -0x1_0000 <= speed_range <= 0x1_0000,
        ;
        let speed_delta: i64 = if steer_range == 0 {
            0
        } else {
            proof {
                crate::arith::lemma_trunc_div_shrinks(
                    steer_delta * speed_range,
                    steer_range as int,
                );
            }
            i64_div(steer_delta * speed_range, steer_range)
        };
        i64_to_i16_saturating(self.max_speed as i64 - speed_delta)
    }

    /// Whether a pitch of `pitch` counts as climbing.
    pub fn detect_climb(&self, pitch: Angle) -> (climbing: bool)
        ensures
            climbing == (pitch@ >= self.spec_climbing_threshold()),
    {
        let threshold = Angle::from((self.climbing_angle as i32 * 2) / 3);
        pitch.value() >= threshold.value()
    }

    /// Whether a pitch of `pitch` counts as going downhill.
    pub fn detect_downhill(&self, pitch: Angle) -> (downhill: bool)
        ensures
            downhill == (pitch@ <= normalize_deg(-self.spec_climbing_threshold())),
    {
        let threshold = Angle::from((self.climbing_angle as i32 * 2) / 3);
        pitch.value() <= threshold.neg().value()
    }

    /// Whether the vehicle has stood still for at least `stillness_time`
    /// milliseconds. No measurement counts as not still.
    pub fn detect_stillness(&self, stillness_time: Option<Duration>) -> (still: bool)
        ensures
            still == (stillness_time matches Some(time) && time@ >= self.spec_stillness_limit()),
    {
        match stillness_time {
            Some(time) => {
                let limit = Duration::from_millis(i16_bits_as_u64(self.stillness_time));
                time.micros >= limit.micros
            },
            None => false,
        }
    }

    /// The heading in which the track climbs.
    pub fn climb_direction(&self) -> (direction: Angle)
        ensures
            direction == Angle::spec_from(self.climb_direction as int),
            direction@ == normalize_deg(self.climb_direction as int),
    {
        Angle::from(self.climb_direction as i32)
    }

    /// Whether the climbing heading is in use.
    pub fn use_climb_direction(&self) -> (used: bool)
        ensures
            used == (self.use_climb_direction != 0),
    {
        self.use_climb_direction != 0
    }
}

/// From the first entry, `prev` reaches the last selectable entry, and the
/// ring closes after as many uses of `next` as there are selectable entries.
pub proof fn lemma_entry_ring()
    ensures
        RaceConfigEntry::MaxSpeed.spec_prev() == RaceConfigEntry::UseColorInversion,
        RaceConfigEntry::UseColorInversion.spec_next() == RaceConfigEntry::MaxSpeed,
        spec_next_n(RaceConfigEntry::MaxSpeed, RACE_CONFIG_ENTRY_END as nat)
            == RaceConfigEntry::MaxSpeed,
{
    lemma_next_n_index(RaceConfigEntry::MaxSpeed, RACE_CONFIG_ENTRY_END as nat);
}

/// `steps` uses of `next` advance a selectable entry by `steps` places round the ring.
pub proof fn lemma_next_n_index(entry: RaceConfigEntry, steps: nat)
    requires
        entry.selectable(),
    ensures
        spec_next_n(entry, steps).selectable(),
        spec_next_n(entry, steps).spec_index() == (entry.spec_index() + steps) % (
        RACE_CONFIG_ENTRY_END as int),
    decreases steps,
{
    if steps > 0 {
        lemma_next_n_index(entry, (steps - 1) as nat);
    }
}

/// `next` and `prev` undo each other on the selectable entries.
pub proof fn lemma_prev_next_inverse(entry: RaceConfigEntry)
    requires
        entry.selectable(),
    ensures
        entry.spec_next().spec_prev() == entry,
        entry.spec_prev().spec_next() == entry,
        entry.spec_next().selectable(),
        entry.spec_prev().selectable(),
{
}

/// Whatever the table holds, a step up or down of a selectable entry
/// leaves a value within the entry's limits. From a value that is not under
/// the smallest, a step up adds the step or stops at the largest; from one
/// that is not over the largest, a step down takes the step off or stops
/// at the smallest.
pub proof fn lemma_step_keeps_bounds(config: RaceConfig, entry: RaceConfigEntry)
    requires
        entry.selectable(),
    ensures
        config.spec_inc(entry).in_bounds(entry),
        config.spec_dec(entry).in_bounds(entry),
        config.spec_inc(entry).spec_get(entry) == config.spec_inc_value(entry),
        config.spec_dec(entry).spec_get(entry) == config.spec_dec_value(entry),
        entry.spec_min() <= config.spec_get(entry) ==> config.spec_inc_value(entry)
            == vstd::math::min(config.spec_get(entry) + entry.spec_step(), entry.spec_max() as int),
        config.spec_get(entry) <= entry.spec_max() ==> config.spec_dec_value(entry)
            == vstd::math::max(config.spec_get(entry) - entry.spec_step(), entry.spec_min() as int),
{
    lemma_set_get(config, entry, config.spec_inc_value(entry), entry);
    lemma_set_get(config, entry, config.spec_dec_value(entry), entry);
}

/// A step up or down of one entry leaves every other entry as it is.
pub proof fn lemma_step_keeps_others(
    config: RaceConfig,
    entry: RaceConfigEntry,
    other: RaceConfigEntry,
)
    requires
        other != entry,
    ensures
        config.spec_inc(entry).spec_get(other) == config.spec_get(other),
        config.spec_dec(entry).spec_get(other) == config.spec_get(other),
{
    lemma_set_get(config, entry, config.spec_inc_value(entry), other);
    lemma_set_get(config, entry, config.spec_dec_value(entry), other);
}

/// Every selectable entry boots with a value within its limits.
pub proof fn lemma_init_in_bounds(entry: RaceConfigEntry)
    requires
        entry.selectable(),
    ensures
        RaceConfig::spec_init().in_bounds(entry),
{
}

/// After any run of steps up and down, none included, the boot table holds
/// a value within the limits of the entry stepped; and whatever a table
/// holds, one step or more bring the entry stepped within its limits.
pub proof fn lemma_nudge_keeps_bounds(config: RaceConfig, entry: RaceConfigEntry, ups: Seq<bool>)
    requires
        entry.selectable(),
    ensures
        RaceConfig::spec_init().spec_nudge(entry, ups).in_bounds(entry),
        ups.len() > 0 || config.in_bounds(entry) ==> config.spec_nudge(entry, ups).in_bounds(entry),
    decreases ups.len(),
{
    lemma_init_in_bounds(entry);
    if ups.len() > 0 {
        lemma_step_keeps_bounds(config.spec_nudge(entry, ups.drop_last()), entry);
        lemma_step_keeps_bounds(RaceConfig::spec_init().spec_nudge(entry, ups.drop_last()), entry);
    }
}

/// Resetting an entry leaves its boot value, whatever was stored before.
pub proof fn lemma_reset_restores(config: RaceConfig, entry: RaceConfigEntry)
    ensures
        config.spec_set(entry, RaceConfig::spec_init().spec_get(entry)).spec_get(entry)
            == RaceConfig::spec_init().spec_get(entry),
{
    lemma_set_get(config, entry, RaceConfig::spec_init().spec_get(entry), entry);
}

/// What is stored for an entry is what is read back, and no other entry changes.
pub proof fn lemma_set_get(
    config: RaceConfig,
    entry: RaceConfigEntry,
    value: i16,
    other: RaceConfigEntry,
)
    ensures
        entry.selectable() ==> config.spec_set(entry, value).spec_get(entry) == value,
        !entry.selectable() ==> config.spec_set(entry, value) == config,
        other != entry ==> config.spec_set(entry, value).spec_get(other) == config.spec_get(other),
{
}

/// On a ramp of positive width that leads to more power, the boost is
/// nothing for a level or falling pitch, never negative, never more than
/// `climbing_speed - max_speed`, and exactly that from `climbing_angle` on.
pub proof fn lemma_climb_power_boost_ramp(config: RaceConfig, pitch: int)
    requires
        config.climbing_angle > config.climbing_ignore,
        config.climbing_ignore >= 0,
        0 <= config.climbing_speed - config.max_speed <= i16::MAX,
    ensures
        pitch <= 0 ==> config.spec_climb_power_boost(pitch) == 0,
        0 <= config.spec_climb_power_boost(pitch) <= config.climbing_speed - config.max_speed,
        pitch >= config.climbing_angle ==> config.spec_climb_power_boost(pitch)
            == config.climbing_speed - config.max_speed,
        pitch <= config.climbing_ignore ==> config.spec_climb_power_boost(pitch) == 0,
{
    if pitch > 0 {
        let boost_range = config.climbing_speed - config.max_speed;
        let pitch_range = config.climbing_angle - config.climbing_ignore;
        let pitch_delta = vstd::math::max(
            vstd::math::min(pitch - config.climbing_ignore, pitch_range),
            0,
        );
        lemma_scaled_share(pitch_delta, boost_range, pitch_range);
    }
}

/// A share `part` of `whole`, applied to a non-negative `range`, lies in
/// `[0, range]`; it is 0 for no part and all of `range` for the whole.
pub proof fn lemma_scaled_share(part: int, range: int, whole: int)
    requires
        0 <= part <= whole,
        0 < whole,
        0 <= range,
    ensures
        0 <= trunc_div(part * range, whole) <= range,
        part == 0 ==> trunc_div(part * range, whole) == 0,
        part == whole ==> trunc_div(part * range, whole) == range,
{
    assert(0 <= part * range <= whole * range) by (nonlinear_arith)
        requires
            0 <= part <= whole,
            0 <= range,
    ;
    vstd::arithmetic::div_mod::lemma_div_pos_is_pos(part * range, whole);
    vstd::arithmetic::div_mod::lemma_div_is_ordered(part * range, whole * range, whole);
    vstd::arithmetic::div_mod::lemma_div_multiples_vanish(range, whole);
    assert(whole * range == range * whole) by (nonlinear_arith);
    if part == 0 {
        assert(part * range == 0) by (nonlinear_arith)
            requires
                part == 0,
        ;
    }
}

/// With a safe band short of full lock and `min_speed` no more than
/// `max_speed`, the turn speed lies between the two, is `max_speed` inside
/// the safe band, `min_speed` at full lock and beyond, and the same for a
/// turn to the left as for one to the right.
pub proof fn lemma_turn_speed_curve(config: RaceConfig, steer: int)
    requires
        0 <= config.safe_angle < MAX_STEER_DEG,
        config.min_speed <= config.max_speed,
    ensures
        config.min_speed <= config.spec_turn_speed(steer) <= config.max_speed,
        -config.safe_angle <= steer <= config.safe_angle ==> config.spec_turn_speed(steer)
            == config.max_speed,
        (steer >= MAX_STEER_DEG || steer <= -MAX_STEER_DEG) ==> config.spec_turn_speed(steer)
            == config.min_speed,
        config.spec_turn_speed(-steer) == config.spec_turn_speed(steer),
{
    let speed_range = config.max_speed - config.min_speed;
    let steer_range = MAX_STEER_DEG - config.safe_angle;
    lemma_scaled_share(config.spec_steer_excess(steer), speed_range, steer_range);
    assert(config.spec_steer_excess(-steer) == config.spec_steer_excess(steer));
}

} // verus!
