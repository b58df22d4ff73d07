//! The race: directions, the steering action of one tick, and the rules
//! that choose between driving on, sprinting, reversing out of trouble,
//! turning toward a heading, and cutting all power on a tilt.

use crate::angle::{group_angle, normalize_deg, Angle, MAX_STEER_DEG, MIN_STEER_DEG, TILT_ALERT_DEG};
use crate::arith::{abs_int, i16_bits_as_u64, i64_to_i16_saturating, reinterpret_u64, saturate_i16};
use crate::cmd::Cmd;
use crate::configuration::RaceConfig;
use crate::imu::ImuData;
use crate::lasers::RawLaserReadings;
use crate::screens::Screen;
use crate::time::Duration;
use crate::trace::TraceEvent;
use crate::vision::{LaserStatus, Vision};
use core::ops::Neg;
use vstd::prelude::*;
use vstd::std_specs::convert::FromSpecImpl;

verus! {

broadcast use group_angle;

/// One of the four quarter turns.
#[derive(Clone, Copy, Debug, PartialEq, Eq, Structural)]
pub enum Direction {
    Start,
    Right,
    Back,
    Left,
}

impl Direction {
    /// Number of quarter turns to the right that lead to the direction.
    pub open spec fn spec_index(self) -> int {
        match self {
            Direction::Start => 0,
            Direction::Right => 1,
            Direction::Back => 2,
            Direction::Left => 3,
        }
    }

    /// The direction that `turns` quarter turns to the right lead to.
    pub open spec fn spec_of(turns: int) -> Direction {
        let index = turns % 4;
        if index == 0 {
            Direction::Start
        } else if index == 1 {
            Direction::Right
        } else if index == 2 {
            Direction::Back
        } else {
            Direction::Left
        }
    }

    /// Number of quarter turns to the right that lead to the direction.
    pub fn index(self) -> (index: i8)
        ensures
            index == self.spec_index(),
    {
        match self {
            Direction::Start => 0,
            Direction::Right => 1,
            Direction::Back => 2,
            Direction::Left => 3,
        }
    }

    /// The direction that `turns` quarter turns to the right lead to.
    pub fn of(turns: i16) -> (direction: Direction)
        ensures
            direction == Direction::spec_of(turns as int),
    {
        let index: i32 = (turns as i32 + 0x8000) % 4;
        if index == 0 {
            Direction::Start
        } else if index == 1 {
            Direction::Right
        } else if index == 2 {
            Direction::Back
        } else {
            Direction::Left
        }
    }

    /// One quarter turn further to the right.
    pub fn right(self) -> (direction: Direction)
        ensures
            direction == Direction::spec_of(self.spec_index() + 1),
    {
        Direction::of(self.index() as i16 + 1)
    }

    /// Five quarter turns further to the right.
    pub fn left(self) -> (direction: Direction)
        ensures
            direction == Direction::spec_of(self.spec_index() + 5),
    {
        Direction::of(self.index() as i16 + 5)
    }

    /// Turns one quarter turn further to the right.
    pub fn go_right(&mut self)
        ensures
            *final(self) == Direction::spec_of(old(self).spec_index() + 1),
    {
        *self = self.right()
    }

    /// Turns five quarter turns further to the right.
    pub fn go_left(&mut self)
        ensures
            *final(self) == Direction::spec_of(old(self).spec_index() + 5),
    {
        *self = self.left()
    }

    /// The opposite direction.
    pub fn inversion(self) -> (direction: Direction)
        ensures
            direction == Direction::spec_of(self.spec_index() + 2),
    {
        Direction::of(self.index() as i16 + 2)
    }

    /// Turns to the opposite direction.
    pub fn invert(&mut self)
        ensures
            *final(self) == Direction::spec_of(old(self).spec_index() + 2),
    {
        *self = self.inversion()
    }
}

impl From<i16> for Direction {
    fn from(value: i16) -> (direction: Direction) {
        Direction::of(value)
    }
}

impl FromSpecImpl<i16> for Direction {
    open spec fn obeys_from_spec() -> bool {
        true
    }

    open spec fn from_spec(value: i16) -> Direction {
        Direction::spec_of(value as int)
    }
}

impl From<i8> for Direction {
    fn from(value: i8) -> (direction: Direction) {
        Direction::of(value as i16)
    }
}

impl FromSpecImpl<i8> for Direction {
    open spec fn obeys_from_spec() -> bool {
        true
    }

    open spec fn from_spec(value: i8) -> Direction {
        Direction::spec_of(value as int)
    }
}

impl From<Direction> for i8 {
    fn from(direction: Direction) -> (index: i8)
        ensures
            index == direction.spec_index(),
    {
        direction.index()
    }
}

impl FromSpecImpl<Direction> for i8 {
    open spec fn obeys_from_spec() -> bool {
        true
    }

    open spec fn from_spec(direction: Direction) -> i8 {
        direction.spec_index() as i8
    }
}

/// The side of the track that the vehicle keeps to.
#[derive(Clone, Copy, Debug, PartialEq, Eq, Structural)]
pub enum TrackSide {
    Left,
    Right,
}

impl TrackSide {
    /// The side that a number stands for: left for an even one, right for an odd one.
    pub open spec fn spec_of(value: int) -> TrackSide {
        if value % 2 == 0 {
            TrackSide::Left
        } else {
            TrackSide::Right
        }
    }

    /// The number that stands for the side.
    pub open spec fn spec_index(self) -> int {
        match self {
            TrackSide::Left => 0,
            TrackSide::Right => 1,
        }
    }

    /// The number that stands for the side.
    pub fn index(self) -> (index: i8)
        ensures
            index == self.spec_index(),
    {
        match self {
            TrackSide::Left => 0,
            TrackSide::Right => 1,
        }
    }

    /// The side that a number stands for.
    pub fn of(value: i16) -> (side: TrackSide)
        ensures
            side == TrackSide::spec_of(value as int),
    {
        if (value as i32 + 0x8000) % 2 == 0 {
            TrackSide::Left
        } else {
            TrackSide::Right
        }
    }
}

impl From<TrackSide> for i8 {
    fn from(side: TrackSide) -> (index: i8)
        ensures
            index == side.spec_index(),
    {
        side.index()
    }
}

impl FromSpecImpl<TrackSide> for i8 {
    open spec fn obeys_from_spec() -> bool {
        true
    }

    open spec fn from_spec(side: TrackSide) -> i8 {
        side.spec_index() as i8
    }
}

impl From<i8> for TrackSide {
    fn from(value: i8) -> (side: TrackSide) {
        TrackSide::of(value as i16)
    }
}

impl FromSpecImpl<i8> for TrackSide {
    open spec fn obeys_from_spec() -> bool {
        true
    }

    open spec fn from_spec(value: i8) -> TrackSide {
        TrackSide::spec_of(value as int)
    }
}

impl From<i16> for TrackSide {
    fn from(value: i16) -> (side: TrackSide) {
        TrackSide::of(value)
    }
}

impl FromSpecImpl<i16> for TrackSide {
    open spec fn obeys_from_spec() -> bool {
        true
    }

    open spec fn from_spec(value: i16) -> TrackSide {
        TrackSide::spec_of(value as int)
    }
}

/// What the control loop asks of the motors on one tick.
#[derive(Clone, Copy, Debug, PartialEq, Eq, Structural)]
pub struct RaceAction {
    pub power: i16,
    pub steer: Angle,
}

/// Whether a pitch or roll is beyond what the vehicle may drive at.
pub open spec fn spec_tilt_alert(pitch: int, roll: int) -> bool {
    abs_int(pitch) > TILT_ALERT_DEG || abs_int(roll) > TILT_ALERT_DEG
}

/// Whether the vehicle is tilted beyond what it may drive at.
pub fn detect_tilt_alert(pitch: Angle, roll: Angle) -> (alert: bool)
    ensures
        alert == spec_tilt_alert(pitch@, roll@),
{
    let pitch_deg: i32 = pitch.value();
    let roll_deg: i32 = roll.value();
    pitch_deg < -TILT_ALERT_DEG || pitch_deg > TILT_ALERT_DEG || roll_deg < -TILT_ALERT_DEG
        || roll_deg > TILT_ALERT_DEG
}

/// The span that a setting in milliseconds stands for. The setting's bits
/// are read as an unsigned number, so a negative one gives the longest span.
pub open spec fn spec_setting_millis(setting: i16) -> Duration {
    Duration::spec_from_millis(reinterpret_u64(setting as int) as u64)
}

/// The span that a setting in milliseconds stands for.
pub fn setting_millis(setting: i16) -> (span: Duration)
    ensures
        span == spec_setting_millis(setting),
{
    Duration::from_millis(i16_bits_as_u64(setting))
}

/// A reverse under way: the time it still lasts and the steering angle
/// frozen when it began.
#[derive(Clone, Copy, Debug, PartialEq, Eq, Structural)]
pub struct BackSteering {
    pub remaining_time: Duration,
    pub steer: Angle,
}

/// A turn toward a heading under way, made of reversing and advancing in turn.
#[derive(Clone, Copy, Debug, PartialEq, Eq, Structural)]
pub struct RouteTarget {
    pub remaining_time: Duration,
    pub go_back: bool,
    pub was_still: bool,
    pub start: Angle,
    pub target: Angle,
}

impl RouteTarget {
    /// The turn that frees a vehicle that stood still: away from the
    /// heading at which it stood, by `target_delta`.
    pub open spec fn spec_new_for_stillness(
        config: RaceConfig,
        current_heading: Angle,
        target_delta: Angle,
    ) -> RouteTarget {
        RouteTarget {
            remaining_time: spec_setting_millis(config.inversion_time),
            go_back: true,
            was_still: true,
            start: current_heading,
            target: Angle::spec_from(current_heading@ + target_delta@),
        }
    }

    /// The turn that brings a climbing vehicle round to the heading in
    /// which the track climbs.
    pub open spec fn spec_new_for_climbing(config: RaceConfig, current_heading: Angle) -> RouteTarget {
        RouteTarget {
            remaining_time: spec_setting_millis(config.inversion_time),
            go_back: true,
            was_still: false,
            start: current_heading,
            target: Angle::spec_from(config.climb_direction as int),
        }
    }

    /// The turn that frees a vehicle that stood still.
    pub fn new_for_stillness(config: &RaceConfig, current_heading: Angle, target_delta: Angle) -> (route:
        RouteTarget)
        ensures
            route == RouteTarget::spec_new_for_stillness(*config, current_heading, target_delta),
    {
        RouteTarget {
            remaining_time: setting_millis(config.inversion_time),
            go_back: true,
            was_still: true,
            start: current_heading,
            target: current_heading + target_delta,
        }
    }

    /// The turn that brings a climbing vehicle round to the climbing heading.
    pub fn new_for_climbing(config: &RaceConfig, current_heading: Angle) -> (route: RouteTarget)
        ensures
            route == RouteTarget::spec_new_for_climbing(*config, current_heading),
    {
        RouteTarget {
            remaining_time: setting_millis(config.inversion_time),
            go_back: true,
            was_still: false,
            start: current_heading,
            target: config.climb_direction(),
        }
    }
}

/// Shortest time step, in microseconds, that a tick counts with.
pub const DT_FLOOR_MICROS: u64 = 100;

/// Degrees within which a heading counts as reached.
pub const TARGET_REACHED_DEG: i32 = 10;

/// Degrees by which the vehicle turns away after standing still.
pub const STILLNESS_TURN_DEG: i32 = 45;

/// Degrees off the climbing heading beyond which the vehicle turns round.
pub const CLIMB_TURN_DEG: i32 = 100;

/// What rules the action of a tick, highest rank first.
#[derive(Clone, Copy, Debug, PartialEq, Eq, Structural)]
pub enum RaceMode {
    TiltAlert,
    BackPanic,
    RouteTarget,
    Sprint,
    Normal,
}

/// What reaches the control loop between two ticks.
#[derive(Clone, Copy, Debug)]
pub enum RaceEvent {
    Lasers(RawLaserReadings),
    Imu(ImuData),
    Command(Cmd),
}

/// What the control loop does after an event.
#[derive(Clone, Copy, Debug, PartialEq, Eq, Structural)]
pub enum RaceOutcome {
    Continue,
    PrintTrace,
    ClearTrace,
    Leave(Screen),
}

/// What one tick hands to the motors, the display and the record.
#[derive(Clone, Copy, Debug)]
pub struct RaceTick {
    pub action: RaceAction,
    pub mode: RaceMode,
    pub relative_target: Angle,
    pub target_index: usize,
    pub target_status: LaserStatus,
    pub power_state: LaserStatus,
    pub window_borders: Option<(usize, usize)>,
    pub is_in_back_panic: bool,
    pub route_was_still: bool,
    pub dt: Duration,
    pub trace: Option<TraceEvent>,
}

/// All that the control loop remembers from tick to tick.
#[derive(Clone, Copy, Debug)]
pub struct RaceState {
    pub remaining_sprint: Option<Duration>,
    pub remaining_back_panic: Option<BackSteering>,
    pub route_target: Option<RouteTarget>,
    pub vision: Vision,
    pub imu: ImuData,
    pub start_angle: Angle,
    pub absolute_heading: Angle,
    pub track_heading: Angle,
    pub current_pitch: Angle,
    pub tilt_alert: bool,
    pub simulate: bool,
}

/// The steering angle for a target: the target limited to what the
/// steering can reach.
pub open spec fn spec_steer(target: Angle) -> Angle {
    target.spec_clamp_to(Angle::spec_new(MIN_STEER_DEG as int), Angle::spec_new(MAX_STEER_DEG as int))
}

/// The time step of a tick: the time since the tick before, but no less
/// than the shortest step.
pub open spec fn spec_tick_dt(elapsed: Duration) -> Duration {
    if elapsed.micros < DT_FLOOR_MICROS {
        Duration { micros: DT_FLOOR_MICROS }
    } else {
        elapsed
    }
}

/// The time left of a countdown after `dt`, if any is left.
pub open spec fn spec_count_down(remaining: Duration, dt: Duration) -> Option<Duration> {
    if remaining.micros > dt.micros {
        Some(remaining.spec_saturating_sub(dt))
    } else {
        None
    }
}

/// The time left of a countdown after `dt`, if any is left.
fn count_down(remaining: Duration, dt: Duration) -> (left: Option<Duration>)
    ensures
        left == spec_count_down(remaining, dt),
{
    if remaining.micros > dt.micros {
        Some(remaining.saturating_sub(dt))
    } else {
        None
    }
}

impl RaceState {
    /// Whether the lasers call for a reverse on this tick: one of them
    /// reports less than its back distance, and no turn toward a heading
    /// is under way.
    pub open spec fn spec_back_panic_starts(self, config: RaceConfig) -> bool {
        self.route_target is None && self.vision.spec_back_panic(config)
    }

    /// Whether standing still calls for a turn on this tick: the vehicle
    /// has stood still for the configured time, is past its sprint, is not
    /// turning toward a heading already, and really drives.
    pub open spec fn spec_stillness_starts(self, config: RaceConfig) -> bool {
        &&& self.route_target is None
        &&& self.remaining_sprint is None
        &&& !self.simulate
        &&& self.imu.stillness matches Some(still)
        &&& still@ >= config.spec_stillness_limit()
    }

    /// Whether the climb calls for a turn on this tick: the climbing
    /// heading is in use, the vehicle climbs, and its heading on the track
    /// is more than a hundred degrees off the climbing heading.
    pub open spec fn spec_climb_turn_starts(self, config: RaceConfig) -> bool {
        &&& config.use_climb_direction != 0
        &&& self.current_pitch@ >= config.spec_climbing_threshold()
        &&& abs_int(normalize_deg(self.track_heading@ - normalize_deg(config.climb_direction as int)))
            > CLIMB_TURN_DEG
    }

    /// The state once the triggers of a tick have been looked at, `steer`
    /// being the steering angle that the lasers ask for.
    pub open spec fn spec_armed(self, config: RaceConfig, steer: Angle) -> RaceState {
        let remaining_back_panic = if self.spec_back_panic_starts(config) {
            Some(BackSteering { remaining_time: spec_setting_millis(config.back_time), steer })
        } else {
            self.remaining_back_panic
        };
        let after_stillness = if self.spec_stillness_starts(config) {
            Some(
                RouteTarget::spec_new_for_stillness(
                    config,
                    self.absolute_heading,
                    Angle::spec_new(
                        if steer@ < 0 {
                            -STILLNESS_TURN_DEG as int
                        } else {
                            STILLNESS_TURN_DEG as int
                        },
                    ),
                ),
            )
        } else {
            self.route_target
        };
        let route_target = if self.spec_climb_turn_starts(config) {
            Some(RouteTarget::spec_new_for_climbing(config, self.absolute_heading))
        } else {
            after_stillness
        };
        RaceState { remaining_back_panic, route_target, ..self }
    }

    /// What rules the action: a tilt before a reverse, a reverse before a
    /// turn toward a heading, that before the sprint, and the sprint
    /// before plain driving.
    pub open spec fn spec_mode(self) -> RaceMode {
        if self.tilt_alert {
            RaceMode::TiltAlert
        } else if self.remaining_back_panic is Some {
            RaceMode::BackPanic
        } else if self.route_target is Some {
            RaceMode::RouteTarget
        } else if self.remaining_sprint is Some {
            RaceMode::Sprint
        } else {
            RaceMode::Normal
        }
    }

    /// The turn toward a heading after a time step, unless the heading is
    /// reached: the countdown runs on, and where it runs out the turn
    /// changes between reversing and advancing and the countdown starts anew.
    pub open spec fn spec_route_after(
        self,
        config: RaceConfig,
        route: RouteTarget,
        dt: Duration,
    ) -> Option<RouteTarget> {
        if abs_int(normalize_deg(route.target@ - self.absolute_heading@)) < TARGET_REACHED_DEG {
            None
        } else {
            match spec_count_down(route.remaining_time, dt) {
                Some(left) => Some(RouteTarget { remaining_time: left, ..route }),
                None => Some(
                    RouteTarget {
                        remaining_time: spec_setting_millis(config.inversion_time),
                        go_back: !route.go_back,
                        ..route
                    },
                ),
            }
        }
    }

    /// The state after the time step `dt` of a tick whose triggers have
    /// been looked at.
    pub open spec fn spec_driven(self, config: RaceConfig, dt: Duration) -> RaceState {
        match self.spec_mode() {
            RaceMode::TiltAlert => self,
            RaceMode::BackPanic => RaceState {
                remaining_sprint: None,
                remaining_back_panic: match spec_count_down(
                    self.remaining_back_panic->Some_0.remaining_time,
                    dt,
                ) {
                    Some(left) => Some(
                        BackSteering { remaining_time: left, ..self.remaining_back_panic->Some_0 },
                    ),
                    None => None,
                },
                ..self
            },
            RaceMode::RouteTarget => RaceState {
                remaining_sprint: None,
                route_target: self.spec_route_after(config, self.route_target->Some_0, dt),
                ..self
            },
            RaceMode::Sprint => RaceState {
                remaining_sprint: spec_count_down(self.remaining_sprint->Some_0, dt),
                ..self
            },
            RaceMode::Normal => self,
        }
    }

    /// The power of a tick whose triggers have been looked at: none on a
    /// tilt or at a heading reached, `back_speed` backward in a reverse,
    /// `back_speed` backward or `max_speed` forward in a turn toward a
    /// heading, according to its phase after the time step, `sprint_speed`
    /// in the sprint, and else the turn speed for the steering angle with
    /// the boost for the climb.
    pub open spec fn spec_power(self, config: RaceConfig, steer: Angle, dt: Duration) -> int {
        match self.spec_mode() {
            RaceMode::TiltAlert => 0,
            RaceMode::BackPanic => saturate_i16(-config.back_speed),
            RaceMode::RouteTarget => match self.spec_route_after(
                config,
                self.route_target->Some_0,
                dt,
            ) {
                None => 0,
                Some(route) => if route.go_back {
                    saturate_i16(-config.back_speed)
                } else {
                    config.max_speed as int
                },
            },
            RaceMode::Sprint => config.sprint_speed as int,
            RaceMode::Normal => saturate_i16(
                config.spec_turn_speed(steer@) + config.spec_climb_power_boost(self.current_pitch@),
            ),
        }
    }

    /// The steering angle, in degrees, of a tick whose triggers have been
    /// looked at: straight on a tilt, at a heading reached and in the
    /// sprint; in a reverse the angle frozen when it began, mirrored; in a
    /// turn toward a heading the way to the heading, limited to the
    /// steering range, mirrored while reversing; and else the angle that
    /// the lasers ask for.
    pub open spec fn spec_steer_deg(self, config: RaceConfig, steer: Angle, dt: Duration) -> int {
        match self.spec_mode() {
            RaceMode::TiltAlert => 0,
            RaceMode::BackPanic => normalize_deg(-self.remaining_back_panic->Some_0.steer@),
            RaceMode::RouteTarget => match self.spec_route_after(
                config,
                self.route_target->Some_0,
                dt,
            ) {
                None => 0,
                Some(route) => {
                    let way = spec_steer(
                        Angle::spec_from(route.target@ - self.absolute_heading@),
                    );
                    if route.go_back {
                        normalize_deg(-way@)
                    } else {
                        way@
                    }
                },
            },
            RaceMode::Sprint => 0,
            RaceMode::Normal => steer@,
        }
    }

    /// The state at the start of a race, from the first readings of the
    /// lasers and of the inertial unit.
    pub fn new(
        config: &RaceConfig,
        start_angle: Angle,
        simulate: bool,
        raw_laser_readings: &RawLaserReadings,
        imu_data: ImuData,
    ) -> (state: RaceState)
        ensures
            state.remaining_sprint == Some(spec_setting_millis(config.sprint_time)),
            state.remaining_back_panic is None,
            state.route_target is None,
            state.vision.well_placed(),
            forall|i: int|
                0 <= i < 5 ==> #[trigger] state.vision.lasers[i] == (crate::vision::LaserData {
                    upper: crate::vision::LASER_OVERFLOW,
                    lower: crate::vision::LASER_OVERFLOW,
                    sign: crate::vision::spec_layout_sign(i) as i8,
                    position: crate::vision::spec_layout_position(i),
                    status: LaserStatus::Overflow,
                    slope: false,
                }).spec_update(
                    raw_laser_readings.values@,
                    *config,
                    state.current_pitch@ <= normalize_deg(-config.spec_climbing_threshold()),
                ),
            state.imu == imu_data,
            state.start_angle == start_angle,
            state.absolute_heading == Angle::spec_from_imu_value(imu_data.yaw),
            state.track_heading == Angle::spec_from(state.absolute_heading@ - start_angle@),
            state.current_pitch == Angle::spec_from_imu_value(imu_data.pitch),
            state.tilt_alert == spec_tilt_alert(
                state.current_pitch@,
                Angle::spec_from_imu_value(imu_data.roll)@,
            ),
            state.simulate == simulate,
    {
        let absolute_heading = Angle::from_imu_value(imu_data.yaw);
        let current_pitch = Angle::from_imu_value(imu_data.pitch);
        let mut vision = Vision::new();
        vision.update(raw_laser_readings, config, current_pitch);
        RaceState {
            remaining_sprint: Some(setting_millis(config.sprint_time)),
            remaining_back_panic: None,
            route_target: None,
            vision,
            imu: imu_data,
            start_angle,
            absolute_heading,
            track_heading: absolute_heading - start_angle,
            current_pitch,
            tilt_alert: detect_tilt_alert(current_pitch, Angle::from_imu_value(imu_data.roll)),
            simulate,
        }
    }

    /// One tick of the race, `elapsed` after the tick before: looks at the
    /// lasers, arms a reverse or a turn where one is called for, and
    /// chooses the action by the mode that rules.
    pub fn tick(&mut self, config: &RaceConfig, elapsed: Duration) -> (tick: RaceTick)
        ensures
            old(self).vision.is_target(
                (tick.relative_target, tick.target_index, tick.target_status, tick.window_borders),
            ),
            tick.dt == spec_tick_dt(elapsed),
            tick.is_in_back_panic == old(self).spec_back_panic_starts(*config),
            tick.mode == old(self).spec_armed(*config, spec_steer(tick.relative_target)).spec_mode(),
            tick.power_state == if tick.mode == RaceMode::BackPanic {
                LaserStatus::Back
            } else {
                tick.target_status
            },
            tick.route_was_still == (tick.mode == RaceMode::RouteTarget && old(self).spec_armed(
                *config,
                spec_steer(tick.relative_target),
            ).route_target->Some_0.was_still),
            *final(self) == old(self).spec_armed(
                *config,
                spec_steer(tick.relative_target),
            ).spec_driven(*config, tick.dt),
            tick.action.power == old(self).spec_armed(
                *config,
                spec_steer(tick.relative_target),
            ).spec_power(*config, spec_steer(tick.relative_target), tick.dt),
            tick.action.steer@ == old(self).spec_armed(
                *config,
                spec_steer(tick.relative_target),
            ).spec_steer_deg(*config, spec_steer(tick.relative_target), tick.dt),
            tick.trace == if old(self).simulate {
                None
            } else {
                Some(
                    TraceEvent::spec_new(
                        final(self).absolute_heading,
                        final(self).track_heading,
                        final(self).imu,
                        tick.is_in_back_panic,
                        final(self).remaining_back_panic,
                        final(self).route_target,
                        tick.action.steer,
                        tick.action.power,
                        tick.dt,
                    ),
                )
            },
    {
        let dt = elapsed.at_least(Duration::from_micros(DT_FLOOR_MICROS));
        let (relative_target, target_index, target_status, window_borders) =
            self.vision.compute_target();
        let steer = relative_target.clamp_to(Angle::min_steer(), Angle::max_steer());

        let is_in_back_panic = self.route_target.is_none() && self.vision.detect_back_panic(config);
        if is_in_back_panic {
            self.remaining_back_panic = Some(
                BackSteering { remaining_time: setting_millis(config.back_time), steer },
            );
        }
        if self.route_target.is_none() && self.remaining_sprint.is_none() && !self.simulate
            && config.detect_stillness(self.imu.stillness) {
            let target_delta = if steer.value() < 0 {
                Angle::l45()
            } else {
                Angle::r45()
            };
            self.route_target = Some(
                RouteTarget::new_for_stillness(config, self.absolute_heading, target_delta),
            );
        }
        if config.use_climb_direction() && config.detect_climb(self.current_pitch) {
            let delta = (self.track_heading - config.climb_direction()).abs();
            if delta.value() > CLIMB_TURN_DEG {
                self.route_target = Some(RouteTarget::new_for_climbing(config, self.absolute_heading));
            }
        }
        assert(*self == old(self).spec_armed(*config, steer));

        let mut power_state = target_status;
        let mut route_was_still = false;
        let mode: RaceMode;
        let action: RaceAction;
        if self.tilt_alert {
            mode = RaceMode::TiltAlert;
            action = RaceAction { power: 0, steer: Angle::zero() };
        } else if let Some(back_steering) = self.remaining_back_panic {
            mode = RaceMode::BackPanic;
            self.remaining_sprint = None;
            self.remaining_back_panic = match count_down(back_steering.remaining_time, dt) {
                Some(left) => Some(BackSteering { remaining_time: left, ..back_steering }),
                None => None,
            };
            power_state = LaserStatus::Back;
            action = RaceAction {
                power: i64_to_i16_saturating(-(config.back_speed as i64)),
                steer: back_steering.steer.neg(),
            };
        } else if let Some(target) = self.route_target {
            mode = RaceMode::RouteTarget;
            route_was_still = target.was_still;
            self.remaining_sprint = None;
            let delta = target.target - self.absolute_heading;
            if delta.abs().value() < TARGET_REACHED_DEG {
                self.route_target = None;
                action = RaceAction { power: 0, steer: Angle::zero() };
            } else {
                let way = delta.clamp_to(Angle::min_steer(), Angle::max_steer());
                let new_target = match count_down(target.remaining_time, dt) {
                    Some(left) => RouteTarget { remaining_time: left, ..target },
                    None => RouteTarget {
                        remaining_time: setting_millis(config.inversion_time),
                        go_back: !target.go_back,
                        ..target
                    },
                };
                self.route_target = Some(new_target);
                action = if new_target.go_back {
                    RaceAction {
                        power: i64_to_i16_saturating(-(config.back_speed as i64)),
                        steer: way.neg(),
                    }
                } else {
                    RaceAction { power: config.max_speed, steer: way }
                };
            }
        } else if let Some(sprint) = self.remaining_sprint {
            mode = RaceMode::Sprint;
            self.remaining_sprint = count_down(sprint, dt);
            action = RaceAction { power: config.sprint_speed, steer: Angle::zero() };
        } else {
            mode = RaceMode::Normal;
            action = RaceAction {
                power: i64_to_i16_saturating(
                    config.turn_speed(steer) as i64 + config.climb_power_boost(
                        self.current_pitch,
                    ) as i64,
                ),
                steer,
            };
        }

        let trace = if self.simulate {
            None
        } else {
            Some(
                TraceEvent::new(
                    self.absolute_heading,
                    self.track_heading,
                    &self.imu,
                    is_in_back_panic,
                    &self.remaining_back_panic,
                    &self.route_target,
                    action.steer,
                    action.power,
                    dt,
                ),
            )
        };
        RaceTick {
            action,
            mode,
            relative_target,
            target_index,
            target_status,
            power_state,
            window_borders,
            is_in_back_panic,
            route_was_still,
            dt,
            trace,
        }
    }

    /// The state after an event, without what the event says of leaving
    /// the race.
    pub open spec fn spec_after_imu(self, imu_data: ImuData) -> RaceState {
        let absolute_heading = Angle::spec_from_imu_value(imu_data.yaw);
        let current_pitch = Angle::spec_from_imu_value(imu_data.pitch);
        RaceState {
            absolute_heading,
            track_heading: Angle::spec_from(absolute_heading@ - self.start_angle@),
            current_pitch,
            tilt_alert: spec_tilt_alert(
                current_pitch@,
                Angle::spec_from_imu_value(imu_data.roll)@,
            ),
            imu: imu_data,
            ..self
        }
    }

    /// What a command does to a race: a real race ends on any command; a
    /// simulated one moves on to a neighbouring screen, prints or clears
    /// the record, or leaves for the configuration.
    pub open spec fn spec_command(simulate: bool, cmd: Cmd) -> RaceOutcome {
        if simulate {
            match cmd {
                Cmd::Previous => RaceOutcome::Leave(Screen::Ready),
                Cmd::Next => RaceOutcome::Leave(Screen::Motors),
                Cmd::Plus => RaceOutcome::PrintTrace,
                Cmd::Minus => RaceOutcome::ClearTrace,
                Cmd::Okay | Cmd::Exit => RaceOutcome::Leave(Screen::Config),
            }
        } else {
            RaceOutcome::Leave(Screen::Ready)
        }
    }

    /// Takes in what reached the control loop between two ticks: new
    /// readings of the lasers, a new sample of the inertial unit, or a command.
    pub fn handle_event(&mut self, config: &RaceConfig, event: RaceEvent) -> (outcome: RaceOutcome)
        ensures
            match event {
                RaceEvent::Lasers(readings) => {
                    &&& outcome == RaceOutcome::Continue
                    &&& forall|i: int|
                        0 <= i < 5 ==> #[trigger] final(self).vision.lasers[i] == old(
                            self,
                        ).vision.lasers[i].spec_update(
                            readings.values@,
                            *config,
                            old(self).current_pitch@ <= normalize_deg(
                                -config.spec_climbing_threshold(),
                            ),
                        )
                    &&& *final(self) == (RaceState { vision: final(self).vision, ..*old(self) })
                },
                RaceEvent::Imu(imu_data) => {
                    &&& outcome == RaceOutcome::Continue
                    &&& *final(self) == old(self).spec_after_imu(imu_data)
                },
                RaceEvent::Command(cmd) => {
                    &&& outcome == RaceState::spec_command(old(self).simulate, cmd)
                    &&& *final(self) == *old(self)
                },
            },
    {
        match event {
            RaceEvent::Lasers(readings) => {
                self.vision.update(&readings, config, self.current_pitch);
                RaceOutcome::Continue
            },
            RaceEvent::Imu(imu_data) => {
                self.absolute_heading = Angle::from_imu_value(imu_data.yaw);
                self.track_heading = self.absolute_heading - self.start_angle;
                self.current_pitch = Angle::from_imu_value(imu_data.pitch);
                self.tilt_alert = detect_tilt_alert(
                    self.current_pitch,
                    Angle::from_imu_value(imu_data.roll),
                );
                self.imu = imu_data;
                RaceOutcome::Continue
            },
            RaceEvent::Command(cmd) => {
                if self.simulate {
                    match cmd {
                        Cmd::Previous => RaceOutcome::Leave(Screen::Ready),
                        Cmd::Next => RaceOutcome::Leave(Screen::Motors),
                        Cmd::Plus => RaceOutcome::PrintTrace,
                        Cmd::Minus => RaceOutcome::ClearTrace,
                        Cmd::Okay | Cmd::Exit => RaceOutcome::Leave(Screen::Config),
                    }
                } else {
                    RaceOutcome::Leave(Screen::Ready)
                }
            },
        }
    }
}

impl RaceTick {
    /// The power that goes to the motors: none in a simulated race.
    pub fn motor_power(&self, simulate: bool) -> (power: i16)
        ensures
            power == if simulate {
                0
            } else {
                self.action.power
            },
    {
        if simulate {
            0
        } else {
            self.action.power
        }
    }
}

/// A tilt cuts all actuation and lets every countdown rest, whatever else
/// is under way.
pub proof fn lemma_tilt_alert_stops(
    state: RaceState,
    config: RaceConfig,
    steer: Angle,
    dt: Duration,
)
    requires
        state.tilt_alert,
    ensures
        state.spec_mode() == RaceMode::TiltAlert,
        state.spec_power(config, steer, dt) == 0,
        state.spec_steer_deg(config, steer, dt) == 0,
        state.spec_driven(config, dt) == state,
{
}

/// A laser under its back distance, with no turn toward a heading under
/// way, arms a reverse for `back_time` with the steering angle of the
/// tick; unless the vehicle is tilted the reverse rules at once, drives
/// backward at `back_speed`, mirrors that steering angle, and ends the sprint.
pub proof fn lemma_back_panic_reverses(
    state: RaceState,
    config: RaceConfig,
    steer: Angle,
    dt: Duration,
)
    requires
        state.route_target is None,
        state.vision.spec_back_panic(config),
        !state.tilt_alert,
        config.back_speed > i16::MIN,
    ensures
        state.spec_back_panic_starts(config),
        state.spec_armed(config, steer).remaining_back_panic == Some(
            BackSteering { remaining_time: spec_setting_millis(config.back_time), steer },
        ),
        state.spec_armed(config, steer).spec_mode() == RaceMode::BackPanic,
        state.spec_armed(config, steer).spec_power(config, steer, dt) == -config.back_speed,
        state.spec_armed(config, steer).spec_steer_deg(config, steer, dt) == normalize_deg(
            -steer@,
        ),
        state.spec_armed(config, steer).spec_driven(config, dt).remaining_sprint is None,
{
}

/// With nothing else under way, a steering angle within the safe angle on
/// level ground or downhill drives at `max_speed`.
pub proof fn lemma_straight_runs_at_max_speed(
    state: RaceState,
    config: RaceConfig,
    steer: Angle,
    dt: Duration,
)
    requires
        state.spec_mode() == RaceMode::Normal,
        0 <= config.safe_angle < MAX_STEER_DEG,
        config.min_speed <= config.max_speed,
        -config.safe_angle <= steer@ <= config.safe_angle,
        state.current_pitch@ <= 0,
    ensures
        state.spec_power(config, steer, dt) == config.max_speed,
        state.spec_steer_deg(config, steer, dt) == steer@,
        state.spec_driven(config, dt) == state,
{
    crate::configuration::lemma_turn_speed_curve(config, steer@);
}

/// A countdown never grows, and is over once the time step is no shorter
/// than what was left.
pub proof fn lemma_count_down(remaining: Duration, dt: Duration)
    ensures
        spec_count_down(remaining, dt) is None <==> remaining@ <= dt@,
        spec_count_down(remaining, dt) matches Some(left) ==> left@ == remaining@ - dt@ && left@
            > 0,
{
}

} // verus!
