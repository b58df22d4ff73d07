//! A bounded integer angle in degrees.
//!
//! Every executable `Angle` lies in `[-180, 180]`. Conversion from raw degrees
//! and the arithmetic operators fold their result into `(-180, 180]`.

use crate::arith::{abs_int, clamp_int, trunc_div};
use core::cmp::Ordering;
use vstd::prelude::*;
use vstd::std_specs::cmp::PartialOrdSpecImpl;
use vstd::std_specs::convert::FromSpecImpl;
use vstd::std_specs::ops::{AddSpecImpl, NegSpecImpl, SubSpecImpl};

verus! {

/// Degrees of the far-left sensor direction.
pub const SLL_DEG: i32 = -60;

/// Degrees of the left sensor direction.
pub const SL_DEG: i32 = -30;

/// Degrees of the centre sensor direction.
pub const SC_DEG: i32 = 0;

/// Degrees of the right sensor direction.
pub const SR_DEG: i32 = 30;

/// Degrees of the far-right sensor direction.
pub const SRR_DEG: i32 = 60;

/// Half the spacing between two neighbouring sensor directions.
pub const SHALF_DEG: i32 = 15;

/// Pitch or roll magnitude beyond which all actuation is cut.
pub const TILT_ALERT_DEG: i32 = 45;

/// Largest steering angle to the right.
pub const MAX_STEER_DEG: i32 = 35;

/// Largest steering angle to the left.
pub const MIN_STEER_DEG: i32 = -35;

/// The representative of `v` modulo 360 that lies in `(-180, 180]`.
pub open spec fn normalize_deg(v: int) -> int {
    180 - ((180 - v) % 360)
}

/// Raw inertial-unit reading (hundredths of a degree) as whole degrees,
/// rounded toward zero and clamped to `[-180, 180]`.
pub open spec fn imu_deg(raw: int) -> int {
    clamp_int(trunc_div(raw, 100), -180, 180)
}

/// An angle in whole degrees.
#[derive(Clone, Copy, Debug, PartialEq, Eq, Ord, Structural)]
pub struct Angle {
    value: i32,
}

impl View for Angle {
    type V = int;

    /// The angle in degrees.
    closed spec fn view(&self) -> int {
        self.value as int
    }
}

impl Angle {
    /// Holds of every executable angle.
    #[verifier::type_invariant]
    pub open spec fn wf(self) -> bool {
        -180 <= self@ <= 180
    }

    /// The angle of `deg` degrees, for `deg` in `[-180, 180]`.
    pub closed spec fn spec_new(deg: int) -> Angle {
        Angle { value: deg as i32 }
    }

    /// The angle of `deg` degrees, folded into `(-180, 180]`.
    pub open spec fn spec_from(deg: int) -> Angle {
        Angle::spec_new(normalize_deg(deg))
    }

    /// The angle that a raw inertial-unit reading stands for.
    pub open spec fn spec_from_imu_value(imu_value: i16) -> Angle {
        Angle::spec_new(imu_deg(imu_value as int))
    }

    /// The magnitude of the angle.
    pub open spec fn spec_abs(self) -> Angle {
        Angle::spec_new(abs_int(self@))
    }

    /// The angle limited to `[lo, hi]`.
    pub open spec fn spec_clamp_to(self, lo: Angle, hi: Angle) -> Angle {
        if self@ < lo@ {
            lo
        } else if self@ > hi@ {
            hi
        } else {
            self
        }
    }

    /// Folds the angle into `(-180, 180]` by repeated steps of a full turn.
    fn normalize(value: i32) -> (a: Angle)
        ensures
            a == Angle::spec_from(value as int),
            a@ == normalize_deg(value as int),
    {
        let mut v: i32 = value;
        while v > 180
            invariant
                normalize_deg(v as int) == normalize_deg(value as int),
            decreases v + 180,
        {
            v = v - 360;
        }
        while v <= -180
            invariant
                v <= 180,
                normalize_deg(v as int) == normalize_deg(value as int),
            decreases 180 - v,
        {
            v = v + 360;
        }
        Angle { value: v }
    }

    /// Converts a raw inertial-unit reading (hundredths of a degree).
    pub fn from_imu_value(imu_value: i16) -> (a: Angle)
        ensures
            a == Angle::spec_from_imu_value(imu_value),
            a@ == imu_deg(imu_value as int),
    {
        let wide: i32 = imu_value as i32;
        let d: i32 = wide / 100;
        let clamped: i32 = if d > 180 {
            180
        } else if d < -180 {
            -180
        } else {
            d
        };
        Angle { value: clamped }
    }

    /// The angle in degrees.
    pub fn value(self) -> (v: i32)
        ensures
            v == self@,
            -180 <= v <= 180,
    {
        proof {
            use_type_invariant(&self);
        }
        self.value
    }

    /// The magnitude of the angle.
    pub fn abs(self) -> (a: Angle)
        ensures
            a == self.spec_abs(),
            a@ == abs_int(self@),
    {
        proof {
            use_type_invariant(&self);
        }
        if self.value < 0 {
            Angle { value: -self.value }
        } else {
            self
        }
    }

    /// `self` limited to `[lo, hi]`; `lo` where `self` lies below it, whatever `hi` is.
    pub fn clamp_to(self, lo: Angle, hi: Angle) -> (a: Angle)
        ensures
            a == self.spec_clamp_to(lo, hi),
            a@ == clamp_int(self@, lo@, hi@),
    {
        if self.value < lo.value {
            lo
        } else if self.value > hi.value {
            hi
        } else {
            self
        }
    }

    /// Straight ahead.
    pub fn zero() -> (a: Angle)
        ensures
            a == Angle::spec_new(0 as int),
            a@ == 0,
    {
        Angle { value: 0 }
    }

    /// A quarter turn to the right.
    pub fn r90() -> (a: Angle)
        ensures
            a == Angle::spec_new(90 as int),
            a@ == 90,
    {
        Angle { value: 90 }
    }

    /// A quarter turn to the left.
    pub fn l90() -> (a: Angle)
        ensures
            a == Angle::spec_new(-90 as int),
            a@ == -90,
    {
        Angle { value: -90 }
    }

    /// Half a turn.
    pub fn back() -> (a: Angle)
        ensures
            a == Angle::spec_new(180 as int),
            a@ == 180,
    {
        Angle { value: 180 }
    }

    /// Half a quarter turn to the left.
    pub fn l45() -> (a: Angle)
        ensures
            a == Angle::spec_new(-45 as int),
            a@ == -45,
    {
        Angle { value: -45 }
    }

    /// Half a quarter turn to the right.
    pub fn r45() -> (a: Angle)
        ensures
            a == Angle::spec_new(45 as int),
            a@ == 45,
    {
        Angle { value: 45 }
    }

    /// A hundred degrees to the right.
    pub fn r100() -> (a: Angle)
        ensures
            a == Angle::spec_new(100 as int),
            a@ == 100,
    {
        Angle { value: 100 }
    }

    /// A hundred degrees to the left.
    pub fn l100() -> (a: Angle)
        ensures
            a == Angle::spec_new(-100 as int),
            a@ == -100,
    {
        Angle { value: -100 }
    }

    /// Five degrees.
    pub fn small() -> (a: Angle)
        ensures
            a == Angle::spec_new(5 as int),
            a@ == 5,
    {
        Angle { value: 5 }
    }

    /// The direction of the far-left laser.
    pub fn sll() -> (a: Angle)
        ensures
            a == Angle::spec_new(SLL_DEG as int),
            a@ == SLL_DEG,
    {
        Angle { value: SLL_DEG }
    }

    /// The direction of the left laser.
    pub fn sl() -> (a: Angle)
        ensures
            a == Angle::spec_new(SL_DEG as int),
            a@ == SL_DEG,
    {
        Angle { value: SL_DEG }
    }

    /// The direction of the centre laser.
    pub fn sc() -> (a: Angle)
        ensures
            a == Angle::spec_new(SC_DEG as int),
            a@ == SC_DEG,
    {
        Angle { value: SC_DEG }
    }

    /// The direction of the right laser.
    pub fn sr() -> (a: Angle)
        ensures
            a == Angle::spec_new(SR_DEG as int),
            a@ == SR_DEG,
    {
        Angle { value: SR_DEG }
    }

    /// The direction of the far-right laser.
    pub fn srr() -> (a: Angle)
        ensures
            a == Angle::spec_new(SRR_DEG as int),
            a@ == SRR_DEG,
    {
        Angle { value: SRR_DEG }
    }

    /// Half the angle between two neighbouring lasers.
    pub fn shalf() -> (a: Angle)
        ensures
            a == Angle::spec_new(SHALF_DEG as int),
            a@ == SHALF_DEG,
    {
        Angle { value: SHALF_DEG }
    }

    /// The tilt beyond which all actuation is cut.
    pub fn tilt_alert() -> (a: Angle)
        ensures
            a == Angle::spec_new(TILT_ALERT_DEG as int),
            a@ == TILT_ALERT_DEG,
    {
        Angle { value: TILT_ALERT_DEG }
    }

    /// Full lock to the right.
    pub fn max_steer() -> (a: Angle)
        ensures
            a == Angle::spec_new(MAX_STEER_DEG as int),
            a@ == MAX_STEER_DEG,
    {
        Angle { value: MAX_STEER_DEG }
    }

    /// Full lock to the left.
    pub fn min_steer() -> (a: Angle)
        ensures
            a == Angle::spec_new(MIN_STEER_DEG as int),
            a@ == MIN_STEER_DEG,
    {
        Angle { value: MIN_STEER_DEG }
    }
}

impl From<i32> for Angle {
    fn from(value: i32) -> (a: Angle)
        ensures
            a@ == normalize_deg(value as int),
    {
        Angle::normalize(value)
    }
}

impl FromSpecImpl<i32> for Angle {
    open spec fn obeys_from_spec() -> bool {
        true
    }

    open spec fn from_spec(v: i32) -> Angle {
        Angle::spec_from(v as int)
    }
}

impl From<Angle> for i32 {
    fn from(angle: Angle) -> (degrees: i32)
        ensures
            degrees == angle@,
    {
        angle.value()
    }
}

impl FromSpecImpl<Angle> for i32 {
    open spec fn obeys_from_spec() -> bool {
        true
    }

    open spec fn from_spec(angle: Angle) -> i32 {
        angle@ as i32
    }
}

impl From<Angle> for i16 {
    fn from(angle: Angle) -> (degrees: i16)
        ensures
            degrees == angle@,
    {
        angle.value() as i16
    }
}

impl FromSpecImpl<Angle> for i16 {
    open spec fn obeys_from_spec() -> bool {
        true
    }

    open spec fn from_spec(angle: Angle) -> i16 {
        angle@ as i16
    }
}

impl PartialOrd for Angle {
    fn partial_cmp(&self, other: &Angle) -> (r: Option<Ordering>) {
        if self.value < other.value {
            Some(Ordering::Less)
        } else if self.value > other.value {
            Some(Ordering::Greater)
        } else {
            Some(Ordering::Equal)
        }
    }
}

impl PartialOrdSpecImpl for Angle {
    open spec fn obeys_partial_cmp_spec() -> bool {
        true
    }

    /// Angles are ordered by their degrees.
    open spec fn partial_cmp_spec(&self, other: &Angle) -> Option<Ordering> {
        if self@ < other@ {
            Some(Ordering::Less)
        } else if self@ > other@ {
            Some(Ordering::Greater)
        } else {
            Some(Ordering::Equal)
        }
    }
}

impl core::ops::Add for Angle {
    type Output = Angle;

    fn add(self, rhs: Angle) -> (sum: Angle)
        ensures
            sum@ == normalize_deg(self@ + rhs@),
    {
        proof {
            use_type_invariant(&self);
            use_type_invariant(&rhs);
        }
        Angle::normalize(self.value + rhs.value)
    }
}

impl AddSpecImpl for Angle {
    open spec fn obeys_add_spec() -> bool {
        true
    }

    open spec fn add_req(self, rhs: Angle) -> bool {
        true
    }

    open spec fn add_spec(self, rhs: Angle) -> Angle {
        Angle::spec_from(self@ + rhs@)
    }
}

impl core::ops::AddAssign for Angle {
    fn add_assign(&mut self, rhs: Angle)
        ensures
            *final(self) == Angle::spec_from(old(self)@ + rhs@),
    {
        *self = *self + rhs;
    }
}

impl core::ops::SubAssign for Angle {
    fn sub_assign(&mut self, rhs: Angle)
        ensures
            *final(self) == Angle::spec_from(old(self)@ - rhs@),
    {
        *self = *self - rhs;
    }
}

impl core::ops::Sub for Angle {
    type Output = Angle;

    fn sub(self, rhs: Angle) -> (diff: Angle)
        ensures
            diff@ == normalize_deg(self@ - rhs@),
    {
        proof {
            use_type_invariant(&self);
            use_type_invariant(&rhs);
        }
        Angle::normalize(self.value - rhs.value)
    }
}

impl SubSpecImpl for Angle {
    open spec fn obeys_sub_spec() -> bool {
        true
    }

    open spec fn sub_req(self, rhs: Angle) -> bool {
        true
    }

    open spec fn sub_spec(self, rhs: Angle) -> Angle {
        Angle::spec_from(self@ - rhs@)
    }
}

impl core::ops::Neg for Angle {
    type Output = Angle;

    fn neg(self) -> (opposite: Angle)
        ensures
            opposite@ == normalize_deg(-self@),
    {
        proof {
            use_type_invariant(&self);
        }
        Angle::normalize(-self.value)
    }
}

impl NegSpecImpl for Angle {
    open spec fn obeys_neg_spec() -> bool {
        true
    }

    open spec fn neg_req(self) -> bool {
        true
    }

    open spec fn neg_spec(self) -> Angle {
        Angle::spec_from(-self@)
    }
}

/// Normalization lands in `(-180, 180]`.
pub proof fn lemma_normalize_range(v: int)
    ensures
        -180 < normalize_deg(v) <= 180,
{
}

/// Normalization does not see whole turns.
pub proof fn lemma_normalize_periodic(v: int, k: int)
    ensures
        normalize_deg(v + 360 * k) == normalize_deg(v),
{
    vstd::arithmetic::div_mod::lemma_mod_multiples_vanish(-k, 180 - v, 360);
    assert(360 * (-k) + (180 - v) == 180 - (v + 360 * k));
}

/// Normalization keeps what already lies in `(-180, 180]`.
pub proof fn lemma_normalize_fixed(v: int)
    requires
        -180 < v <= 180,
    ensures
        normalize_deg(v) == v,
{
}

/// Converting raw degrees yields an angle in `(-180, 180]`, and inputs that
/// differ by whole turns yield the same angle.
pub proof fn lemma_from_degrees(v: i32, w: i32, k: int)
    requires
        w == v + 360 * k,
    ensures
        -180 < Angle::spec_from(v as int)@ <= 180,
        Angle::spec_from(w as int) == Angle::spec_from(v as int),
{
    lemma_normalize_periodic(v as int, k);
    lemma_spec_new_degrees(normalize_deg(v as int));
}

/// An angle made of degrees in `[-180, 180]` has those degrees.
pub broadcast proof fn lemma_spec_new_degrees(deg: int)
    requires
        -180 <= deg <= 180,
    ensures
        (#[trigger] Angle::spec_new(deg))@ == deg,
{
}

/// An angle is the one made of its degrees.
pub broadcast proof fn lemma_spec_new_view(a: Angle)
    ensures
        #[trigger] Angle::spec_new(a@) == a,
{
}

/// Two angles with the same degrees are the same angle.
pub proof fn lemma_view_injective(a: Angle, b: Angle)
    requires
        a@ == b@,
    ensures
        a == b,
{
}

pub broadcast group group_angle {
    lemma_spec_new_degrees,
    lemma_spec_new_view,
}

} // verus!
