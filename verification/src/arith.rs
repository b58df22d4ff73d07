//! Integer helpers shared by the control code: rounding toward zero,
//! saturation, and reading a signed value's bits as unsigned.

use vstd::prelude::*;

verus! {

/// The magnitude of `v`.
pub open spec fn abs_int(v: int) -> int {
    if v < 0 {
        -v
    } else {
        v
    }
}

/// Quotient of `a` by `b` rounded toward zero: the quotient of the
/// magnitudes, negative where exactly one of the two is negative.
pub open spec fn trunc_div(a: int, b: int) -> int {
    if (a < 0) == (b < 0) {
        abs_int(a) / abs_int(b)
    } else {
        -(abs_int(a) / abs_int(b))
    }
}

/// `v` limited to `[lo, hi]`.
pub open spec fn clamp_int(v: int, lo: int, hi: int) -> int {
    if v < lo {
        lo
    } else if v > hi {
        hi
    } else {
        v
    }
}

/// `v` limited to what an `i16` holds.
pub open spec fn saturate_i16(v: int) -> int {
    clamp_int(v, i16::MIN as int, i16::MAX as int)
}

/// `v` limited to what an `i32` holds.
pub open spec fn saturate_i32(v: int) -> int {
    clamp_int(v, i32::MIN as int, i32::MAX as int)
}

/// `v` limited to what a `u64` holds.
pub open spec fn saturate_u64(v: int) -> int {
    clamp_int(v, 0, u64::MAX as int)
}

/// The bits of a signed 16-bit value read as an unsigned one.
pub open spec fn reinterpret_u16(v: int) -> int {
    if v < 0 {
        v + 0x1_0000
    } else {
        v
    }
}

/// The bits of a signed 16-bit value, sign-extended and read as an unsigned 64-bit one.
pub open spec fn reinterpret_u64(v: int) -> int {
    if v < 0 {
        v + 0x1_0000_0000_0000_0000
    } else {
        v
    }
}

/// Reads the bits of `v` as an unsigned value.
pub fn i16_bits_as_u16(v: i16) -> (r: u16)
    ensures
        r == reinterpret_u16(v as int),
{
    if v >= 0 {
        v as u16
    } else {
        (v as i32 + 0x1_0000) as u16
    }
}

/// Sign-extends `v` to 64 bits and reads the bits as an unsigned value.
pub fn i16_bits_as_u64(v: i16) -> (r: u64)
    ensures
        r == reinterpret_u64(v as int),
{
    if v >= 0 {
        v as u64
    } else {
        u64::MAX - ((-(v as i32) - 1) as u64)
    }
}

/// Narrows `v`, saturating at the ends of the `i16` range.
pub fn i64_to_i16_saturating(v: i64) -> (r: i16)
    ensures
        r == saturate_i16(v as int),
{
    if v > i16::MAX as i64 {
        i16::MAX
    } else if v < i16::MIN as i64 {
        i16::MIN
    } else {
        v as i16
    }
}

/// Narrows `v`, saturating at the ends of the `i32` range.
pub fn i128_to_i32_saturating(v: i128) -> (r: i32)
    ensures
        r == saturate_i32(v as int),
{
    if v > i32::MAX as i128 {
        i32::MAX
    } else if v < i32::MIN as i128 {
        i32::MIN
    } else {
        v as i32
    }
}

/// Divides rounding toward zero.
pub fn i64_div(a: i64, b: i64) -> (q: i64)
    requires
        b != 0,
        a > i64::MIN,
        b > i64::MIN,
    ensures
        q == trunc_div(a as int, b as int),
{
    let num: i64 = if a < 0 {
        -a
    } else {
        a
    };
    let den: i64 = if b < 0 {
        -b
    } else {
        b
    };
    let q: i64 = num / den;
    proof {
        lemma_trunc_div_shrinks(a as int, b as int);
    }
    if (a < 0) == (b < 0) {
        q
    } else {
        -q
    }
}

/// A quotient rounded toward zero is no larger in magnitude than what was divided.
pub proof fn lemma_trunc_div_shrinks(a: int, b: int)
    requires
        b != 0,
    ensures
        abs_int(trunc_div(a, b)) <= abs_int(a),
        a >= 0 && b > 0 ==> trunc_div(a, b) >= 0,
{
    let m = abs_int(a);
    let d = abs_int(b);
    vstd::arithmetic::div_mod::lemma_div_pos_is_pos(m, d);
    vstd::arithmetic::div_mod::lemma_div_is_ordered_by_denominator(m, 1, d);
    assert(m / 1 == m);
}

/// A number within `bound` multiples of a positive divisor has a quotient,
/// rounded toward zero, within `bound`.
pub proof fn lemma_trunc_div_within(a: int, divisor: int, bound: int)
    requires
        divisor > 0,
        bound >= 0,
        -(divisor * bound) <= a <= divisor * bound,
    ensures
        -bound <= trunc_div(a, divisor) <= bound,
{
    let m = if a < 0 {
        -a
    } else {
        a
    };
    vstd::arithmetic::div_mod::lemma_div_pos_is_pos(m, divisor);
    vstd::arithmetic::div_mod::lemma_div_is_ordered(m, divisor * bound, divisor);
    vstd::arithmetic::div_mod::lemma_div_multiples_vanish(bound, divisor);
    assert(divisor * bound == bound * divisor) by (nonlinear_arith);
}

} // verus!
