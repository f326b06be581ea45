//! IEEE 754 binary32 and binary64 values as bit patterns: how they compare,
//! what their sign operations give, and which integer each truncates to.

use vstd::prelude::*;
use vstd::arithmetic::div_mod::lemma_basic_div;
use vstd::arithmetic::power2::{lemma2_to64, lemma2_to64_rest, lemma_pow2_strictly_increases, pow2};
use vstd::bits::{lemma_u64_shl_is_mul, lemma_u64_shr_is_div};

verus! {

/// The bits of `b` without its sign bit.
pub open spec fn f32_magnitude(b: u32) -> u32 {
    b % 0x8000_0000
}

/// Whether the sign bit of `b` is set.
pub open spec fn f32_negative(b: u32) -> bool {
    b >= 0x8000_0000
}

/// Whether `b` is a NaN: every exponent bit set, and a fraction that is not
/// zero.
pub open spec fn f32_is_nan(b: u32) -> bool {
    f32_magnitude(b) > 0x7f80_0000
}

/// Whether `b` is an infinity: every exponent bit set, and a zero fraction.
pub open spec fn f32_is_infinite(b: u32) -> bool {
    f32_magnitude(b) == 0x7f80_0000
}

/// Whether `b` stands for a number.
pub open spec fn f32_is_finite(b: u32) -> bool {
    f32_magnitude(b) < 0x7f80_0000
}

/// An integer that orders the bit patterns that are not NaN as the values
/// they stand for: the magnitude, negated where the sign bit is set. The two
/// zeros have the key 0.
pub open spec fn f32_key(b: u32) -> int {
    if f32_negative(b) {
        -(f32_magnitude(b) as int)
    } else {
        f32_magnitude(b) as int
    }
}

/// IEEE equality: a NaN equals nothing, and the two zeros are equal.
pub open spec fn f32_eq(a: u32, b: u32) -> bool {
    !f32_is_nan(a) && !f32_is_nan(b) && f32_key(a) == f32_key(b)
}

/// IEEE inequality: what is not equal, so any NaN is unequal to everything.
pub open spec fn f32_ne(a: u32, b: u32) -> bool {
    !f32_eq(a, b)
}

/// IEEE less-than: false where either side is a NaN.
pub open spec fn f32_lt(a: u32, b: u32) -> bool {
    !f32_is_nan(a) && !f32_is_nan(b) && f32_key(a) < f32_key(b)
}

/// IEEE greater-than: false where either side is a NaN.
pub open spec fn f32_gt(a: u32, b: u32) -> bool {
    !f32_is_nan(a) && !f32_is_nan(b) && f32_key(a) > f32_key(b)
}

/// IEEE less-or-equal: false where either side is a NaN.
pub open spec fn f32_le(a: u32, b: u32) -> bool {
    !f32_is_nan(a) && !f32_is_nan(b) && f32_key(a) <= f32_key(b)
}

/// IEEE greater-or-equal: false where either side is a NaN.
pub open spec fn f32_ge(a: u32, b: u32) -> bool {
    !f32_is_nan(a) && !f32_is_nan(b) && f32_key(a) >= f32_key(b)
}

/// `b` with its sign bit cleared.
pub open spec fn f32_abs(b: u32) -> u32 {
    f32_magnitude(b)
}

/// `b` with its sign bit flipped.
pub open spec fn f32_neg(b: u32) -> u32 {
    if f32_negative(b) {
        (b - 0x8000_0000) as u32
    } else {
        (b + 0x8000_0000) as u32
    }
}

/// The magnitude of `a` under the sign bit of `b`.
pub open spec fn f32_copysign(a: u32, b: u32) -> u32 {
    if f32_negative(b) {
        (f32_magnitude(a) + 0x8000_0000) as u32
    } else {
        f32_magnitude(a)
    }
}

/// The minimum: where exactly one side is a NaN, that NaN; else `b` where
/// `a` is greater, and `a` where it is not.
pub open spec fn f32_min(a: u32, b: u32) -> u32 {
    if f32_is_nan(a) && !f32_is_nan(b) {
        a
    } else if !f32_is_nan(a) && f32_is_nan(b) {
        b
    } else if f32_gt(a, b) {
        b
    } else {
        a
    }
}

/// The maximum: where exactly one side is a NaN, that NaN; else `a` where
/// `a` is greater, and `b` where it is not.
pub open spec fn f32_max(a: u32, b: u32) -> u32 {
    if f32_is_nan(a) && !f32_is_nan(b) {
        a
    } else if !f32_is_nan(a) && f32_is_nan(b) {
        b
    } else if f32_gt(a, b) {
        a
    } else {
        b
    }
}

/// The exponent field of `b`.
pub open spec fn f32_exponent(b: u32) -> nat {
    (f32_magnitude(b) / 0x80_0000) as nat
}

/// The significand of a normal number as an integer: the fraction field
/// under the implied leading bit.
pub open spec fn f32_significand(b: u32) -> nat {
    (0x80_0000 + f32_magnitude(b) % 0x80_0000) as nat
}

/// The integer part of the absolute value of a finite `b`. A normal number
/// with the exponent field `e` is its significand times 2^(e - 150); a
/// zero or a subnormal number lies below 1.
pub open spec fn f32_trunc_magnitude(b: u32) -> nat {
    let e = f32_exponent(b);
    if e == 0 {
        0
    } else if e >= 150 {
        f32_significand(b) * pow2((e - 150) as nat)
    } else {
        f32_significand(b) / pow2((150 - e) as nat)
    }
}

/// The integer that a finite `b` becomes when what lies behind the point is
/// cut off.
pub open spec fn f32_trunc(b: u32) -> int {
    if f32_negative(b) {
        -(f32_trunc_magnitude(b) as int)
    } else {
        f32_trunc_magnitude(b) as int
    }
}

/// The integer in `min ..= max` that `b` becomes where a conversion has to
/// give one: 0 for a NaN, else the truncated value, or the bound that it
/// lies beyond.
pub open spec fn f32_saturate(b: u32, min: int, max: int) -> int {
    if f32_is_nan(b) {
        0
    } else if f32_is_infinite(b) {
        if f32_negative(b) {
            min
        } else {
            max
        }
    } else if f32_trunc(b) < min {
        min
    } else if f32_trunc(b) > max {
        max
    } else {
        f32_trunc(b)
    }
}

fn key32(b: u32) -> (k: i128)
    ensures
        k == f32_key(b),
{
    let m = (b % 0x8000_0000) as i128;
    if b >= 0x8000_0000 {
        -m
    } else {
        m
    }
}

/// Tells whether `b` is a NaN.
pub fn is_nan32(b: u32) -> (r: bool)
    ensures
        r == f32_is_nan(b),
{
    b % 0x8000_0000 > 0x7f80_0000
}

/// Tells whether `b` is an infinity.
pub fn is_infinite32(b: u32) -> (r: bool)
    ensures
        r == f32_is_infinite(b),
{
    b % 0x8000_0000 == 0x7f80_0000
}

/// Tells whether the sign bit of `b` is set.
pub fn is_negative32(b: u32) -> (r: bool)
    ensures
        r == f32_negative(b),
{
    b >= 0x8000_0000
}

/// Compares as IEEE equality does.
pub fn eq32(a: u32, b: u32) -> (r: bool)
    ensures
        r == f32_eq(a, b),
{
    !is_nan32(a) && !is_nan32(b) && key32(a) == key32(b)
}

/// Compares as IEEE inequality does.
pub fn ne32(a: u32, b: u32) -> (r: bool)
    ensures
        r == f32_ne(a, b),
{
    !eq32(a, b)
}

/// Compares as IEEE less-than does.
pub fn lt32(a: u32, b: u32) -> (r: bool)
    ensures
        r == f32_lt(a, b),
{
    !is_nan32(a) && !is_nan32(b) && key32(a) < key32(b)
}

/// Compares as IEEE greater-than does.
pub fn gt32(a: u32, b: u32) -> (r: bool)
    ensures
        r == f32_gt(a, b),
{
    !is_nan32(a) && !is_nan32(b) && key32(a) > key32(b)
}

/// Compares as IEEE less-or-equal does.
pub fn le32(a: u32, b: u32) -> (r: bool)
    ensures
        r == f32_le(a, b),
{
    !is_nan32(a) && !is_nan32(b) && key32(a) <= key32(b)
}

/// Compares as IEEE greater-or-equal does.
pub fn ge32(a: u32, b: u32) -> (r: bool)
    ensures
        r == f32_ge(a, b),
{
    !is_nan32(a) && !is_nan32(b) && key32(a) >= key32(b)
}

/// Clears the sign bit.
pub fn abs32(b: u32) -> (r: u32)
    ensures
        r == f32_abs(b),
{
    b % 0x8000_0000
}

/// Flips the sign bit.
pub fn neg32(b: u32) -> (r: u32)
    ensures
        r == f32_neg(b),
{
    if b >= 0x8000_0000 {
        b - 0x8000_0000
    } else {
        b + 0x8000_0000
    }
}

/// Puts the sign bit of `b` over the magnitude of `a`.
pub fn copysign32(a: u32, b: u32) -> (r: u32)
    ensures
        r == f32_copysign(a, b),
{
    if b >= 0x8000_0000 {
        a % 0x8000_0000 + 0x8000_0000
    } else {
        a % 0x8000_0000
    }
}

/// The minimum, a lone NaN winning.
pub fn min32(a: u32, b: u32) -> (r: u32)
    ensures
        r == f32_min(a, b),
{
    let nan_a = is_nan32(a);
    let nan_b = is_nan32(b);
    if nan_a && !nan_b {
        a
    } else if !nan_a && nan_b {
        b
    } else if gt32(a, b) {
        b
    } else {
        a
    }
}

/// The maximum, a lone NaN winning.
pub fn max32(a: u32, b: u32) -> (r: u32)
    ensures
        r == f32_max(a, b),
{
    let nan_a = is_nan32(a);
    let nan_b = is_nan32(b);
    if nan_a && !nan_b {
        a
    } else if !nan_a && nan_b {
        b
    } else if gt32(a, b) {
        a
    } else {
        b
    }
}

/// Cuts off what lies behind the point of a finite `b`. Returns `None`
/// where `b` is a NaN or an infinity, or where the integer part of its
/// absolute value does not fit into 64 bits.
pub fn truncate32(b: u32) -> (r: Option<i128>)
    ensures
        match r {
            Some(t) => f32_is_finite(b) && t == f32_trunc(b),
            None => !f32_is_finite(b) || f32_trunc_magnitude(b) > u64::MAX,
        },
{
    let mag = b % 0x8000_0000;
    if mag >= 0x7f80_0000 {
        return None;
    }
    let e = (mag / 0x80_0000) as u64;
    let sig = (0x80_0000 + mag % 0x80_0000) as u64;
    proof {
        lemma2_to64();
        lemma2_to64_rest();
    }
    let t: u64 = if e < 127 {
        proof {
            if e > 0 {
                let k = (150 - e) as nat;
                if k > 24 {
                    lemma_pow2_strictly_increases(24, k);
                }
                lemma_basic_div(sig as int, pow2(k) as int);
            }
        }
        0
    } else if e < 150 {
        proof {
            lemma_u64_shr_is_div(sig, (150 - e) as u64);
        }
        sig >> (150 - e)
    } else if e <= 190 {
        proof {
            let k = (e - 150) as nat;
            if k < 40 {
                lemma_pow2_strictly_increases(k, 40);
            }
            let p = pow2(k);
            assert(sig * p <= u64::MAX) by (nonlinear_arith)
                requires
                    sig < pow2(24),
                    p <= pow2(40),
                    pow2(24) * pow2(40) == 0x1_0000_0000_0000_0000,
            ;
            lemma_u64_shl_is_mul(sig, (e - 150) as u64);
        }
        sig << (e - 150)
    } else {
        proof {
            let k = (e - 150) as nat;
            if k > 41 {
                lemma_pow2_strictly_increases(41, k);
            }
            let p = pow2(k);
            assert(sig * p > u64::MAX) by (nonlinear_arith)
                requires
                    sig >= pow2(23),
                    p >= pow2(41),
                    pow2(23) * pow2(41) == 0x1_0000_0000_0000_0000,
            ;
        }
        return None;
    };
    if b >= 0x8000_0000 {
        Some(-(t as i128))
    } else {
        Some(t as i128)
    }
}

/// The bits of `b` without its sign bit.
pub open spec fn f64_magnitude(b: u64) -> u64 {
    b % 0x8000_0000_0000_0000
}

/// Whether the sign bit of `b` is set.
pub open spec fn f64_negative(b: u64) -> bool {
    b >= 0x8000_0000_0000_0000
}

/// Whether `b` is a NaN: every exponent bit set, and a fraction that is not
/// zero.
pub open spec fn f64_is_nan(b: u64) -> bool {
    f64_magnitude(b) > 0x7ff0_0000_0000_0000
}

/// Whether `b` is an infinity: every exponent bit set, and a zero fraction.
pub open spec fn f64_is_infinite(b: u64) -> bool {
    f64_magnitude(b) == 0x7ff0_0000_0000_0000
}

/// Whether `b` stands for a number.
pub open spec fn f64_is_finite(b: u64) -> bool {
    f64_magnitude(b) < 0x7ff0_0000_0000_0000
}

/// An integer that orders the bit patterns that are not NaN as the values
/// they stand for: the magnitude, negated where the sign bit is set. The two
/// zeros have the key 0.
pub open spec fn f64_key(b: u64) -> int {
    if f64_negative(b) {
        -(f64_magnitude(b) as int)
    } else {
        f64_magnitude(b) as int
    }
}

/// IEEE equality: a NaN equals nothing, and the two zeros are equal.
pub open spec fn f64_eq(a: u64, b: u64) -> bool {
    !f64_is_nan(a) && !f64_is_nan(b) && f64_key(a) == f64_key(b)
}

/// IEEE inequality: what is not equal, so any NaN is unequal to everything.
pub open spec fn f64_ne(a: u64, b: u64) -> bool {
    !f64_eq(a, b)
}

/// IEEE less-than: false where either side is a NaN.
pub open spec fn f64_lt(a: u64, b: u64) -> bool {
    !f64_is_nan(a) && !f64_is_nan(b) && f64_key(a) < f64_key(b)
}

/// IEEE greater-than: false where either side is a NaN.
pub open spec fn f64_gt(a: u64, b: u64) -> bool {
    !f64_is_nan(a) && !f64_is_nan(b) && f64_key(a) > f64_key(b)
}

/// IEEE less-or-equal: false where either side is a NaN.
pub open spec fn f64_le(a: u64, b: u64) -> bool {
    !f64_is_nan(a) && !f64_is_nan(b) && f64_key(a) <= f64_key(b)
}

/// IEEE greater-or-equal: false where either side is a NaN.
pub open spec fn f64_ge(a: u64, b: u64) -> bool {
    !f64_is_nan(a) && !f64_is_nan(b) && f64_key(a) >= f64_key(b)
}

/// `b` with its sign bit cleared.
pub open spec fn f64_abs(b: u64) -> u64 {
    f64_magnitude(b)
}

/// `b` with its sign bit flipped.
pub open spec fn f64_neg(b: u64) -> u64 {
    if f64_negative(b) {
        (b - 0x8000_0000_0000_0000) as u64
    } else {
        (b + 0x8000_0000_0000_0000) as u64
    }
}

/// The magnitude of `a` under the sign bit of `b`.
pub open spec fn f64_copysign(a: u64, b: u64) -> u64 {
    if f64_negative(b) {
        (f64_magnitude(a) + 0x8000_0000_0000_0000) as u64
    } else {
        f64_magnitude(a)
    }
}

/// The minimum: where exactly one side is a NaN, that NaN; else `b` where
/// `a` is greater, and `a` where it is not.
pub open spec fn f64_min(a: u64, b: u64) -> u64 {
    if f64_is_nan(a) && !f64_is_nan(b) {
        a
    } else if !f64_is_nan(a) && f64_is_nan(b) {
        b
    } else if f64_gt(a, b) {
        b
    } else {
        a
    }
}

/// The maximum: where exactly one side is a NaN, that NaN; else `a` where
/// `a` is greater, and `b` where it is not.
pub open spec fn f64_max(a: u64, b: u64) -> u64 {
    if f64_is_nan(a) && !f64_is_nan(b) {
        a
    } else if !f64_is_nan(a) && f64_is_nan(b) {
        b
    } else if f64_gt(a, b) {
        a
    } else {
        b
    }
}

/// The exponent field of `b`.
pub open spec fn f64_exponent(b: u64) -> nat {
    (f64_magnitude(b) / 0x10_0000_0000_0000) as nat
}

/// The significand of a normal number as an integer: the fraction field
/// under the implied leading bit.
pub open spec fn f64_significand(b: u64) -> nat {
    (0x10_0000_0000_0000 + f64_magnitude(b) % 0x10_0000_0000_0000) as nat
}

/// The integer part of the absolute value of a finite `b`. A normal number
/// with the exponent field `e` is its significand times 2^(e - 1075); a
/// zero or a subnormal number lies below 1.
pub open spec fn f64_trunc_magnitude(b: u64) -> nat {
    let e = f64_exponent(b);
    if e == 0 {
        0
    } else if e >= 1075 {
        f64_significand(b) * pow2((e - 1075) as nat)
    } else {
        f64_significand(b) / pow2((1075 - e) as nat)
    }
}

/// The integer that a finite `b` becomes when what lies behind the point is
/// cut off.
pub open spec fn f64_trunc(b: u64) -> int {
    if f64_negative(b) {
        -(f64_trunc_magnitude(b) as int)
    } else {
        f64_trunc_magnitude(b) as int
    }
}

/// The integer in `min ..= max` that `b` becomes where a conversion has to
/// give one: 0 for a NaN, else the truncated value, or the bound that it
/// lies beyond.
pub open spec fn f64_saturate(b: u64, min: int, max: int) -> int {
    if f64_is_nan(b) {
        0
    } else if f64_is_infinite(b) {
        if f64_negative(b) {
            min
        } else {
            max
        }
    } else if f64_trunc(b) < min {
        min
    } else if f64_trunc(b) > max {
        max
    } else {
        f64_trunc(b)
    }
}

fn key64(b: u64) -> (k: i128)
    ensures
        k == f64_key(b),
{
    let m = (b % 0x8000_0000_0000_0000) as i128;
    if b >= 0x8000_0000_0000_0000 {
        -m
    } else {
        m
    }
}

/// Tells whether `b` is a NaN.
pub fn is_nan64(b: u64) -> (r: bool)
    ensures
        r == f64_is_nan(b),
{
    b % 0x8000_0000_0000_0000 > 0x7ff0_0000_0000_0000
}

/// Tells whether `b` is an infinity.
pub fn is_infinite64(b: u64) -> (r: bool)
    ensures
        r == f64_is_infinite(b),
{
    b % 0x8000_0000_0000_0000 == 0x7ff0_0000_0000_0000
}

/// Tells whether the sign bit of `b` is set.
pub fn is_negative64(b: u64) -> (r: bool)
    ensures
        r == f64_negative(b),
{
    b >= 0x8000_0000_0000_0000
}

/// Compares as IEEE equality does.
pub fn eq64(a: u64, b: u64) -> (r: bool)
    ensures
        r == f64_eq(a, b),
{
    !is_nan64(a) && !is_nan64(b) && key64(a) == key64(b)
}

/// Compares as IEEE inequality does.
pub fn ne64(a: u64, b: u64) -> (r: bool)
    ensures
        r == f64_ne(a, b),
{
    !eq64(a, b)
}

/// Compares as IEEE less-than does.
pub fn lt64(a: u64, b: u64) -> (r: bool)
    ensures
        r == f64_lt(a, b),
{
    !is_nan64(a) && !is_nan64(b) && key64(a) < key64(b)
}

/// Compares as IEEE greater-than does.
pub fn gt64(a: u64, b: u64) -> (r: bool)
    ensures
        r == f64_gt(a, b),
{
    !is_nan64(a) && !is_nan64(b) && key64(a) > key64(b)
}

/// Compares as IEEE less-or-equal does.
pub fn le64(a: u64, b: u64) -> (r: bool)
    ensures
        r == f64_le(a, b),
{
    !is_nan64(a) && !is_nan64(b) && key64(a) <= key64(b)
}

/// Compares as IEEE greater-or-equal does.
pub fn ge64(a: u64, b: u64) -> (r: bool)
    ensures
        r == f64_ge(a, b),
{
    !is_nan64(a) && !is_nan64(b) && key64(a) >= key64(b)
}

/// Clears the sign bit.
pub fn abs64(b: u64) -> (r: u64)
    ensures
        r == f64_abs(b),
{
    b % 0x8000_0000_0000_0000
}

/// Flips the sign bit.
pub fn neg64(b: u64) -> (r: u64)
    ensures
        r == f64_neg(b),
{
    if b >= 0x8000_0000_0000_0000 {
        b - 0x8000_0000_0000_0000
    } else {
        b + 0x8000_0000_0000_0000
    }
}

/// Puts the sign bit of `b` over the magnitude of `a`.
pub fn copysign64(a: u64, b: u64) -> (r: u64)
    ensures
        r == f64_copysign(a, b),
{
    if b >= 0x8000_0000_0000_0000 {
        a % 0x8000_0000_0000_0000 + 0x8000_0000_0000_0000
    } else {
        a % 0x8000_0000_0000_0000
    }
}

/// The minimum, a lone NaN winning.
pub fn min64(a: u64, b: u64) -> (r: u64)
    ensures
        r == f64_min(a, b),
{
    let nan_a = is_nan64(a);
    let nan_b = is_nan64(b);
    if nan_a && !nan_b {
        a
    } else if !nan_a && nan_b {
        b
    } else if gt64(a, b) {
        b
    } else {
        a
    }
}

/// The maximum, a lone NaN winning.
pub fn max64(a: u64, b: u64) -> (r: u64)
    ensures
        r == f64_max(a, b),
{
    let nan_a = is_nan64(a);
    let nan_b = is_nan64(b);
    if nan_a && !nan_b {
        a
    } else if !nan_a && nan_b {
        b
    } else if gt64(a, b) {
        a
    } else {
        b
    }
}

/// Cuts off what lies behind the point of a finite `b`. Returns `None`
/// where `b` is a NaN or an infinity, or where the integer part of its
/// absolute value does not fit into 64 bits.
pub fn truncate64(b: u64) -> (r: Option<i128>)
    ensures
        match r {
            Some(t) => f64_is_finite(b) && t == f64_trunc(b),
            None => !f64_is_finite(b) || f64_trunc_magnitude(b) > u64::MAX,
        },
{
    let mag = b % 0x8000_0000_0000_0000;
    if mag >= 0x7ff0_0000_0000_0000 {
        return None;
    }
    let e = (mag / 0x10_0000_0000_0000) as u64;
    let sig = (0x10_0000_0000_0000 + mag % 0x10_0000_0000_0000) as u64;
    proof {
        lemma2_to64();
        lemma2_to64_rest();
    }
    let t: u64 = if e < 1023 {
        proof {
            if e > 0 {
                let k = (1075 - e) as nat;
                if k > 53 {
                    lemma_pow2_strictly_increases(53, k);
                }
                lemma_basic_div(sig as int, pow2(k) as int);
            }
        }
        0
    } else if e < 1075 {
        proof {
            lemma_u64_shr_is_div(sig, (1075 - e) as u64);
        }
        sig >> (1075 - e)
    } else if e <= 1086 {
        proof {
            let k = (e - 1075) as nat;
            if k < 11 {
                lemma_pow2_strictly_increases(k, 11);
            }
            let p = pow2(k);
            assert(sig * p <= u64::MAX) by (nonlinear_arith)
                requires
                    sig < pow2(53),
                    p <= pow2(11),
                    pow2(53) * pow2(11) == 0x1_0000_0000_0000_0000,
            ;
            lemma_u64_shl_is_mul(sig, (e - 1075) as u64);
        }
        sig << (e - 1075)
    } else {
        proof {
            let k = (e - 1075) as nat;
            if k > 12 {
                lemma_pow2_strictly_increases(12, k);
            }
            let p = pow2(k);
            assert(sig * p > u64::MAX) by (nonlinear_arith)
                requires
                    sig >= pow2(52),
                    p >= pow2(12),
                    pow2(52) * pow2(12) == 0x1_0000_0000_0000_0000,
            ;
        }
        return None;
    };
    if b >= 0x8000_0000_0000_0000 {
        Some(-(t as i128))
    } else {
        Some(t as i128)
    }
}

} // verus!
