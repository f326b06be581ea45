//! The arithmetic of the integer instructions, stated over the integers.

use vstd::prelude::*;
use vstd::std_specs::bits::{
    u32_leading_zeros, u32_trailing_zeros, u64_leading_zeros, u64_trailing_zeros,
};
use bitintr::{Lzcnt, Popcnt, Tzcnt};

verus! {

/// `v` reduced modulo 2^32.
pub open spec fn wrap32(v: int) -> u32 {
    (v % 0x1_0000_0000) as u32
}

/// `v` reduced modulo 2^64.
pub open spec fn wrap64(v: int) -> u64 {
    (v % 0x1_0000_0000_0000_0000) as u64
}

/// The number in `-2^(bits-1) .. 2^(bits-1)` that is congruent to `v`
/// modulo `2^bits`, where `modulus` is `2^bits`: `v` as a two's-complement
/// number of that many bits.
pub open spec fn signed_low(v: int, modulus: int) -> int {
    if (v % modulus) * 2 >= modulus {
        v % modulus - modulus
    } else {
        v % modulus
    }
}

/// The quotient of `a` by `b`, rounded toward zero. (In these definitions
/// `/` and `%` are the Euclidean quotient and remainder, which leave a
/// remainder that is not negative.)
pub open spec fn trunc_div(a: int, b: int) -> int {
    if a >= 0 {
        a / b
    } else {
        -((-a) / b)
    }
}

/// The remainder that `trunc_div` leaves, which has the sign of `a`.
pub open spec fn trunc_rem(a: int, b: int) -> int {
    if a >= 0 {
        a % b
    } else {
        -((-a) % b)
    }
}

/// `trunc_div` and `trunc_rem` are the quotient and the remainder of a
/// division that rounds toward zero: they make up the dividend, and the
/// remainder is smaller than the divisor and has the sign of the dividend.
pub proof fn lemma_trunc_div_rem(a: int, b: int)
    requires
        b != 0,
    ensures
        a == b * trunc_div(a, b) + trunc_rem(a, b),
        a >= 0 ==> 0 <= trunc_rem(a, b),
        a <= 0 ==> trunc_rem(a, b) <= 0,
        b > 0 ==> -b < trunc_rem(a, b) < b,
        b < 0 ==> b < trunc_rem(a, b) < -b,
{
    let x = if a >= 0 {
        a
    } else {
        -a
    };
    assert(x == b * (x / b) + x % b && 0 <= x % b && (b > 0 ==> x % b < b) && (b < 0 ==> x % b
        < -b) && (x == 0 ==> x % b == 0)) by (nonlinear_arith)
        requires
            b != 0,
    ;
    assert(b * (-(x / b)) == -(b * (x / b))) by (nonlinear_arith);
}

/// `x` rotated left by `n` bits.
pub open spec fn rotl32(x: u32, n: u32) -> u32 {
    let k = n % 32;
    if k == 0 {
        x
    } else {
        (x << k) | (x >> ((32 - k) as u32))
    }
}

/// `x` rotated right by `n` bits.
pub open spec fn rotr32(x: u32, n: u32) -> u32 {
    let k = n % 32;
    if k == 0 {
        x
    } else {
        (x >> k) | (x << ((32 - k) as u32))
    }
}

/// `x` rotated left by `n` bits.
pub open spec fn rotl64(x: u64, n: u64) -> u64 {
    let k = n % 64;
    if k == 0 {
        x
    } else {
        (x << k) | (x >> ((64 - k) as u64))
    }
}

/// `x` rotated right by `n` bits.
pub open spec fn rotr64(x: u64, n: u64) -> u64 {
    let k = n % 64;
    if k == 0 {
        x
    } else {
        (x >> k) | (x << ((64 - k) as u64))
    }
}

/// The number of ones in the binary form of `v`.
pub open spec fn popcount(v: nat) -> nat
    decreases v,
{
    if v == 0 {
        0
    } else {
        v % 2 + popcount(v / 2)
    }
}

/// `bitintr::Lzcnt::lzcnt` on `u32`: the number of zero bits above the
/// highest one, and 32 for zero.
#[verifier::external_body]
pub(crate) fn lzcnt32(v: u32) -> (r: u32)
    ensures
        r == u32_leading_zeros(v),
{
    v.lzcnt()
}

/// `bitintr::Tzcnt::tzcnt` on `u32`: the number of zero bits below the
/// lowest one, and 32 for zero.
#[verifier::external_body]
pub(crate) fn tzcnt32(v: u32) -> (r: u32)
    ensures
        r == u32_trailing_zeros(v),
{
    v.tzcnt()
}

/// `bitintr::Popcnt::popcnt` on `u32`: the number of one bits.
#[verifier::external_body]
pub(crate) fn popcnt32(v: u32) -> (r: u32)
    ensures
        r == popcount(v as nat),
{
    v.popcnt()
}

/// `bitintr::Lzcnt::lzcnt` on `u64`: the number of zero bits above the
/// highest one, and 64 for zero.
#[verifier::external_body]
pub(crate) fn lzcnt64(v: u64) -> (r: u64)
    ensures
        r == u64_leading_zeros(v),
{
    v.lzcnt()
}

/// `bitintr::Tzcnt::tzcnt` on `u64`: the number of zero bits below the
/// lowest one, and 64 for zero.
#[verifier::external_body]
pub(crate) fn tzcnt64(v: u64) -> (r: u64)
    ensures
        r == u64_trailing_zeros(v),
{
    v.tzcnt()
}

/// `bitintr::Popcnt::popcnt` on `u64`: the number of one bits.
#[verifier::external_body]
pub(crate) fn popcnt64(v: u64) -> (r: u64)
    ensures
        r == popcount(v as nat),
{
    v.popcnt()
}

/// Rotates `x` left by `n` bits.
pub fn rotate_left32(x: u32, n: u32) -> (r: u32)
    ensures
        r == rotl32(x, n),
{
    let k = n % 32;
    if k == 0 {
        x
    } else {
        (x << k) | (x >> (32 - k))
    }
}

/// Rotates `x` right by `n` bits.
pub fn rotate_right32(x: u32, n: u32) -> (r: u32)
    ensures
        r == rotr32(x, n),
{
    let k = n % 32;
    if k == 0 {
        x
    } else {
        (x >> k) | (x << (32 - k))
    }
}

/// Rotates `x` left by `n` bits.
pub fn rotate_left64(x: u64, n: u64) -> (r: u64)
    ensures
        r == rotl64(x, n),
{
    let k = n % 64;
    if k == 0 {
        x
    } else {
        (x << k) | (x >> (64 - k))
    }
}

/// Rotates `x` right by `n` bits.
pub fn rotate_right64(x: u64, n: u64) -> (r: u64)
    ensures
        r == rotr64(x, n),
{
    let k = n % 64;
    if k == 0 {
        x
    } else {
        (x >> k) | (x << (64 - k))
    }
}

/// The low `bits` bits of `v` as a two's-complement number, where `modulus`
/// is `2^bits`.
pub(crate) fn low_signed(v: i64, modulus: i64) -> (r: i64)
    requires
        modulus == 0x100 || modulus == 0x1_0000 || modulus == 0x1_0000_0000,
    ensures
        r == signed_low(v as int, modulus as int),
{
    let m = v % modulus;
    let m = if m < 0 {
        m + modulus
    } else {
        m
    };
    if m * 2 >= modulus {
        m - modulus
    } else {
        m
    }
}

} // verus!
