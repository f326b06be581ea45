//! The execution engine: one handler for each instruction that works on the
//! operand stack alone.
//!
//! Each handler has an `*_effect` function that says what it makes of a
//! stack: the stack that follows, or the trap. A handler that traps leaves
//! the stack as it was.

use vstd::prelude::*;
use vstd::std_specs::bits::{
    u32_leading_zeros, u32_trailing_zeros, u64_leading_zeros, u64_trailing_zeros,
};
use crate::binary::instruction::{tag_index, ArgsEnum};
use crate::binary::module::Module;
use crate::binary::opcodes;
use crate::common::float_bits::{
    abs32, abs64, copysign32, copysign64, eq32, eq64, f32_abs, f32_copysign, f32_eq, f32_ge,
    f32_gt, f32_le, f32_lt, f32_max, f32_min, f32_ne, f32_neg, f32_saturate, f64_abs,
    f64_copysign, f64_eq, f64_ge, f64_gt, f64_le, f64_lt, f64_max, f64_min, f64_ne, f64_neg,
    f64_saturate, ge32, ge64, gt32, gt64, le32, le64, lt32, lt64, max32, max64, min32, min64,
    ne32, ne64, neg32, neg64,
};
use crate::interpreter::convert::{
    f32_to_int, f64_to_int, saturate32, saturate64, to_int32, to_int64,
};
use crate::interpreter::numeric::{
    low_signed, lzcnt32, lzcnt64, popcnt32, popcnt64, popcount, rotate_left32, rotate_left64,
    rotate_right32, rotate_right64, rotl32, rotl64, rotr32, rotr64, signed_low, trunc_div,
    trunc_rem, tzcnt32, tzcnt64, wrap32, wrap64,
};
use crate::interpreter::operand::{popped, top, OperandStack};
use crate::interpreter::trap::Trap;

verus! {

/// The machine: an operand stack and the module that is being run.
#[derive(Clone, Debug)]
pub struct Vm {
    operand_stack: OperandStack,
    module: Module,
}

impl View for Vm {
    type V = Seq<ArgsEnum>;

    /// The operand stack from the bottom to the top.
    closed spec fn view(&self) -> Seq<ArgsEnum> {
        self.operand_stack@
    }
}

/// The value `depth` places below the top of `s`.
pub open spec fn operand(s: Seq<ArgsEnum>, depth: nat) -> Result<ArgsEnum, Trap> {
    if depth < s.len() {
        Ok(s[s.len() - 1 - depth])
    } else {
        Err(Trap::StackUnderflow)
    }
}

/// The `U32` that lies `depth` places below the top of `s`.
pub open spec fn operand_u32(s: Seq<ArgsEnum>, depth: nat) -> Result<u32, Trap> {
    match operand(s, depth) {
        Ok(ArgsEnum::U32(v)) => Ok(v),
        Ok(_) => Err(Trap::TypeMismatch),
        Err(t) => Err(t),
    }
}

/// The `I32` that lies `depth` places below the top of `s`.
pub open spec fn operand_i32(s: Seq<ArgsEnum>, depth: nat) -> Result<i32, Trap> {
    match operand(s, depth) {
        Ok(ArgsEnum::I32(v)) => Ok(v),
        Ok(_) => Err(Trap::TypeMismatch),
        Err(t) => Err(t),
    }
}

/// The `U64` that lies `depth` places below the top of `s`.
pub open spec fn operand_u64(s: Seq<ArgsEnum>, depth: nat) -> Result<u64, Trap> {
    match operand(s, depth) {
        Ok(ArgsEnum::U64(v)) => Ok(v),
        Ok(_) => Err(Trap::TypeMismatch),
        Err(t) => Err(t),
    }
}

/// The `I64` that lies `depth` places below the top of `s`.
pub open spec fn operand_i64(s: Seq<ArgsEnum>, depth: nat) -> Result<i64, Trap> {
    match operand(s, depth) {
        Ok(ArgsEnum::I64(v)) => Ok(v),
        Ok(_) => Err(Trap::TypeMismatch),
        Err(t) => Err(t),
    }
}

/// The `F32` that lies `depth` places below the top of `s`.
pub open spec fn operand_f32(s: Seq<ArgsEnum>, depth: nat) -> Result<u32, Trap> {
    match operand(s, depth) {
        Ok(ArgsEnum::F32(v)) => Ok(v),
        Ok(_) => Err(Trap::TypeMismatch),
        Err(t) => Err(t),
    }
}

/// The `F64` that lies `depth` places below the top of `s`.
pub open spec fn operand_f64(s: Seq<ArgsEnum>, depth: nat) -> Result<u64, Trap> {
    match operand(s, depth) {
        Ok(ArgsEnum::F64(v)) => Ok(v),
        Ok(_) => Err(Trap::TypeMismatch),
        Err(t) => Err(t),
    }
}

/// The `Bool` that lies `depth` places below the top of `s`.
pub open spec fn operand_bool(s: Seq<ArgsEnum>, depth: nat) -> Result<bool, Trap> {
    match operand(s, depth) {
        Ok(ArgsEnum::Bool(v)) => Ok(v),
        Ok(_) => Err(Trap::TypeMismatch),
        Err(t) => Err(t),
    }
}

/// A result with the tag `Bool`.
pub open spec fn ok_bool(v: bool) -> Result<ArgsEnum, Trap> {
    Ok(ArgsEnum::Bool(v))
}

/// A result with the tag `U32`.
pub open spec fn ok_u32(v: u32) -> Result<ArgsEnum, Trap> {
    Ok(ArgsEnum::U32(v))
}

/// A result with the tag `I32`.
pub open spec fn ok_i32(v: i32) -> Result<ArgsEnum, Trap> {
    Ok(ArgsEnum::I32(v))
}

/// A result with the tag `U64`.
pub open spec fn ok_u64(v: u64) -> Result<ArgsEnum, Trap> {
    Ok(ArgsEnum::U64(v))
}

/// A result with the tag `I64`.
pub open spec fn ok_i64(v: i64) -> Result<ArgsEnum, Trap> {
    Ok(ArgsEnum::I64(v))
}

/// A result with the tag `F32`.
pub open spec fn ok_f32(v: u32) -> Result<ArgsEnum, Trap> {
    Ok(ArgsEnum::F32(v))
}

/// A result with the tag `F64`.
pub open spec fn ok_f64(v: u64) -> Result<ArgsEnum, Trap> {
    Ok(ArgsEnum::F64(v))
}

/// A result with the tag `I8`.
pub open spec fn ok_i8(v: i8) -> Result<ArgsEnum, Trap> {
    Ok(ArgsEnum::I8(v))
}

/// A result with the tag `I16`.
pub open spec fn ok_i16(v: i16) -> Result<ArgsEnum, Trap> {
    Ok(ArgsEnum::I16(v))
}

/// `s` with its `n` top values replaced by `v`, or the trap `v`.
pub open spec fn replaced(s: Seq<ArgsEnum>, n: nat, v: Result<ArgsEnum, Trap>) -> Result<
    Seq<ArgsEnum>,
    Trap,
> {
    match v {
        Ok(x) => Ok(s.subrange(0, s.len() - n).push(x)),
        Err(t) => Err(t),
    }
}

/// What an instruction makes of `s` that takes one `U32` and gives `f` of it.
pub open spec fn unary_u32(s: Seq<ArgsEnum>, f: spec_fn(u32) -> Result<ArgsEnum, Trap>) -> Result<
    Seq<ArgsEnum>,
    Trap,
> {
    match operand_u32(s, 0) {
        Err(t) => Err(t),
        Ok(a) => replaced(s, 1, f(a)),
    }
}

/// What an instruction makes of `s` that takes two `U32`, the second on
/// top of the first, and gives `f` of them.
pub open spec fn binary_u32(
    s: Seq<ArgsEnum>,
    f: spec_fn(u32, u32) -> Result<ArgsEnum, Trap>,
) -> Result<Seq<ArgsEnum>, Trap> {
    match operand_u32(s, 0) {
        Err(t) => Err(t),
        Ok(b) => match operand_u32(s, 1) {
            Err(t) => Err(t),
            Ok(a) => replaced(s, 2, f(a, b)),
        },
    }
}

/// What an instruction makes of `s` that takes one `I32` and gives `f` of it.
pub open spec fn unary_i32(s: Seq<ArgsEnum>, f: spec_fn(i32) -> Result<ArgsEnum, Trap>) -> Result<
    Seq<ArgsEnum>,
    Trap,
> {
    match operand_i32(s, 0) {
        Err(t) => Err(t),
        Ok(a) => replaced(s, 1, f(a)),
    }
}

/// What an instruction makes of `s` that takes two `I32`, the second on
/// top of the first, and gives `f` of them.
pub open spec fn binary_i32(
    s: Seq<ArgsEnum>,
    f: spec_fn(i32, i32) -> Result<ArgsEnum, Trap>,
) -> Result<Seq<ArgsEnum>, Trap> {
    match operand_i32(s, 0) {
        Err(t) => Err(t),
        Ok(b) => match operand_i32(s, 1) {
            Err(t) => Err(t),
            Ok(a) => replaced(s, 2, f(a, b)),
        },
    }
}

/// What an instruction makes of `s` that takes one `U64` and gives `f` of it.
pub open spec fn unary_u64(s: Seq<ArgsEnum>, f: spec_fn(u64) -> Result<ArgsEnum, Trap>) -> Result<
    Seq<ArgsEnum>,
    Trap,
> {
    match operand_u64(s, 0) {
        Err(t) => Err(t),
        Ok(a) => replaced(s, 1, f(a)),
    }
}

/// What an instruction makes of `s` that takes two `U64`, the second on
/// top of the first, and gives `f` of them.
pub open spec fn binary_u64(
    s: Seq<ArgsEnum>,
    f: spec_fn(u64, u64) -> Result<ArgsEnum, Trap>,
) -> Result<Seq<ArgsEnum>, Trap> {
    match operand_u64(s, 0) {
        Err(t) => Err(t),
        Ok(b) => match operand_u64(s, 1) {
            Err(t) => Err(t),
            Ok(a) => replaced(s, 2, f(a, b)),
        },
    }
}

/// What an instruction makes of `s` that takes one `I64` and gives `f` of it.
pub open spec fn unary_i64(s: Seq<ArgsEnum>, f: spec_fn(i64) -> Result<ArgsEnum, Trap>) -> Result<
    Seq<ArgsEnum>,
    Trap,
> {
    match operand_i64(s, 0) {
        Err(t) => Err(t),
        Ok(a) => replaced(s, 1, f(a)),
    }
}

/// What an instruction makes of `s` that takes two `I64`, the second on
/// top of the first, and gives `f` of them.
pub open spec fn binary_i64(
    s: Seq<ArgsEnum>,
    f: spec_fn(i64, i64) -> Result<ArgsEnum, Trap>,
) -> Result<Seq<ArgsEnum>, Trap> {
    match operand_i64(s, 0) {
        Err(t) => Err(t),
        Ok(b) => match operand_i64(s, 1) {
            Err(t) => Err(t),
            Ok(a) => replaced(s, 2, f(a, b)),
        },
    }
}

/// What an instruction makes of `s` that takes one `F32` and gives `f` of it.
pub open spec fn unary_f32(s: Seq<ArgsEnum>, f: spec_fn(u32) -> Result<ArgsEnum, Trap>) -> Result<
    Seq<ArgsEnum>,
    Trap,
> {
    match operand_f32(s, 0) {
        Err(t) => Err(t),
        Ok(a) => replaced(s, 1, f(a)),
    }
}

/// What an instruction makes of `s` that takes two `F32`, the second on
/// top of the first, and gives `f` of them.
pub open spec fn binary_f32(
    s: Seq<ArgsEnum>,
    f: spec_fn(u32, u32) -> Result<ArgsEnum, Trap>,
) -> Result<Seq<ArgsEnum>, Trap> {
    match operand_f32(s, 0) {
        Err(t) => Err(t),
        Ok(b) => match operand_f32(s, 1) {
            Err(t) => Err(t),
            Ok(a) => replaced(s, 2, f(a, b)),
        },
    }
}

/// What an instruction makes of `s` that takes one `F64` and gives `f` of it.
pub open spec fn unary_f64(s: Seq<ArgsEnum>, f: spec_fn(u64) -> Result<ArgsEnum, Trap>) -> Result<
    Seq<ArgsEnum>,
    Trap,
> {
    match operand_f64(s, 0) {
        Err(t) => Err(t),
        Ok(a) => replaced(s, 1, f(a)),
    }
}

/// What an instruction makes of `s` that takes two `F64`, the second on
/// top of the first, and gives `f` of them.
pub open spec fn binary_f64(
    s: Seq<ArgsEnum>,
    f: spec_fn(u64, u64) -> Result<ArgsEnum, Trap>,
) -> Result<Seq<ArgsEnum>, Trap> {
    match operand_f64(s, 0) {
        Err(t) => Err(t),
        Ok(b) => match operand_f64(s, 1) {
            Err(t) => Err(t),
            Ok(a) => replaced(s, 2, f(a, b)),
        },
    }
}

/// How a handler relates the machine before and after it to its effect: on
/// success the stack is the one that the effect gives, on a trap the stack
/// is as it was and the trap is the one that the effect gives. The module
/// stays.
pub open spec fn steps(pre: Vm, post: Vm, r: Result<(), Trap>, effect: Result<Seq<ArgsEnum>, Trap>) -> bool {
    &&& post.module() == pre.module()
    &&& match r {
        Ok(_) => effect == Ok::<Seq<ArgsEnum>, Trap>(post@),
        Err(t) => effect == Err::<Seq<ArgsEnum>, Trap>(t) && post@ == pre@,
    }
}

/// The effect of `i32_eqz`: in place of the one `I32` on top of `s` stands the
/// `Bool` that tells whether the operand is zero.
pub open spec fn i32_eqz_effect(s: Seq<ArgsEnum>) -> Result<Seq<ArgsEnum>, Trap> {
    unary_i32(s, |a: i32| ok_bool(a == 0))
}

/// The effect of `i32_eq`: in place of the two `I32` on top of `s` stands the
/// `Bool` that tells whether the operands are equal.
pub open spec fn i32_eq_effect(s: Seq<ArgsEnum>) -> Result<Seq<ArgsEnum>, Trap> {
    binary_i32(s, |a: i32, b: i32| ok_bool(a == b))
}

/// The effect of `i32_ne`: in place of the two `I32` on top of `s` stands the
/// `Bool` that tells whether the operands differ.
pub open spec fn i32_ne_effect(s: Seq<ArgsEnum>) -> Result<Seq<ArgsEnum>, Trap> {
    binary_i32(s, |a: i32, b: i32| ok_bool(a != b))
}

/// The effect of `i32_lts`: in place of the two `I32` on top of `s` stands the
/// `Bool` that tells whether the first operand is less than the second, both
/// signed.
pub open spec fn i32_lts_effect(s: Seq<ArgsEnum>) -> Result<Seq<ArgsEnum>, Trap> {
    binary_i32(s, |a: i32, b: i32| ok_bool(a < b))
}

/// The effect of `i32_ltu`: in place of the two `U32` on top of `s` stands the
/// `Bool` that tells whether the first operand is less than the second, both
/// unsigned.
pub open spec fn i32_ltu_effect(s: Seq<ArgsEnum>) -> Result<Seq<ArgsEnum>, Trap> {
    binary_u32(s, |a: u32, b: u32| ok_bool(a < b))
}

/// The effect of `i32_gts`: in place of the two `I32` on top of `s` stands the
/// `Bool` that tells whether the first operand is greater than the second,
/// both signed.
pub open spec fn i32_gts_effect(s: Seq<ArgsEnum>) -> Result<Seq<ArgsEnum>, Trap> {
    binary_i32(s, |a: i32, b: i32| ok_bool(a > b))
}

/// The effect of `i32_gtu`: in place of the two `U32` on top of `s` stands the
/// `Bool` that tells whether the first operand is greater than the second,
/// both unsigned.
pub open spec fn i32_gtu_effect(s: Seq<ArgsEnum>) -> Result<Seq<ArgsEnum>, Trap> {
    binary_u32(s, |a: u32, b: u32| ok_bool(a > b))
}

/// The effect of `i32_les`: in place of the two `I32` on top of `s` stands the
/// `Bool` that tells whether the first operand is at most the second, both
/// signed.
pub open spec fn i32_les_effect(s: Seq<ArgsEnum>) -> Result<Seq<ArgsEnum>, Trap> {
    binary_i32(s, |a: i32, b: i32| ok_bool(a <= b))
}

/// The effect of `i32_leu`: in place of the two `U32` on top of `s` stands the
/// `Bool` that tells whether the first operand is at most the second, both
/// unsigned.
pub open spec fn i32_leu_effect(s: Seq<ArgsEnum>) -> Result<Seq<ArgsEnum>, Trap> {
    binary_u32(s, |a: u32, b: u32| ok_bool(a <= b))
}

/// The effect of `i32_ges`: in place of the two `I32` on top of `s` stands the
/// `Bool` that tells whether the first operand is at least the second, both
/// signed.
pub open spec fn i32_ges_effect(s: Seq<ArgsEnum>) -> Result<Seq<ArgsEnum>, Trap> {
    binary_i32(s, |a: i32, b: i32| ok_bool(a >= b))
}

/// The effect of `i32_geu`: in place of the two `U32` on top of `s` stands the
/// `Bool` that tells whether the first operand is at least the second, both
/// unsigned.
pub open spec fn i32_geu_effect(s: Seq<ArgsEnum>) -> Result<Seq<ArgsEnum>, Trap> {
    binary_u32(s, |a: u32, b: u32| ok_bool(a >= b))
}

/// The effect of `i32_clz`: in place of the one `U32` on top of `s` stands the
/// number of zero bits above the highest one bit.
pub open spec fn i32_clz_effect(s: Seq<ArgsEnum>) -> Result<Seq<ArgsEnum>, Trap> {
    unary_u32(s, |a: u32| ok_u32(u32_leading_zeros(a)))
}

/// The effect of `i32_ctz`: in place of the one `U32` on top of `s` stands the
/// number of zero bits below the lowest one bit.
pub open spec fn i32_ctz_effect(s: Seq<ArgsEnum>) -> Result<Seq<ArgsEnum>, Trap> {
    unary_u32(s, |a: u32| ok_u32(u32_trailing_zeros(a)))
}

/// The effect of `i32_popcnt`: in place of the one `U32` on top of `s` stands
/// the number of one bits.
pub open spec fn i32_popcnt_effect(s: Seq<ArgsEnum>) -> Result<Seq<ArgsEnum>, Trap> {
    unary_u32(s, |a: u32| ok_u32(popcount(a as nat) as u32))
}

/// The effect of `i32_add`: in place of the two `U32` on top of `s` stands the
/// sum modulo 2^32.
pub open spec fn i32_add_effect(s: Seq<ArgsEnum>) -> Result<Seq<ArgsEnum>, Trap> {
    binary_u32(s, |a: u32, b: u32| ok_u32(wrap32(a + b)))
}

/// The effect of `i32_sub`: in place of the two `U32` on top of `s` stands the
/// difference modulo 2^32.
pub open spec fn i32_sub_effect(s: Seq<ArgsEnum>) -> Result<Seq<ArgsEnum>, Trap> {
    binary_u32(s, |a: u32, b: u32| ok_u32(wrap32(a - b)))
}

/// The effect of `i32_mul`: in place of the two `U32` on top of `s` stands the
/// product modulo 2^32.
pub open spec fn i32_mul_effect(s: Seq<ArgsEnum>) -> Result<Seq<ArgsEnum>, Trap> {
    binary_u32(s, |a: u32, b: u32| ok_u32(wrap32(a * b)))
}

/// The effect of `i32_divs`: in place of the two `I32` on top of `s` stands
/// the signed quotient, rounded toward zero. Traps where the divisor is zero,
/// and where the quotient is one more than the largest number.
pub open spec fn i32_divs_effect(s: Seq<ArgsEnum>) -> Result<Seq<ArgsEnum>, Trap> {
    binary_i32(
        s,
        |a: i32, b: i32|
        if b == 0 {
            Err(Trap::DivideByZero)
        } else if a == i32::MIN && b == -1 {
            Err(Trap::IntegerOverflow)
        } else {
            ok_i32(trunc_div(a as int, b as int) as i32)
        },
    )
}

/// The effect of `i32_divu`: in place of the two `U32` on top of `s` stands
/// the unsigned quotient. Traps where the divisor is zero.
pub open spec fn i32_divu_effect(s: Seq<ArgsEnum>) -> Result<Seq<ArgsEnum>, Trap> {
    binary_u32(
        s,
        |a: u32, b: u32|
        if b == 0 {
            Err(Trap::DivideByZero)
        } else {
            ok_u32(a / b)
        },
    )
}

/// The effect of `i32_rems`: in place of the two `I32` on top of `s` stands
/// the signed remainder, which has the sign of the dividend. Traps where the
/// divisor is zero.
pub open spec fn i32_rems_effect(s: Seq<ArgsEnum>) -> Result<Seq<ArgsEnum>, Trap> {
    binary_i32(
        s,
        |a: i32, b: i32|
        if b == 0 {
            Err(Trap::DivideByZero)
        } else {
            ok_i32(trunc_rem(a as int, b as int) as i32)
        },
    )
}

/// The effect of `i32_remu`: in place of the two `U32` on top of `s` stands
/// the unsigned remainder. Traps where the divisor is zero.
pub open spec fn i32_remu_effect(s: Seq<ArgsEnum>) -> Result<Seq<ArgsEnum>, Trap> {
    binary_u32(
        s,
        |a: u32, b: u32|
        if b == 0 {
            Err(Trap::DivideByZero)
        } else {
            ok_u32(a % b)
        },
    )
}

/// The effect of `i32_and`: in place of the two `U32` on top of `s` stands the
/// bitwise and.
pub open spec fn i32_and_effect(s: Seq<ArgsEnum>) -> Result<Seq<ArgsEnum>, Trap> {
    binary_u32(s, |a: u32, b: u32| ok_u32(a & b))
}

/// The effect of `i32_or`: in place of the two `U32` on top of `s` stands the
/// bitwise or.
pub open spec fn i32_or_effect(s: Seq<ArgsEnum>) -> Result<Seq<ArgsEnum>, Trap> {
    binary_u32(s, |a: u32, b: u32| ok_u32(a | b))
}

/// The effect of `i32_xor`: in place of the two `U32` on top of `s` stands the
/// bitwise exclusive or.
pub open spec fn i32_xor_effect(s: Seq<ArgsEnum>) -> Result<Seq<ArgsEnum>, Trap> {
    binary_u32(s, |a: u32, b: u32| ok_u32(a ^ b))
}

/// The effect of `i32_shl`: in place of the two `U32` on top of `s` stands the
/// first operand shifted left by the second modulo 32.
pub open spec fn i32_shl_effect(s: Seq<ArgsEnum>) -> Result<Seq<ArgsEnum>, Trap> {
    binary_u32(s, |a: u32, b: u32| ok_u32(a << (b % 32)))
}

/// The effect of `i32_shrs`: in place of the two `I32` on top of `s` stands
/// the first operand shifted right by the second modulo 32, the sign filling
/// in from the left.
pub open spec fn i32_shrs_effect(s: Seq<ArgsEnum>) -> Result<Seq<ArgsEnum>, Trap> {
    binary_i32(s, |a: i32, b: i32| ok_i32(a >> ((b as int % 32) as u32)))
}

/// The effect of `i32_shru`: in place of the two `U32` on top of `s` stands
/// the first operand shifted right by the second modulo 32, zeros filling in
/// from the left.
pub open spec fn i32_shru_effect(s: Seq<ArgsEnum>) -> Result<Seq<ArgsEnum>, Trap> {
    binary_u32(s, |a: u32, b: u32| ok_u32(a >> (b % 32)))
}

/// The effect of `i32_rotl`: in place of the two `U32` on top of `s` stands
/// the first operand rotated left by the second.
pub open spec fn i32_rotl_effect(s: Seq<ArgsEnum>) -> Result<Seq<ArgsEnum>, Trap> {
    binary_u32(s, |a: u32, b: u32| ok_u32(rotl32(a, b)))
}

/// The effect of `i32_rotr`: in place of the two `U32` on top of `s` stands
/// the first operand rotated right by the second.
pub open spec fn i32_rotr_effect(s: Seq<ArgsEnum>) -> Result<Seq<ArgsEnum>, Trap> {
    binary_u32(s, |a: u32, b: u32| ok_u32(rotr32(a, b)))
}

/// The effect of `i64_eqz`: in place of the one `I64` on top of `s` stands the
/// `Bool` that tells whether the operand is zero.
pub open spec fn i64_eqz_effect(s: Seq<ArgsEnum>) -> Result<Seq<ArgsEnum>, Trap> {
    unary_i64(s, |a: i64| ok_bool(a == 0))
}

/// The effect of `i64_eq`: in place of the two `I64` on top of `s` stands the
/// `Bool` that tells whether the operands are equal.
pub open spec fn i64_eq_effect(s: Seq<ArgsEnum>) -> Result<Seq<ArgsEnum>, Trap> {
    binary_i64(s, |a: i64, b: i64| ok_bool(a == b))
}

/// The effect of `i64_ne`: in place of the two `I64` on top of `s` stands the
/// `Bool` that tells whether the operands differ.
pub open spec fn i64_ne_effect(s: Seq<ArgsEnum>) -> Result<Seq<ArgsEnum>, Trap> {
    binary_i64(s, |a: i64, b: i64| ok_bool(a != b))
}

/// The effect of `i64_lts`: in place of the two `I64` on top of `s` stands the
/// `Bool` that tells whether the first operand is less than the second, both
/// signed.
pub open spec fn i64_lts_effect(s: Seq<ArgsEnum>) -> Result<Seq<ArgsEnum>, Trap> {
    binary_i64(s, |a: i64, b: i64| ok_bool(a < b))
}

/// The effect of `i64_ltu`: in place of the two `U64` on top of `s` stands the
/// `Bool` that tells whether the first operand is less than the second, both
/// unsigned.
pub open spec fn i64_ltu_effect(s: Seq<ArgsEnum>) -> Result<Seq<ArgsEnum>, Trap> {
    binary_u64(s, |a: u64, b: u64| ok_bool(a < b))
}

/// The effect of `i64_gts`: in place of the two `I64` on top of `s` stands the
/// `Bool` that tells whether the first operand is greater than the second,
/// both signed.
pub open spec fn i64_gts_effect(s: Seq<ArgsEnum>) -> Result<Seq<ArgsEnum>, Trap> {
    binary_i64(s, |a: i64, b: i64| ok_bool(a > b))
}

/// The effect of `i64_gtu`: in place of the two `U64` on top of `s` stands the
/// `Bool` that tells whether the first operand is greater than the second,
/// both unsigned.
pub open spec fn i64_gtu_effect(s: Seq<ArgsEnum>) -> Result<Seq<ArgsEnum>, Trap> {
    binary_u64(s, |a: u64, b: u64| ok_bool(a > b))
}

/// The effect of `i64_les`: in place of the two `I64` on top of `s` stands the
/// `Bool` that tells whether the first operand is at most the second, both
/// signed.
pub open spec fn i64_les_effect(s: Seq<ArgsEnum>) -> Result<Seq<ArgsEnum>, Trap> {
    binary_i64(s, |a: i64, b: i64| ok_bool(a <= b))
}

/// The effect of `i64_leu`: in place of the two `U64` on top of `s` stands the
/// `Bool` that tells whether the first operand is at most the second, both
/// unsigned.
pub open spec fn i64_leu_effect(s: Seq<ArgsEnum>) -> Result<Seq<ArgsEnum>, Trap> {
    binary_u64(s, |a: u64, b: u64| ok_bool(a <= b))
}

/// The effect of `i64_ges`: in place of the two `I64` on top of `s` stands the
/// `Bool` that tells whether the first operand is at least the second, both
/// signed.
pub open spec fn i64_ges_effect(s: Seq<ArgsEnum>) -> Result<Seq<ArgsEnum>, Trap> {
    binary_i64(s, |a: i64, b: i64| ok_bool(a >= b))
}

/// The effect of `i64_geu`: in place of the two `U64` on top of `s` stands the
/// `Bool` that tells whether the first operand is at least the second, both
/// unsigned.
pub open spec fn i64_geu_effect(s: Seq<ArgsEnum>) -> Result<Seq<ArgsEnum>, Trap> {
    binary_u64(s, |a: u64, b: u64| ok_bool(a >= b))
}

/// The effect of `i64_clz`: in place of the one `U64` on top of `s` stands the
/// number of zero bits above the highest one bit.
pub open spec fn i64_clz_effect(s: Seq<ArgsEnum>) -> Result<Seq<ArgsEnum>, Trap> {
    unary_u64(s, |a: u64| ok_u64(u64_leading_zeros(a) as u64))
}

/// The effect of `i64_ctz`: in place of the one `U64` on top of `s` stands the
/// number of zero bits below the lowest one bit.
pub open spec fn i64_ctz_effect(s: Seq<ArgsEnum>) -> Result<Seq<ArgsEnum>, Trap> {
    unary_u64(s, |a: u64| ok_u64(u64_trailing_zeros(a) as u64))
}

/// The effect of `i64_popcnt`: in place of the one `U64` on top of `s` stands
/// the number of one bits.
pub open spec fn i64_popcnt_effect(s: Seq<ArgsEnum>) -> Result<Seq<ArgsEnum>, Trap> {
    unary_u64(s, |a: u64| ok_u64(popcount(a as nat) as u64))
}

/// The effect of `i64_add`: in place of the two `U64` on top of `s` stands the
/// sum modulo 2^64.
pub open spec fn i64_add_effect(s: Seq<ArgsEnum>) -> Result<Seq<ArgsEnum>, Trap> {
    binary_u64(s, |a: u64, b: u64| ok_u64(wrap64(a + b)))
}

/// The effect of `i64_sub`: in place of the two `U64` on top of `s` stands the
/// difference modulo 2^64.
pub open spec fn i64_sub_effect(s: Seq<ArgsEnum>) -> Result<Seq<ArgsEnum>, Trap> {
    binary_u64(s, |a: u64, b: u64| ok_u64(wrap64(a - b)))
}

/// The effect of `i64_mul`: in place of the two `U64` on top of `s` stands the
/// product modulo 2^64.
pub open spec fn i64_mul_effect(s: Seq<ArgsEnum>) -> Result<Seq<ArgsEnum>, Trap> {
    binary_u64(s, |a: u64, b: u64| ok_u64(wrap64(a * b)))
}

/// The effect of `i64_divs`: in place of the two `I64` on top of `s` stands
/// the signed quotient, rounded toward zero. Traps where the divisor is zero,
/// and where the quotient is one more than the largest number.
pub open spec fn i64_divs_effect(s: Seq<ArgsEnum>) -> Result<Seq<ArgsEnum>, Trap> {
    binary_i64(
        s,
        |a: i64, b: i64|
        if b == 0 {
            Err(Trap::DivideByZero)
        } else if a == i64::MIN && b == -1 {
            Err(Trap::IntegerOverflow)
        } else {
            ok_i64(trunc_div(a as int, b as int) as i64)
        },
    )
}

/// The effect of `i64_divu`: in place of the two `U64` on top of `s` stands
/// the unsigned quotient. Traps where the divisor is zero.
pub open spec fn i64_divu_effect(s: Seq<ArgsEnum>) -> Result<Seq<ArgsEnum>, Trap> {
    binary_u64(
        s,
        |a: u64, b: u64|
        if b == 0 {
            Err(Trap::DivideByZero)
        } else {
            ok_u64(a / b)
        },
    )
}

/// The effect of `i64_rems`: in place of the two `I64` on top of `s` stands
/// the signed remainder, which has the sign of the dividend. Traps where the
/// divisor is zero.
pub open spec fn i64_rems_effect(s: Seq<ArgsEnum>) -> Result<Seq<ArgsEnum>, Trap> {
    binary_i64(
        s,
        |a: i64, b: i64|
        if b == 0 {
            Err(Trap::DivideByZero)
        } else {
            ok_i64(trunc_rem(a as int, b as int) as i64)
        },
    )
}

/// The effect of `i64_remu`: in place of the two `U64` on top of `s` stands
/// the unsigned remainder. Traps where the divisor is zero.
pub open spec fn i64_remu_effect(s: Seq<ArgsEnum>) -> Result<Seq<ArgsEnum>, Trap> {
    binary_u64(
        s,
        |a: u64, b: u64|
        if b == 0 {
            Err(Trap::DivideByZero)
        } else {
            ok_u64(a % b)
        },
    )
}

/// The effect of `i64_and`: in place of the two `U64` on top of `s` stands the
/// bitwise and.
pub open spec fn i64_and_effect(s: Seq<ArgsEnum>) -> Result<Seq<ArgsEnum>, Trap> {
    binary_u64(s, |a: u64, b: u64| ok_u64(a & b))
}

/// The effect of `i64_or`: in place of the two `U64` on top of `s` stands the
/// bitwise or.
pub open spec fn i64_or_effect(s: Seq<ArgsEnum>) -> Result<Seq<ArgsEnum>, Trap> {
    binary_u64(s, |a: u64, b: u64| ok_u64(a | b))
}

/// The effect of `i64_xor`: in place of the two `U64` on top of `s` stands the
/// bitwise exclusive or.
pub open spec fn i64_xor_effect(s: Seq<ArgsEnum>) -> Result<Seq<ArgsEnum>, Trap> {
    binary_u64(s, |a: u64, b: u64| ok_u64(a ^ b))
}

/// The effect of `i64_shl`: in place of the two `U64` on top of `s` stands the
/// first operand shifted left by the second modulo 64.
pub open spec fn i64_shl_effect(s: Seq<ArgsEnum>) -> Result<Seq<ArgsEnum>, Trap> {
    binary_u64(s, |a: u64, b: u64| ok_u64(a << (b % 64)))
}

/// The effect of `i64_shrs`: in place of the two `I64` on top of `s` stands
/// the first operand shifted right by the second modulo 64, the sign filling
/// in from the left.
pub open spec fn i64_shrs_effect(s: Seq<ArgsEnum>) -> Result<Seq<ArgsEnum>, Trap> {
    binary_i64(s, |a: i64, b: i64| ok_i64(a >> ((b as int % 64) as u64)))
}

/// The effect of `i64_shru`: in place of the two `U64` on top of `s` stands
/// the first operand shifted right by the second modulo 64, zeros filling in
/// from the left.
pub open spec fn i64_shru_effect(s: Seq<ArgsEnum>) -> Result<Seq<ArgsEnum>, Trap> {
    binary_u64(s, |a: u64, b: u64| ok_u64(a >> (b % 64)))
}

/// The effect of `i64_rotl`: in place of the two `U64` on top of `s` stands
/// the first operand rotated left by the second.
pub open spec fn i64_rotl_effect(s: Seq<ArgsEnum>) -> Result<Seq<ArgsEnum>, Trap> {
    binary_u64(s, |a: u64, b: u64| ok_u64(rotl64(a, b)))
}

/// The effect of `i64_rotr`: in place of the two `U64` on top of `s` stands
/// the first operand rotated right by the second.
pub open spec fn i64_rotr_effect(s: Seq<ArgsEnum>) -> Result<Seq<ArgsEnum>, Trap> {
    binary_u64(s, |a: u64, b: u64| ok_u64(rotr64(a, b)))
}

/// The effect of `f32_eq`: in place of the two `F32` on top of `s` stands the
/// `Bool` that tells whether the operands are equal, as IEEE 754 compares
/// them.
pub open spec fn f32_eq_effect(s: Seq<ArgsEnum>) -> Result<Seq<ArgsEnum>, Trap> {
    binary_f32(s, |a: u32, b: u32| ok_bool(f32_eq(a, b)))
}

/// The effect of `f32_ne`: in place of the two `F32` on top of `s` stands the
/// `Bool` that tells whether the operands are not equal, as IEEE 754 compares
/// them.
pub open spec fn f32_ne_effect(s: Seq<ArgsEnum>) -> Result<Seq<ArgsEnum>, Trap> {
    binary_f32(s, |a: u32, b: u32| ok_bool(f32_ne(a, b)))
}

/// The effect of `f32_lt`: in place of the two `F32` on top of `s` stands the
/// `Bool` that tells whether the first is less than the second, as IEEE 754
/// compares them.
pub open spec fn f32_lt_effect(s: Seq<ArgsEnum>) -> Result<Seq<ArgsEnum>, Trap> {
    binary_f32(s, |a: u32, b: u32| ok_bool(f32_lt(a, b)))
}

/// The effect of `f32_gt`: in place of the two `F32` on top of `s` stands the
/// `Bool` that tells whether the first is greater than the second, as IEEE 754
/// compares them.
pub open spec fn f32_gt_effect(s: Seq<ArgsEnum>) -> Result<Seq<ArgsEnum>, Trap> {
    binary_f32(s, |a: u32, b: u32| ok_bool(f32_gt(a, b)))
}

/// The effect of `f32_le`: in place of the two `F32` on top of `s` stands the
/// `Bool` that tells whether the first is at most the second, as IEEE 754
/// compares them.
pub open spec fn f32_le_effect(s: Seq<ArgsEnum>) -> Result<Seq<ArgsEnum>, Trap> {
    binary_f32(s, |a: u32, b: u32| ok_bool(f32_le(a, b)))
}

/// The effect of `f32_ge`: in place of the two `F32` on top of `s` stands the
/// `Bool` that tells whether the first is at least the second, as IEEE 754
/// compares them.
pub open spec fn f32_ge_effect(s: Seq<ArgsEnum>) -> Result<Seq<ArgsEnum>, Trap> {
    binary_f32(s, |a: u32, b: u32| ok_bool(f32_ge(a, b)))
}

/// The effect of `f32_abs`: in place of the one `F32` on top of `s` stands the
/// operand without its sign.
pub open spec fn f32_abs_effect(s: Seq<ArgsEnum>) -> Result<Seq<ArgsEnum>, Trap> {
    unary_f32(s, |a: u32| ok_f32(f32_abs(a)))
}

/// The effect of `f32_neg`: in place of the one `F32` on top of `s` stands the
/// operand with its sign flipped.
pub open spec fn f32_neg_effect(s: Seq<ArgsEnum>) -> Result<Seq<ArgsEnum>, Trap> {
    unary_f32(s, |a: u32| ok_f32(f32_neg(a)))
}

/// The effect of `f32_min`: in place of the two `F32` on top of `s` stands the
/// smaller operand; where exactly one operand is a NaN, that NaN.
pub open spec fn f32_min_effect(s: Seq<ArgsEnum>) -> Result<Seq<ArgsEnum>, Trap> {
    binary_f32(s, |a: u32, b: u32| ok_f32(f32_min(a, b)))
}

/// The effect of `f32_max`: in place of the two `F32` on top of `s` stands the
/// larger operand; where exactly one operand is a NaN, that NaN.
pub open spec fn f32_max_effect(s: Seq<ArgsEnum>) -> Result<Seq<ArgsEnum>, Trap> {
    binary_f32(s, |a: u32, b: u32| ok_f32(f32_max(a, b)))
}

/// The effect of `f32_copy_sign`: in place of the two `F32` on top of `s`
/// stands the first operand under the sign of the second.
pub open spec fn f32_copy_sign_effect(s: Seq<ArgsEnum>) -> Result<Seq<ArgsEnum>, Trap> {
    binary_f32(s, |a: u32, b: u32| ok_f32(f32_copysign(a, b)))
}

/// The effect of `f64_eq`: in place of the two `F64` on top of `s` stands the
/// `Bool` that tells whether the operands are equal, as IEEE 754 compares
/// them.
pub open spec fn f64_eq_effect(s: Seq<ArgsEnum>) -> Result<Seq<ArgsEnum>, Trap> {
    binary_f64(s, |a: u64, b: u64| ok_bool(f64_eq(a, b)))
}

/// The effect of `f64_ne`: in place of the two `F64` on top of `s` stands the
/// `Bool` that tells whether the operands are not equal, as IEEE 754 compares
/// them.
pub open spec fn f64_ne_effect(s: Seq<ArgsEnum>) -> Result<Seq<ArgsEnum>, Trap> {
    binary_f64(s, |a: u64, b: u64| ok_bool(f64_ne(a, b)))
}

/// The effect of `f64_lt`: in place of the two `F64` on top of `s` stands the
/// `Bool` that tells whether the first is less than the second, as IEEE 754
/// compares them.
pub open spec fn f64_lt_effect(s: Seq<ArgsEnum>) -> Result<Seq<ArgsEnum>, Trap> {
    binary_f64(s, |a: u64, b: u64| ok_bool(f64_lt(a, b)))
}

/// The effect of `f64_gt`: in place of the two `F64` on top of `s` stands the
/// `Bool` that tells whether the first is greater than the second, as IEEE 754
/// compares them.
pub open spec fn f64_gt_effect(s: Seq<ArgsEnum>) -> Result<Seq<ArgsEnum>, Trap> {
    binary_f64(s, |a: u64, b: u64| ok_bool(f64_gt(a, b)))
}

/// The effect of `f64_le`: in place of the two `F64` on top of `s` stands the
/// `Bool` that tells whether the first is at most the second, as IEEE 754
/// compares them.
pub open spec fn f64_le_effect(s: Seq<ArgsEnum>) -> Result<Seq<ArgsEnum>, Trap> {
    binary_f64(s, |a: u64, b: u64| ok_bool(f64_le(a, b)))
}

/// The effect of `f64_ge`: in place of the two `F64` on top of `s` stands the
/// `Bool` that tells whether the first is at least the second, as IEEE 754
/// compares them.
pub open spec fn f64_ge_effect(s: Seq<ArgsEnum>) -> Result<Seq<ArgsEnum>, Trap> {
    binary_f64(s, |a: u64, b: u64| ok_bool(f64_ge(a, b)))
}

/// The effect of `f64_abs`: in place of the one `F64` on top of `s` stands the
/// operand without its sign.
pub open spec fn f64_abs_effect(s: Seq<ArgsEnum>) -> Result<Seq<ArgsEnum>, Trap> {
    unary_f64(s, |a: u64| ok_f64(f64_abs(a)))
}

/// The effect of `f64_neg`: in place of the one `F64` on top of `s` stands the
/// operand with its sign flipped.
pub open spec fn f64_neg_effect(s: Seq<ArgsEnum>) -> Result<Seq<ArgsEnum>, Trap> {
    unary_f64(s, |a: u64| ok_f64(f64_neg(a)))
}

/// The effect of `f64_min`: in place of the two `F64` on top of `s` stands the
/// smaller operand; where exactly one operand is a NaN, that NaN.
pub open spec fn f64_min_effect(s: Seq<ArgsEnum>) -> Result<Seq<ArgsEnum>, Trap> {
    binary_f64(s, |a: u64, b: u64| ok_f64(f64_min(a, b)))
}

/// The effect of `f64_max`: in place of the two `F64` on top of `s` stands the
/// larger operand; where exactly one operand is a NaN, that NaN.
pub open spec fn f64_max_effect(s: Seq<ArgsEnum>) -> Result<Seq<ArgsEnum>, Trap> {
    binary_f64(s, |a: u64, b: u64| ok_f64(f64_max(a, b)))
}

/// The effect of `f64_copy_sign`: in place of the two `F64` on top of `s`
/// stands the first operand under the sign of the second.
pub open spec fn f64_copy_sign_effect(s: Seq<ArgsEnum>) -> Result<Seq<ArgsEnum>, Trap> {
    binary_f64(s, |a: u64, b: u64| ok_f64(f64_copysign(a, b)))
}

/// The effect of `i32_warp_i64`: in place of the one `U64` on top of `s`
/// stands the low 32 bits of a 64-bit number.
pub open spec fn i32_warp_i64_effect(s: Seq<ArgsEnum>) -> Result<Seq<ArgsEnum>, Trap> {
    unary_u64(s, |a: u64| ok_u32(wrap32(a as int)))
}

/// The effect of `i32_trunc_f32_s`: in place of the one `F32` on top of `s`
/// stands the signed 32-bit integer that the operand truncates to. Traps on a
/// NaN and on a value beyond the integer type.
pub open spec fn i32_trunc_f32_s_effect(s: Seq<ArgsEnum>) -> Result<Seq<ArgsEnum>, Trap> {
    unary_f32(
        s,
        |a: u32|
        match f32_to_int(a, i32::MIN as int, i32::MAX as int) {
            Ok(v) => ok_i32(v as i32),
            Err(t) => Err(t),
        },
    )
}

/// The effect of `i32_trunc_f32_u`: in place of the one `F32` on top of `s`
/// stands the unsigned 32-bit integer that the operand truncates to. Traps on
/// a NaN and on a value beyond the integer type.
pub open spec fn i32_trunc_f32_u_effect(s: Seq<ArgsEnum>) -> Result<Seq<ArgsEnum>, Trap> {
    unary_f32(
        s,
        |a: u32|
        match f32_to_int(a, 0 as int, u32::MAX as int) {
            Ok(v) => ok_u32(v as u32),
            Err(t) => Err(t),
        },
    )
}

/// The effect of `i32_trunc_f64_s`: in place of the one `F64` on top of `s`
/// stands the signed 32-bit integer that the operand truncates to. Traps on a
/// NaN and on a value beyond the integer type.
pub open spec fn i32_trunc_f64_s_effect(s: Seq<ArgsEnum>) -> Result<Seq<ArgsEnum>, Trap> {
    unary_f64(
        s,
        |a: u64|
        match f64_to_int(a, i32::MIN as int, i32::MAX as int) {
            Ok(v) => ok_i32(v as i32),
            Err(t) => Err(t),
        },
    )
}

/// The effect of `i32_trunc_f64_u`: in place of the one `F64` on top of `s`
/// stands the unsigned 32-bit integer that the operand truncates to. Traps on
/// a NaN and on a value beyond the integer type.
pub open spec fn i32_trunc_f64_u_effect(s: Seq<ArgsEnum>) -> Result<Seq<ArgsEnum>, Trap> {
    unary_f64(
        s,
        |a: u64|
        match f64_to_int(a, 0 as int, u32::MAX as int) {
            Ok(v) => ok_u32(v as u32),
            Err(t) => Err(t),
        },
    )
}

/// The effect of `i64_extend_i32_s`: in place of the one `I32` on top of `s`
/// stands a signed 32-bit number as a signed 64-bit number.
pub open spec fn i64_extend_i32_s_effect(s: Seq<ArgsEnum>) -> Result<Seq<ArgsEnum>, Trap> {
    unary_i32(s, |a: i32| ok_i64(a as i64))
}

/// The effect of `i64_extend_i32_u`: in place of the one `U32` on top of `s`
/// stands an unsigned 32-bit number as an unsigned 64-bit number.
pub open spec fn i64_extend_i32_u_effect(s: Seq<ArgsEnum>) -> Result<Seq<ArgsEnum>, Trap> {
    unary_u32(s, |a: u32| ok_u64(a as u64))
}

/// The effect of `i64_trunc_f32_s`: in place of the one `F32` on top of `s`
/// stands the signed 64-bit integer that the operand truncates to. Traps on a
/// NaN and on a value beyond the integer type.
pub open spec fn i64_trunc_f32_s_effect(s: Seq<ArgsEnum>) -> Result<Seq<ArgsEnum>, Trap> {
    unary_f32(
        s,
        |a: u32|
        match f32_to_int(a, i64::MIN as int, i64::MAX as int) {
            Ok(v) => ok_i64(v as i64),
            Err(t) => Err(t),
        },
    )
}

/// The effect of `i64_trunc_f32_u`: in place of the one `F32` on top of `s`
/// stands the unsigned 64-bit integer that the operand truncates to. Traps on
/// a NaN and on a value beyond the integer type.
pub open spec fn i64_trunc_f32_u_effect(s: Seq<ArgsEnum>) -> Result<Seq<ArgsEnum>, Trap> {
    unary_f32(
        s,
        |a: u32|
        match f32_to_int(a, 0 as int, u64::MAX as int) {
            Ok(v) => ok_u64(v as u64),
            Err(t) => Err(t),
        },
    )
}

/// The effect of `i64_trunc_f64_s`: in place of the one `F64` on top of `s`
/// stands the signed 64-bit integer that the operand truncates to. Traps on a
/// NaN and on a value beyond the integer type.
pub open spec fn i64_trunc_f64_s_effect(s: Seq<ArgsEnum>) -> Result<Seq<ArgsEnum>, Trap> {
    unary_f64(
        s,
        |a: u64|
        match f64_to_int(a, i64::MIN as int, i64::MAX as int) {
            Ok(v) => ok_i64(v as i64),
            Err(t) => Err(t),
        },
    )
}

/// The effect of `i64_trunc_f64_u`: in place of the one `F64` on top of `s`
/// stands the unsigned 64-bit integer that the operand truncates to. Traps on
/// a NaN and on a value beyond the integer type.
pub open spec fn i64_trunc_f64_u_effect(s: Seq<ArgsEnum>) -> Result<Seq<ArgsEnum>, Trap> {
    unary_f64(
        s,
        |a: u64|
        match f64_to_int(a, 0 as int, u64::MAX as int) {
            Ok(v) => ok_u64(v as u64),
            Err(t) => Err(t),
        },
    )
}

/// The effect of `i32_extend_8_s`: in place of the one `I32` on top of `s`
/// stands the low 8 bits of the operand as a signed number of 8 bits.
pub open spec fn i32_extend_8_s_effect(s: Seq<ArgsEnum>) -> Result<Seq<ArgsEnum>, Trap> {
    unary_i32(s, |a: i32| ok_i8(signed_low(a as int, 0x100) as i8))
}

/// The effect of `i32_extend_16_s`: in place of the one `I32` on top of `s`
/// stands the low 16 bits of the operand as a signed number of 16 bits.
pub open spec fn i32_extend_16_s_effect(s: Seq<ArgsEnum>) -> Result<Seq<ArgsEnum>, Trap> {
    unary_i32(s, |a: i32| ok_i16(signed_low(a as int, 0x1_0000) as i16))
}

/// The effect of `i64_extend_8_s`: in place of the one `I64` on top of `s`
/// stands the low 8 bits of the operand as a signed number of 8 bits.
pub open spec fn i64_extend_8_s_effect(s: Seq<ArgsEnum>) -> Result<Seq<ArgsEnum>, Trap> {
    unary_i64(s, |a: i64| ok_i8(signed_low(a as int, 0x100) as i8))
}

/// The effect of `i64_extend_16_s`: in place of the one `I64` on top of `s`
/// stands the low 16 bits of the operand as a signed number of 16 bits.
pub open spec fn i64_extend_16_s_effect(s: Seq<ArgsEnum>) -> Result<Seq<ArgsEnum>, Trap> {
    unary_i64(s, |a: i64| ok_i16(signed_low(a as int, 0x1_0000) as i16))
}

/// The effect of `i64_extend_32_s`: in place of the one `I64` on top of `s`
/// stands the low 32 bits of the operand as a signed number of 32 bits.
pub open spec fn i64_extend_32_s_effect(s: Seq<ArgsEnum>) -> Result<Seq<ArgsEnum>, Trap> {
    unary_i64(s, |a: i64| ok_i32(signed_low(a as int, 0x1_0000_0000) as i32))
}

/// The effect of `i32_reinterpret_f32`: in place of the one `F32` on top of
/// `s` stands the bits of a binary32 value as a signed 32-bit number.
pub open spec fn i32_reinterpret_f32_effect(s: Seq<ArgsEnum>) -> Result<Seq<ArgsEnum>, Trap> {
    unary_f32(s, |a: u32| ok_i32(signed_low(a as int, 0x1_0000_0000) as i32))
}

/// The effect of `i64_reinterpret_f64`: in place of the one `F64` on top of
/// `s` stands the bits of a binary64 value as a signed 64-bit number.
pub open spec fn i64_reinterpret_f64_effect(s: Seq<ArgsEnum>) -> Result<Seq<ArgsEnum>, Trap> {
    unary_f64(s, |a: u64| ok_i64(signed_low(a as int, 0x1_0000_0000_0000_0000) as i64))
}

/// The effect of `f32_reinterpret_i32`: in place of the one `I32` on top of
/// `s` stands the bits of a signed 32-bit number as a binary32 value.
pub open spec fn f32_reinterpret_i32_effect(s: Seq<ArgsEnum>) -> Result<Seq<ArgsEnum>, Trap> {
    unary_i32(s, |a: i32| ok_f32(wrap32(a as int)))
}

/// The effect of `f64_reinterpret_i64`: in place of the one `I64` on top of
/// `s` stands the bits of a signed 64-bit number as a binary64 value.
pub open spec fn f64_reinterpret_i64_effect(s: Seq<ArgsEnum>) -> Result<Seq<ArgsEnum>, Trap> {
    unary_i64(s, |a: i64| ok_f64(wrap64(a as int)))
}

/// What `select` makes of `s`: it takes a `Bool` from the top and two values
/// of one variant below it, and leaves the lower of the two where the `Bool`
/// is true, and the upper where it is false.
pub open spec fn select_effect(s: Seq<ArgsEnum>) -> Result<Seq<ArgsEnum>, Trap> {
    match operand_bool(s, 0) {
        Err(t) => Err(t),
        Ok(c) => if s.len() < 3 {
            Err(Trap::StackUnderflow)
        } else if tag_index(s[s.len() - 3]) != tag_index(s[s.len() - 2]) {
            Err(Trap::TypeMismatch)
        } else if c {
            Ok(s.subrange(0, s.len() - 2))
        } else {
            Ok(s.subrange(0, s.len() - 3).push(s[s.len() - 2]))
        },
    }
}

/// The least number of a signed integer type of `n` bits.
pub open spec fn least_signed(n: usize) -> int {
    if n == 32 {
        i32::MIN as int
    } else {
        i64::MIN as int
    }
}

/// The greatest number of a signed integer type of `n` bits.
pub open spec fn greatest_signed(n: usize) -> int {
    if n == 32 {
        i32::MAX as int
    } else {
        i64::MAX as int
    }
}

/// The greatest number of an unsigned integer type of `n` bits.
pub open spec fn greatest_unsigned(n: usize) -> int {
    if n == 32 {
        u32::MAX as int
    } else {
        u64::MAX as int
    }
}

/// What the saturating truncation with the sub-opcode `val` makes of `s`:
/// the sub-opcodes 0 to 7 name the source and the target type, and the
/// operand becomes 0 where it is a NaN, the nearest bound of the target
/// type where it lies beyond it, and else the integer it truncates to.
pub open spec fn trunc_sat_effect(s: Seq<ArgsEnum>, val: u8) -> Result<Seq<ArgsEnum>, Trap> {
    if val == 0 {
        unary_f32(s, |a: u32| ok_i32(f32_saturate(a, i32::MIN as int, i32::MAX as int) as i32))
    } else if val == 1 {
        unary_f32(s, |a: u32| ok_u32(f32_saturate(a, 0 as int, u32::MAX as int) as u32))
    } else if val == 2 {
        unary_f64(s, |a: u64| ok_i32(f64_saturate(a, i32::MIN as int, i32::MAX as int) as i32))
    } else if val == 3 {
        unary_f64(s, |a: u64| ok_u32(f64_saturate(a, 0 as int, u32::MAX as int) as u32))
    } else if val == 4 {
        unary_f32(s, |a: u32| ok_i64(f32_saturate(a, i64::MIN as int, i64::MAX as int) as i64))
    } else if val == 5 {
        unary_f32(s, |a: u32| ok_u64(f32_saturate(a, 0 as int, u64::MAX as int) as u64))
    } else if val == 6 {
        unary_f64(s, |a: u64| ok_i64(f64_saturate(a, i64::MIN as int, i64::MAX as int) as i64))
    } else if val == 7 {
        unary_f64(s, |a: u64| ok_u64(f64_saturate(a, 0 as int, u64::MAX as int) as u64))
    } else {
        Err(Trap::InvalidArgument)
    }
}

/// The unsigned integer of `n` bits that the binary64 value with the bit
/// pattern `z` becomes: 0 for a NaN, the nearest bound for a value beyond
/// the type, and else the integer that the value truncates to.
pub fn trunc_sat_u(z: u64, n: usize) -> (r: u64)
    requires
        n == 32 || n == 64,
    ensures
        r == f64_saturate(z, 0, greatest_unsigned(n)),
{
    let max: i128 = if n == 32 {
        u32::MAX as i128
    } else {
        u64::MAX as i128
    };
    saturate64(z, 0, max) as u64
}

/// The signed integer of `n` bits that the binary64 value with the bit
/// pattern `z` becomes: 0 for a NaN, the nearest bound for a value beyond
/// the type, and else the integer that the value truncates to.
pub fn trunc_sat_s(z: u64, n: usize) -> (r: i64)
    requires
        n == 32 || n == 64,
    ensures
        r == f64_saturate(z, least_signed(n), greatest_signed(n)),
{
    let (min, max): (i128, i128) = if n == 32 {
        (i32::MIN as i128, i32::MAX as i128)
    } else {
        (i64::MIN as i128, i64::MAX as i128)
    };
    saturate64(z, min, max) as i64
}

/// An instruction whose result the machine does not compute itself: the
/// arithmetic and the rounding of floating-point numbers, which the host of
/// the machine carries out. The machine hands out the operands and takes
/// the result.
#[derive(Clone, Copy, Debug, PartialEq, Eq, Structural)]
pub enum HostOp {
    /// The least whole number that is not below the operand.
    F32Ceil,
    /// The greatest whole number that is not above the operand.
    F32Floor,
    /// The operand without what lies behind the point.
    F32Trunc,
    /// The whole number nearest to the operand.
    F32Nearest,
    /// The square root.
    F32Sqrt,
    /// The sum.
    F32Add,
    /// The difference.
    F32Sub,
    /// The product.
    F32Mul,
    /// The quotient.
    F32Div,
    /// The least whole number that is not below the operand.
    F64Ceil,
    /// The greatest whole number that is not above the operand.
    F64Floor,
    /// The operand without what lies behind the point.
    F64Trunc,
    /// The whole number nearest to the operand.
    F64Nearest,
    /// The square root.
    F64Sqrt,
    /// The sum.
    F64Add,
    /// The difference.
    F64Sub,
    /// The product.
    F64Mul,
    /// The quotient.
    F64Div,
    /// The floating-point value nearest to the integer.
    F32ConvertI32S,
    /// The floating-point value nearest to the integer.
    F32ConvertI32U,
    /// The floating-point value nearest to the integer.
    F32ConvertI64S,
    /// The floating-point value nearest to the integer.
    F32ConvertI64U,
    /// The floating-point value nearest to the integer.
    F64ConvertI32S,
    /// The floating-point value nearest to the integer.
    F64ConvertI32U,
    /// The floating-point value nearest to the integer.
    F64ConvertI64S,
    /// The floating-point value nearest to the integer.
    F64ConvertI64U,
    /// The binary32 value nearest to the operand.
    F32DemoteF64,
    /// The operand as a binary64 value.
    F64PromoteF32,
}

/// The tag of a value on the stack that is a number.
#[derive(Clone, Copy, Debug, PartialEq, Eq, Structural)]
pub enum ValueTag {
    I32,
    U32,
    I64,
    U64,
    F32,
    F64,
}

/// Whether `v` has the tag `t`.
pub open spec fn has_tag(v: ArgsEnum, t: ValueTag) -> bool {
    match t {
        ValueTag::I32 => v is I32,
        ValueTag::U32 => v is U32,
        ValueTag::I64 => v is I64,
        ValueTag::U64 => v is U64,
        ValueTag::F32 => v is F32,
        ValueTag::F64 => v is F64,
    }
}

/// The number of operands that `op` takes.
pub open spec fn host_arity(op: HostOp) -> nat {
    match op {
        HostOp::F32Ceil => 1,
        HostOp::F32Floor => 1,
        HostOp::F32Trunc => 1,
        HostOp::F32Nearest => 1,
        HostOp::F32Sqrt => 1,
        HostOp::F32Add => 2,
        HostOp::F32Sub => 2,
        HostOp::F32Mul => 2,
        HostOp::F32Div => 2,
        HostOp::F64Ceil => 1,
        HostOp::F64Floor => 1,
        HostOp::F64Trunc => 1,
        HostOp::F64Nearest => 1,
        HostOp::F64Sqrt => 1,
        HostOp::F64Add => 2,
        HostOp::F64Sub => 2,
        HostOp::F64Mul => 2,
        HostOp::F64Div => 2,
        HostOp::F32ConvertI32S => 1,
        HostOp::F32ConvertI32U => 1,
        HostOp::F32ConvertI64S => 1,
        HostOp::F32ConvertI64U => 1,
        HostOp::F64ConvertI32S => 1,
        HostOp::F64ConvertI32U => 1,
        HostOp::F64ConvertI64S => 1,
        HostOp::F64ConvertI64U => 1,
        HostOp::F32DemoteF64 => 1,
        HostOp::F64PromoteF32 => 1,
    }
}

/// The tag of the operands of `op`.
pub open spec fn host_operand_tag(op: HostOp) -> ValueTag {
    match op {
        HostOp::F32Ceil => ValueTag::F32,
        HostOp::F32Floor => ValueTag::F32,
        HostOp::F32Trunc => ValueTag::F32,
        HostOp::F32Nearest => ValueTag::F32,
        HostOp::F32Sqrt => ValueTag::F32,
        HostOp::F32Add => ValueTag::F32,
        HostOp::F32Sub => ValueTag::F32,
        HostOp::F32Mul => ValueTag::F32,
        HostOp::F32Div => ValueTag::F32,
        HostOp::F64Ceil => ValueTag::F64,
        HostOp::F64Floor => ValueTag::F64,
        HostOp::F64Trunc => ValueTag::F64,
        HostOp::F64Nearest => ValueTag::F64,
        HostOp::F64Sqrt => ValueTag::F64,
        HostOp::F64Add => ValueTag::F64,
        HostOp::F64Sub => ValueTag::F64,
        HostOp::F64Mul => ValueTag::F64,
        HostOp::F64Div => ValueTag::F64,
        HostOp::F32ConvertI32S => ValueTag::I32,
        HostOp::F32ConvertI32U => ValueTag::U32,
        HostOp::F32ConvertI64S => ValueTag::I64,
        HostOp::F32ConvertI64U => ValueTag::U64,
        HostOp::F64ConvertI32S => ValueTag::I32,
        HostOp::F64ConvertI32U => ValueTag::U32,
        HostOp::F64ConvertI64S => ValueTag::I64,
        HostOp::F64ConvertI64U => ValueTag::U64,
        HostOp::F32DemoteF64 => ValueTag::F64,
        HostOp::F64PromoteF32 => ValueTag::F32,
    }
}

/// Whether the result of `op` is a binary64 value; else it is a binary32
/// value.
pub open spec fn host_result_is_f64(op: HostOp) -> bool {
    match op {
        HostOp::F32Ceil => false,
        HostOp::F32Floor => false,
        HostOp::F32Trunc => false,
        HostOp::F32Nearest => false,
        HostOp::F32Sqrt => false,
        HostOp::F32Add => false,
        HostOp::F32Sub => false,
        HostOp::F32Mul => false,
        HostOp::F32Div => false,
        HostOp::F64Ceil => true,
        HostOp::F64Floor => true,
        HostOp::F64Trunc => true,
        HostOp::F64Nearest => true,
        HostOp::F64Sqrt => true,
        HostOp::F64Add => true,
        HostOp::F64Sub => true,
        HostOp::F64Mul => true,
        HostOp::F64Div => true,
        HostOp::F32ConvertI32S => false,
        HostOp::F32ConvertI32U => false,
        HostOp::F32ConvertI64S => false,
        HostOp::F32ConvertI64U => false,
        HostOp::F64ConvertI32S => true,
        HostOp::F64ConvertI32U => true,
        HostOp::F64ConvertI64S => true,
        HostOp::F64ConvertI64U => true,
        HostOp::F32DemoteF64 => false,
        HostOp::F64PromoteF32 => true,
    }
}

/// What taking the operands of `op` makes of `s`: the stack without them,
/// or the trap where they are not there.
pub open spec fn host_operands_effect(s: Seq<ArgsEnum>, op: HostOp) -> Result<Seq<ArgsEnum>, Trap> {
    match operand(s, 0) {
        Err(t) => Err(t),
        Ok(b) => if !has_tag(b, host_operand_tag(op)) {
            Err(Trap::TypeMismatch)
        } else if host_arity(op) == 1 {
            Ok(s.drop_last())
        } else {
            match operand(s, 1) {
                Err(t) => Err(t),
                Ok(a) => if !has_tag(a, host_operand_tag(op)) {
                    Err(Trap::TypeMismatch)
                } else {
                    Ok(s.subrange(0, s.len() - 2))
                },
            }
        },
    }
}

/// The value that the result `bits` of `op` is on the stack: a binary64
/// value, or a binary32 value where `bits` are 32 bits; else it is no
/// result of `op`.
pub open spec fn host_result_value(op: HostOp, bits: u64) -> Result<ArgsEnum, Trap> {
    if host_result_is_f64(op) {
        Ok(ArgsEnum::F64(bits))
    } else if bits <= u32::MAX {
        Ok(ArgsEnum::F32(bits as u32))
    } else {
        Err(Trap::InvalidArgument)
    }
}

/// The number of operands of `op`.
pub fn arity_of(op: HostOp) -> (r: usize)
    ensures
        r == host_arity(op),
{
    match op {
        HostOp::F32Ceil => 1,
        HostOp::F32Floor => 1,
        HostOp::F32Trunc => 1,
        HostOp::F32Nearest => 1,
        HostOp::F32Sqrt => 1,
        HostOp::F32Add => 2,
        HostOp::F32Sub => 2,
        HostOp::F32Mul => 2,
        HostOp::F32Div => 2,
        HostOp::F64Ceil => 1,
        HostOp::F64Floor => 1,
        HostOp::F64Trunc => 1,
        HostOp::F64Nearest => 1,
        HostOp::F64Sqrt => 1,
        HostOp::F64Add => 2,
        HostOp::F64Sub => 2,
        HostOp::F64Mul => 2,
        HostOp::F64Div => 2,
        HostOp::F32ConvertI32S => 1,
        HostOp::F32ConvertI32U => 1,
        HostOp::F32ConvertI64S => 1,
        HostOp::F32ConvertI64U => 1,
        HostOp::F64ConvertI32S => 1,
        HostOp::F64ConvertI32U => 1,
        HostOp::F64ConvertI64S => 1,
        HostOp::F64ConvertI64U => 1,
        HostOp::F32DemoteF64 => 1,
        HostOp::F64PromoteF32 => 1,
    }
}

/// The tag of the operands of `op`.
pub fn operand_tag_of(op: HostOp) -> (r: ValueTag)
    ensures
        r == host_operand_tag(op),
{
    match op {
        HostOp::F32Ceil => ValueTag::F32,
        HostOp::F32Floor => ValueTag::F32,
        HostOp::F32Trunc => ValueTag::F32,
        HostOp::F32Nearest => ValueTag::F32,
        HostOp::F32Sqrt => ValueTag::F32,
        HostOp::F32Add => ValueTag::F32,
        HostOp::F32Sub => ValueTag::F32,
        HostOp::F32Mul => ValueTag::F32,
        HostOp::F32Div => ValueTag::F32,
        HostOp::F64Ceil => ValueTag::F64,
        HostOp::F64Floor => ValueTag::F64,
        HostOp::F64Trunc => ValueTag::F64,
        HostOp::F64Nearest => ValueTag::F64,
        HostOp::F64Sqrt => ValueTag::F64,
        HostOp::F64Add => ValueTag::F64,
        HostOp::F64Sub => ValueTag::F64,
        HostOp::F64Mul => ValueTag::F64,
        HostOp::F64Div => ValueTag::F64,
        HostOp::F32ConvertI32S => ValueTag::I32,
        HostOp::F32ConvertI32U => ValueTag::U32,
        HostOp::F32ConvertI64S => ValueTag::I64,
        HostOp::F32ConvertI64U => ValueTag::U64,
        HostOp::F64ConvertI32S => ValueTag::I32,
        HostOp::F64ConvertI32U => ValueTag::U32,
        HostOp::F64ConvertI64S => ValueTag::I64,
        HostOp::F64ConvertI64U => ValueTag::U64,
        HostOp::F32DemoteF64 => ValueTag::F64,
        HostOp::F64PromoteF32 => ValueTag::F32,
    }
}

/// Tells whether the result of `op` is a binary64 value.
pub fn result_is_f64(op: HostOp) -> (r: bool)
    ensures
        r == host_result_is_f64(op),
{
    match op {
        HostOp::F32Ceil => false,
        HostOp::F32Floor => false,
        HostOp::F32Trunc => false,
        HostOp::F32Nearest => false,
        HostOp::F32Sqrt => false,
        HostOp::F32Add => false,
        HostOp::F32Sub => false,
        HostOp::F32Mul => false,
        HostOp::F32Div => false,
        HostOp::F64Ceil => true,
        HostOp::F64Floor => true,
        HostOp::F64Trunc => true,
        HostOp::F64Nearest => true,
        HostOp::F64Sqrt => true,
        HostOp::F64Add => true,
        HostOp::F64Sub => true,
        HostOp::F64Mul => true,
        HostOp::F64Div => true,
        HostOp::F32ConvertI32S => false,
        HostOp::F32ConvertI32U => false,
        HostOp::F32ConvertI64S => false,
        HostOp::F32ConvertI64U => false,
        HostOp::F64ConvertI32S => true,
        HostOp::F64ConvertI32U => true,
        HostOp::F64ConvertI64S => true,
        HostOp::F64ConvertI64U => true,
        HostOp::F32DemoteF64 => false,
        HostOp::F64PromoteF32 => true,
    }
}

/// Tells whether `v` has the tag `t`.
pub fn tagged(v: &ArgsEnum, t: ValueTag) -> (r: bool)
    ensures
        r == has_tag(*v, t),
{
    match (v, t) {
        (ArgsEnum::I32(_), ValueTag::I32) => true,
        (ArgsEnum::U32(_), ValueTag::U32) => true,
        (ArgsEnum::I64(_), ValueTag::I64) => true,
        (ArgsEnum::U64(_), ValueTag::U64) => true,
        (ArgsEnum::F32(_), ValueTag::F32) => true,
        (ArgsEnum::F64(_), ValueTag::F64) => true,
        _ => false,
    }
}

/// What the machine does for an opcode: one handler for each instruction
/// that works on the operand stack alone.
#[derive(Clone, Copy, Debug, PartialEq, Eq, Structural)]
pub enum Handler {
    Call,
    Drop,
    Select,
    I32Const,
    I64Const,
    F32Const,
    F64Const,
    I32Eqz,
    I32Eq,
    I32Ne,
    I32LtS,
    I32LtU,
    I32GtS,
    I32GtU,
    I32LeS,
    I32LeU,
    I32GeS,
    I32GeU,
    I32Clz,
    I32Ctz,
    I32PopCnt,
    I32Add,
    I32Sub,
    I32Mul,
    I32DivS,
    I32DivU,
    I32RemS,
    I32RemU,
    I32And,
    I32Or,
    I32Xor,
    I32Shl,
    I32ShrS,
    I32ShrU,
    I32Rotl,
    I32Rotr,
    I64Eqz,
    I64Eq,
    I64Ne,
    I64LtS,
    I64LtU,
    I64GtS,
    I64GtU,
    I64LeS,
    I64LeU,
    I64GeS,
    I64GeU,
    I64Clz,
    I64Ctz,
    I64PopCnt,
    I64Add,
    I64Sub,
    I64Mul,
    I64DivS,
    I64DivU,
    I64RemS,
    I64RemU,
    I64And,
    I64Or,
    I64Xor,
    I64Shl,
    I64ShrS,
    I64ShrU,
    I64Rotl,
    I64Rotr,
    F32Eq,
    F32Ne,
    F32Lt,
    F32Gt,
    F32Le,
    F32Ge,
    F32Abs,
    F32Neg,
    F32Min,
    F32Max,
    F32CopySign,
    F64Eq,
    F64Ne,
    F64Lt,
    F64Gt,
    F64Le,
    F64Ge,
    F64Abs,
    F64Neg,
    F64Min,
    F64Max,
    F64CopySign,
    I32WrapI64,
    I32TruncF32S,
    I32TruncF32U,
    I32TruncF64S,
    I32TruncF64U,
    I64ExtendI32S,
    I64ExtendI32U,
    I64TruncF32S,
    I64TruncF32U,
    I64TruncF64S,
    I64TruncF64U,
    I32Extend8S,
    I32Extend16S,
    I64Extend8S,
    I64Extend16S,
    I64Extend32S,
    I32ReinterpretF32,
    I64ReinterpretF64,
    F32ReinterpretI32,
    F64ReinterpretI64,
    TruncSat,
    /// An instruction that the host carries out.
    Host(HostOp),
}

/// The handler of `opcode`, and `None` for an opcode that has none.
pub open spec fn handler_of(opcode: u8) -> Option<Handler> {
    if opcode == opcodes::Call {
        Some(Handler::Call)
    } else if opcode == opcodes::Drop {
        Some(Handler::Drop)
    } else if opcode == opcodes::Select {
        Some(Handler::Select)
    } else if opcode == opcodes::I32Const {
        Some(Handler::I32Const)
    } else if opcode == opcodes::I64Const {
        Some(Handler::I64Const)
    } else if opcode == opcodes::F32Const {
        Some(Handler::F32Const)
    } else if opcode == opcodes::F64Const {
        Some(Handler::F64Const)
    } else if opcode == opcodes::I32Eqz {
        Some(Handler::I32Eqz)
    } else if opcode == opcodes::I32Eq {
        Some(Handler::I32Eq)
    } else if opcode == opcodes::I32Ne {
        Some(Handler::I32Ne)
    } else if opcode == opcodes::I32LtS {
        Some(Handler::I32LtS)
    } else if opcode == opcodes::I32LtU {
        Some(Handler::I32LtU)
    } else if opcode == opcodes::I32GtS {
        Some(Handler::I32GtS)
    } else if opcode == opcodes::I32GtU {
        Some(Handler::I32GtU)
    } else if opcode == opcodes::I32LeS {
        Some(Handler::I32LeS)
    } else if opcode == opcodes::I32LeU {
        Some(Handler::I32LeU)
    } else if opcode == opcodes::I32GeS {
        Some(Handler::I32GeS)
    } else if opcode == opcodes::I32GeU {
        Some(Handler::I32GeU)
    } else if opcode == opcodes::I32Clz {
        Some(Handler::I32Clz)
    } else if opcode == opcodes::I32Ctz {
        Some(Handler::I32Ctz)
    } else if opcode == opcodes::I32PopCnt {
        Some(Handler::I32PopCnt)
    } else if opcode == opcodes::I32Add {
        Some(Handler::I32Add)
    } else if opcode == opcodes::I32Sub {
        Some(Handler::I32Sub)
    } else if opcode == opcodes::I32Mul {
        Some(Handler::I32Mul)
    } else if opcode == opcodes::I32DivS {
        Some(Handler::I32DivS)
    } else if opcode == opcodes::I32DivU {
        Some(Handler::I32DivU)
    } else if opcode == opcodes::I32RemS {
        Some(Handler::I32RemS)
    } else if opcode == opcodes::I32RemU {
        Some(Handler::I32RemU)
    } else if opcode == opcodes::I32And {
        Some(Handler::I32And)
    } else if opcode == opcodes::I32Or {
        Some(Handler::I32Or)
    } else if opcode == opcodes::I32Xor {
        Some(Handler::I32Xor)
    } else if opcode == opcodes::I32Shl {
        Some(Handler::I32Shl)
    } else if opcode == opcodes::I32ShrS {
        Some(Handler::I32ShrS)
    } else if opcode == opcodes::I32ShrU {
        Some(Handler::I32ShrU)
    } else if opcode == opcodes::I32Rotl {
        Some(Handler::I32Rotl)
    } else if opcode == opcodes::I32Rotr {
        Some(Handler::I32Rotr)
    } else if opcode == opcodes::I64Eqz {
        Some(Handler::I64Eqz)
    } else if opcode == opcodes::I64Eq {
        Some(Handler::I64Eq)
    } else if opcode == opcodes::I64Ne {
        Some(Handler::I64Ne)
    } else if opcode == opcodes::I64LtS {
        Some(Handler::I64LtS)
    } else if opcode == opcodes::I64LtU {
        Some(Handler::I64LtU)
    } else if opcode == opcodes::I64GtS {
        Some(Handler::I64GtS)
    } else if opcode == opcodes::I64GtU {
        Some(Handler::I64GtU)
    } else if opcode == opcodes::I64LeS {
        Some(Handler::I64LeS)
    } else if opcode == opcodes::I64LeU {
        Some(Handler::I64LeU)
    } else if opcode == opcodes::I64GeS {
        Some(Handler::I64GeS)
    } else if opcode == opcodes::I64GeU {
        Some(Handler::I64GeU)
    } else if opcode == opcodes::I64Clz {
        Some(Handler::I64Clz)
    } else if opcode == opcodes::I64Ctz {
        Some(Handler::I64Ctz)
    } else if opcode == opcodes::I64PopCnt {
        Some(Handler::I64PopCnt)
    } else if opcode == opcodes::I64Add {
        Some(Handler::I64Add)
    } else if opcode == opcodes::I64Sub {
        Some(Handler::I64Sub)
    } else if opcode == opcodes::I64Mul {
        Some(Handler::I64Mul)
    } else if opcode == opcodes::I64DivS {
        Some(Handler::I64DivS)
    } else if opcode == opcodes::I64DivU {
        Some(Handler::I64DivU)
    } else if opcode == opcodes::I64RemS {
        Some(Handler::I64RemS)
    } else if opcode == opcodes::I64RemU {
        Some(Handler::I64RemU)
    } else if opcode == opcodes::I64And {
        Some(Handler::I64And)
    } else if opcode == opcodes::I64Or {
        Some(Handler::I64Or)
    } else if opcode == opcodes::I64Xor {
        Some(Handler::I64Xor)
    } else if opcode == opcodes::I64Shl {
        Some(Handler::I64Shl)
    } else if opcode == opcodes::I64ShrS {
        Some(Handler::I64ShrS)
    } else if opcode == opcodes::I64ShrU {
        Some(Handler::I64ShrU)
    } else if opcode == opcodes::I64Rotl {
        Some(Handler::I64Rotl)
    } else if opcode == opcodes::I64Rotr {
        Some(Handler::I64Rotr)
    } else if opcode == opcodes::F32Eq {
        Some(Handler::F32Eq)
    } else if opcode == opcodes::F32Ne {
        Some(Handler::F32Ne)
    } else if opcode == opcodes::F32Lt {
        Some(Handler::F32Lt)
    } else if opcode == opcodes::F32Gt {
        Some(Handler::F32Gt)
    } else if opcode == opcodes::F32Le {
        Some(Handler::F32Le)
    } else if opcode == opcodes::F32Ge {
        Some(Handler::F32Ge)
    } else if opcode == opcodes::F32Abs {
        Some(Handler::F32Abs)
    } else if opcode == opcodes::F32Neg {
        Some(Handler::F32Neg)
    } else if opcode == opcodes::F32Min {
        Some(Handler::F32Min)
    } else if opcode == opcodes::F32Max {
        Some(Handler::F32Max)
    } else if opcode == opcodes::F32CopySign {
        Some(Handler::F32CopySign)
    } else if opcode == opcodes::F64Eq {
        Some(Handler::F64Eq)
    } else if opcode == opcodes::F64Ne {
        Some(Handler::F64Ne)
    } else if opcode == opcodes::F64Lt {
        Some(Handler::F64Lt)
    } else if opcode == opcodes::F64Gt {
        Some(Handler::F64Gt)
    } else if opcode == opcodes::F64Le {
        Some(Handler::F64Le)
    } else if opcode == opcodes::F64Ge {
        Some(Handler::F64Ge)
    } else if opcode == opcodes::F64Abs {
        Some(Handler::F64Abs)
    } else if opcode == opcodes::F64Neg {
        Some(Handler::F64Neg)
    } else if opcode == opcodes::F64Min {
        Some(Handler::F64Min)
    } else if opcode == opcodes::F64Max {
        Some(Handler::F64Max)
    } else if opcode == opcodes::F64CopySign {
        Some(Handler::F64CopySign)
    } else if opcode == opcodes::I32WrapI64 {
        Some(Handler::I32WrapI64)
    } else if opcode == opcodes::I32TruncF32S {
        Some(Handler::I32TruncF32S)
    } else if opcode == opcodes::I32TruncF32U {
        Some(Handler::I32TruncF32U)
    } else if opcode == opcodes::I32TruncF64S {
        Some(Handler::I32TruncF64S)
    } else if opcode == opcodes::I32TruncF64U {
        Some(Handler::I32TruncF64U)
    } else if opcode == opcodes::I64ExtendI32S {
        Some(Handler::I64ExtendI32S)
    } else if opcode == opcodes::I64ExtendI32U {
        Some(Handler::I64ExtendI32U)
    } else if opcode == opcodes::I64TruncF32S {
        Some(Handler::I64TruncF32S)
    } else if opcode == opcodes::I64TruncF32U {
        Some(Handler::I64TruncF32U)
    } else if opcode == opcodes::I64TruncF64S {
        Some(Handler::I64TruncF64S)
    } else if opcode == opcodes::I64TruncF64U {
        Some(Handler::I64TruncF64U)
    } else if opcode == opcodes::I32Extend8S {
        Some(Handler::I32Extend8S)
    } else if opcode == opcodes::I32Extend16S {
        Some(Handler::I32Extend16S)
    } else if opcode == opcodes::I64Extend8S {
        Some(Handler::I64Extend8S)
    } else if opcode == opcodes::I64Extend16S {
        Some(Handler::I64Extend16S)
    } else if opcode == opcodes::I64Extend32S {
        Some(Handler::I64Extend32S)
    } else if opcode == opcodes::I32ReinterpretF32 {
        Some(Handler::I32ReinterpretF32)
    } else if opcode == opcodes::I64ReinterpretF64 {
        Some(Handler::I64ReinterpretF64)
    } else if opcode == opcodes::F32ReinterpretI32 {
        Some(Handler::F32ReinterpretI32)
    } else if opcode == opcodes::F64ReinterpretI64 {
        Some(Handler::F64ReinterpretI64)
    } else if opcode == opcodes::TruncSat {
        Some(Handler::TruncSat)
    } else if opcode == opcodes::F32Ceil {
        Some(Handler::Host(HostOp::F32Ceil))
    } else if opcode == opcodes::F32Floor {
        Some(Handler::Host(HostOp::F32Floor))
    } else if opcode == opcodes::F32Trunc {
        Some(Handler::Host(HostOp::F32Trunc))
    } else if opcode == opcodes::F32Nearest {
        Some(Handler::Host(HostOp::F32Nearest))
    } else if opcode == opcodes::F32Sqrt {
        Some(Handler::Host(HostOp::F32Sqrt))
    } else if opcode == opcodes::F32Add {
        Some(Handler::Host(HostOp::F32Add))
    } else if opcode == opcodes::F32Sub {
        Some(Handler::Host(HostOp::F32Sub))
    } else if opcode == opcodes::F32Mul {
        Some(Handler::Host(HostOp::F32Mul))
    } else if opcode == opcodes::F32Div {
        Some(Handler::Host(HostOp::F32Div))
    } else if opcode == opcodes::F64Ceil {
        Some(Handler::Host(HostOp::F64Ceil))
    } else if opcode == opcodes::F64Floor {
        Some(Handler::Host(HostOp::F64Floor))
    } else if opcode == opcodes::F64Trunc {
        Some(Handler::Host(HostOp::F64Trunc))
    } else if opcode == opcodes::F64Nearest {
        Some(Handler::Host(HostOp::F64Nearest))
    } else if opcode == opcodes::F64Sqrt {
        Some(Handler::Host(HostOp::F64Sqrt))
    } else if opcode == opcodes::F64Add {
        Some(Handler::Host(HostOp::F64Add))
    } else if opcode == opcodes::F64Sub {
        Some(Handler::Host(HostOp::F64Sub))
    } else if opcode == opcodes::F64Mul {
        Some(Handler::Host(HostOp::F64Mul))
    } else if opcode == opcodes::F64Div {
        Some(Handler::Host(HostOp::F64Div))
    } else if opcode == opcodes::F32ConvertI32S {
        Some(Handler::Host(HostOp::F32ConvertI32S))
    } else if opcode == opcodes::F32ConvertI32U {
        Some(Handler::Host(HostOp::F32ConvertI32U))
    } else if opcode == opcodes::F32ConvertI64S {
        Some(Handler::Host(HostOp::F32ConvertI64S))
    } else if opcode == opcodes::F32ConvertI64U {
        Some(Handler::Host(HostOp::F32ConvertI64U))
    } else if opcode == opcodes::F64ConvertI32S {
        Some(Handler::Host(HostOp::F64ConvertI32S))
    } else if opcode == opcodes::F64ConvertI32U {
        Some(Handler::Host(HostOp::F64ConvertI32U))
    } else if opcode == opcodes::F64ConvertI64S {
        Some(Handler::Host(HostOp::F64ConvertI64S))
    } else if opcode == opcodes::F64ConvertI64U {
        Some(Handler::Host(HostOp::F64ConvertI64U))
    } else if opcode == opcodes::F32DemoteF64 {
        Some(Handler::Host(HostOp::F32DemoteF64))
    } else if opcode == opcodes::F64PromoteF32 {
        Some(Handler::Host(HostOp::F64PromoteF32))
    } else {
        None
    }
}

/// The handler of `opcode`, and `None` for an opcode that has none.
pub fn handler_for(opcode: u8) -> (r: Option<Handler>)
    ensures
        r == handler_of(opcode),
{
    if opcode == opcodes::Call {
        Some(Handler::Call)
    } else if opcode == opcodes::Drop {
        Some(Handler::Drop)
    } else if opcode == opcodes::Select {
        Some(Handler::Select)
    } else if opcode == opcodes::I32Const {
        Some(Handler::I32Const)
    } else if opcode == opcodes::I64Const {
        Some(Handler::I64Const)
    } else if opcode == opcodes::F32Const {
        Some(Handler::F32Const)
    } else if opcode == opcodes::F64Const {
        Some(Handler::F64Const)
    } else if opcode == opcodes::I32Eqz {
        Some(Handler::I32Eqz)
    } else if opcode == opcodes::I32Eq {
        Some(Handler::I32Eq)
    } else if opcode == opcodes::I32Ne {
        Some(Handler::I32Ne)
    } else if opcode == opcodes::I32LtS {
        Some(Handler::I32LtS)
    } else if opcode == opcodes::I32LtU {
        Some(Handler::I32LtU)
    } else if opcode == opcodes::I32GtS {
        Some(Handler::I32GtS)
    } else if opcode == opcodes::I32GtU {
        Some(Handler::I32GtU)
    } else if opcode == opcodes::I32LeS {
        Some(Handler::I32LeS)
    } else if opcode == opcodes::I32LeU {
        Some(Handler::I32LeU)
    } else if opcode == opcodes::I32GeS {
        Some(Handler::I32GeS)
    } else if opcode == opcodes::I32GeU {
        Some(Handler::I32GeU)
    } else if opcode == opcodes::I32Clz {
        Some(Handler::I32Clz)
    } else if opcode == opcodes::I32Ctz {
        Some(Handler::I32Ctz)
    } else if opcode == opcodes::I32PopCnt {
        Some(Handler::I32PopCnt)
    } else if opcode == opcodes::I32Add {
        Some(Handler::I32Add)
    } else if opcode == opcodes::I32Sub {
        Some(Handler::I32Sub)
    } else if opcode == opcodes::I32Mul {
        Some(Handler::I32Mul)
    } else if opcode == opcodes::I32DivS {
        Some(Handler::I32DivS)
    } else if opcode == opcodes::I32DivU {
        Some(Handler::I32DivU)
    } else if opcode == opcodes::I32RemS {
        Some(Handler::I32RemS)
    } else if opcode == opcodes::I32RemU {
        Some(Handler::I32RemU)
    } else if opcode == opcodes::I32And {
        Some(Handler::I32And)
    } else if opcode == opcodes::I32Or {
        Some(Handler::I32Or)
    } else if opcode == opcodes::I32Xor {
        Some(Handler::I32Xor)
    } else if opcode == opcodes::I32Shl {
        Some(Handler::I32Shl)
    } else if opcode == opcodes::I32ShrS {
        Some(Handler::I32ShrS)
    } else if opcode == opcodes::I32ShrU {
        Some(Handler::I32ShrU)
    } else if opcode == opcodes::I32Rotl {
        Some(Handler::I32Rotl)
    } else if opcode == opcodes::I32Rotr {
        Some(Handler::I32Rotr)
    } else if opcode == opcodes::I64Eqz {
        Some(Handler::I64Eqz)
    } else if opcode == opcodes::I64Eq {
        Some(Handler::I64Eq)
    } else if opcode == opcodes::I64Ne {
        Some(Handler::I64Ne)
    } else if opcode == opcodes::I64LtS {
        Some(Handler::I64LtS)
    } else if opcode == opcodes::I64LtU {
        Some(Handler::I64LtU)
    } else if opcode == opcodes::I64GtS {
        Some(Handler::I64GtS)
    } else if opcode == opcodes::I64GtU {
        Some(Handler::I64GtU)
    } else if opcode == opcodes::I64LeS {
        Some(Handler::I64LeS)
    } else if opcode == opcodes::I64LeU {
        Some(Handler::I64LeU)
    } else if opcode == opcodes::I64GeS {
        Some(Handler::I64GeS)
    } else if opcode == opcodes::I64GeU {
        Some(Handler::I64GeU)
    } else if opcode == opcodes::I64Clz {
        Some(Handler::I64Clz)
    } else if opcode == opcodes::I64Ctz {
        Some(Handler::I64Ctz)
    } else if opcode == opcodes::I64PopCnt {
        Some(Handler::I64PopCnt)
    } else if opcode == opcodes::I64Add {
        Some(Handler::I64Add)
    } else if opcode == opcodes::I64Sub {
        Some(Handler::I64Sub)
    } else if opcode == opcodes::I64Mul {
        Some(Handler::I64Mul)
    } else if opcode == opcodes::I64DivS {
        Some(Handler::I64DivS)
    } else if opcode == opcodes::I64DivU {
        Some(Handler::I64DivU)
    } else if opcode == opcodes::I64RemS {
        Some(Handler::I64RemS)
    } else if opcode == opcodes::I64RemU {
        Some(Handler::I64RemU)
    } else if opcode == opcodes::I64And {
        Some(Handler::I64And)
    } else if opcode == opcodes::I64Or {
        Some(Handler::I64Or)
    } else if opcode == opcodes::I64Xor {
        Some(Handler::I64Xor)
    } else if opcode == opcodes::I64Shl {
        Some(Handler::I64Shl)
    } else if opcode == opcodes::I64ShrS {
        Some(Handler::I64ShrS)
    } else if opcode == opcodes::I64ShrU {
        Some(Handler::I64ShrU)
    } else if opcode == opcodes::I64Rotl {
        Some(Handler::I64Rotl)
    } else if opcode == opcodes::I64Rotr {
        Some(Handler::I64Rotr)
    } else if opcode == opcodes::F32Eq {
        Some(Handler::F32Eq)
    } else if opcode == opcodes::F32Ne {
        Some(Handler::F32Ne)
    } else if opcode == opcodes::F32Lt {
        Some(Handler::F32Lt)
    } else if opcode == opcodes::F32Gt {
        Some(Handler::F32Gt)
    } else if opcode == opcodes::F32Le {
        Some(Handler::F32Le)
    } else if opcode == opcodes::F32Ge {
        Some(Handler::F32Ge)
    } else if opcode == opcodes::F32Abs {
        Some(Handler::F32Abs)
    } else if opcode == opcodes::F32Neg {
        Some(Handler::F32Neg)
    } else if opcode == opcodes::F32Min {
        Some(Handler::F32Min)
    } else if opcode == opcodes::F32Max {
        Some(Handler::F32Max)
    } else if opcode == opcodes::F32CopySign {
        Some(Handler::F32CopySign)
    } else if opcode == opcodes::F64Eq {
        Some(Handler::F64Eq)
    } else if opcode == opcodes::F64Ne {
        Some(Handler::F64Ne)
    } else if opcode == opcodes::F64Lt {
        Some(Handler::F64Lt)
    } else if opcode == opcodes::F64Gt {
        Some(Handler::F64Gt)
    } else if opcode == opcodes::F64Le {
        Some(Handler::F64Le)
    } else if opcode == opcodes::F64Ge {
        Some(Handler::F64Ge)
    } else if opcode == opcodes::F64Abs {
        Some(Handler::F64Abs)
    } else if opcode == opcodes::F64Neg {
        Some(Handler::F64Neg)
    } else if opcode == opcodes::F64Min {
        Some(Handler::F64Min)
    } else if opcode == opcodes::F64Max {
        Some(Handler::F64Max)
    } else if opcode == opcodes::F64CopySign {
        Some(Handler::F64CopySign)
    } else if opcode == opcodes::I32WrapI64 {
        Some(Handler::I32WrapI64)
    } else if opcode == opcodes::I32TruncF32S {
        Some(Handler::I32TruncF32S)
    } else if opcode == opcodes::I32TruncF32U {
        Some(Handler::I32TruncF32U)
    } else if opcode == opcodes::I32TruncF64S {
        Some(Handler::I32TruncF64S)
    } else if opcode == opcodes::I32TruncF64U {
        Some(Handler::I32TruncF64U)
    } else if opcode == opcodes::I64ExtendI32S {
        Some(Handler::I64ExtendI32S)
    } else if opcode == opcodes::I64ExtendI32U {
        Some(Handler::I64ExtendI32U)
    } else if opcode == opcodes::I64TruncF32S {
        Some(Handler::I64TruncF32S)
    } else if opcode == opcodes::I64TruncF32U {
        Some(Handler::I64TruncF32U)
    } else if opcode == opcodes::I64TruncF64S {
        Some(Handler::I64TruncF64S)
    } else if opcode == opcodes::I64TruncF64U {
        Some(Handler::I64TruncF64U)
    } else if opcode == opcodes::I32Extend8S {
        Some(Handler::I32Extend8S)
    } else if opcode == opcodes::I32Extend16S {
        Some(Handler::I32Extend16S)
    } else if opcode == opcodes::I64Extend8S {
        Some(Handler::I64Extend8S)
    } else if opcode == opcodes::I64Extend16S {
        Some(Handler::I64Extend16S)
    } else if opcode == opcodes::I64Extend32S {
        Some(Handler::I64Extend32S)
    } else if opcode == opcodes::I32ReinterpretF32 {
        Some(Handler::I32ReinterpretF32)
    } else if opcode == opcodes::I64ReinterpretF64 {
        Some(Handler::I64ReinterpretF64)
    } else if opcode == opcodes::F32ReinterpretI32 {
        Some(Handler::F32ReinterpretI32)
    } else if opcode == opcodes::F64ReinterpretI64 {
        Some(Handler::F64ReinterpretI64)
    } else if opcode == opcodes::TruncSat {
        Some(Handler::TruncSat)
    } else if opcode == opcodes::F32Ceil {
        Some(Handler::Host(HostOp::F32Ceil))
    } else if opcode == opcodes::F32Floor {
        Some(Handler::Host(HostOp::F32Floor))
    } else if opcode == opcodes::F32Trunc {
        Some(Handler::Host(HostOp::F32Trunc))
    } else if opcode == opcodes::F32Nearest {
        Some(Handler::Host(HostOp::F32Nearest))
    } else if opcode == opcodes::F32Sqrt {
        Some(Handler::Host(HostOp::F32Sqrt))
    } else if opcode == opcodes::F32Add {
        Some(Handler::Host(HostOp::F32Add))
    } else if opcode == opcodes::F32Sub {
        Some(Handler::Host(HostOp::F32Sub))
    } else if opcode == opcodes::F32Mul {
        Some(Handler::Host(HostOp::F32Mul))
    } else if opcode == opcodes::F32Div {
        Some(Handler::Host(HostOp::F32Div))
    } else if opcode == opcodes::F64Ceil {
        Some(Handler::Host(HostOp::F64Ceil))
    } else if opcode == opcodes::F64Floor {
        Some(Handler::Host(HostOp::F64Floor))
    } else if opcode == opcodes::F64Trunc {
        Some(Handler::Host(HostOp::F64Trunc))
    } else if opcode == opcodes::F64Nearest {
        Some(Handler::Host(HostOp::F64Nearest))
    } else if opcode == opcodes::F64Sqrt {
        Some(Handler::Host(HostOp::F64Sqrt))
    } else if opcode == opcodes::F64Add {
        Some(Handler::Host(HostOp::F64Add))
    } else if opcode == opcodes::F64Sub {
        Some(Handler::Host(HostOp::F64Sub))
    } else if opcode == opcodes::F64Mul {
        Some(Handler::Host(HostOp::F64Mul))
    } else if opcode == opcodes::F64Div {
        Some(Handler::Host(HostOp::F64Div))
    } else if opcode == opcodes::F32ConvertI32S {
        Some(Handler::Host(HostOp::F32ConvertI32S))
    } else if opcode == opcodes::F32ConvertI32U {
        Some(Handler::Host(HostOp::F32ConvertI32U))
    } else if opcode == opcodes::F32ConvertI64S {
        Some(Handler::Host(HostOp::F32ConvertI64S))
    } else if opcode == opcodes::F32ConvertI64U {
        Some(Handler::Host(HostOp::F32ConvertI64U))
    } else if opcode == opcodes::F64ConvertI32S {
        Some(Handler::Host(HostOp::F64ConvertI32S))
    } else if opcode == opcodes::F64ConvertI32U {
        Some(Handler::Host(HostOp::F64ConvertI32U))
    } else if opcode == opcodes::F64ConvertI64S {
        Some(Handler::Host(HostOp::F64ConvertI64S))
    } else if opcode == opcodes::F64ConvertI64U {
        Some(Handler::Host(HostOp::F64ConvertI64U))
    } else if opcode == opcodes::F32DemoteF64 {
        Some(Handler::Host(HostOp::F32DemoteF64))
    } else if opcode == opcodes::F64PromoteF32 {
        Some(Handler::Host(HostOp::F64PromoteF32))
    } else {
        None
    }
}

/// Whether `table` holds at each opcode the handler of that opcode.
pub open spec fn is_dispatch_table(table: Seq<Option<Handler>>) -> bool {
    &&& table.len() == 256
    &&& forall|opcode: u8| #[trigger] table[opcode as int] == handler_of(opcode)
}

/// The dispatch table: 256 entries, one for each opcode.
pub fn init() -> (table: Vec<Option<Handler>>)
    ensures
        is_dispatch_table(table@),
{
    let mut table: Vec<Option<Handler>> = Vec::new();
    let mut i: usize = 0;
    while i < 256
        invariant
            i <= 256,
            table@.len() == i,
            forall|opcode: u8| opcode < i ==> #[trigger] table@[opcode as int] == handler_of(opcode),
        decreases 256 - i,
    {
        table.push(handler_for(i as u8));
        i = i + 1;
    }
    table
}

/// The instruction that the host has to carry out after `h`, if any.
pub open spec fn host_of(h: Handler) -> Option<HostOp> {
    match h {
        Handler::Host(op) => Some(op),
        _ => None,
    }
}

/// What the handler `h` makes of `s` where the instruction has the
/// argument `args`. A handler of the host leaves the stack to the host.
pub open spec fn handler_effect(h: Handler, args: ArgsEnum, s: Seq<ArgsEnum>) -> Result<
    Seq<ArgsEnum>,
    Trap,
> {
    match h {
        Handler::Call => Ok(s),
        Handler::Drop => Ok(
            if s.len() > 0 {
                s.drop_last()
            } else {
                s
            },
        ),
        Handler::Select => select_effect(s),
        Handler::I32Const => match args {
            ArgsEnum::I32(v) => Ok(s.push(ArgsEnum::I32(v))),
            _ => Err(Trap::InvalidArgument),
        },
        Handler::I64Const => match args {
            ArgsEnum::I64(v) => Ok(s.push(ArgsEnum::I64(v))),
            _ => Err(Trap::InvalidArgument),
        },
        Handler::F32Const => match args {
            ArgsEnum::F32(v) => Ok(s.push(ArgsEnum::F32(v))),
            _ => Err(Trap::InvalidArgument),
        },
        Handler::F64Const => match args {
            ArgsEnum::F64(v) => Ok(s.push(ArgsEnum::F64(v))),
            _ => Err(Trap::InvalidArgument),
        },
        Handler::I32Eqz => i32_eqz_effect(s),
        Handler::I32Eq => i32_eq_effect(s),
        Handler::I32Ne => i32_ne_effect(s),
        Handler::I32LtS => i32_lts_effect(s),
        Handler::I32LtU => i32_ltu_effect(s),
        Handler::I32GtS => i32_gts_effect(s),
        Handler::I32GtU => i32_gtu_effect(s),
        Handler::I32LeS => i32_les_effect(s),
        Handler::I32LeU => i32_leu_effect(s),
        Handler::I32GeS => i32_ges_effect(s),
        Handler::I32GeU => i32_geu_effect(s),
        Handler::I32Clz => i32_clz_effect(s),
        Handler::I32Ctz => i32_ctz_effect(s),
        Handler::I32PopCnt => i32_popcnt_effect(s),
        Handler::I32Add => i32_add_effect(s),
        Handler::I32Sub => i32_sub_effect(s),
        Handler::I32Mul => i32_mul_effect(s),
        Handler::I32DivS => i32_divs_effect(s),
        Handler::I32DivU => i32_divu_effect(s),
        Handler::I32RemS => i32_rems_effect(s),
        Handler::I32RemU => i32_remu_effect(s),
        Handler::I32And => i32_and_effect(s),
        Handler::I32Or => i32_or_effect(s),
        Handler::I32Xor => i32_xor_effect(s),
        Handler::I32Shl => i32_shl_effect(s),
        Handler::I32ShrS => i32_shrs_effect(s),
        Handler::I32ShrU => i32_shru_effect(s),
        Handler::I32Rotl => i32_rotl_effect(s),
        Handler::I32Rotr => i32_rotr_effect(s),
        Handler::I64Eqz => i64_eqz_effect(s),
        Handler::I64Eq => i64_eq_effect(s),
        Handler::I64Ne => i64_ne_effect(s),
        Handler::I64LtS => i64_lts_effect(s),
        Handler::I64LtU => i64_ltu_effect(s),
        Handler::I64GtS => i64_gts_effect(s),
        Handler::I64GtU => i64_gtu_effect(s),
        Handler::I64LeS => i64_les_effect(s),
        Handler::I64LeU => i64_leu_effect(s),
        Handler::I64GeS => i64_ges_effect(s),
        Handler::I64GeU => i64_geu_effect(s),
        Handler::I64Clz => i64_clz_effect(s),
        Handler::I64Ctz => i64_ctz_effect(s),
        Handler::I64PopCnt => i64_popcnt_effect(s),
        Handler::I64Add => i64_add_effect(s),
        Handler::I64Sub => i64_sub_effect(s),
        Handler::I64Mul => i64_mul_effect(s),
        Handler::I64DivS => i64_divs_effect(s),
        Handler::I64DivU => i64_divu_effect(s),
        Handler::I64RemS => i64_rems_effect(s),
        Handler::I64RemU => i64_remu_effect(s),
        Handler::I64And => i64_and_effect(s),
        Handler::I64Or => i64_or_effect(s),
        Handler::I64Xor => i64_xor_effect(s),
        Handler::I64Shl => i64_shl_effect(s),
        Handler::I64ShrS => i64_shrs_effect(s),
        Handler::I64ShrU => i64_shru_effect(s),
        Handler::I64Rotl => i64_rotl_effect(s),
        Handler::I64Rotr => i64_rotr_effect(s),
        Handler::F32Eq => f32_eq_effect(s),
        Handler::F32Ne => f32_ne_effect(s),
        Handler::F32Lt => f32_lt_effect(s),
        Handler::F32Gt => f32_gt_effect(s),
        Handler::F32Le => f32_le_effect(s),
        Handler::F32Ge => f32_ge_effect(s),
        Handler::F32Abs => f32_abs_effect(s),
        Handler::F32Neg => f32_neg_effect(s),
        Handler::F32Min => f32_min_effect(s),
        Handler::F32Max => f32_max_effect(s),
        Handler::F32CopySign => f32_copy_sign_effect(s),
        Handler::F64Eq => f64_eq_effect(s),
        Handler::F64Ne => f64_ne_effect(s),
        Handler::F64Lt => f64_lt_effect(s),
        Handler::F64Gt => f64_gt_effect(s),
        Handler::F64Le => f64_le_effect(s),
        Handler::F64Ge => f64_ge_effect(s),
        Handler::F64Abs => f64_abs_effect(s),
        Handler::F64Neg => f64_neg_effect(s),
        Handler::F64Min => f64_min_effect(s),
        Handler::F64Max => f64_max_effect(s),
        Handler::F64CopySign => f64_copy_sign_effect(s),
        Handler::I32WrapI64 => i32_warp_i64_effect(s),
        Handler::I32TruncF32S => i32_trunc_f32_s_effect(s),
        Handler::I32TruncF32U => i32_trunc_f32_u_effect(s),
        Handler::I32TruncF64S => i32_trunc_f64_s_effect(s),
        Handler::I32TruncF64U => i32_trunc_f64_u_effect(s),
        Handler::I64ExtendI32S => i64_extend_i32_s_effect(s),
        Handler::I64ExtendI32U => i64_extend_i32_u_effect(s),
        Handler::I64TruncF32S => i64_trunc_f32_s_effect(s),
        Handler::I64TruncF32U => i64_trunc_f32_u_effect(s),
        Handler::I64TruncF64S => i64_trunc_f64_s_effect(s),
        Handler::I64TruncF64U => i64_trunc_f64_u_effect(s),
        Handler::I32Extend8S => i32_extend_8_s_effect(s),
        Handler::I32Extend16S => i32_extend_16_s_effect(s),
        Handler::I64Extend8S => i64_extend_8_s_effect(s),
        Handler::I64Extend16S => i64_extend_16_s_effect(s),
        Handler::I64Extend32S => i64_extend_32_s_effect(s),
        Handler::I32ReinterpretF32 => i32_reinterpret_f32_effect(s),
        Handler::I64ReinterpretF64 => i64_reinterpret_f64_effect(s),
        Handler::F32ReinterpretI32 => f32_reinterpret_i32_effect(s),
        Handler::F64ReinterpretI64 => f64_reinterpret_i64_effect(s),
        Handler::TruncSat => match args {
            ArgsEnum::U8(v) => trunc_sat_effect(s, v),
            _ => Err(Trap::InvalidArgument),
        },
        Handler::Host(_) => Ok(s),
    }
}

/// What carrying out `opcode` by `table` makes of `s`.
pub open spec fn dispatch_effect(
    table: Seq<Option<Handler>>,
    opcode: u8,
    args: ArgsEnum,
    s: Seq<ArgsEnum>,
) -> Result<Seq<ArgsEnum>, Trap> {
    if opcode >= table.len() {
        Err(Trap::NoHandler)
    } else {
        match table[opcode as int] {
            None => Err(Trap::NoHandler),
            Some(h) => handler_effect(h, args, s),
        }
    }
}

impl Vm {
    /// The module that is being run.
    pub closed spec fn module(&self) -> Module {
        self.module
    }

    /// A machine that runs `var2` on the stack `var1`.
    pub fn new(var1: OperandStack, var2: Module) -> (vm: Vm)
        ensures
            vm@ == var1@,
            vm.module() == var2,
    {
        Vm { operand_stack: var1, module: var2 }
    }

    /// Pushes a value onto the operand stack.
    pub fn push(&mut self, val: ArgsEnum)
        ensures
            final(self)@ == old(self)@.push(val),
            final(self).module() == old(self).module(),
    {
        self.operand_stack.push(val);
    }

    /// Pops the top of the operand stack; `None` where the stack is empty.
    pub fn pop(&mut self) -> (r: Option<ArgsEnum>)
        ensures
            popped(old(self)@, final(self)@),
            r == top(old(self)@),
            final(self).module() == old(self).module(),
    {
        self.operand_stack.pop()
    }

    /// The `U32` that lies `depth` places below the top of the stack.
    fn get_u32(&self, depth: usize) -> (r: Result<u32, Trap>)
        ensures
            r == operand_u32(self@, depth as nat),
    {
        match self.operand_stack.peek(depth) {
            None => Err(Trap::StackUnderflow),
            Some(ArgsEnum::U32(v)) => Ok(*v),
            Some(_) => Err(Trap::TypeMismatch),
        }
    }

    /// The `I32` that lies `depth` places below the top of the stack.
    fn get_i32(&self, depth: usize) -> (r: Result<i32, Trap>)
        ensures
            r == operand_i32(self@, depth as nat),
    {
        match self.operand_stack.peek(depth) {
            None => Err(Trap::StackUnderflow),
            Some(ArgsEnum::I32(v)) => Ok(*v),
            Some(_) => Err(Trap::TypeMismatch),
        }
    }

    /// The `U64` that lies `depth` places below the top of the stack.
    fn get_u64(&self, depth: usize) -> (r: Result<u64, Trap>)
        ensures
            r == operand_u64(self@, depth as nat),
    {
        match self.operand_stack.peek(depth) {
            None => Err(Trap::StackUnderflow),
            Some(ArgsEnum::U64(v)) => Ok(*v),
            Some(_) => Err(Trap::TypeMismatch),
        }
    }

    /// The `I64` that lies `depth` places below the top of the stack.
    fn get_i64(&self, depth: usize) -> (r: Result<i64, Trap>)
        ensures
            r == operand_i64(self@, depth as nat),
    {
        match self.operand_stack.peek(depth) {
            None => Err(Trap::StackUnderflow),
            Some(ArgsEnum::I64(v)) => Ok(*v),
            Some(_) => Err(Trap::TypeMismatch),
        }
    }

    /// The `F32` that lies `depth` places below the top of the stack.
    fn get_f32(&self, depth: usize) -> (r: Result<u32, Trap>)
        ensures
            r == operand_f32(self@, depth as nat),
    {
        match self.operand_stack.peek(depth) {
            None => Err(Trap::StackUnderflow),
            Some(ArgsEnum::F32(v)) => Ok(*v),
            Some(_) => Err(Trap::TypeMismatch),
        }
    }

    /// The `F64` that lies `depth` places below the top of the stack.
    fn get_f64(&self, depth: usize) -> (r: Result<u64, Trap>)
        ensures
            r == operand_f64(self@, depth as nat),
    {
        match self.operand_stack.peek(depth) {
            None => Err(Trap::StackUnderflow),
            Some(ArgsEnum::F64(v)) => Ok(*v),
            Some(_) => Err(Trap::TypeMismatch),
        }
    }

    /// The `Bool` that lies `depth` places below the top of the stack.
    fn get_bool(&self, depth: usize) -> (r: Result<bool, Trap>)
        ensures
            r == operand_bool(self@, depth as nat),
    {
        match self.operand_stack.peek(depth) {
            None => Err(Trap::StackUnderflow),
            Some(ArgsEnum::Bool(v)) => Ok(*v),
            Some(_) => Err(Trap::TypeMismatch),
        }
    }

    /// Replaces the `n` values on top of the stack by `v`.
    fn replace(&mut self, n: usize, v: ArgsEnum)
        requires
            n <= old(self)@.len(),
        ensures
            final(self)@ == old(self)@.subrange(0, old(self)@.len() - n).push(v),
            final(self).module() == old(self).module(),
    {
        let ghost before = self@;
        let mut i: usize = 0;
        while i < n
            invariant
                i <= n <= before.len(),
                self@ == before.subrange(0, before.len() - i),
                self.module() == old(self).module(),
            decreases n - i,
        {
            let _ = self.operand_stack.pop();
            i = i + 1;
            assert(before.subrange(0, before.len() - (i - 1)).drop_last() =~= before.subrange(
                0,
                before.len() - i,
            ));
        }
        self.operand_stack.push(v);
    }

    /// `drop`: takes the top value off the stack, if there is one.
    pub fn drop(&mut self)
        ensures
            popped(old(self)@, final(self)@),
            final(self).module() == old(self).module(),
    {
        let _ = self.operand_stack.pop();
    }

    /// `select`: takes a `Bool` and, below it, two values of one variant,
    /// and leaves the lower one where the `Bool` is true, the upper one
    /// where it is false.
    pub fn select(&mut self) -> (r: Result<(), Trap>)
        ensures
            steps(*old(self), *final(self), r, select_effect(old(self)@)),
    {
        let c = self.get_bool(0)?;
        let same = match self.operand_stack.peek(2) {
            None => {
                return Err(Trap::StackUnderflow);
            },
            Some(v1) => match self.operand_stack.peek(1) {
                None => {
                    return Err(Trap::StackUnderflow);
                },
                Some(v2) => v1.tag() == v2.tag(),
            },
        };
        if !same {
            return Err(Trap::TypeMismatch);
        }
        let ghost before = self@;
        let _ = self.operand_stack.pop();
        if c {
            let _ = self.operand_stack.pop();
            assert(self@ =~= before.subrange(0, before.len() - 2));
        } else {
            match self.operand_stack.pop() {
                Some(v2) => {
                    let _ = self.operand_stack.pop();
                    self.operand_stack.push(v2);
                    assert(self@ =~= before.subrange(0, before.len() - 3).push(
                        before[before.len() - 2],
                    ));
                },
                None => {},
            }
        }
        Ok(())
    }

    /// `i32.const`: pushes `val` under the tag `I32`.
    pub fn i32_const(&mut self, val: i32)
        ensures
            final(self)@ == old(self)@.push(ArgsEnum::I32(val)),
            final(self).module() == old(self).module(),
    {
        self.operand_stack.push(ArgsEnum::I32(val));
    }

    /// `i64.const`: pushes `val` under the tag `I64`.
    pub fn i64_const(&mut self, val: i64)
        ensures
            final(self)@ == old(self)@.push(ArgsEnum::I64(val)),
            final(self).module() == old(self).module(),
    {
        self.operand_stack.push(ArgsEnum::I64(val));
    }

    /// `f32.const`: pushes the binary32 value with the bit pattern `val`.
    pub fn f32_const(&mut self, val: u32)
        ensures
            final(self)@ == old(self)@.push(ArgsEnum::F32(val)),
            final(self).module() == old(self).module(),
    {
        self.operand_stack.push(ArgsEnum::F32(val));
    }

    /// `f64.const`: pushes the binary64 value with the bit pattern `val`.
    pub fn f64_const(&mut self, val: u64)
        ensures
            final(self)@ == old(self)@.push(ArgsEnum::F64(val)),
            final(self).module() == old(self).module(),
    {
        self.operand_stack.push(ArgsEnum::F64(val));
    }

    /// Takes one `I32` off the stack and pushes the `Bool` that tells
    /// whether the operand is zero.
    pub fn i32_eqz(&mut self) -> (r: Result<(), Trap>)
        ensures
            steps(*old(self), *final(self), r, i32_eqz_effect(old(self)@)),
    {
        let v1 = self.get_i32(0)?;
        self.replace(1, ArgsEnum::Bool(v1 == 0));
        Ok(())
    }

    /// Takes two `I32` off the stack and pushes the `Bool` that tells
    /// whether the operands are equal.
    pub fn i32_eq(&mut self) -> (r: Result<(), Trap>)
        ensures
            steps(*old(self), *final(self), r, i32_eq_effect(old(self)@)),
    {
        let v2 = self.get_i32(0)?;
        let v1 = self.get_i32(1)?;
        self.replace(2, ArgsEnum::Bool(v1 == v2));
        Ok(())
    }

    /// Takes two `I32` off the stack and pushes the `Bool` that tells
    /// whether the operands differ.
    pub fn i32_ne(&mut self) -> (r: Result<(), Trap>)
        ensures
            steps(*old(self), *final(self), r, i32_ne_effect(old(self)@)),
    {
        let v2 = self.get_i32(0)?;
        let v1 = self.get_i32(1)?;
        self.replace(2, ArgsEnum::Bool(v1 != v2));
        Ok(())
    }

    /// Takes two `I32` off the stack and pushes the `Bool` that tells
    /// whether the first operand is less than the second, both signed.
    pub fn i32_lts(&mut self) -> (r: Result<(), Trap>)
        ensures
            steps(*old(self), *final(self), r, i32_lts_effect(old(self)@)),
    {
        let v2 = self.get_i32(0)?;
        let v1 = self.get_i32(1)?;
        self.replace(2, ArgsEnum::Bool(v1 < v2));
        Ok(())
    }

    /// Takes two `U32` off the stack and pushes the `Bool` that tells
    /// whether the first operand is less than the second, both unsigned.
    pub fn i32_ltu(&mut self) -> (r: Result<(), Trap>)
        ensures
            steps(*old(self), *final(self), r, i32_ltu_effect(old(self)@)),
    {
        let v2 = self.get_u32(0)?;
        let v1 = self.get_u32(1)?;
        self.replace(2, ArgsEnum::Bool(v1 < v2));
        Ok(())
    }

    /// Takes two `I32` off the stack and pushes the `Bool` that tells
    /// whether the first operand is greater than the second, both signed.
    pub fn i32_gts(&mut self) -> (r: Result<(), Trap>)
        ensures
            steps(*old(self), *final(self), r, i32_gts_effect(old(self)@)),
    {
        let v2 = self.get_i32(0)?;
        let v1 = self.get_i32(1)?;
        self.replace(2, ArgsEnum::Bool(v1 > v2));
        Ok(())
    }

    /// Takes two `U32` off the stack and pushes the `Bool` that tells
    /// whether the first operand is greater than the second, both
    /// unsigned.
    pub fn i32_gtu(&mut self) -> (r: Result<(), Trap>)
        ensures
            steps(*old(self), *final(self), r, i32_gtu_effect(old(self)@)),
    {
        let v2 = self.get_u32(0)?;
        let v1 = self.get_u32(1)?;
        self.replace(2, ArgsEnum::Bool(v1 > v2));
        Ok(())
    }

    /// Takes two `I32` off the stack and pushes the `Bool` that tells
    /// whether the first operand is at most the second, both signed.
    pub fn i32_les(&mut self) -> (r: Result<(), Trap>)
        ensures
            steps(*old(self), *final(self), r, i32_les_effect(old(self)@)),
    {
        let v2 = self.get_i32(0)?;
        let v1 = self.get_i32(1)?;
        self.replace(2, ArgsEnum::Bool(v1 <= v2));
        Ok(())
    }

    /// Takes two `U32` off the stack and pushes the `Bool` that tells
    /// whether the first operand is at most the second, both unsigned.
    pub fn i32_leu(&mut self) -> (r: Result<(), Trap>)
        ensures
            steps(*old(self), *final(self), r, i32_leu_effect(old(self)@)),
    {
        let v2 = self.get_u32(0)?;
        let v1 = self.get_u32(1)?;
        self.replace(2, ArgsEnum::Bool(v1 <= v2));
        Ok(())
    }

    /// Takes two `I32` off the stack and pushes the `Bool` that tells
    /// whether the first operand is at least the second, both signed.
    pub fn i32_ges(&mut self) -> (r: Result<(), Trap>)
        ensures
            steps(*old(self), *final(self), r, i32_ges_effect(old(self)@)),
    {
        let v2 = self.get_i32(0)?;
        let v1 = self.get_i32(1)?;
        self.replace(2, ArgsEnum::Bool(v1 >= v2));
        Ok(())
    }

    /// Takes two `U32` off the stack and pushes the `Bool` that tells
    /// whether the first operand is at least the second, both unsigned.
    pub fn i32_geu(&mut self) -> (r: Result<(), Trap>)
        ensures
            steps(*old(self), *final(self), r, i32_geu_effect(old(self)@)),
    {
        let v2 = self.get_u32(0)?;
        let v1 = self.get_u32(1)?;
        self.replace(2, ArgsEnum::Bool(v1 >= v2));
        Ok(())
    }

    /// Takes one `U32` off the stack and pushes the number of zero bits
    /// above the highest one bit.
    pub fn i32_clz(&mut self) -> (r: Result<(), Trap>)
        ensures
            steps(*old(self), *final(self), r, i32_clz_effect(old(self)@)),
    {
        let v1 = self.get_u32(0)?;
        self.replace(1, ArgsEnum::U32(lzcnt32(v1)));
        Ok(())
    }

    /// Takes one `U32` off the stack and pushes the number of zero bits
    /// below the lowest one bit.
    pub fn i32_ctz(&mut self) -> (r: Result<(), Trap>)
        ensures
            steps(*old(self), *final(self), r, i32_ctz_effect(old(self)@)),
    {
        let v1 = self.get_u32(0)?;
        self.replace(1, ArgsEnum::U32(tzcnt32(v1)));
        Ok(())
    }

    /// Takes one `U32` off the stack and pushes the number of one bits.
    pub fn i32_popcnt(&mut self) -> (r: Result<(), Trap>)
        ensures
            steps(*old(self), *final(self), r, i32_popcnt_effect(old(self)@)),
    {
        let v1 = self.get_u32(0)?;
        self.replace(1, ArgsEnum::U32(popcnt32(v1)));
        Ok(())
    }

    /// Takes two `U32` off the stack and pushes the sum modulo 2^32.
    pub fn i32_add(&mut self) -> (r: Result<(), Trap>)
        ensures
            steps(*old(self), *final(self), r, i32_add_effect(old(self)@)),
    {
        let v2 = self.get_u32(0)?;
        let v1 = self.get_u32(1)?;
        self.replace(2, ArgsEnum::U32(v1.wrapping_add(v2)));
        Ok(())
    }

    /// Takes two `U32` off the stack and pushes the difference modulo
    /// 2^32.
    pub fn i32_sub(&mut self) -> (r: Result<(), Trap>)
        ensures
            steps(*old(self), *final(self), r, i32_sub_effect(old(self)@)),
    {
        let v2 = self.get_u32(0)?;
        let v1 = self.get_u32(1)?;
        self.replace(2, ArgsEnum::U32(v1.wrapping_sub(v2)));
        Ok(())
    }

    /// Takes two `U32` off the stack and pushes the product modulo 2^32.
    pub fn i32_mul(&mut self) -> (r: Result<(), Trap>)
        ensures
            steps(*old(self), *final(self), r, i32_mul_effect(old(self)@)),
    {
        let v2 = self.get_u32(0)?;
        let v1 = self.get_u32(1)?;
        self.replace(2, ArgsEnum::U32(v1.wrapping_mul(v2)));
        Ok(())
    }

    /// Takes two `I32` off the stack and pushes the signed quotient,
    /// rounded toward zero. Traps where the divisor is zero, and where the
    /// quotient is one more than the largest number.
    pub fn i32_divs(&mut self) -> (r: Result<(), Trap>)
        ensures
            steps(*old(self), *final(self), r, i32_divs_effect(old(self)@)),
    {
        let v2 = self.get_i32(0)?;
        let v1 = self.get_i32(1)?;
        if v2 == 0 {
            return Err(Trap::DivideByZero);
        }
        if v1 == i32::MIN && v2 == -1 {
            return Err(Trap::IntegerOverflow);
        }
        self.replace(2, ArgsEnum::I32(v1 / v2));
        Ok(())
    }

    /// Takes two `U32` off the stack and pushes the unsigned quotient.
    /// Traps where the divisor is zero.
    pub fn i32_divu(&mut self) -> (r: Result<(), Trap>)
        ensures
            steps(*old(self), *final(self), r, i32_divu_effect(old(self)@)),
    {
        let v2 = self.get_u32(0)?;
        let v1 = self.get_u32(1)?;
        if v2 == 0 {
            return Err(Trap::DivideByZero);
        }
        self.replace(2, ArgsEnum::U32(v1 / v2));
        Ok(())
    }

    /// Takes two `I32` off the stack and pushes the signed remainder,
    /// which has the sign of the dividend. Traps where the divisor is
    /// zero.
    pub fn i32_rems(&mut self) -> (r: Result<(), Trap>)
        ensures
            steps(*old(self), *final(self), r, i32_rems_effect(old(self)@)),
    {
        let v2 = self.get_i32(0)?;
        let v1 = self.get_i32(1)?;
        if v2 == 0 {
            return Err(Trap::DivideByZero);
        }
        self.replace(2, ArgsEnum::I32(if v2 == -1 {
            0
        } else {
            v1 % v2
        }));
        Ok(())
    }

    /// Takes two `U32` off the stack and pushes the unsigned remainder.
    /// Traps where the divisor is zero.
    pub fn i32_remu(&mut self) -> (r: Result<(), Trap>)
        ensures
            steps(*old(self), *final(self), r, i32_remu_effect(old(self)@)),
    {
        let v2 = self.get_u32(0)?;
        let v1 = self.get_u32(1)?;
        if v2 == 0 {
            return Err(Trap::DivideByZero);
        }
        self.replace(2, ArgsEnum::U32(v1 % v2));
        Ok(())
    }

    /// Takes two `U32` off the stack and pushes the bitwise and.
    pub fn i32_and(&mut self) -> (r: Result<(), Trap>)
        ensures
            steps(*old(self), *final(self), r, i32_and_effect(old(self)@)),
    {
        let v2 = self.get_u32(0)?;
        let v1 = self.get_u32(1)?;
        self.replace(2, ArgsEnum::U32(v1 & v2));
        Ok(())
    }

    /// Takes two `U32` off the stack and pushes the bitwise or.
    pub fn i32_or(&mut self) -> (r: Result<(), Trap>)
        ensures
            steps(*old(self), *final(self), r, i32_or_effect(old(self)@)),
    {
        let v2 = self.get_u32(0)?;
        let v1 = self.get_u32(1)?;
        self.replace(2, ArgsEnum::U32(v1 | v2));
        Ok(())
    }

    /// Takes two `U32` off the stack and pushes the bitwise exclusive or.
    pub fn i32_xor(&mut self) -> (r: Result<(), Trap>)
        ensures
            steps(*old(self), *final(self), r, i32_xor_effect(old(self)@)),
    {
        let v2 = self.get_u32(0)?;
        let v1 = self.get_u32(1)?;
        self.replace(2, ArgsEnum::U32(v1 ^ v2));
        Ok(())
    }

    /// Takes two `U32` off the stack and pushes the first operand shifted
    /// left by the second modulo 32.
    pub fn i32_shl(&mut self) -> (r: Result<(), Trap>)
        ensures
            steps(*old(self), *final(self), r, i32_shl_effect(old(self)@)),
    {
        let v2 = self.get_u32(0)?;
        let v1 = self.get_u32(1)?;
        self.replace(2, ArgsEnum::U32(v1 << (v2 % 32)));
        Ok(())
    }

    /// Takes two `I32` off the stack and pushes the first operand shifted
    /// right by the second modulo 32, the sign filling in from the left.
    pub fn i32_shrs(&mut self) -> (r: Result<(), Trap>)
        ensures
            steps(*old(self), *final(self), r, i32_shrs_effect(old(self)@)),
    {
        let v2 = self.get_i32(0)?;
        let v1 = self.get_i32(1)?;
        let k = (((v2 % 32) + 32) % 32) as u32;
        self.replace(2, ArgsEnum::I32(v1 >> k));
        Ok(())
    }

    /// Takes two `U32` off the stack and pushes the first operand shifted
    /// right by the second modulo 32, zeros filling in from the left.
    pub fn i32_shru(&mut self) -> (r: Result<(), Trap>)
        ensures
            steps(*old(self), *final(self), r, i32_shru_effect(old(self)@)),
    {
        let v2 = self.get_u32(0)?;
        let v1 = self.get_u32(1)?;
        self.replace(2, ArgsEnum::U32(v1 >> (v2 % 32)));
        Ok(())
    }

    /// Takes two `U32` off the stack and pushes the first operand rotated
    /// left by the second.
    pub fn i32_rotl(&mut self) -> (r: Result<(), Trap>)
        ensures
            steps(*old(self), *final(self), r, i32_rotl_effect(old(self)@)),
    {
        let v2 = self.get_u32(0)?;
        let v1 = self.get_u32(1)?;
        self.replace(2, ArgsEnum::U32(rotate_left32(v1, v2)));
        Ok(())
    }

    /// Takes two `U32` off the stack and pushes the first operand rotated
    /// right by the second.
    pub fn i32_rotr(&mut self) -> (r: Result<(), Trap>)
        ensures
            steps(*old(self), *final(self), r, i32_rotr_effect(old(self)@)),
    {
        let v2 = self.get_u32(0)?;
        let v1 = self.get_u32(1)?;
        self.replace(2, ArgsEnum::U32(rotate_right32(v1, v2)));
        Ok(())
    }

    /// Takes one `I64` off the stack and pushes the `Bool` that tells
    /// whether the operand is zero.
    pub fn i64_eqz(&mut self) -> (r: Result<(), Trap>)
        ensures
            steps(*old(self), *final(self), r, i64_eqz_effect(old(self)@)),
    {
        let v1 = self.get_i64(0)?;
        self.replace(1, ArgsEnum::Bool(v1 == 0));
        Ok(())
    }

    /// Takes two `I64` off the stack and pushes the `Bool` that tells
    /// whether the operands are equal.
    pub fn i64_eq(&mut self) -> (r: Result<(), Trap>)
        ensures
            steps(*old(self), *final(self), r, i64_eq_effect(old(self)@)),
    {
        let v2 = self.get_i64(0)?;
        let v1 = self.get_i64(1)?;
        self.replace(2, ArgsEnum::Bool(v1 == v2));
        Ok(())
    }

    /// Takes two `I64` off the stack and pushes the `Bool` that tells
    /// whether the operands differ.
    pub fn i64_ne(&mut self) -> (r: Result<(), Trap>)
        ensures
            steps(*old(self), *final(self), r, i64_ne_effect(old(self)@)),
    {
        let v2 = self.get_i64(0)?;
        let v1 = self.get_i64(1)?;
        self.replace(2, ArgsEnum::Bool(v1 != v2));
        Ok(())
    }

    /// Takes two `I64` off the stack and pushes the `Bool` that tells
    /// whether the first operand is less than the second, both signed.
    pub fn i64_lts(&mut self) -> (r: Result<(), Trap>)
        ensures
            steps(*old(self), *final(self), r, i64_lts_effect(old(self)@)),
    {
        let v2 = self.get_i64(0)?;
        let v1 = self.get_i64(1)?;
        self.replace(2, ArgsEnum::Bool(v1 < v2));
        Ok(())
    }

    /// Takes two `U64` off the stack and pushes the `Bool` that tells
    /// whether the first operand is less than the second, both unsigned.
    pub fn i64_ltu(&mut self) -> (r: Result<(), Trap>)
        ensures
            steps(*old(self), *final(self), r, i64_ltu_effect(old(self)@)),
    {
        let v2 = self.get_u64(0)?;
        let v1 = self.get_u64(1)?;
        self.replace(2, ArgsEnum::Bool(v1 < v2));
        Ok(())
    }

    /// Takes two `I64` off the stack and pushes the `Bool` that tells
    /// whether the first operand is greater than the second, both signed.
    pub fn i64_gts(&mut self) -> (r: Result<(), Trap>)
        ensures
            steps(*old(self), *final(self), r, i64_gts_effect(old(self)@)),
    {
        let v2 = self.get_i64(0)?;
        let v1 = self.get_i64(1)?;
        self.replace(2, ArgsEnum::Bool(v1 > v2));
        Ok(())
    }

    /// Takes two `U64` off the stack and pushes the `Bool` that tells
    /// whether the first operand is greater than the second, both
    /// unsigned.
    pub fn i64_gtu(&mut self) -> (r: Result<(), Trap>)
        ensures
            steps(*old(self), *final(self), r, i64_gtu_effect(old(self)@)),
    {
        let v2 = self.get_u64(0)?;
        let v1 = self.get_u64(1)?;
        self.replace(2, ArgsEnum::Bool(v1 > v2));
        Ok(())
    }

    /// Takes two `I64` off the stack and pushes the `Bool` that tells
    /// whether the first operand is at most the second, both signed.
    pub fn i64_les(&mut self) -> (r: Result<(), Trap>)
        ensures
            steps(*old(self), *final(self), r, i64_les_effect(old(self)@)),
    {
        let v2 = self.get_i64(0)?;
        let v1 = self.get_i64(1)?;
        self.replace(2, ArgsEnum::Bool(v1 <= v2));
        Ok(())
    }

    /// Takes two `U64` off the stack and pushes the `Bool` that tells
    /// whether the first operand is at most the second, both unsigned.
    pub fn i64_leu(&mut self) -> (r: Result<(), Trap>)
        ensures
            steps(*old(self), *final(self), r, i64_leu_effect(old(self)@)),
    {
        let v2 = self.get_u64(0)?;
        let v1 = self.get_u64(1)?;
        self.replace(2, ArgsEnum::Bool(v1 <= v2));
        Ok(())
    }

    /// Takes two `I64` off the stack and pushes the `Bool` that tells
    /// whether the first operand is at least the second, both signed.
    pub fn i64_ges(&mut self) -> (r: Result<(), Trap>)
        ensures
            steps(*old(self), *final(self), r, i64_ges_effect(old(self)@)),
    {
        let v2 = self.get_i64(0)?;
        let v1 = self.get_i64(1)?;
        self.replace(2, ArgsEnum::Bool(v1 >= v2));
        Ok(())
    }

    /// Takes two `U64` off the stack and pushes the `Bool` that tells
    /// whether the first operand is at least the second, both unsigned.
    pub fn i64_geu(&mut self) -> (r: Result<(), Trap>)
        ensures
            steps(*old(self), *final(self), r, i64_geu_effect(old(self)@)),
    {
        let v2 = self.get_u64(0)?;
        let v1 = self.get_u64(1)?;
        self.replace(2, ArgsEnum::Bool(v1 >= v2));
        Ok(())
    }

    /// Takes one `U64` off the stack and pushes the number of zero bits
    /// above the highest one bit.
    pub fn i64_clz(&mut self) -> (r: Result<(), Trap>)
        ensures
            steps(*old(self), *final(self), r, i64_clz_effect(old(self)@)),
    {
        let v1 = self.get_u64(0)?;
        self.replace(1, ArgsEnum::U64(lzcnt64(v1)));
        Ok(())
    }

    /// Takes one `U64` off the stack and pushes the number of zero bits
    /// below the lowest one bit.
    pub fn i64_ctz(&mut self) -> (r: Result<(), Trap>)
        ensures
            steps(*old(self), *final(self), r, i64_ctz_effect(old(self)@)),
    {
        let v1 = self.get_u64(0)?;
        self.replace(1, ArgsEnum::U64(tzcnt64(v1)));
        Ok(())
    }

    /// Takes one `U64` off the stack and pushes the number of one bits.
    pub fn i64_popcnt(&mut self) -> (r: Result<(), Trap>)
        ensures
            steps(*old(self), *final(self), r, i64_popcnt_effect(old(self)@)),
    {
        let v1 = self.get_u64(0)?;
        self.replace(1, ArgsEnum::U64(popcnt64(v1)));
        Ok(())
    }

    /// Takes two `U64` off the stack and pushes the sum modulo 2^64.
    pub fn i64_add(&mut self) -> (r: Result<(), Trap>)
        ensures
            steps(*old(self), *final(self), r, i64_add_effect(old(self)@)),
    {
        let v2 = self.get_u64(0)?;
        let v1 = self.get_u64(1)?;
        self.replace(2, ArgsEnum::U64(v1.wrapping_add(v2)));
        Ok(())
    }

    /// Takes two `U64` off the stack and pushes the difference modulo
    /// 2^64.
    pub fn i64_sub(&mut self) -> (r: Result<(), Trap>)
        ensures
            steps(*old(self), *final(self), r, i64_sub_effect(old(self)@)),
    {
        let v2 = self.get_u64(0)?;
        let v1 = self.get_u64(1)?;
        self.replace(2, ArgsEnum::U64(v1.wrapping_sub(v2)));
        Ok(())
    }

    /// Takes two `U64` off the stack and pushes the product modulo 2^64.
    pub fn i64_mul(&mut self) -> (r: Result<(), Trap>)
        ensures
            steps(*old(self), *final(self), r, i64_mul_effect(old(self)@)),
    {
        let v2 = self.get_u64(0)?;
        let v1 = self.get_u64(1)?;
        self.replace(2, ArgsEnum::U64(v1.wrapping_mul(v2)));
        Ok(())
    }

    /// Takes two `I64` off the stack and pushes the signed quotient,
    /// rounded toward zero. Traps where the divisor is zero, and where the
    /// quotient is one more than the largest number.
    pub fn i64_divs(&mut self) -> (r: Result<(), Trap>)
        ensures
            steps(*old(self), *final(self), r, i64_divs_effect(old(self)@)),
    {
        let v2 = self.get_i64(0)?;
        let v1 = self.get_i64(1)?;
        if v2 == 0 {
            return Err(Trap::DivideByZero);
        }
        if v1 == i64::MIN && v2 == -1 {
            return Err(Trap::IntegerOverflow);
        }
        self.replace(2, ArgsEnum::I64(v1 / v2));
        Ok(())
    }

    /// Takes two `U64` off the stack and pushes the unsigned quotient.
    /// Traps where the divisor is zero.
    pub fn i64_divu(&mut self) -> (r: Result<(), Trap>)
        ensures
            steps(*old(self), *final(self), r, i64_divu_effect(old(self)@)),
    {
        let v2 = self.get_u64(0)?;
        let v1 = self.get_u64(1)?;
        if v2 == 0 {
            return Err(Trap::DivideByZero);
        }
        self.replace(2, ArgsEnum::U64(v1 / v2));
        Ok(())
    }

    /// Takes two `I64` off the stack and pushes the signed remainder,
    /// which has the sign of the dividend. Traps where the divisor is
    /// zero.
    pub fn i64_rems(&mut self) -> (r: Result<(), Trap>)
        ensures
            steps(*old(self), *final(self), r, i64_rems_effect(old(self)@)),
    {
        let v2 = self.get_i64(0)?;
        let v1 = self.get_i64(1)?;
        if v2 == 0 {
            return Err(Trap::DivideByZero);
        }
        self.replace(2, ArgsEnum::I64(if v2 == -1 {
            0
        } else {
            v1 % v2
        }));
        Ok(())
    }

    /// Takes two `U64` off the stack and pushes the unsigned remainder.
    /// Traps where the divisor is zero.
    pub fn i64_remu(&mut self) -> (r: Result<(), Trap>)
        ensures
            steps(*old(self), *final(self), r, i64_remu_effect(old(self)@)),
    {
        let v2 = self.get_u64(0)?;
        let v1 = self.get_u64(1)?;
        if v2 == 0 {
            return Err(Trap::DivideByZero);
        }
        self.replace(2, ArgsEnum::U64(v1 % v2));
        Ok(())
    }

    /// Takes two `U64` off the stack and pushes the bitwise and.
    pub fn i64_and(&mut self) -> (r: Result<(), Trap>)
        ensures
            steps(*old(self), *final(self), r, i64_and_effect(old(self)@)),
    {
        let v2 = self.get_u64(0)?;
        let v1 = self.get_u64(1)?;
        self.replace(2, ArgsEnum::U64(v1 & v2));
        Ok(())
    }

    /// Takes two `U64` off the stack and pushes the bitwise or.
    pub fn i64_or(&mut self) -> (r: Result<(), Trap>)
        ensures
            steps(*old(self), *final(self), r, i64_or_effect(old(self)@)),
    {
        let v2 = self.get_u64(0)?;
        let v1 = self.get_u64(1)?;
        self.replace(2, ArgsEnum::U64(v1 | v2));
        Ok(())
    }

    /// Takes two `U64` off the stack and pushes the bitwise exclusive or.
    pub fn i64_xor(&mut self) -> (r: Result<(), Trap>)
        ensures
            steps(*old(self), *final(self), r, i64_xor_effect(old(self)@)),
    {
        let v2 = self.get_u64(0)?;
        let v1 = self.get_u64(1)?;
        self.replace(2, ArgsEnum::U64(v1 ^ v2));
        Ok(())
    }

    /// Takes two `U64` off the stack and pushes the first operand shifted
    /// left by the second modulo 64.
    pub fn i64_shl(&mut self) -> (r: Result<(), Trap>)
        ensures
            steps(*old(self), *final(self), r, i64_shl_effect(old(self)@)),
    {
        let v2 = self.get_u64(0)?;
        let v1 = self.get_u64(1)?;
        self.replace(2, ArgsEnum::U64(v1 << (v2 % 64)));
        Ok(())
    }

    /// Takes two `I64` off the stack and pushes the first operand shifted
    /// right by the second modulo 64, the sign filling in from the left.
    pub fn i64_shrs(&mut self) -> (r: Result<(), Trap>)
        ensures
            steps(*old(self), *final(self), r, i64_shrs_effect(old(self)@)),
    {
        let v2 = self.get_i64(0)?;
        let v1 = self.get_i64(1)?;
        let k = (((v2 % 64) + 64) % 64) as u64;
        self.replace(2, ArgsEnum::I64(v1 >> k));
        Ok(())
    }

    /// Takes two `U64` off the stack and pushes the first operand shifted
    /// right by the second modulo 64, zeros filling in from the left.
    pub fn i64_shru(&mut self) -> (r: Result<(), Trap>)
        ensures
            steps(*old(self), *final(self), r, i64_shru_effect(old(self)@)),
    {
        let v2 = self.get_u64(0)?;
        let v1 = self.get_u64(1)?;
        self.replace(2, ArgsEnum::U64(v1 >> (v2 % 64)));
        Ok(())
    }

    /// Takes two `U64` off the stack and pushes the first operand rotated
    /// left by the second.
    pub fn i64_rotl(&mut self) -> (r: Result<(), Trap>)
        ensures
            steps(*old(self), *final(self), r, i64_rotl_effect(old(self)@)),
    {
        let v2 = self.get_u64(0)?;
        let v1 = self.get_u64(1)?;
        self.replace(2, ArgsEnum::U64(rotate_left64(v1, v2)));
        Ok(())
    }

    /// Takes two `U64` off the stack and pushes the first operand rotated
    /// right by the second.
    pub fn i64_rotr(&mut self) -> (r: Result<(), Trap>)
        ensures
            steps(*old(self), *final(self), r, i64_rotr_effect(old(self)@)),
    {
        let v2 = self.get_u64(0)?;
        let v1 = self.get_u64(1)?;
        self.replace(2, ArgsEnum::U64(rotate_right64(v1, v2)));
        Ok(())
    }

    /// Takes two `F32` off the stack and pushes the `Bool` that tells
    /// whether the operands are equal, as IEEE 754 compares them.
    pub fn f32_eq(&mut self) -> (r: Result<(), Trap>)
        ensures
            steps(*old(self), *final(self), r, f32_eq_effect(old(self)@)),
    {
        let v2 = self.get_f32(0)?;
        let v1 = self.get_f32(1)?;
        self.replace(2, ArgsEnum::Bool(eq32(v1, v2)));
        Ok(())
    }

    /// Takes two `F32` off the stack and pushes the `Bool` that tells
    /// whether the operands are not equal, as IEEE 754 compares them.
    pub fn f32_ne(&mut self) -> (r: Result<(), Trap>)
        ensures
            steps(*old(self), *final(self), r, f32_ne_effect(old(self)@)),
    {
        let v2 = self.get_f32(0)?;
        let v1 = self.get_f32(1)?;
        self.replace(2, ArgsEnum::Bool(ne32(v1, v2)));
        Ok(())
    }

    /// Takes two `F32` off the stack and pushes the `Bool` that tells
    /// whether the first is less than the second, as IEEE 754 compares
    /// them.
    pub fn f32_lt(&mut self) -> (r: Result<(), Trap>)
        ensures
            steps(*old(self), *final(self), r, f32_lt_effect(old(self)@)),
    {
        let v2 = self.get_f32(0)?;
        let v1 = self.get_f32(1)?;
        self.replace(2, ArgsEnum::Bool(lt32(v1, v2)));
        Ok(())
    }

    /// Takes two `F32` off the stack and pushes the `Bool` that tells
    /// whether the first is greater than the second, as IEEE 754 compares
    /// them.
    pub fn f32_gt(&mut self) -> (r: Result<(), Trap>)
        ensures
            steps(*old(self), *final(self), r, f32_gt_effect(old(self)@)),
    {
        let v2 = self.get_f32(0)?;
        let v1 = self.get_f32(1)?;
        self.replace(2, ArgsEnum::Bool(gt32(v1, v2)));
        Ok(())
    }

    /// Takes two `F32` off the stack and pushes the `Bool` that tells
    /// whether the first is at most the second, as IEEE 754 compares them.
    pub fn f32_le(&mut self) -> (r: Result<(), Trap>)
        ensures
            steps(*old(self), *final(self), r, f32_le_effect(old(self)@)),
    {
        let v2 = self.get_f32(0)?;
        let v1 = self.get_f32(1)?;
        self.replace(2, ArgsEnum::Bool(le32(v1, v2)));
        Ok(())
    }

    /// Takes two `F32` off the stack and pushes the `Bool` that tells
    /// whether the first is at least the second, as IEEE 754 compares
    /// them.
    pub fn f32_ge(&mut self) -> (r: Result<(), Trap>)
        ensures
            steps(*old(self), *final(self), r, f32_ge_effect(old(self)@)),
    {
        let v2 = self.get_f32(0)?;
        let v1 = self.get_f32(1)?;
        self.replace(2, ArgsEnum::Bool(ge32(v1, v2)));
        Ok(())
    }

    /// Takes one `F32` off the stack and pushes the operand without its
    /// sign.
    pub fn f32_abs(&mut self) -> (r: Result<(), Trap>)
        ensures
            steps(*old(self), *final(self), r, f32_abs_effect(old(self)@)),
    {
        let v1 = self.get_f32(0)?;
        self.replace(1, ArgsEnum::F32(abs32(v1)));
        Ok(())
    }

    /// Takes one `F32` off the stack and pushes the operand with its sign
    /// flipped.
    pub fn f32_neg(&mut self) -> (r: Result<(), Trap>)
        ensures
            steps(*old(self), *final(self), r, f32_neg_effect(old(self)@)),
    {
        let v1 = self.get_f32(0)?;
        self.replace(1, ArgsEnum::F32(neg32(v1)));
        Ok(())
    }

    /// Takes two `F32` off the stack and pushes the smaller operand; where
    /// exactly one operand is a NaN, that NaN.
    pub fn f32_min(&mut self) -> (r: Result<(), Trap>)
        ensures
            steps(*old(self), *final(self), r, f32_min_effect(old(self)@)),
    {
        let v2 = self.get_f32(0)?;
        let v1 = self.get_f32(1)?;
        self.replace(2, ArgsEnum::F32(min32(v1, v2)));
        Ok(())
    }

    /// Takes two `F32` off the stack and pushes the larger operand; where
    /// exactly one operand is a NaN, that NaN.
    pub fn f32_max(&mut self) -> (r: Result<(), Trap>)
        ensures
            steps(*old(self), *final(self), r, f32_max_effect(old(self)@)),
    {
        let v2 = self.get_f32(0)?;
        let v1 = self.get_f32(1)?;
        self.replace(2, ArgsEnum::F32(max32(v1, v2)));
        Ok(())
    }

    /// Takes two `F32` off the stack and pushes the first operand under
    /// the sign of the second.
    pub fn f32_copy_sign(&mut self) -> (r: Result<(), Trap>)
        ensures
            steps(*old(self), *final(self), r, f32_copy_sign_effect(old(self)@)),
    {
        let v2 = self.get_f32(0)?;
        let v1 = self.get_f32(1)?;
        self.replace(2, ArgsEnum::F32(copysign32(v1, v2)));
        Ok(())
    }

    /// Takes two `F64` off the stack and pushes the `Bool` that tells
    /// whether the operands are equal, as IEEE 754 compares them.
    pub fn f64_eq(&mut self) -> (r: Result<(), Trap>)
        ensures
            steps(*old(self), *final(self), r, f64_eq_effect(old(self)@)),
    {
        let v2 = self.get_f64(0)?;
        let v1 = self.get_f64(1)?;
        self.replace(2, ArgsEnum::Bool(eq64(v1, v2)));
        Ok(())
    }

    /// Takes two `F64` off the stack and pushes the `Bool` that tells
    /// whether the operands are not equal, as IEEE 754 compares them.
    pub fn f64_ne(&mut self) -> (r: Result<(), Trap>)
        ensures
            steps(*old(self), *final(self), r, f64_ne_effect(old(self)@)),
    {
        let v2 = self.get_f64(0)?;
        let v1 = self.get_f64(1)?;
        self.replace(2, ArgsEnum::Bool(ne64(v1, v2)));
        Ok(())
    }

    /// Takes two `F64` off the stack and pushes the `Bool` that tells
    /// whether the first is less than the second, as IEEE 754 compares
    /// them.
    pub fn f64_lt(&mut self) -> (r: Result<(), Trap>)
        ensures
            steps(*old(self), *final(self), r, f64_lt_effect(old(self)@)),
    {
        let v2 = self.get_f64(0)?;
        let v1 = self.get_f64(1)?;
        self.replace(2, ArgsEnum::Bool(lt64(v1, v2)));
        Ok(())
    }

    /// Takes two `F64` off the stack and pushes the `Bool` that tells
    /// whether the first is greater than the second, as IEEE 754 compares
    /// them.
    pub fn f64_gt(&mut self) -> (r: Result<(), Trap>)
        ensures
            steps(*old(self), *final(self), r, f64_gt_effect(old(self)@)),
    {
        let v2 = self.get_f64(0)?;
        let v1 = self.get_f64(1)?;
        self.replace(2, ArgsEnum::Bool(gt64(v1, v2)));
        Ok(())
    }

    /// Takes two `F64` off the stack and pushes the `Bool` that tells
    /// whether the first is at most the second, as IEEE 754 compares them.
    pub fn f64_le(&mut self) -> (r: Result<(), Trap>)
        ensures
            steps(*old(self), *final(self), r, f64_le_effect(old(self)@)),
    {
        let v2 = self.get_f64(0)?;
        let v1 = self.get_f64(1)?;
        self.replace(2, ArgsEnum::Bool(le64(v1, v2)));
        Ok(())
    }

    /// Takes two `F64` off the stack and pushes the `Bool` that tells
    /// whether the first is at least the second, as IEEE 754 compares
    /// them.
    pub fn f64_ge(&mut self) -> (r: Result<(), Trap>)
        ensures
            steps(*old(self), *final(self), r, f64_ge_effect(old(self)@)),
    {
        let v2 = self.get_f64(0)?;
        let v1 = self.get_f64(1)?;
        self.replace(2, ArgsEnum::Bool(ge64(v1, v2)));
        Ok(())
    }

    /// Takes one `F64` off the stack and pushes the operand without its
    /// sign.
    pub fn f64_abs(&mut self) -> (r: Result<(), Trap>)
        ensures
            steps(*old(self), *final(self), r, f64_abs_effect(old(self)@)),
    {
        let v1 = self.get_f64(0)?;
        self.replace(1, ArgsEnum::F64(abs64(v1)));
        Ok(())
    }

    /// Takes one `F64` off the stack and pushes the operand with its sign
    /// flipped.
    pub fn f64_neg(&mut self) -> (r: Result<(), Trap>)
        ensures
            steps(*old(self), *final(self), r, f64_neg_effect(old(self)@)),
    {
        let v1 = self.get_f64(0)?;
        self.replace(1, ArgsEnum::F64(neg64(v1)));
        Ok(())
    }

    /// Takes two `F64` off the stack and pushes the smaller operand; where
    /// exactly one operand is a NaN, that NaN.
    pub fn f64_min(&mut self) -> (r: Result<(), Trap>)
        ensures
            steps(*old(self), *final(self), r, f64_min_effect(old(self)@)),
    {
        let v2 = self.get_f64(0)?;
        let v1 = self.get_f64(1)?;
        self.replace(2, ArgsEnum::F64(min64(v1, v2)));
        Ok(())
    }

    /// Takes two `F64` off the stack and pushes the larger operand; where
    /// exactly one operand is a NaN, that NaN.
    pub fn f64_max(&mut self) -> (r: Result<(), Trap>)
        ensures
            steps(*old(self), *final(self), r, f64_max_effect(old(self)@)),
    {
        let v2 = self.get_f64(0)?;
        let v1 = self.get_f64(1)?;
        self.replace(2, ArgsEnum::F64(max64(v1, v2)));
        Ok(())
    }

    /// Takes two `F64` off the stack and pushes the first operand under
    /// the sign of the second.
    pub fn f64_copy_sign(&mut self) -> (r: Result<(), Trap>)
        ensures
            steps(*old(self), *final(self), r, f64_copy_sign_effect(old(self)@)),
    {
        let v2 = self.get_f64(0)?;
        let v1 = self.get_f64(1)?;
        self.replace(2, ArgsEnum::F64(copysign64(v1, v2)));
        Ok(())
    }

    /// Takes one `U64` off the stack and pushes the low 32 bits of a
    /// 64-bit number.
    pub fn i32_warp_i64(&mut self) -> (r: Result<(), Trap>)
        ensures
            steps(*old(self), *final(self), r, i32_warp_i64_effect(old(self)@)),
    {
        let v1 = self.get_u64(0)?;
        self.replace(1, ArgsEnum::U32((v1 % 0x1_0000_0000) as u32));
        Ok(())
    }

    /// Takes one `F32` off the stack and pushes the signed 32-bit integer
    /// that the operand truncates to. Traps on a NaN and on a value beyond
    /// the integer type.
    pub fn i32_trunc_f32_s(&mut self) -> (r: Result<(), Trap>)
        ensures
            steps(*old(self), *final(self), r, i32_trunc_f32_s_effect(old(self)@)),
    {
        let v1 = self.get_f32(0)?;
        let t = to_int32(v1, i32::MIN as i128, i32::MAX as i128)?;
        self.replace(1, ArgsEnum::I32(t as i32));
        Ok(())
    }

    /// Takes one `F32` off the stack and pushes the unsigned 32-bit
    /// integer that the operand truncates to. Traps on a NaN and on a
    /// value beyond the integer type.
    pub fn i32_trunc_f32_u(&mut self) -> (r: Result<(), Trap>)
        ensures
            steps(*old(self), *final(self), r, i32_trunc_f32_u_effect(old(self)@)),
    {
        let v1 = self.get_f32(0)?;
        let t = to_int32(v1, 0 as i128, u32::MAX as i128)?;
        self.replace(1, ArgsEnum::U32(t as u32));
        Ok(())
    }

    /// Takes one `F64` off the stack and pushes the signed 32-bit integer
    /// that the operand truncates to. Traps on a NaN and on a value beyond
    /// the integer type.
    pub fn i32_trunc_f64_s(&mut self) -> (r: Result<(), Trap>)
        ensures
            steps(*old(self), *final(self), r, i32_trunc_f64_s_effect(old(self)@)),
    {
        let v1 = self.get_f64(0)?;
        let t = to_int64(v1, i32::MIN as i128, i32::MAX as i128)?;
        self.replace(1, ArgsEnum::I32(t as i32));
        Ok(())
    }

    /// Takes one `F64` off the stack and pushes the unsigned 32-bit
    /// integer that the operand truncates to. Traps on a NaN and on a
    /// value beyond the integer type.
    pub fn i32_trunc_f64_u(&mut self) -> (r: Result<(), Trap>)
        ensures
            steps(*old(self), *final(self), r, i32_trunc_f64_u_effect(old(self)@)),
    {
        let v1 = self.get_f64(0)?;
        let t = to_int64(v1, 0 as i128, u32::MAX as i128)?;
        self.replace(1, ArgsEnum::U32(t as u32));
        Ok(())
    }

    /// Takes one `I32` off the stack and pushes a signed 32-bit number as
    /// a signed 64-bit number.
    pub fn i64_extend_i32_s(&mut self) -> (r: Result<(), Trap>)
        ensures
            steps(*old(self), *final(self), r, i64_extend_i32_s_effect(old(self)@)),
    {
        let v1 = self.get_i32(0)?;
        self.replace(1, ArgsEnum::I64(v1 as i64));
        Ok(())
    }

    /// Takes one `U32` off the stack and pushes an unsigned 32-bit number
    /// as an unsigned 64-bit number.
    pub fn i64_extend_i32_u(&mut self) -> (r: Result<(), Trap>)
        ensures
            steps(*old(self), *final(self), r, i64_extend_i32_u_effect(old(self)@)),
    {
        let v1 = self.get_u32(0)?;
        self.replace(1, ArgsEnum::U64(v1 as u64));
        Ok(())
    }

    /// Takes one `F32` off the stack and pushes the signed 64-bit integer
    /// that the operand truncates to. Traps on a NaN and on a value beyond
    /// the integer type.
    pub fn i64_trunc_f32_s(&mut self) -> (r: Result<(), Trap>)
        ensures
            steps(*old(self), *final(self), r, i64_trunc_f32_s_effect(old(self)@)),
    {
        let v1 = self.get_f32(0)?;
        let t = to_int32(v1, i64::MIN as i128, i64::MAX as i128)?;
        self.replace(1, ArgsEnum::I64(t as i64));
        Ok(())
    }

    /// Takes one `F32` off the stack and pushes the unsigned 64-bit
    /// integer that the operand truncates to. Traps on a NaN and on a
    /// value beyond the integer type.
    pub fn i64_trunc_f32_u(&mut self) -> (r: Result<(), Trap>)
        ensures
            steps(*old(self), *final(self), r, i64_trunc_f32_u_effect(old(self)@)),
    {
        let v1 = self.get_f32(0)?;
        let t = to_int32(v1, 0 as i128, u64::MAX as i128)?;
        self.replace(1, ArgsEnum::U64(t as u64));
        Ok(())
    }

    /// Takes one `F64` off the stack and pushes the signed 64-bit integer
    /// that the operand truncates to. Traps on a NaN and on a value beyond
    /// the integer type.
    pub fn i64_trunc_f64_s(&mut self) -> (r: Result<(), Trap>)
        ensures
            steps(*old(self), *final(self), r, i64_trunc_f64_s_effect(old(self)@)),
    {
        let v1 = self.get_f64(0)?;
        let t = to_int64(v1, i64::MIN as i128, i64::MAX as i128)?;
        self.replace(1, ArgsEnum::I64(t as i64));
        Ok(())
    }

    /// Takes one `F64` off the stack and pushes the unsigned 64-bit
    /// integer that the operand truncates to. Traps on a NaN and on a
    /// value beyond the integer type.
    pub fn i64_trunc_f64_u(&mut self) -> (r: Result<(), Trap>)
        ensures
            steps(*old(self), *final(self), r, i64_trunc_f64_u_effect(old(self)@)),
    {
        let v1 = self.get_f64(0)?;
        let t = to_int64(v1, 0 as i128, u64::MAX as i128)?;
        self.replace(1, ArgsEnum::U64(t as u64));
        Ok(())
    }

    /// Takes one `I32` off the stack and pushes the low 8 bits of the
    /// operand as a signed number of 8 bits.
    pub fn i32_extend_8_s(&mut self) -> (r: Result<(), Trap>)
        ensures
            steps(*old(self), *final(self), r, i32_extend_8_s_effect(old(self)@)),
    {
        let v1 = self.get_i32(0)?;
        self.replace(1, ArgsEnum::I8(low_signed(v1 as i64, 0x100) as i8));
        Ok(())
    }

    /// Takes one `I32` off the stack and pushes the low 16 bits of the
    /// operand as a signed number of 16 bits.
    pub fn i32_extend_16_s(&mut self) -> (r: Result<(), Trap>)
        ensures
            steps(*old(self), *final(self), r, i32_extend_16_s_effect(old(self)@)),
    {
        let v1 = self.get_i32(0)?;
        self.replace(1, ArgsEnum::I16(low_signed(v1 as i64, 0x1_0000) as i16));
        Ok(())
    }

    /// Takes one `I64` off the stack and pushes the low 8 bits of the
    /// operand as a signed number of 8 bits.
    pub fn i64_extend_8_s(&mut self) -> (r: Result<(), Trap>)
        ensures
            steps(*old(self), *final(self), r, i64_extend_8_s_effect(old(self)@)),
    {
        let v1 = self.get_i64(0)?;
        self.replace(1, ArgsEnum::I8(low_signed(v1, 0x100) as i8));
        Ok(())
    }

    /// Takes one `I64` off the stack and pushes the low 16 bits of the
    /// operand as a signed number of 16 bits.
    pub fn i64_extend_16_s(&mut self) -> (r: Result<(), Trap>)
        ensures
            steps(*old(self), *final(self), r, i64_extend_16_s_effect(old(self)@)),
    {
        let v1 = self.get_i64(0)?;
        self.replace(1, ArgsEnum::I16(low_signed(v1, 0x1_0000) as i16));
        Ok(())
    }

    /// Takes one `I64` off the stack and pushes the low 32 bits of the
    /// operand as a signed number of 32 bits.
    pub fn i64_extend_32_s(&mut self) -> (r: Result<(), Trap>)
        ensures
            steps(*old(self), *final(self), r, i64_extend_32_s_effect(old(self)@)),
    {
        let v1 = self.get_i64(0)?;
        self.replace(1, ArgsEnum::I32(low_signed(v1, 0x1_0000_0000) as i32));
        Ok(())
    }

    /// Takes one `F32` off the stack and pushes the bits of a binary32
    /// value as a signed 32-bit number.
    pub fn i32_reinterpret_f32(&mut self) -> (r: Result<(), Trap>)
        ensures
            steps(*old(self), *final(self), r, i32_reinterpret_f32_effect(old(self)@)),
    {
        let v1 = self.get_f32(0)?;
        self.replace(1, ArgsEnum::I32(low_signed(v1 as i64, 0x1_0000_0000) as i32));
        Ok(())
    }

    /// Takes one `F64` off the stack and pushes the bits of a binary64
    /// value as a signed 64-bit number.
    pub fn i64_reinterpret_f64(&mut self) -> (r: Result<(), Trap>)
        ensures
            steps(*old(self), *final(self), r, i64_reinterpret_f64_effect(old(self)@)),
    {
        let v1 = self.get_f64(0)?;
        self.replace(1, ArgsEnum::I64(if v1 >= 0x8000_0000_0000_0000 {
            ((v1 - 0x8000_0000_0000_0000) as i64) + i64::MIN
        } else {
            v1 as i64
        }));
        Ok(())
    }

    /// Takes one `I32` off the stack and pushes the bits of a signed
    /// 32-bit number as a binary32 value.
    pub fn f32_reinterpret_i32(&mut self) -> (r: Result<(), Trap>)
        ensures
            steps(*old(self), *final(self), r, f32_reinterpret_i32_effect(old(self)@)),
    {
        let v1 = self.get_i32(0)?;
        self.replace(1, ArgsEnum::F32(if v1 < 0 {
            (v1 as i64 + 0x1_0000_0000) as u32
        } else {
            v1 as u32
        }));
        Ok(())
    }

    /// Takes one `I64` off the stack and pushes the bits of a signed
    /// 64-bit number as a binary64 value.
    pub fn f64_reinterpret_i64(&mut self) -> (r: Result<(), Trap>)
        ensures
            steps(*old(self), *final(self), r, f64_reinterpret_i64_effect(old(self)@)),
    {
        let v1 = self.get_i64(0)?;
        self.replace(1, ArgsEnum::F64(if v1 < 0 {
            (v1 as i128 + 0x1_0000_0000_0000_0000) as u64
        } else {
            v1 as u64
        }));
        Ok(())
    }
    /// The saturating truncation with the sub-opcode `val`: converts the
    /// floating-point operand to an integer and never traps on its value.
    pub fn trunc_sat(&mut self, val: u8) -> (r: Result<(), Trap>)
        ensures
            steps(*old(self), *final(self), r, trunc_sat_effect(old(self)@, val)),
    {
        if val == 0 {
            let v = self.get_f32(0)?;
            let t = saturate32(v, i32::MIN as i128, i32::MAX as i128);
            self.replace(1, ArgsEnum::I32(t as i32));
            Ok(())
        } else if val == 1 {
            let v = self.get_f32(0)?;
            let t = saturate32(v, 0 as i128, u32::MAX as i128);
            self.replace(1, ArgsEnum::U32(t as u32));
            Ok(())
        } else if val == 2 {
            let v = self.get_f64(0)?;
            let t = saturate64(v, i32::MIN as i128, i32::MAX as i128);
            self.replace(1, ArgsEnum::I32(t as i32));
            Ok(())
        } else if val == 3 {
            let v = self.get_f64(0)?;
            let t = saturate64(v, 0 as i128, u32::MAX as i128);
            self.replace(1, ArgsEnum::U32(t as u32));
            Ok(())
        } else if val == 4 {
            let v = self.get_f32(0)?;
            let t = saturate32(v, i64::MIN as i128, i64::MAX as i128);
            self.replace(1, ArgsEnum::I64(t as i64));
            Ok(())
        } else if val == 5 {
            let v = self.get_f32(0)?;
            let t = saturate32(v, 0 as i128, u64::MAX as i128);
            self.replace(1, ArgsEnum::U64(t as u64));
            Ok(())
        } else if val == 6 {
            let v = self.get_f64(0)?;
            let t = saturate64(v, i64::MIN as i128, i64::MAX as i128);
            self.replace(1, ArgsEnum::I64(t as i64));
            Ok(())
        } else if val == 7 {
            let v = self.get_f64(0)?;
            let t = saturate64(v, 0 as i128, u64::MAX as i128);
            self.replace(1, ArgsEnum::U64(t as u64));
            Ok(())
        } else {
            Err(Trap::InvalidArgument)
        }
    }

    /// Takes the operands of `op` off the stack and returns them, the
    /// first operand first; the second is `None` where `op` takes one.
    pub fn host_operands(&mut self, op: HostOp) -> (r: Result<(ArgsEnum, Option<ArgsEnum>), Trap>)
        ensures
            steps(
                *old(self),
                *final(self),
                match r {
                    Ok(_) => Ok(()),
                    Err(t) => Err(t),
                },
                host_operands_effect(old(self)@, op),
            ),
            match r {
                Ok((a, None)) => host_arity(op) == 1 && operand(old(self)@, 0) == Ok::<
                    ArgsEnum,
                    Trap,
                >(a),
                Ok((a, Some(b))) => host_arity(op) == 2 && operand(old(self)@, 1) == Ok::<
                    ArgsEnum,
                    Trap,
                >(a) && operand(old(self)@, 0) == Ok::<ArgsEnum, Trap>(b),
                Err(_) => true,
            },
    {
        let tag = operand_tag_of(op);
        match self.operand_stack.peek(0) {
            None => {
                return Err(Trap::StackUnderflow);
            },
            Some(v) => if !tagged(v, tag) {
                return Err(Trap::TypeMismatch);
            },
        }
        if arity_of(op) == 1 {
            match self.operand_stack.pop() {
                Some(a) => Ok((a, None)),
                None => Err(Trap::StackUnderflow),
            }
        } else {
            match self.operand_stack.peek(1) {
                None => {
                    return Err(Trap::StackUnderflow);
                },
                Some(v) => if !tagged(v, tag) {
                    return Err(Trap::TypeMismatch);
                },
            }
            let ghost before = self@;
            match self.operand_stack.pop() {
                Some(b) => match self.operand_stack.pop() {
                    Some(a) => {
                        assert(self@ =~= before.subrange(0, before.len() - 2));
                        Ok((a, Some(b)))
                    },
                    None => Err(Trap::StackUnderflow),
                },
                None => Err(Trap::StackUnderflow),
            }
        }
    }

    /// Pushes the result of `op`, given as a bit pattern. A result of 32
    /// bits was asked for and more were given: that is an error, and the
    /// stack stays as it is.
    pub fn host_result(&mut self, op: HostOp, bits: u64) -> (r: Result<(), Trap>)
        ensures
            steps(
                *old(self),
                *final(self),
                r,
                match host_result_value(op, bits) {
                    Ok(v) => Ok(old(self)@.push(v)),
                    Err(t) => Err(t),
                },
            ),
    {
        if result_is_f64(op) {
            self.operand_stack.push(ArgsEnum::F64(bits));
            Ok(())
        } else if bits <= 0xFFFF_FFFF {
            self.operand_stack.push(ArgsEnum::F32(bits as u32));
            Ok(())
        } else {
            Err(Trap::InvalidArgument)
        }
    }

    /// Carries out the handler `h` for an instruction with the argument
    /// `args`. Returns the instruction that the host has to carry out,
    /// where `h` is a handler of the host, and `None` else.
    #[verifier::rlimit(100)]
    pub fn execute(&mut self, h: Handler, args: &ArgsEnum) -> (r: Result<Option<HostOp>, Trap>)
        ensures
            steps(
                *old(self),
                *final(self),
                match r {
                    Ok(_) => Ok(()),
                    Err(t) => Err(t),
                },
                handler_effect(h, *args, old(self)@),
            ),
            match r {
                Ok(o) => o == host_of(h),
                Err(_) => true,
            },
    {
        match h {
            Handler::Call => Ok(None),
            Handler::Drop => {
                self.drop();
                Ok(None)
            },
            Handler::Select => {
                self.select()?;
                Ok(None)
            },
            Handler::I32Const => match args.get_i32() {
                Some(v) => {
                    self.i32_const(v);
                    Ok(None)
                },
                None => Err(Trap::InvalidArgument),
            },
            Handler::I64Const => match args.get_i64() {
                Some(v) => {
                    self.i64_const(v);
                    Ok(None)
                },
                None => Err(Trap::InvalidArgument),
            },
            Handler::F32Const => match args.get_f32() {
                Some(v) => {
                    self.f32_const(v);
                    Ok(None)
                },
                None => Err(Trap::InvalidArgument),
            },
            Handler::F64Const => match args.get_f64() {
                Some(v) => {
                    self.f64_const(v);
                    Ok(None)
                },
                None => Err(Trap::InvalidArgument),
            },
            Handler::I32Eqz => {
                self.i32_eqz()?;
                Ok(None)
            },
            Handler::I32Eq => {
                self.i32_eq()?;
                Ok(None)
            },
            Handler::I32Ne => {
                self.i32_ne()?;
                Ok(None)
            },
            Handler::I32LtS => {
                self.i32_lts()?;
                Ok(None)
            },
            Handler::I32LtU => {
                self.i32_ltu()?;
                Ok(None)
            },
            Handler::I32GtS => {
                self.i32_gts()?;
                Ok(None)
            },
            Handler::I32GtU => {
                self.i32_gtu()?;
                Ok(None)
            },
            Handler::I32LeS => {
                self.i32_les()?;
                Ok(None)
            },
            Handler::I32LeU => {
                self.i32_leu()?;
                Ok(None)
            },
            Handler::I32GeS => {
                self.i32_ges()?;
                Ok(None)
            },
            Handler::I32GeU => {
                self.i32_geu()?;
                Ok(None)
            },
            Handler::I32Clz => {
                self.i32_clz()?;
                Ok(None)
            },
            Handler::I32Ctz => {
                self.i32_ctz()?;
                Ok(None)
            },
            Handler::I32PopCnt => {
                self.i32_popcnt()?;
                Ok(None)
            },
            Handler::I32Add => {
                self.i32_add()?;
                Ok(None)
            },
            Handler::I32Sub => {
                self.i32_sub()?;
                Ok(None)
            },
            Handler::I32Mul => {
                self.i32_mul()?;
                Ok(None)
            },
            Handler::I32DivS => {
                self.i32_divs()?;
                Ok(None)
            },
            Handler::I32DivU => {
                self.i32_divu()?;
                Ok(None)
            },
            Handler::I32RemS => {
                self.i32_rems()?;
                Ok(None)
            },
            Handler::I32RemU => {
                self.i32_remu()?;
                Ok(None)
            },
            Handler::I32And => {
                self.i32_and()?;
                Ok(None)
            },
            Handler::I32Or => {
                self.i32_or()?;
                Ok(None)
            },
            Handler::I32Xor => {
                self.i32_xor()?;
                Ok(None)
            },
            Handler::I32Shl => {
                self.i32_shl()?;
                Ok(None)
            },
            Handler::I32ShrS => {
                self.i32_shrs()?;
                Ok(None)
            },
            Handler::I32ShrU => {
                self.i32_shru()?;
                Ok(None)
            },
            Handler::I32Rotl => {
                self.i32_rotl()?;
                Ok(None)
            },
            Handler::I32Rotr => {
                self.i32_rotr()?;
                Ok(None)
            },
            Handler::I64Eqz => {
                self.i64_eqz()?;
                Ok(None)
            },
            Handler::I64Eq => {
                self.i64_eq()?;
                Ok(None)
            },
            Handler::I64Ne => {
                self.i64_ne()?;
                Ok(None)
            },
            Handler::I64LtS => {
                self.i64_lts()?;
                Ok(None)
            },
            Handler::I64LtU => {
                self.i64_ltu()?;
                Ok(None)
            },
            Handler::I64GtS => {
                self.i64_gts()?;
                Ok(None)
            },
            Handler::I64GtU => {
                self.i64_gtu()?;
                Ok(None)
            },
            Handler::I64LeS => {
                self.i64_les()?;
                Ok(None)
            },
            Handler::I64LeU => {
                self.i64_leu()?;
                Ok(None)
            },
            Handler::I64GeS => {
                self.i64_ges()?;
                Ok(None)
            },
            Handler::I64GeU => {
                self.i64_geu()?;
                Ok(None)
            },
            Handler::I64Clz => {
                self.i64_clz()?;
                Ok(None)
            },
            Handler::I64Ctz => {
                self.i64_ctz()?;
                Ok(None)
            },
            Handler::I64PopCnt => {
                self.i64_popcnt()?;
                Ok(None)
            },
            Handler::I64Add => {
                self.i64_add()?;
                Ok(None)
            },
            Handler::I64Sub => {
                self.i64_sub()?;
                Ok(None)
            },
            Handler::I64Mul => {
                self.i64_mul()?;
                Ok(None)
            },
            Handler::I64DivS => {
                self.i64_divs()?;
                Ok(None)
            },
            Handler::I64DivU => {
                self.i64_divu()?;
                Ok(None)
            },
            Handler::I64RemS => {
                self.i64_rems()?;
                Ok(None)
            },
            Handler::I64RemU => {
                self.i64_remu()?;
                Ok(None)
            },
            Handler::I64And => {
                self.i64_and()?;
                Ok(None)
            },
            Handler::I64Or => {
                self.i64_or()?;
                Ok(None)
            },
            Handler::I64Xor => {
                self.i64_xor()?;
                Ok(None)
            },
            Handler::I64Shl => {
                self.i64_shl()?;
                Ok(None)
            },
            Handler::I64ShrS => {
                self.i64_shrs()?;
                Ok(None)
            },
            Handler::I64ShrU => {
                self.i64_shru()?;
                Ok(None)
            },
            Handler::I64Rotl => {
                self.i64_rotl()?;
                Ok(None)
            },
            Handler::I64Rotr => {
                self.i64_rotr()?;
                Ok(None)
            },
            Handler::F32Eq => {
                self.f32_eq()?;
                Ok(None)
            },
            Handler::F32Ne => {
                self.f32_ne()?;
                Ok(None)
            },
            Handler::F32Lt => {
                self.f32_lt()?;
                Ok(None)
            },
            Handler::F32Gt => {
                self.f32_gt()?;
                Ok(None)
            },
            Handler::F32Le => {
                self.f32_le()?;
                Ok(None)
            },
            Handler::F32Ge => {
                self.f32_ge()?;
                Ok(None)
            },
            Handler::F32Abs => {
                self.f32_abs()?;
                Ok(None)
            },
            Handler::F32Neg => {
                self.f32_neg()?;
                Ok(None)
            },
            Handler::F32Min => {
                self.f32_min()?;
                Ok(None)
            },
            Handler::F32Max => {
                self.f32_max()?;
                Ok(None)
            },
            Handler::F32CopySign => {
                self.f32_copy_sign()?;
                Ok(None)
            },
            Handler::F64Eq => {
                self.f64_eq()?;
                Ok(None)
            },
            Handler::F64Ne => {
                self.f64_ne()?;
                Ok(None)
            },
            Handler::F64Lt => {
                self.f64_lt()?;
                Ok(None)
            },
            Handler::F64Gt => {
                self.f64_gt()?;
                Ok(None)
            },
            Handler::F64Le => {
                self.f64_le()?;
                Ok(None)
            },
            Handler::F64Ge => {
                self.f64_ge()?;
                Ok(None)
            },
            Handler::F64Abs => {
                self.f64_abs()?;
                Ok(None)
            },
            Handler::F64Neg => {
                self.f64_neg()?;
                Ok(None)
            },
            Handler::F64Min => {
                self.f64_min()?;
                Ok(None)
            },
            Handler::F64Max => {
                self.f64_max()?;
                Ok(None)
            },
            Handler::F64CopySign => {
                self.f64_copy_sign()?;
                Ok(None)
            },
            Handler::I32WrapI64 => {
                self.i32_warp_i64()?;
                Ok(None)
            },
            Handler::I32TruncF32S => {
                self.i32_trunc_f32_s()?;
                Ok(None)
            },
            Handler::I32TruncF32U => {
                self.i32_trunc_f32_u()?;
                Ok(None)
            },
            Handler::I32TruncF64S => {
                self.i32_trunc_f64_s()?;
                Ok(None)
            },
            Handler::I32TruncF64U => {
                self.i32_trunc_f64_u()?;
                Ok(None)
            },
            Handler::I64ExtendI32S => {
                self.i64_extend_i32_s()?;
                Ok(None)
            },
            Handler::I64ExtendI32U => {
                self.i64_extend_i32_u()?;
                Ok(None)
            },
            Handler::I64TruncF32S => {
                self.i64_trunc_f32_s()?;
                Ok(None)
            },
            Handler::I64TruncF32U => {
                self.i64_trunc_f32_u()?;
                Ok(None)
            },
            Handler::I64TruncF64S => {
                self.i64_trunc_f64_s()?;
                Ok(None)
            },
            Handler::I64TruncF64U => {
                self.i64_trunc_f64_u()?;
                Ok(None)
            },
            Handler::I32Extend8S => {
                self.i32_extend_8_s()?;
                Ok(None)
            },
            Handler::I32Extend16S => {
                self.i32_extend_16_s()?;
                Ok(None)
            },
            Handler::I64Extend8S => {
                self.i64_extend_8_s()?;
                Ok(None)
            },
            Handler::I64Extend16S => {
                self.i64_extend_16_s()?;
                Ok(None)
            },
            Handler::I64Extend32S => {
                self.i64_extend_32_s()?;
                Ok(None)
            },
            Handler::I32ReinterpretF32 => {
                self.i32_reinterpret_f32()?;
                Ok(None)
            },
            Handler::I64ReinterpretF64 => {
                self.i64_reinterpret_f64()?;
                Ok(None)
            },
            Handler::F32ReinterpretI32 => {
                self.f32_reinterpret_i32()?;
                Ok(None)
            },
            Handler::F64ReinterpretI64 => {
                self.f64_reinterpret_i64()?;
                Ok(None)
            },
            Handler::TruncSat => match args.get_u8() {
                Some(v) => {
                    self.trunc_sat(v)?;
                    Ok(None)
                },
                None => Err(Trap::InvalidArgument),
            },
            Handler::Host(op) => Ok(Some(op)),
        }
    }

    /// Carries out the instruction with the opcode `opcode` and the
    /// argument `args` by the handler that `table` holds for it. An opcode
    /// without a handler is the trap `NoHandler`.
    pub fn dispatch(&mut self, table: &Vec<Option<Handler>>, opcode: u8, args: &ArgsEnum) -> (r: Result<
        Option<HostOp>,
        Trap,
    >)
        ensures
            steps(
                *old(self),
                *final(self),
                match r {
                    Ok(_) => Ok(()),
                    Err(t) => Err(t),
                },
                dispatch_effect(table@, opcode, *args, old(self)@),
            ),
            match r {
                Ok(o) => opcode < table@.len() && table@[opcode as int] is Some && o == host_of(
                    table@[opcode as int]->0,
                ),
                Err(_) => true,
            },
    {
        if opcode as usize >= table.len() {
            return Err(Trap::NoHandler);
        }
        match table[opcode as usize] {
            None => Err(Trap::NoHandler),
            Some(h) => self.execute(h, args),
        }
    }
}

} // verus!
