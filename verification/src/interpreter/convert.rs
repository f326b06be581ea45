//! Conversions from floating-point bit patterns to integers: the ones that
//! trap and the ones that saturate.

use vstd::prelude::*;
use crate::common::float_bits::{
    f32_is_infinite, f32_is_nan, f32_saturate, f32_trunc, f64_is_infinite, f64_is_nan,
    f64_saturate, f64_trunc, is_nan32, is_nan64, is_negative32, is_negative64, truncate32,
    truncate64,
};
use crate::interpreter::trap::Trap;

verus! {

/// What a trapping conversion makes of `b`: the integer that it truncates
/// to where that lies in `min ..= max`, and a trap for a NaN, an infinity
/// and a value beyond the bounds.
pub open spec fn f32_to_int(b: u32, min: int, max: int) -> Result<int, Trap> {
    if f32_is_nan(b) {
        Err(Trap::InvalidConversionToInteger)
    } else if f32_is_infinite(b) || f32_trunc(b) < min || f32_trunc(b) > max {
        Err(Trap::IntegerOverflow)
    } else {
        Ok(f32_trunc(b))
    }
}

/// Converts as `f32_to_int` says, for bounds that 64 bits hold.
pub(crate) fn to_int32(b: u32, min: i128, max: i128) -> (r: Result<i128, Trap>)
    requires
        -(u64::MAX as int) <= min <= 0 <= max <= u64::MAX,
    ensures
        match r {
            Ok(t) => f32_to_int(b, min as int, max as int) == Ok::<int, Trap>(t as int),
            Err(e) => f32_to_int(b, min as int, max as int) == Err::<int, Trap>(e),
        },
{
    if is_nan32(b) {
        return Err(Trap::InvalidConversionToInteger);
    }
    match truncate32(b) {
        None => Err(Trap::IntegerOverflow),
        Some(t) => if t < min || t > max {
            Err(Trap::IntegerOverflow)
        } else {
            Ok(t)
        },
    }
}

/// Converts as `f32_saturate` says, for bounds that 64 bits hold.
pub(crate) fn saturate32(b: u32, min: i128, max: i128) -> (r: i128)
    requires
        -(u64::MAX as int) <= min <= 0 <= max <= u64::MAX,
    ensures
        r == f32_saturate(b, min as int, max as int),
{
    if is_nan32(b) {
        return 0;
    }
    match truncate32(b) {
        None => if is_negative32(b) {
            min
        } else {
            max
        },
        Some(t) => if t < min {
            min
        } else if t > max {
            max
        } else {
            t
        },
    }
}

/// What a trapping conversion makes of `b`: the integer that it truncates
/// to where that lies in `min ..= max`, and a trap for a NaN, an infinity
/// and a value beyond the bounds.
pub open spec fn f64_to_int(b: u64, min: int, max: int) -> Result<int, Trap> {
    if f64_is_nan(b) {
        Err(Trap::InvalidConversionToInteger)
    } else if f64_is_infinite(b) || f64_trunc(b) < min || f64_trunc(b) > max {
        Err(Trap::IntegerOverflow)
    } else {
        Ok(f64_trunc(b))
    }
}

/// Converts as `f64_to_int` says, for bounds that 64 bits hold.
pub(crate) fn to_int64(b: u64, min: i128, max: i128) -> (r: Result<i128, Trap>)
    requires
        -(u64::MAX as int) <= min <= 0 <= max <= u64::MAX,
    ensures
        match r {
            Ok(t) => f64_to_int(b, min as int, max as int) == Ok::<int, Trap>(t as int),
            Err(e) => f64_to_int(b, min as int, max as int) == Err::<int, Trap>(e),
        },
{
    if is_nan64(b) {
        return Err(Trap::InvalidConversionToInteger);
    }
    match truncate64(b) {
        None => Err(Trap::IntegerOverflow),
        Some(t) => if t < min || t > max {
            Err(Trap::IntegerOverflow)
        } else {
            Ok(t)
        },
    }
}

/// Converts as `f64_saturate` says, for bounds that 64 bits hold.
pub(crate) fn saturate64(b: u64, min: i128, max: i128) -> (r: i128)
    requires
        -(u64::MAX as int) <= min <= 0 <= max <= u64::MAX,
    ensures
        r == f64_saturate(b, min as int, max as int),
{
    if is_nan64(b) {
        return 0;
    }
    match truncate64(b) {
        None => if is_negative64(b) {
            min
        } else {
            max
        },
        Some(t) => if t < min {
            min
        } else if t > max {
            max
        } else {
            t
        },
    }
}

} // verus!
