//! Conversions from every integer type into the unsigned integer types.
//!
//! Each implementation's `spec_try_from_int_str` pins the result exactly:
//! a widening or same-type conversion returns the value unconditionally,
//! and a conversion whose source range is not contained in the target's
//! returns the value exactly when it lies in the target's range, and a
//! range error otherwise.

use vstd::prelude::*;
use crate::convert::TryFromIntStr;
use crate::errors::TryFromIntStrErr;
use crate::errors::range_error_value;

verus! {

impl TryFromIntStr<i8> for u8 {
    /// Converts i8 to u8; fails when the value lies outside u8's range.
    open spec fn spec_try_from_int_str(var: i8) -> Result<u8, TryFromIntStrErr> {
        if u8::MIN <= var && var <= u8::MAX {
            Ok(var as u8)
        } else {
            Err(range_error_value())
        }
    }

    fn try_from_int_str(var: i8) -> (r: Result<u8, TryFromIntStrErr>) {
        let v: i128 = var as i128;
        if u8::MIN as i128 <= v && v <= u8::MAX as i128 {
            Ok(var as u8)
        } else {
            Err(TryFromIntStrErr::range_err())
        }
    }
}

impl TryFromIntStr<u8> for u8 {
    /// Converts u8 to u8 losslessly.
    open spec fn spec_try_from_int_str(var: u8) -> Result<u8, TryFromIntStrErr> {
        Ok(var)
    }

    fn try_from_int_str(var: u8) -> (r: Result<u8, TryFromIntStrErr>) {
        Ok(var)
    }
}

impl TryFromIntStr<i16> for u8 {
    /// Converts i16 to u8; fails when the value lies outside u8's range.
    open spec fn spec_try_from_int_str(var: i16) -> Result<u8, TryFromIntStrErr> {
        if u8::MIN <= var && var <= u8::MAX {
            Ok(var as u8)
        } else {
            Err(range_error_value())
        }
    }

    fn try_from_int_str(var: i16) -> (r: Result<u8, TryFromIntStrErr>) {
        let v: i128 = var as i128;
        if u8::MIN as i128 <= v && v <= u8::MAX as i128 {
            Ok(var as u8)
        } else {
            Err(TryFromIntStrErr::range_err())
        }
    }
}

impl TryFromIntStr<u16> for u8 {
    /// Converts u16 to u8; fails when the value lies outside u8's range.
    open spec fn spec_try_from_int_str(var: u16) -> Result<u8, TryFromIntStrErr> {
        if u8::MIN <= var && var <= u8::MAX {
            Ok(var as u8)
        } else {
            Err(range_error_value())
        }
    }

    fn try_from_int_str(var: u16) -> (r: Result<u8, TryFromIntStrErr>) {
        let v: i128 = var as i128;
        if u8::MIN as i128 <= v && v <= u8::MAX as i128 {
            Ok(var as u8)
        } else {
            Err(TryFromIntStrErr::range_err())
        }
    }
}

impl TryFromIntStr<i32> for u8 {
    /// Converts i32 to u8; fails when the value lies outside u8's range.
    open spec fn spec_try_from_int_str(var: i32) -> Result<u8, TryFromIntStrErr> {
        if u8::MIN <= var && var <= u8::MAX {
            Ok(var as u8)
        } else {
            Err(range_error_value())
        }
    }

    fn try_from_int_str(var: i32) -> (r: Result<u8, TryFromIntStrErr>) {
        let v: i128 = var as i128;
        if u8::MIN as i128 <= v && v <= u8::MAX as i128 {
            Ok(var as u8)
        } else {
            Err(TryFromIntStrErr::range_err())
        }
    }
}

impl TryFromIntStr<u32> for u8 {
    /// Converts u32 to u8; fails when the value lies outside u8's range.
    open spec fn spec_try_from_int_str(var: u32) -> Result<u8, TryFromIntStrErr> {
        if u8::MIN <= var && var <= u8::MAX {
            Ok(var as u8)
        } else {
            Err(range_error_value())
        }
    }

    fn try_from_int_str(var: u32) -> (r: Result<u8, TryFromIntStrErr>) {
        let v: i128 = var as i128;
        if u8::MIN as i128 <= v && v <= u8::MAX as i128 {
            Ok(var as u8)
        } else {
            Err(TryFromIntStrErr::range_err())
        }
    }
}

impl TryFromIntStr<i64> for u8 {
    /// Converts i64 to u8; fails when the value lies outside u8's range.
    open spec fn spec_try_from_int_str(var: i64) -> Result<u8, TryFromIntStrErr> {
        if u8::MIN <= var && var <= u8::MAX {
            Ok(var as u8)
        } else {
            Err(range_error_value())
        }
    }

    fn try_from_int_str(var: i64) -> (r: Result<u8, TryFromIntStrErr>) {
        let v: i128 = var as i128;
        if u8::MIN as i128 <= v && v <= u8::MAX as i128 {
            Ok(var as u8)
        } else {
            Err(TryFromIntStrErr::range_err())
        }
    }
}

impl TryFromIntStr<u64> for u8 {
    /// Converts u64 to u8; fails when the value lies outside u8's range.
    open spec fn spec_try_from_int_str(var: u64) -> Result<u8, TryFromIntStrErr> {
        if u8::MIN <= var && var <= u8::MAX {
            Ok(var as u8)
        } else {
            Err(range_error_value())
        }
    }

    fn try_from_int_str(var: u64) -> (r: Result<u8, TryFromIntStrErr>) {
        let v: i128 = var as i128;
        if u8::MIN as i128 <= v && v <= u8::MAX as i128 {
            Ok(var as u8)
        } else {
            Err(TryFromIntStrErr::range_err())
        }
    }
}

impl TryFromIntStr<isize> for u8 {
    /// Converts isize to u8; fails when the value lies outside u8's range.
    open spec fn spec_try_from_int_str(var: isize) -> Result<u8, TryFromIntStrErr> {
        if u8::MIN <= var && var <= u8::MAX {
            Ok(var as u8)
        } else {
            Err(range_error_value())
        }
    }

    fn try_from_int_str(var: isize) -> (r: Result<u8, TryFromIntStrErr>) {
        let v: i128 = var as i128;
        if u8::MIN as i128 <= v && v <= u8::MAX as i128 {
            Ok(var as u8)
        } else {
            Err(TryFromIntStrErr::range_err())
        }
    }
}

impl TryFromIntStr<usize> for u8 {
    /// Converts usize to u8; fails when the value lies outside u8's range.
    open spec fn spec_try_from_int_str(var: usize) -> Result<u8, TryFromIntStrErr> {
        if u8::MIN <= var && var <= u8::MAX {
            Ok(var as u8)
        } else {
            Err(range_error_value())
        }
    }

    fn try_from_int_str(var: usize) -> (r: Result<u8, TryFromIntStrErr>) {
        let v: i128 = var as i128;
        if u8::MIN as i128 <= v && v <= u8::MAX as i128 {
            Ok(var as u8)
        } else {
            Err(TryFromIntStrErr::range_err())
        }
    }
}

impl TryFromIntStr<i128> for u8 {
    /// Converts i128 to u8; fails when the value lies outside u8's range.
    open spec fn spec_try_from_int_str(var: i128) -> Result<u8, TryFromIntStrErr> {
        if u8::MIN <= var && var <= u8::MAX {
            Ok(var as u8)
        } else {
            Err(range_error_value())
        }
    }

    fn try_from_int_str(var: i128) -> (r: Result<u8, TryFromIntStrErr>) {
        let v: i128 = var as i128;
        if u8::MIN as i128 <= v && v <= u8::MAX as i128 {
            Ok(var as u8)
        } else {
            Err(TryFromIntStrErr::range_err())
        }
    }
}

impl TryFromIntStr<u128> for u8 {
    /// Converts u128 to u8; fails when the value lies outside u8's range.
    open spec fn spec_try_from_int_str(var: u128) -> Result<u8, TryFromIntStrErr> {
        if u8::MIN <= var && var <= u8::MAX {
            Ok(var as u8)
        } else {
            Err(range_error_value())
        }
    }

    fn try_from_int_str(var: u128) -> (r: Result<u8, TryFromIntStrErr>) {
        if var <= u8::MAX as u128 {
            Ok(var as u8)
        } else {
            Err(TryFromIntStrErr::range_err())
        }
    }
}

impl TryFromIntStr<i8> for u16 {
    /// Converts i8 to u16; fails when the value lies outside u16's range.
    open spec fn spec_try_from_int_str(var: i8) -> Result<u16, TryFromIntStrErr> {
        if u16::MIN <= var && var <= u16::MAX {
            Ok(var as u16)
        } else {
            Err(range_error_value())
        }
    }

    fn try_from_int_str(var: i8) -> (r: Result<u16, TryFromIntStrErr>) {
        let v: i128 = var as i128;
        if u16::MIN as i128 <= v && v <= u16::MAX as i128 {
            Ok(var as u16)
        } else {
            Err(TryFromIntStrErr::range_err())
        }
    }
}

impl TryFromIntStr<u8> for u16 {
    /// Converts u8 to u16 losslessly.
    open spec fn spec_try_from_int_str(var: u8) -> Result<u16, TryFromIntStrErr> {
        Ok(var as u16)
    }

    fn try_from_int_str(var: u8) -> (r: Result<u16, TryFromIntStrErr>) {
        Ok(var as u16)
    }
}

impl TryFromIntStr<i16> for u16 {
    /// Converts i16 to u16; fails when the value lies outside u16's range.
    open spec fn spec_try_from_int_str(var: i16) -> Result<u16, TryFromIntStrErr> {
        if u16::MIN <= var && var <= u16::MAX {
            Ok(var as u16)
        } else {
            Err(range_error_value())
        }
    }

    fn try_from_int_str(var: i16) -> (r: Result<u16, TryFromIntStrErr>) {
        let v: i128 = var as i128;
        if u16::MIN as i128 <= v && v <= u16::MAX as i128 {
            Ok(var as u16)
        } else {
            Err(TryFromIntStrErr::range_err())
        }
    }
}

impl TryFromIntStr<u16> for u16 {
    /// Converts u16 to u16 losslessly.
    open spec fn spec_try_from_int_str(var: u16) -> Result<u16, TryFromIntStrErr> {
        Ok(var)
    }

    fn try_from_int_str(var: u16) -> (r: Result<u16, TryFromIntStrErr>) {
        Ok(var)
    }
}

impl TryFromIntStr<i32> for u16 {
    /// Converts i32 to u16; fails when the value lies outside u16's range.
    open spec fn spec_try_from_int_str(var: i32) -> Result<u16, TryFromIntStrErr> {
        if u16::MIN <= var && var <= u16::MAX {
            Ok(var as u16)
        } else {
            Err(range_error_value())
        }
    }

    fn try_from_int_str(var: i32) -> (r: Result<u16, TryFromIntStrErr>) {
        let v: i128 = var as i128;
        if u16::MIN as i128 <= v && v <= u16::MAX as i128 {
            Ok(var as u16)
        } else {
            Err(TryFromIntStrErr::range_err())
        }
    }
}

impl TryFromIntStr<u32> for u16 {
    /// Converts u32 to u16; fails when the value lies outside u16's range.
    open spec fn spec_try_from_int_str(var: u32) -> Result<u16, TryFromIntStrErr> {
        if u16::MIN <= var && var <= u16::MAX {
            Ok(var as u16)
        } else {
            Err(range_error_value())
        }
    }

    fn try_from_int_str(var: u32) -> (r: Result<u16, TryFromIntStrErr>) {
        let v: i128 = var as i128;
        if u16::MIN as i128 <= v && v <= u16::MAX as i128 {
            Ok(var as u16)
        } else {
            Err(TryFromIntStrErr::range_err())
        }
    }
}

impl TryFromIntStr<i64> for u16 {
    /// Converts i64 to u16; fails when the value lies outside u16's range.
    open spec fn spec_try_from_int_str(var: i64) -> Result<u16, TryFromIntStrErr> {
        if u16::MIN <= var && var <= u16::MAX {
            Ok(var as u16)
        } else {
            Err(range_error_value())
        }
    }

    fn try_from_int_str(var: i64) -> (r: Result<u16, TryFromIntStrErr>) {
        let v: i128 = var as i128;
        if u16::MIN as i128 <= v && v <= u16::MAX as i128 {
            Ok(var as u16)
        } else {
            Err(TryFromIntStrErr::range_err())
        }
    }
}

impl TryFromIntStr<u64> for u16 {
    /// Converts u64 to u16; fails when the value lies outside u16's range.
    open spec fn spec_try_from_int_str(var: u64) -> Result<u16, TryFromIntStrErr> {
        if u16::MIN <= var && var <= u16::MAX {
            Ok(var as u16)
        } else {
            Err(range_error_value())
        }
    }

    fn try_from_int_str(var: u64) -> (r: Result<u16, TryFromIntStrErr>) {
        let v: i128 = var as i128;
        if u16::MIN as i128 <= v && v <= u16::MAX as i128 {
            Ok(var as u16)
        } else {
            Err(TryFromIntStrErr::range_err())
        }
    }
}

impl TryFromIntStr<isize> for u16 {
    /// Converts isize to u16; fails when the value lies outside u16's range.
    open spec fn spec_try_from_int_str(var: isize) -> Result<u16, TryFromIntStrErr> {
        if u16::MIN <= var && var <= u16::MAX {
            Ok(var as u16)
        } else {
            Err(range_error_value())
        }
    }

    fn try_from_int_str(var: isize) -> (r: Result<u16, TryFromIntStrErr>) {
        let v: i128 = var as i128;
        if u16::MIN as i128 <= v && v <= u16::MAX as i128 {
            Ok(var as u16)
        } else {
            Err(TryFromIntStrErr::range_err())
        }
    }
}

impl TryFromIntStr<usize> for u16 {
    /// Converts usize to u16; fails when the value lies outside u16's range.
    open spec fn spec_try_from_int_str(var: usize) -> Result<u16, TryFromIntStrErr> {
        if u16::MIN <= var && var <= u16::MAX {
            Ok(var as u16)
        } else {
            Err(range_error_value())
        }
    }

    fn try_from_int_str(var: usize) -> (r: Result<u16, TryFromIntStrErr>) {
        let v: i128 = var as i128;
        if u16::MIN as i128 <= v && v <= u16::MAX as i128 {
            Ok(var as u16)
        } else {
            Err(TryFromIntStrErr::range_err())
        }
    }
}

impl TryFromIntStr<i128> for u16 {
    /// Converts i128 to u16; fails when the value lies outside u16's range.
    open spec fn spec_try_from_int_str(var: i128) -> Result<u16, TryFromIntStrErr> {
        if u16::MIN <= var && var <= u16::MAX {
            Ok(var as u16)
        } else {
            Err(range_error_value())
        }
    }

    fn try_from_int_str(var: i128) -> (r: Result<u16, TryFromIntStrErr>) {
        let v: i128 = var as i128;
        if u16::MIN as i128 <= v && v <= u16::MAX as i128 {
            Ok(var as u16)
        } else {
            Err(TryFromIntStrErr::range_err())
        }
    }
}

impl TryFromIntStr<u128> for u16 {
    /// Converts u128 to u16; fails when the value lies outside u16's range.
    open spec fn spec_try_from_int_str(var: u128) -> Result<u16, TryFromIntStrErr> {
        if u16::MIN <= var && var <= u16::MAX {
            Ok(var as u16)
        } else {
            Err(range_error_value())
        }
    }

    fn try_from_int_str(var: u128) -> (r: Result<u16, TryFromIntStrErr>) {
        if var <= u16::MAX as u128 {
            Ok(var as u16)
        } else {
            Err(TryFromIntStrErr::range_err())
        }
    }
}

impl TryFromIntStr<i8> for u32 {
    /// Converts i8 to u32; fails when the value lies outside u32's range.
    open spec fn spec_try_from_int_str(var: i8) -> Result<u32, TryFromIntStrErr> {
        if u32::MIN <= var && var <= u32::MAX {
            Ok(var as u32)
        } else {
            Err(range_error_value())
        }
    }

    fn try_from_int_str(var: i8) -> (r: Result<u32, TryFromIntStrErr>) {
        let v: i128 = var as i128;
        if u32::MIN as i128 <= v && v <= u32::MAX as i128 {
            Ok(var as u32)
        } else {
            Err(TryFromIntStrErr::range_err())
        }
    }
}

impl TryFromIntStr<u8> for u32 {
    /// Converts u8 to u32 losslessly.
    open spec fn spec_try_from_int_str(var: u8) -> Result<u32, TryFromIntStrErr> {
        Ok(var as u32)
    }

    fn try_from_int_str(var: u8) -> (r: Result<u32, TryFromIntStrErr>) {
        Ok(var as u32)
    }
}

impl TryFromIntStr<i16> for u32 {
    /// Converts i16 to u32; fails when the value lies outside u32's range.
    open spec fn spec_try_from_int_str(var: i16) -> Result<u32, TryFromIntStrErr> {
        if u32::MIN <= var && var <= u32::MAX {
            Ok(var as u32)
        } else {
            Err(range_error_value())
        }
    }

    fn try_from_int_str(var: i16) -> (r: Result<u32, TryFromIntStrErr>) {
        let v: i128 = var as i128;
        if u32::MIN as i128 <= v && v <= u32::MAX as i128 {
            Ok(var as u32)
        } else {
            Err(TryFromIntStrErr::range_err())
        }
    }
}

impl TryFromIntStr<u16> for u32 {
    /// Converts u16 to u32 losslessly.
    open spec fn spec_try_from_int_str(var: u16) -> Result<u32, TryFromIntStrErr> {
        Ok(var as u32)
    }

    fn try_from_int_str(var: u16) -> (r: Result<u32, TryFromIntStrErr>) {
        Ok(var as u32)
    }
}

impl TryFromIntStr<i32> for u32 {
    /// Converts i32 to u32; fails when the value lies outside u32's range.
    open spec fn spec_try_from_int_str(var: i32) -> Result<u32, TryFromIntStrErr> {
        if u32::MIN <= var && var <= u32::MAX {
            Ok(var as u32)
        } else {
            Err(range_error_value())
        }
    }

    fn try_from_int_str(var: i32) -> (r: Result<u32, TryFromIntStrErr>) {
        let v: i128 = var as i128;
        if u32::MIN as i128 <= v && v <= u32::MAX as i128 {
            Ok(var as u32)
        } else {
            Err(TryFromIntStrErr::range_err())
        }
    }
}

impl TryFromIntStr<u32> for u32 {
    /// Converts u32 to u32 losslessly.
    open spec fn spec_try_from_int_str(var: u32) -> Result<u32, TryFromIntStrErr> {
        Ok(var)
    }

    fn try_from_int_str(var: u32) -> (r: Result<u32, TryFromIntStrErr>) {
        Ok(var)
    }
}

impl TryFromIntStr<i64> for u32 {
    /// Converts i64 to u32; fails when the value lies outside u32's range.
    open spec fn spec_try_from_int_str(var: i64) -> Result<u32, TryFromIntStrErr> {
        if u32::MIN <= var && var <= u32::MAX {
            Ok(var as u32)
        } else {
            Err(range_error_value())
        }
    }

    fn try_from_int_str(var: i64) -> (r: Result<u32, TryFromIntStrErr>) {
        let v: i128 = var as i128;
        if u32::MIN as i128 <= v && v <= u32::MAX as i128 {
            Ok(var as u32)
        } else {
            Err(TryFromIntStrErr::range_err())
        }
    }
}

impl TryFromIntStr<u64> for u32 {
    /// Converts u64 to u32; fails when the value lies outside u32's range.
    open spec fn spec_try_from_int_str(var: u64) -> Result<u32, TryFromIntStrErr> {
        if u32::MIN <= var && var <= u32::MAX {
            Ok(var as u32)
        } else {
            Err(range_error_value())
        }
    }

    fn try_from_int_str(var: u64) -> (r: Result<u32, TryFromIntStrErr>) {
        let v: i128 = var as i128;
        if u32::MIN as i128 <= v && v <= u32::MAX as i128 {
            Ok(var as u32)
        } else {
            Err(TryFromIntStrErr::range_err())
        }
    }
}

impl TryFromIntStr<isize> for u32 {
    /// Converts isize to u32; fails when the value lies outside u32's range.
    open spec fn spec_try_from_int_str(var: isize) -> Result<u32, TryFromIntStrErr> {
        if u32::MIN <= var && var <= u32::MAX {
            Ok(var as u32)
        } else {
            Err(range_error_value())
        }
    }

    fn try_from_int_str(var: isize) -> (r: Result<u32, TryFromIntStrErr>) {
        let v: i128 = var as i128;
        if u32::MIN as i128 <= v && v <= u32::MAX as i128 {
            Ok(var as u32)
        } else {
            Err(TryFromIntStrErr::range_err())
        }
    }
}

impl TryFromIntStr<usize> for u32 {
    /// Converts usize to u32; fails when the value lies outside u32's range.
    /// Every value fits where pointers are 32 bits wide.
    open spec fn spec_try_from_int_str(var: usize) -> Result<u32, TryFromIntStrErr> {
        if u32::MIN <= var && var <= u32::MAX {
            Ok(var as u32)
        } else {
            Err(range_error_value())
        }
    }

    fn try_from_int_str(var: usize) -> (r: Result<u32, TryFromIntStrErr>) {
        let v: i128 = var as i128;
        if u32::MIN as i128 <= v && v <= u32::MAX as i128 {
            Ok(var as u32)
        } else {
            Err(TryFromIntStrErr::range_err())
        }
    }
}

impl TryFromIntStr<i128> for u32 {
    /// Converts i128 to u32; fails when the value lies outside u32's range.
    open spec fn spec_try_from_int_str(var: i128) -> Result<u32, TryFromIntStrErr> {
        if u32::MIN <= var && var <= u32::MAX {
            Ok(var as u32)
        } else {
            Err(range_error_value())
        }
    }

    fn try_from_int_str(var: i128) -> (r: Result<u32, TryFromIntStrErr>) {
        let v: i128 = var as i128;
        if u32::MIN as i128 <= v && v <= u32::MAX as i128 {
            Ok(var as u32)
        } else {
            Err(TryFromIntStrErr::range_err())
        }
    }
}

impl TryFromIntStr<u128> for u32 {
    /// Converts u128 to u32; fails when the value lies outside u32's range.
    open spec fn spec_try_from_int_str(var: u128) -> Result<u32, TryFromIntStrErr> {
        if u32::MIN <= var && var <= u32::MAX {
            Ok(var as u32)
        } else {
            Err(range_error_value())
        }
    }

    fn try_from_int_str(var: u128) -> (r: Result<u32, TryFromIntStrErr>) {
        if var <= u32::MAX as u128 {
            Ok(var as u32)
        } else {
            Err(TryFromIntStrErr::range_err())
        }
    }
}

impl TryFromIntStr<i8> for u64 {
    /// Converts i8 to u64; fails when the value lies outside u64's range.
    open spec fn spec_try_from_int_str(var: i8) -> Result<u64, TryFromIntStrErr> {
        if u64::MIN <= var && var <= u64::MAX {
            Ok(var as u64)
        } else {
            Err(range_error_value())
        }
    }

    fn try_from_int_str(var: i8) -> (r: Result<u64, TryFromIntStrErr>) {
        let v: i128 = var as i128;
        if u64::MIN as i128 <= v && v <= u64::MAX as i128 {
            Ok(var as u64)
        } else {
            Err(TryFromIntStrErr::range_err())
        }
    }
}

impl TryFromIntStr<u8> for u64 {
    /// Converts u8 to u64 losslessly.
    open spec fn spec_try_from_int_str(var: u8) -> Result<u64, TryFromIntStrErr> {
        Ok(var as u64)
    }

    fn try_from_int_str(var: u8) -> (r: Result<u64, TryFromIntStrErr>) {
        Ok(var as u64)
    }
}

impl TryFromIntStr<i16> for u64 {
    /// Converts i16 to u64; fails when the value lies outside u64's range.
    open spec fn spec_try_from_int_str(var: i16) -> Result<u64, TryFromIntStrErr> {
        if u64::MIN <= var && var <= u64::MAX {
            Ok(var as u64)
        } else {
            Err(range_error_value())
        }
    }

    fn try_from_int_str(var: i16) -> (r: Result<u64, TryFromIntStrErr>) {
        let v: i128 = var as i128;
        if u64::MIN as i128 <= v && v <= u64::MAX as i128 {
            Ok(var as u64)
        } else {
            Err(TryFromIntStrErr::range_err())
        }
    }
}

impl TryFromIntStr<u16> for u64 {
    /// Converts u16 to u64 losslessly.
    open spec fn spec_try_from_int_str(var: u16) -> Result<u64, TryFromIntStrErr> {
        Ok(var as u64)
    }

    fn try_from_int_str(var: u16) -> (r: Result<u64, TryFromIntStrErr>) {
        Ok(var as u64)
    }
}

impl TryFromIntStr<i32> for u64 {
    /// Converts i32 to u64; fails when the value lies outside u64's range.
    open spec fn spec_try_from_int_str(var: i32) -> Result<u64, TryFromIntStrErr> {
        if u64::MIN <= var && var <= u64::MAX {
            Ok(var as u64)
        } else {
            Err(range_error_value())
        }
    }

    fn try_from_int_str(var: i32) -> (r: Result<u64, TryFromIntStrErr>) {
        let v: i128 = var as i128;
        if u64::MIN as i128 <= v && v <= u64::MAX as i128 {
            Ok(var as u64)
        } else {
            Err(TryFromIntStrErr::range_err())
        }
    }
}

impl TryFromIntStr<u32> for u64 {
    /// Converts u32 to u64 losslessly.
    open spec fn spec_try_from_int_str(var: u32) -> Result<u64, TryFromIntStrErr> {
        Ok(var as u64)
    }

    fn try_from_int_str(var: u32) -> (r: Result<u64, TryFromIntStrErr>) {
        Ok(var as u64)
    }
}

impl TryFromIntStr<i64> for u64 {
    /// Converts i64 to u64; fails when the value lies outside u64's range.
    open spec fn spec_try_from_int_str(var: i64) -> Result<u64, TryFromIntStrErr> {
        if u64::MIN <= var && var <= u64::MAX {
            Ok(var as u64)
        } else {
            Err(range_error_value())
        }
    }

    fn try_from_int_str(var: i64) -> (r: Result<u64, TryFromIntStrErr>) {
        let v: i128 = var as i128;
        if u64::MIN as i128 <= v && v <= u64::MAX as i128 {
            Ok(var as u64)
        } else {
            Err(TryFromIntStrErr::range_err())
        }
    }
}

impl TryFromIntStr<u64> for u64 {
    /// Converts u64 to u64 losslessly.
    open spec fn spec_try_from_int_str(var: u64) -> Result<u64, TryFromIntStrErr> {
        Ok(var)
    }

    fn try_from_int_str(var: u64) -> (r: Result<u64, TryFromIntStrErr>) {
        Ok(var)
    }
}

impl TryFromIntStr<isize> for u64 {
    /// Converts isize to u64; fails when the value lies outside u64's range.
    open spec fn spec_try_from_int_str(var: isize) -> Result<u64, TryFromIntStrErr> {
        if u64::MIN <= var && var <= u64::MAX {
            Ok(var as u64)
        } else {
            Err(range_error_value())
        }
    }

    fn try_from_int_str(var: isize) -> (r: Result<u64, TryFromIntStrErr>) {
        let v: i128 = var as i128;
        if u64::MIN as i128 <= v && v <= u64::MAX as i128 {
            Ok(var as u64)
        } else {
            Err(TryFromIntStrErr::range_err())
        }
    }
}

impl TryFromIntStr<usize> for u64 {
    /// Converts usize to u64 losslessly.
    open spec fn spec_try_from_int_str(var: usize) -> Result<u64, TryFromIntStrErr> {
        Ok(var as u64)
    }

    fn try_from_int_str(var: usize) -> (r: Result<u64, TryFromIntStrErr>) {
        Ok(var as u64)
    }
}

impl TryFromIntStr<i128> for u64 {
    /// Converts i128 to u64; fails when the value lies outside u64's range.
    open spec fn spec_try_from_int_str(var: i128) -> Result<u64, TryFromIntStrErr> {
        if u64::MIN <= var && var <= u64::MAX {
            Ok(var as u64)
        } else {
            Err(range_error_value())
        }
    }

    fn try_from_int_str(var: i128) -> (r: Result<u64, TryFromIntStrErr>) {
        let v: i128 = var as i128;
        if u64::MIN as i128 <= v && v <= u64::MAX as i128 {
            Ok(var as u64)
        } else {
            Err(TryFromIntStrErr::range_err())
        }
    }
}

impl TryFromIntStr<u128> for u64 {
    /// Converts u128 to u64; fails when the value lies outside u64's range.
    open spec fn spec_try_from_int_str(var: u128) -> Result<u64, TryFromIntStrErr> {
        if u64::MIN <= var && var <= u64::MAX {
            Ok(var as u64)
        } else {
            Err(range_error_value())
        }
    }

    fn try_from_int_str(var: u128) -> (r: Result<u64, TryFromIntStrErr>) {
        if var <= u64::MAX as u128 {
            Ok(var as u64)
        } else {
            Err(TryFromIntStrErr::range_err())
        }
    }
}

impl TryFromIntStr<i8> for usize {
    /// Converts i8 to usize; fails when the value lies outside usize's range.
    open spec fn spec_try_from_int_str(var: i8) -> Result<usize, TryFromIntStrErr> {
        if usize::MIN <= var && var <= usize::MAX {
            Ok(var as usize)
        } else {
            Err(range_error_value())
        }
    }

    fn try_from_int_str(var: i8) -> (r: Result<usize, TryFromIntStrErr>) {
        let v: i128 = var as i128;
        if usize::MIN as i128 <= v && v <= usize::MAX as i128 {
            Ok(var as usize)
        } else {
            Err(TryFromIntStrErr::range_err())
        }
    }
}

impl TryFromIntStr<u8> for usize {
    /// Converts u8 to usize losslessly.
    open spec fn spec_try_from_int_str(var: u8) -> Result<usize, TryFromIntStrErr> {
        Ok(var as usize)
    }

    fn try_from_int_str(var: u8) -> (r: Result<usize, TryFromIntStrErr>) {
        Ok(var as usize)
    }
}

impl TryFromIntStr<i16> for usize {
    /// Converts i16 to usize; fails when the value lies outside usize's range.
    open spec fn spec_try_from_int_str(var: i16) -> Result<usize, TryFromIntStrErr> {
        if usize::MIN <= var && var <= usize::MAX {
            Ok(var as usize)
        } else {
            Err(range_error_value())
        }
    }

    fn try_from_int_str(var: i16) -> (r: Result<usize, TryFromIntStrErr>) {
        let v: i128 = var as i128;
        if usize::MIN as i128 <= v && v <= usize::MAX as i128 {
            Ok(var as usize)
        } else {
            Err(TryFromIntStrErr::range_err())
        }
    }
}

impl TryFromIntStr<u16> for usize {
    /// Converts u16 to usize losslessly.
    open spec fn spec_try_from_int_str(var: u16) -> Result<usize, TryFromIntStrErr> {
        Ok(var as usize)
    }

    fn try_from_int_str(var: u16) -> (r: Result<usize, TryFromIntStrErr>) {
        Ok(var as usize)
    }
}

impl TryFromIntStr<i32> for usize {
    /// Converts i32 to usize; fails when the value lies outside usize's range.
    open spec fn spec_try_from_int_str(var: i32) -> Result<usize, TryFromIntStrErr> {
        if usize::MIN <= var && var <= usize::MAX {
            Ok(var as usize)
        } else {
            Err(range_error_value())
        }
    }

    fn try_from_int_str(var: i32) -> (r: Result<usize, TryFromIntStrErr>) {
        let v: i128 = var as i128;
        if usize::MIN as i128 <= v && v <= usize::MAX as i128 {
            Ok(var as usize)
        } else {
            Err(TryFromIntStrErr::range_err())
        }
    }
}

impl TryFromIntStr<u32> for usize {
    /// Converts u32 to usize losslessly.
    open spec fn spec_try_from_int_str(var: u32) -> Result<usize, TryFromIntStrErr> {
        Ok(var as usize)
    }

    fn try_from_int_str(var: u32) -> (r: Result<usize, TryFromIntStrErr>) {
        Ok(var as usize)
    }
}

impl TryFromIntStr<i64> for usize {
    /// Converts i64 to usize; fails when the value lies outside usize's range.
    open spec fn spec_try_from_int_str(var: i64) -> Result<usize, TryFromIntStrErr> {
        if usize::MIN <= var && var <= usize::MAX {
            Ok(var as usize)
        } else {
            Err(range_error_value())
        }
    }

    fn try_from_int_str(var: i64) -> (r: Result<usize, TryFromIntStrErr>) {
        let v: i128 = var as i128;
        if usize::MIN as i128 <= v && v <= usize::MAX as i128 {
            Ok(var as usize)
        } else {
            Err(TryFromIntStrErr::range_err())
        }
    }
}

impl TryFromIntStr<u64> for usize {
    /// Converts u64 to usize; fails when the value lies outside usize's range.
    /// Every value fits where pointers are 64 bits wide.
    open spec fn spec_try_from_int_str(var: u64) -> Result<usize, TryFromIntStrErr> {
        if usize::MIN <= var && var <= usize::MAX {
            Ok(var as usize)
        } else {
            Err(range_error_value())
        }
    }

    fn try_from_int_str(var: u64) -> (r: Result<usize, TryFromIntStrErr>) {
        let v: i128 = var as i128;
        if usize::MIN as i128 <= v && v <= usize::MAX as i128 {
            Ok(var as usize)
        } else {
            Err(TryFromIntStrErr::range_err())
        }
    }
}

impl TryFromIntStr<isize> for usize {
    /// Converts isize to usize; fails when the value lies outside usize's range.
    open spec fn spec_try_from_int_str(var: isize) -> Result<usize, TryFromIntStrErr> {
        if usize::MIN <= var && var <= usize::MAX {
            Ok(var as usize)
        } else {
            Err(range_error_value())
        }
    }

    fn try_from_int_str(var: isize) -> (r: Result<usize, TryFromIntStrErr>) {
        let v: i128 = var as i128;
        if usize::MIN as i128 <= v && v <= usize::MAX as i128 {
            Ok(var as usize)
        } else {
            Err(TryFromIntStrErr::range_err())
        }
    }
}

impl TryFromIntStr<usize> for usize {
    /// Converts usize to usize losslessly.
    open spec fn spec_try_from_int_str(var: usize) -> Result<usize, TryFromIntStrErr> {
        Ok(var)
    }

    fn try_from_int_str(var: usize) -> (r: Result<usize, TryFromIntStrErr>) {
        Ok(var)
    }
}

impl TryFromIntStr<i128> for usize {
    /// Converts i128 to usize; fails when the value lies outside usize's range.
    open spec fn spec_try_from_int_str(var: i128) -> Result<usize, TryFromIntStrErr> {
        if usize::MIN <= var && var <= usize::MAX {
            Ok(var as usize)
        } else {
            Err(range_error_value())
        }
    }

    fn try_from_int_str(var: i128) -> (r: Result<usize, TryFromIntStrErr>) {
        let v: i128 = var as i128;
        if usize::MIN as i128 <= v && v <= usize::MAX as i128 {
            Ok(var as usize)
        } else {
            Err(TryFromIntStrErr::range_err())
        }
    }
}

impl TryFromIntStr<u128> for usize {
    /// Converts u128 to usize; fails when the value lies outside usize's range.
    open spec fn spec_try_from_int_str(var: u128) -> Result<usize, TryFromIntStrErr> {
        if usize::MIN <= var && var <= usize::MAX {
            Ok(var as usize)
        } else {
            Err(range_error_value())
        }
    }

    fn try_from_int_str(var: u128) -> (r: Result<usize, TryFromIntStrErr>) {
        if var <= usize::MAX as u128 {
            Ok(var as usize)
        } else {
            Err(TryFromIntStrErr::range_err())
        }
    }
}

impl TryFromIntStr<i8> for u128 {
    /// Converts i8 to u128; fails when the value lies outside u128's range.
    open spec fn spec_try_from_int_str(var: i8) -> Result<u128, TryFromIntStrErr> {
        if u128::MIN <= var && var <= u128::MAX {
            Ok(var as u128)
        } else {
            Err(range_error_value())
        }
    }

    fn try_from_int_str(var: i8) -> (r: Result<u128, TryFromIntStrErr>) {
        if var >= 0 {
            Ok(var as u128)
        } else {
            Err(TryFromIntStrErr::range_err())
        }
    }
}

impl TryFromIntStr<u8> for u128 {
    /// Converts u8 to u128 losslessly.
    open spec fn spec_try_from_int_str(var: u8) -> Result<u128, TryFromIntStrErr> {
        Ok(var as u128)
    }

    fn try_from_int_str(var: u8) -> (r: Result<u128, TryFromIntStrErr>) {
        Ok(var as u128)
    }
}

impl TryFromIntStr<i16> for u128 {
    /// Converts i16 to u128; fails when the value lies outside u128's range.
    open spec fn spec_try_from_int_str(var: i16) -> Result<u128, TryFromIntStrErr> {
        if u128::MIN <= var && var <= u128::MAX {
            Ok(var as u128)
        } else {
            Err(range_error_value())
        }
    }

    fn try_from_int_str(var: i16) -> (r: Result<u128, TryFromIntStrErr>) {
        if var >= 0 {
            Ok(var as u128)
        } else {
            Err(TryFromIntStrErr::range_err())
        }
    }
}

impl TryFromIntStr<u16> for u128 {
    /// Converts u16 to u128 losslessly.
    open spec fn spec_try_from_int_str(var: u16) -> Result<u128, TryFromIntStrErr> {
        Ok(var as u128)
    }

    fn try_from_int_str(var: u16) -> (r: Result<u128, TryFromIntStrErr>) {
        Ok(var as u128)
    }
}

impl TryFromIntStr<i32> for u128 {
    /// Converts i32 to u128; fails when the value lies outside u128's range.
    open spec fn spec_try_from_int_str(var: i32) -> Result<u128, TryFromIntStrErr> {
        if u128::MIN <= var && var <= u128::MAX {
            Ok(var as u128)
        } else {
            Err(range_error_value())
        }
    }

    fn try_from_int_str(var: i32) -> (r: Result<u128, TryFromIntStrErr>) {
        if var >= 0 {
            Ok(var as u128)
        } else {
            Err(TryFromIntStrErr::range_err())
        }
    }
}

impl TryFromIntStr<u32> for u128 {
    /// Converts u32 to u128 losslessly.
    open spec fn spec_try_from_int_str(var: u32) -> Result<u128, TryFromIntStrErr> {
        Ok(var as u128)
    }

    fn try_from_int_str(var: u32) -> (r: Result<u128, TryFromIntStrErr>) {
        Ok(var as u128)
    }
}

impl TryFromIntStr<i64> for u128 {
    /// Converts i64 to u128; fails when the value lies outside u128's range.
    open spec fn spec_try_from_int_str(var: i64) -> Result<u128, TryFromIntStrErr> {
        if u128::MIN <= var && var <= u128::MAX {
            Ok(var as u128)
        } else {
            Err(range_error_value())
        }
    }

    fn try_from_int_str(var: i64) -> (r: Result<u128, TryFromIntStrErr>) {
        if var >= 0 {
            Ok(var as u128)
        } else {
            Err(TryFromIntStrErr::range_err())
        }
    }
}

impl TryFromIntStr<u64> for u128 {
    /// Converts u64 to u128 losslessly.
    open spec fn spec_try_from_int_str(var: u64) -> Result<u128, TryFromIntStrErr> {
        Ok(var as u128)
    }

    fn try_from_int_str(var: u64) -> (r: Result<u128, TryFromIntStrErr>) {
        Ok(var as u128)
    }
}

impl TryFromIntStr<isize> for u128 {
    /// Converts isize to u128; fails when the value lies outside u128's range.
    open spec fn spec_try_from_int_str(var: isize) -> Result<u128, TryFromIntStrErr> {
        if u128::MIN <= var && var <= u128::MAX {
            Ok(var as u128)
        } else {
            Err(range_error_value())
        }
    }

    fn try_from_int_str(var: isize) -> (r: Result<u128, TryFromIntStrErr>) {
        if var >= 0 {
            Ok(var as u128)
        } else {
            Err(TryFromIntStrErr::range_err())
        }
    }
}

impl TryFromIntStr<usize> for u128 {
    /// Converts usize to u128 losslessly.
    open spec fn spec_try_from_int_str(var: usize) -> Result<u128, TryFromIntStrErr> {
        Ok(var as u128)
    }

    fn try_from_int_str(var: usize) -> (r: Result<u128, TryFromIntStrErr>) {
        Ok(var as u128)
    }
}

impl TryFromIntStr<i128> for u128 {
    /// Converts i128 to u128; fails when the value lies outside u128's range.
    open spec fn spec_try_from_int_str(var: i128) -> Result<u128, TryFromIntStrErr> {
        if u128::MIN <= var && var <= u128::MAX {
            Ok(var as u128)
        } else {
            Err(range_error_value())
        }
    }

    fn try_from_int_str(var: i128) -> (r: Result<u128, TryFromIntStrErr>) {
        if var >= 0 {
            Ok(var as u128)
        } else {
            Err(TryFromIntStrErr::range_err())
        }
    }
}

impl TryFromIntStr<u128> for u128 {
    /// Converts u128 to u128 losslessly.
    open spec fn spec_try_from_int_str(var: u128) -> Result<u128, TryFromIntStrErr> {
        Ok(var)
    }

    fn try_from_int_str(var: u128) -> (r: Result<u128, TryFromIntStrErr>) {
        Ok(var)
    }
}

} // verus!
