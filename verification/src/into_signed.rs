//! Conversions from every integer type into the signed integer types.
//!
//! Each implementation's `spec_try_from_int_str` pins the result exactly:
//! a widening or same-type conversion returns the value unconditionally,
//! and a conversion whose source range is not contained in the target's
//! returns the value exactly when it lies in the target's range, and a
//! range error otherwise.

use vstd::prelude::*;
use crate::convert::TryFromIntStr;
use crate::errors::TryFromIntStrErr;
use crate::errors::range_error_value;

verus! {

impl TryFromIntStr<i8> for i8 {
    /// Converts i8 to i8 losslessly.
    open spec fn spec_try_from_int_str(var: i8) -> Result<i8, TryFromIntStrErr> {
        Ok(var)
    }

    fn try_from_int_str(var: i8) -> (r: Result<i8, TryFromIntStrErr>) {
        Ok(var)
    }
}

impl TryFromIntStr<u8> for i8 {
    /// Converts u8 to i8; fails when the value lies outside i8's range.
    open spec fn spec_try_from_int_str(var: u8) -> Result<i8, TryFromIntStrErr> {
        if i8::MIN <= var && var <= i8::MAX {
            Ok(var as i8)
        } else {
            Err(range_error_value())
        }
    }

    fn try_from_int_str(var: u8) -> (r: Result<i8, TryFromIntStrErr>) {
        let v: i128 = var as i128;
        if i8::MIN as i128 <= v && v <= i8::MAX as i128 {
            Ok(var as i8)
        } else {
            Err(TryFromIntStrErr::range_err())
        }
    }
}

impl TryFromIntStr<i16> for i8 {
    /// Converts i16 to i8; fails when the value lies outside i8's range.
    open spec fn spec_try_from_int_str(var: i16) -> Result<i8, TryFromIntStrErr> {
        if i8::MIN <= var && var <= i8::MAX {
            Ok(var as i8)
        } else {
            Err(range_error_value())
        }
    }

    fn try_from_int_str(var: i16) -> (r: Result<i8, TryFromIntStrErr>) {
        let v: i128 = var as i128;
        if i8::MIN as i128 <= v && v <= i8::MAX as i128 {
            Ok(var as i8)
        } else {
            Err(TryFromIntStrErr::range_err())
        }
    }
}

impl TryFromIntStr<u16> for i8 {
    /// Converts u16 to i8; fails when the value lies outside i8's range.
    open spec fn spec_try_from_int_str(var: u16) -> Result<i8, TryFromIntStrErr> {
        if i8::MIN <= var && var <= i8::MAX {
            Ok(var as i8)
        } else {
            Err(range_error_value())
        }
    }

    fn try_from_int_str(var: u16) -> (r: Result<i8, TryFromIntStrErr>) {
        let v: i128 = var as i128;
        if i8::MIN as i128 <= v && v <= i8::MAX as i128 {
            Ok(var as i8)
        } else {
            Err(TryFromIntStrErr::range_err())
        }
    }
}

impl TryFromIntStr<i32> for i8 {
    /// Converts i32 to i8; fails when the value lies outside i8's range.
    open spec fn spec_try_from_int_str(var: i32) -> Result<i8, TryFromIntStrErr> {
        if i8::MIN <= var && var <= i8::MAX {
            Ok(var as i8)
        } else {
            Err(range_error_value())
        }
    }

    fn try_from_int_str(var: i32) -> (r: Result<i8, TryFromIntStrErr>) {
        let v: i128 = var as i128;
        if i8::MIN as i128 <= v && v <= i8::MAX as i128 {
            Ok(var as i8)
        } else {
            Err(TryFromIntStrErr::range_err())
        }
    }
}

impl TryFromIntStr<u32> for i8 {
    /// Converts u32 to i8; fails when the value lies outside i8's range.
    open spec fn spec_try_from_int_str(var: u32) -> Result<i8, TryFromIntStrErr> {
        if i8::MIN <= var && var <= i8::MAX {
            Ok(var as i8)
        } else {
            Err(range_error_value())
        }
    }

    fn try_from_int_str(var: u32) -> (r: Result<i8, TryFromIntStrErr>) {
        let v: i128 = var as i128;
        if i8::MIN as i128 <= v && v <= i8::MAX as i128 {
            Ok(var as i8)
        } else {
            Err(TryFromIntStrErr::range_err())
        }
    }
}

impl TryFromIntStr<i64> for i8 {
    /// Converts i64 to i8; fails when the value lies outside i8's range.
    open spec fn spec_try_from_int_str(var: i64) -> Result<i8, TryFromIntStrErr> {
        if i8::MIN <= var && var <= i8::MAX {
            Ok(var as i8)
        } else {
            Err(range_error_value())
        }
    }

    fn try_from_int_str(var: i64) -> (r: Result<i8, TryFromIntStrErr>) {
        let v: i128 = var as i128;
        if i8::MIN as i128 <= v && v <= i8::MAX as i128 {
            Ok(var as i8)
        } else {
            Err(TryFromIntStrErr::range_err())
        }
    }
}

impl TryFromIntStr<u64> for i8 {
    /// Converts u64 to i8; fails when the value lies outside i8's range.
    open spec fn spec_try_from_int_str(var: u64) -> Result<i8, TryFromIntStrErr> {
        if i8::MIN <= var && var <= i8::MAX {
            Ok(var as i8)
        } else {
            Err(range_error_value())
        }
    }

    fn try_from_int_str(var: u64) -> (r: Result<i8, TryFromIntStrErr>) {
        let v: i128 = var as i128;
        if i8::MIN as i128 <= v && v <= i8::MAX as i128 {
            Ok(var as i8)
        } else {
            Err(TryFromIntStrErr::range_err())
        }
    }
}

impl TryFromIntStr<isize> for i8 {
    /// Converts isize to i8; fails when the value lies outside i8's range.
    open spec fn spec_try_from_int_str(var: isize) -> Result<i8, TryFromIntStrErr> {
        if i8::MIN <= var && var <= i8::MAX {
            Ok(var as i8)
        } else {
            Err(range_error_value())
        }
    }

    fn try_from_int_str(var: isize) -> (r: Result<i8, TryFromIntStrErr>) {
        let v: i128 = var as i128;
        if i8::MIN as i128 <= v && v <= i8::MAX as i128 {
            Ok(var as i8)
        } else {
            Err(TryFromIntStrErr::range_err())
        }
    }
}

impl TryFromIntStr<usize> for i8 {
    /// Converts usize to i8; fails when the value lies outside i8's range.
    open spec fn spec_try_from_int_str(var: usize) -> Result<i8, TryFromIntStrErr> {
        if i8::MIN <= var && var <= i8::MAX {
            Ok(var as i8)
        } else {
            Err(range_error_value())
        }
    }

    fn try_from_int_str(var: usize) -> (r: Result<i8, TryFromIntStrErr>) {
        let v: i128 = var as i128;
        if i8::MIN as i128 <= v && v <= i8::MAX as i128 {
            Ok(var as i8)
        } else {
            Err(TryFromIntStrErr::range_err())
        }
    }
}

impl TryFromIntStr<i128> for i8 {
    /// Converts i128 to i8; fails when the value lies outside i8's range.
    open spec fn spec_try_from_int_str(var: i128) -> Result<i8, TryFromIntStrErr> {
        if i8::MIN <= var && var <= i8::MAX {
            Ok(var as i8)
        } else {
            Err(range_error_value())
        }
    }

    fn try_from_int_str(var: i128) -> (r: Result<i8, TryFromIntStrErr>) {
        let v: i128 = var as i128;
        if i8::MIN as i128 <= v && v <= i8::MAX as i128 {
            Ok(var as i8)
        } else {
            Err(TryFromIntStrErr::range_err())
        }
    }
}

impl TryFromIntStr<u128> for i8 {
    /// Converts u128 to i8; fails when the value lies outside i8's range.
    open spec fn spec_try_from_int_str(var: u128) -> Result<i8, TryFromIntStrErr> {
        if i8::MIN <= var && var <= i8::MAX {
            Ok(var as i8)
        } else {
            Err(range_error_value())
        }
    }

    fn try_from_int_str(var: u128) -> (r: Result<i8, TryFromIntStrErr>) {
        if var <= i8::MAX as u128 {
            Ok(var as i8)
        } else {
            Err(TryFromIntStrErr::range_err())
        }
    }
}

impl TryFromIntStr<i8> for i16 {
    /// Converts i8 to i16 losslessly.
    open spec fn spec_try_from_int_str(var: i8) -> Result<i16, TryFromIntStrErr> {
        Ok(var as i16)
    }

    fn try_from_int_str(var: i8) -> (r: Result<i16, TryFromIntStrErr>) {
        Ok(var as i16)
    }
}

impl TryFromIntStr<u8> for i16 {
    /// Converts u8 to i16 losslessly.
    open spec fn spec_try_from_int_str(var: u8) -> Result<i16, TryFromIntStrErr> {
        Ok(var as i16)
    }

    fn try_from_int_str(var: u8) -> (r: Result<i16, TryFromIntStrErr>) {
        Ok(var as i16)
    }
}

impl TryFromIntStr<i16> for i16 {
    /// Converts i16 to i16 losslessly.
    open spec fn spec_try_from_int_str(var: i16) -> Result<i16, TryFromIntStrErr> {
        Ok(var)
    }

    fn try_from_int_str(var: i16) -> (r: Result<i16, TryFromIntStrErr>) {
        Ok(var)
    }
}

impl TryFromIntStr<u16> for i16 {
    /// Converts u16 to i16; fails when the value lies outside i16's range.
    open spec fn spec_try_from_int_str(var: u16) -> Result<i16, TryFromIntStrErr> {
        if i16::MIN <= var && var <= i16::MAX {
            Ok(var as i16)
        } else {
            Err(range_error_value())
        }
    }

    fn try_from_int_str(var: u16) -> (r: Result<i16, TryFromIntStrErr>) {
        let v: i128 = var as i128;
        if i16::MIN as i128 <= v && v <= i16::MAX as i128 {
            Ok(var as i16)
        } else {
            Err(TryFromIntStrErr::range_err())
        }
    }
}

impl TryFromIntStr<i32> for i16 {
    /// Converts i32 to i16; fails when the value lies outside i16's range.
    open spec fn spec_try_from_int_str(var: i32) -> Result<i16, TryFromIntStrErr> {
        if i16::MIN <= var && var <= i16::MAX {
            Ok(var as i16)
        } else {
            Err(range_error_value())
        }
    }

    fn try_from_int_str(var: i32) -> (r: Result<i16, TryFromIntStrErr>) {
        let v: i128 = var as i128;
        if i16::MIN as i128 <= v && v <= i16::MAX as i128 {
            Ok(var as i16)
        } else {
            Err(TryFromIntStrErr::range_err())
        }
    }
}

impl TryFromIntStr<u32> for i16 {
    /// Converts u32 to i16; fails when the value lies outside i16's range.
    open spec fn spec_try_from_int_str(var: u32) -> Result<i16, TryFromIntStrErr> {
        if i16::MIN <= var && var <= i16::MAX {
            Ok(var as i16)
        } else {
            Err(range_error_value())
        }
    }

    fn try_from_int_str(var: u32) -> (r: Result<i16, TryFromIntStrErr>) {
        let v: i128 = var as i128;
        if i16::MIN as i128 <= v && v <= i16::MAX as i128 {
            Ok(var as i16)
        } else {
            Err(TryFromIntStrErr::range_err())
        }
    }
}

impl TryFromIntStr<i64> for i16 {
    /// Converts i64 to i16; fails when the value lies outside i16's range.
    open spec fn spec_try_from_int_str(var: i64) -> Result<i16, TryFromIntStrErr> {
        if i16::MIN <= var && var <= i16::MAX {
            Ok(var as i16)
        } else {
            Err(range_error_value())
        }
    }

    fn try_from_int_str(var: i64) -> (r: Result<i16, TryFromIntStrErr>) {
        let v: i128 = var as i128;
        if i16::MIN as i128 <= v && v <= i16::MAX as i128 {
            Ok(var as i16)
        } else {
            Err(TryFromIntStrErr::range_err())
        }
    }
}

impl TryFromIntStr<u64> for i16 {
    /// Converts u64 to i16; fails when the value lies outside i16's range.
    open spec fn spec_try_from_int_str(var: u64) -> Result<i16, TryFromIntStrErr> {
        if i16::MIN <= var && var <= i16::MAX {
            Ok(var as i16)
        } else {
            Err(range_error_value())
        }
    }

    fn try_from_int_str(var: u64) -> (r: Result<i16, TryFromIntStrErr>) {
        let v: i128 = var as i128;
        if i16::MIN as i128 <= v && v <= i16::MAX as i128 {
            Ok(var as i16)
        } else {
            Err(TryFromIntStrErr::range_err())
        }
    }
}

impl TryFromIntStr<isize> for i16 {
    /// Converts isize to i16; fails when the value lies outside i16's range.
    open spec fn spec_try_from_int_str(var: isize) -> Result<i16, TryFromIntStrErr> {
        if i16::MIN <= var && var <= i16::MAX {
            Ok(var as i16)
        } else {
            Err(range_error_value())
        }
    }

    fn try_from_int_str(var: isize) -> (r: Result<i16, TryFromIntStrErr>) {
        let v: i128 = var as i128;
        if i16::MIN as i128 <= v && v <= i16::MAX as i128 {
            Ok(var as i16)
        } else {
            Err(TryFromIntStrErr::range_err())
        }
    }
}

impl TryFromIntStr<usize> for i16 {
    /// Converts usize to i16; fails when the value lies outside i16's range.
    open spec fn spec_try_from_int_str(var: usize) -> Result<i16, TryFromIntStrErr> {
        if i16::MIN <= var && var <= i16::MAX {
            Ok(var as i16)
        } else {
            Err(range_error_value())
        }
    }

    fn try_from_int_str(var: usize) -> (r: Result<i16, TryFromIntStrErr>) {
        let v: i128 = var as i128;
        if i16::MIN as i128 <= v && v <= i16::MAX as i128 {
            Ok(var as i16)
        } else {
            Err(TryFromIntStrErr::range_err())
        }
    }
}

impl TryFromIntStr<i128> for i16 {
    /// Converts i128 to i16; fails when the value lies outside i16's range.
    open spec fn spec_try_from_int_str(var: i128) -> Result<i16, TryFromIntStrErr> {
        if i16::MIN <= var && var <= i16::MAX {
            Ok(var as i16)
        } else {
            Err(range_error_value())
        }
    }

    fn try_from_int_str(var: i128) -> (r: Result<i16, TryFromIntStrErr>) {
        let v: i128 = var as i128;
        if i16::MIN as i128 <= v && v <= i16::MAX as i128 {
            Ok(var as i16)
        } else {
            Err(TryFromIntStrErr::range_err())
        }
    }
}

impl TryFromIntStr<u128> for i16 {
    /// Converts u128 to i16; fails when the value lies outside i16's range.
    open spec fn spec_try_from_int_str(var: u128) -> Result<i16, TryFromIntStrErr> {
        if i16::MIN <= var && var <= i16::MAX {
            Ok(var as i16)
        } else {
            Err(range_error_value())
        }
    }

    fn try_from_int_str(var: u128) -> (r: Result<i16, TryFromIntStrErr>) {
        if var <= i16::MAX as u128 {
            Ok(var as i16)
        } else {
            Err(TryFromIntStrErr::range_err())
        }
    }
}

impl TryFromIntStr<i8> for i32 {
    /// Converts i8 to i32 losslessly.
    open spec fn spec_try_from_int_str(var: i8) -> Result<i32, TryFromIntStrErr> {
        Ok(var as i32)
    }

    fn try_from_int_str(var: i8) -> (r: Result<i32, TryFromIntStrErr>) {
        Ok(var as i32)
    }
}

impl TryFromIntStr<u8> for i32 {
    /// Converts u8 to i32 losslessly.
    open spec fn spec_try_from_int_str(var: u8) -> Result<i32, TryFromIntStrErr> {
        Ok(var as i32)
    }

    fn try_from_int_str(var: u8) -> (r: Result<i32, TryFromIntStrErr>) {
        Ok(var as i32)
    }
}

impl TryFromIntStr<i16> for i32 {
    /// Converts i16 to i32 losslessly.
    open spec fn spec_try_from_int_str(var: i16) -> Result<i32, TryFromIntStrErr> {
        Ok(var as i32)
    }

    fn try_from_int_str(var: i16) -> (r: Result<i32, TryFromIntStrErr>) {
        Ok(var as i32)
    }
}

impl TryFromIntStr<u16> for i32 {
    /// Converts u16 to i32 losslessly.
    open spec fn spec_try_from_int_str(var: u16) -> Result<i32, TryFromIntStrErr> {
        Ok(var as i32)
    }

    fn try_from_int_str(var: u16) -> (r: Result<i32, TryFromIntStrErr>) {
        Ok(var as i32)
    }
}

impl TryFromIntStr<i32> for i32 {
    /// Converts i32 to i32 losslessly.
    open spec fn spec_try_from_int_str(var: i32) -> Result<i32, TryFromIntStrErr> {
        Ok(var)
    }

    fn try_from_int_str(var: i32) -> (r: Result<i32, TryFromIntStrErr>) {
        Ok(var)
    }
}

impl TryFromIntStr<u32> for i32 {
    /// Converts u32 to i32; fails when the value lies outside i32's range.
    open spec fn spec_try_from_int_str(var: u32) -> Result<i32, TryFromIntStrErr> {
        if i32::MIN <= var && var <= i32::MAX {
            Ok(var as i32)
        } else {
            Err(range_error_value())
        }
    }

    fn try_from_int_str(var: u32) -> (r: Result<i32, TryFromIntStrErr>) {
        let v: i128 = var as i128;
        if i32::MIN as i128 <= v && v <= i32::MAX as i128 {
            Ok(var as i32)
        } else {
            Err(TryFromIntStrErr::range_err())
        }
    }
}

impl TryFromIntStr<i64> for i32 {
    /// Converts i64 to i32; fails when the value lies outside i32's range.
    open spec fn spec_try_from_int_str(var: i64) -> Result<i32, TryFromIntStrErr> {
        if i32::MIN <= var && var <= i32::MAX {
            Ok(var as i32)
        } else {
            Err(range_error_value())
        }
    }

    fn try_from_int_str(var: i64) -> (r: Result<i32, TryFromIntStrErr>) {
        let v: i128 = var as i128;
        if i32::MIN as i128 <= v && v <= i32::MAX as i128 {
            Ok(var as i32)
        } else {
            Err(TryFromIntStrErr::range_err())
        }
    }
}

impl TryFromIntStr<u64> for i32 {
    /// Converts u64 to i32; fails when the value lies outside i32's range.
    open spec fn spec_try_from_int_str(var: u64) -> Result<i32, TryFromIntStrErr> {
        if i32::MIN <= var && var <= i32::MAX {
            Ok(var as i32)
        } else {
            Err(range_error_value())
        }
    }

    fn try_from_int_str(var: u64) -> (r: Result<i32, TryFromIntStrErr>) {
        let v: i128 = var as i128;
        if i32::MIN as i128 <= v && v <= i32::MAX as i128 {
            Ok(var as i32)
        } else {
            Err(TryFromIntStrErr::range_err())
        }
    }
}

impl TryFromIntStr<isize> for i32 {
    /// Converts isize to i32; fails when the value lies outside i32's range.
    /// Every value fits where pointers are 32 bits wide.
    open spec fn spec_try_from_int_str(var: isize) -> Result<i32, TryFromIntStrErr> {
        if i32::MIN <= var && var <= i32::MAX {
            Ok(var as i32)
        } else {
            Err(range_error_value())
        }
    }

    fn try_from_int_str(var: isize) -> (r: Result<i32, TryFromIntStrErr>) {
        let v: i128 = var as i128;
        if i32::MIN as i128 <= v && v <= i32::MAX as i128 {
            Ok(var as i32)
        } else {
            Err(TryFromIntStrErr::range_err())
        }
    }
}

impl TryFromIntStr<usize> for i32 {
    /// Converts usize to i32; fails when the value lies outside i32's range.
    open spec fn spec_try_from_int_str(var: usize) -> Result<i32, TryFromIntStrErr> {
        if i32::MIN <= var && var <= i32::MAX {
            Ok(var as i32)
        } else {
            Err(range_error_value())
        }
    }

    fn try_from_int_str(var: usize) -> (r: Result<i32, TryFromIntStrErr>) {
        let v: i128 = var as i128;
        if i32::MIN as i128 <= v && v <= i32::MAX as i128 {
            Ok(var as i32)
        } else {
            Err(TryFromIntStrErr::range_err())
        }
    }
}

impl TryFromIntStr<i128> for i32 {
    /// Converts i128 to i32; fails when the value lies outside i32's range.
    open spec fn spec_try_from_int_str(var: i128) -> Result<i32, TryFromIntStrErr> {
        if i32::MIN <= var && var <= i32::MAX {
            Ok(var as i32)
        } else {
            Err(range_error_value())
        }
    }

    fn try_from_int_str(var: i128) -> (r: Result<i32, TryFromIntStrErr>) {
        let v: i128 = var as i128;
        if i32::MIN as i128 <= v && v <= i32::MAX as i128 {
            Ok(var as i32)
        } else {
            Err(TryFromIntStrErr::range_err())
        }
    }
}

impl TryFromIntStr<u128> for i32 {
    /// Converts u128 to i32; fails when the value lies outside i32's range.
    open spec fn spec_try_from_int_str(var: u128) -> Result<i32, TryFromIntStrErr> {
        if i32::MIN <= var && var <= i32::MAX {
            Ok(var as i32)
        } else {
            Err(range_error_value())
        }
    }

    fn try_from_int_str(var: u128) -> (r: Result<i32, TryFromIntStrErr>) {
        if var <= i32::MAX as u128 {
            Ok(var as i32)
        } else {
            Err(TryFromIntStrErr::range_err())
        }
    }
}

impl TryFromIntStr<i8> for i64 {
    /// Converts i8 to i64 losslessly.
    open spec fn spec_try_from_int_str(var: i8) -> Result<i64, TryFromIntStrErr> {
        Ok(var as i64)
    }

    fn try_from_int_str(var: i8) -> (r: Result<i64, TryFromIntStrErr>) {
        Ok(var as i64)
    }
}

impl TryFromIntStr<u8> for i64 {
    /// Converts u8 to i64 losslessly.
    open spec fn spec_try_from_int_str(var: u8) -> Result<i64, TryFromIntStrErr> {
        Ok(var as i64)
    }

    fn try_from_int_str(var: u8) -> (r: Result<i64, TryFromIntStrErr>) {
        Ok(var as i64)
    }
}

impl TryFromIntStr<i16> for i64 {
    /// Converts i16 to i64 losslessly.
    open spec fn spec_try_from_int_str(var: i16) -> Result<i64, TryFromIntStrErr> {
        Ok(var as i64)
    }

    fn try_from_int_str(var: i16) -> (r: Result<i64, TryFromIntStrErr>) {
        Ok(var as i64)
    }
}

impl TryFromIntStr<u16> for i64 {
    /// Converts u16 to i64 losslessly.
    open spec fn spec_try_from_int_str(var: u16) -> Result<i64, TryFromIntStrErr> {
        Ok(var as i64)
    }

    fn try_from_int_str(var: u16) -> (r: Result<i64, TryFromIntStrErr>) {
        Ok(var as i64)
    }
}

impl TryFromIntStr<i32> for i64 {
    /// Converts i32 to i64 losslessly.
    open spec fn spec_try_from_int_str(var: i32) -> Result<i64, TryFromIntStrErr> {
        Ok(var as i64)
    }

    fn try_from_int_str(var: i32) -> (r: Result<i64, TryFromIntStrErr>) {
        Ok(var as i64)
    }
}

impl TryFromIntStr<u32> for i64 {
    /// Converts u32 to i64 losslessly.
    open spec fn spec_try_from_int_str(var: u32) -> Result<i64, TryFromIntStrErr> {
        Ok(var as i64)
    }

    fn try_from_int_str(var: u32) -> (r: Result<i64, TryFromIntStrErr>) {
        Ok(var as i64)
    }
}

impl TryFromIntStr<i64> for i64 {
    /// Converts i64 to i64 losslessly.
    open spec fn spec_try_from_int_str(var: i64) -> Result<i64, TryFromIntStrErr> {
        Ok(var)
    }

    fn try_from_int_str(var: i64) -> (r: Result<i64, TryFromIntStrErr>) {
        Ok(var)
    }
}

impl TryFromIntStr<u64> for i64 {
    /// Converts u64 to i64; fails when the value lies outside i64's range.
    open spec fn spec_try_from_int_str(var: u64) -> Result<i64, TryFromIntStrErr> {
        if i64::MIN <= var && var <= i64::MAX {
            Ok(var as i64)
        } else {
            Err(range_error_value())
        }
    }

    fn try_from_int_str(var: u64) -> (r: Result<i64, TryFromIntStrErr>) {
        let v: i128 = var as i128;
        if i64::MIN as i128 <= v && v <= i64::MAX as i128 {
            Ok(var as i64)
        } else {
            Err(TryFromIntStrErr::range_err())
        }
    }
}

impl TryFromIntStr<isize> for i64 {
    /// Converts isize to i64 losslessly.
    open spec fn spec_try_from_int_str(var: isize) -> Result<i64, TryFromIntStrErr> {
        Ok(var as i64)
    }

    fn try_from_int_str(var: isize) -> (r: Result<i64, TryFromIntStrErr>) {
        Ok(var as i64)
    }
}

impl TryFromIntStr<usize> for i64 {
    /// Converts usize to i64; fails when the value lies outside i64's range.
    /// Every value fits where pointers are 32 bits wide.
    open spec fn spec_try_from_int_str(var: usize) -> Result<i64, TryFromIntStrErr> {
        if i64::MIN <= var && var <= i64::MAX {
            Ok(var as i64)
        } else {
            Err(range_error_value())
        }
    }

    fn try_from_int_str(var: usize) -> (r: Result<i64, TryFromIntStrErr>) {
        let v: i128 = var as i128;
        if i64::MIN as i128 <= v && v <= i64::MAX as i128 {
            Ok(var as i64)
        } else {
            Err(TryFromIntStrErr::range_err())
        }
    }
}

impl TryFromIntStr<i128> for i64 {
    /// Converts i128 to i64; fails when the value lies outside i64's range.
    open spec fn spec_try_from_int_str(var: i128) -> Result<i64, TryFromIntStrErr> {
        if i64::MIN <= var && var <= i64::MAX {
            Ok(var as i64)
        } else {
            Err(range_error_value())
        }
    }

    fn try_from_int_str(var: i128) -> (r: Result<i64, TryFromIntStrErr>) {
        let v: i128 = var as i128;
        if i64::MIN as i128 <= v && v <= i64::MAX as i128 {
            Ok(var as i64)
        } else {
            Err(TryFromIntStrErr::range_err())
        }
    }
}

impl TryFromIntStr<u128> for i64 {
    /// Converts u128 to i64; fails when the value lies outside i64's range.
    open spec fn spec_try_from_int_str(var: u128) -> Result<i64, TryFromIntStrErr> {
        if i64::MIN <= var && var <= i64::MAX {
            Ok(var as i64)
        } else {
            Err(range_error_value())
        }
    }

    fn try_from_int_str(var: u128) -> (r: Result<i64, TryFromIntStrErr>) {
        if var <= i64::MAX as u128 {
            Ok(var as i64)
        } else {
            Err(TryFromIntStrErr::range_err())
        }
    }
}

impl TryFromIntStr<i8> for isize {
    /// Converts i8 to isize losslessly.
    open spec fn spec_try_from_int_str(var: i8) -> Result<isize, TryFromIntStrErr> {
        Ok(var as isize)
    }

    fn try_from_int_str(var: i8) -> (r: Result<isize, TryFromIntStrErr>) {
        Ok(var as isize)
    }
}

impl TryFromIntStr<u8> for isize {
    /// Converts u8 to isize losslessly.
    open spec fn spec_try_from_int_str(var: u8) -> Result<isize, TryFromIntStrErr> {
        Ok(var as isize)
    }

    fn try_from_int_str(var: u8) -> (r: Result<isize, TryFromIntStrErr>) {
        Ok(var as isize)
    }
}

impl TryFromIntStr<i16> for isize {
    /// Converts i16 to isize losslessly.
    open spec fn spec_try_from_int_str(var: i16) -> Result<isize, TryFromIntStrErr> {
        Ok(var as isize)
    }

    fn try_from_int_str(var: i16) -> (r: Result<isize, TryFromIntStrErr>) {
        Ok(var as isize)
    }
}

impl TryFromIntStr<u16> for isize {
    /// Converts u16 to isize losslessly.
    open spec fn spec_try_from_int_str(var: u16) -> Result<isize, TryFromIntStrErr> {
        Ok(var as isize)
    }

    fn try_from_int_str(var: u16) -> (r: Result<isize, TryFromIntStrErr>) {
        Ok(var as isize)
    }
}

impl TryFromIntStr<i32> for isize {
    /// Converts i32 to isize losslessly.
    open spec fn spec_try_from_int_str(var: i32) -> Result<isize, TryFromIntStrErr> {
        Ok(var as isize)
    }

    fn try_from_int_str(var: i32) -> (r: Result<isize, TryFromIntStrErr>) {
        Ok(var as isize)
    }
}

impl TryFromIntStr<u32> for isize {
    /// Converts u32 to isize; fails when the value lies outside isize's range.
    /// Every value fits where pointers are 64 bits wide.
    open spec fn spec_try_from_int_str(var: u32) -> Result<isize, TryFromIntStrErr> {
        if isize::MIN <= var && var <= isize::MAX {
            Ok(var as isize)
        } else {
            Err(range_error_value())
        }
    }

    fn try_from_int_str(var: u32) -> (r: Result<isize, TryFromIntStrErr>) {
        let v: i128 = var as i128;
        if isize::MIN as i128 <= v && v <= isize::MAX as i128 {
            Ok(var as isize)
        } else {
            Err(TryFromIntStrErr::range_err())
        }
    }
}

impl TryFromIntStr<i64> for isize {
    /// Converts i64 to isize; fails when the value lies outside isize's range.
    /// Every value fits where pointers are 64 bits wide.
    open spec fn spec_try_from_int_str(var: i64) -> Result<isize, TryFromIntStrErr> {
        if isize::MIN <= var && var <= isize::MAX {
            Ok(var as isize)
        } else {
            Err(range_error_value())
        }
    }

    fn try_from_int_str(var: i64) -> (r: Result<isize, TryFromIntStrErr>) {
        let v: i128 = var as i128;
        if isize::MIN as i128 <= v && v <= isize::MAX as i128 {
            Ok(var as isize)
        } else {
            Err(TryFromIntStrErr::range_err())
        }
    }
}

impl TryFromIntStr<u64> for isize {
    /// Converts u64 to isize; fails when the value lies outside isize's range.
    open spec fn spec_try_from_int_str(var: u64) -> Result<isize, TryFromIntStrErr> {
        if isize::MIN <= var && var <= isize::MAX {
            Ok(var as isize)
        } else {
            Err(range_error_value())
        }
    }

    fn try_from_int_str(var: u64) -> (r: Result<isize, TryFromIntStrErr>) {
        let v: i128 = var as i128;
        if isize::MIN as i128 <= v && v <= isize::MAX as i128 {
            Ok(var as isize)
        } else {
            Err(TryFromIntStrErr::range_err())
        }
    }
}

impl TryFromIntStr<isize> for isize {
    /// Converts isize to isize losslessly.
    open spec fn spec_try_from_int_str(var: isize) -> Result<isize, TryFromIntStrErr> {
        Ok(var)
    }

    fn try_from_int_str(var: isize) -> (r: Result<isize, TryFromIntStrErr>) {
        Ok(var)
    }
}

impl TryFromIntStr<usize> for isize {
    /// Converts usize to isize; fails when the value lies outside isize's range.
    open spec fn spec_try_from_int_str(var: usize) -> Result<isize, TryFromIntStrErr> {
        if isize::MIN <= var && var <= isize::MAX {
            Ok(var as isize)
        } else {
            Err(range_error_value())
        }
    }

    fn try_from_int_str(var: usize) -> (r: Result<isize, TryFromIntStrErr>) {
        let v: i128 = var as i128;
        if isize::MIN as i128 <= v && v <= isize::MAX as i128 {
            Ok(var as isize)
        } else {
            Err(TryFromIntStrErr::range_err())
        }
    }
}

impl TryFromIntStr<i128> for isize {
    /// Converts i128 to isize; fails when the value lies outside isize's range.
    open spec fn spec_try_from_int_str(var: i128) -> Result<isize, TryFromIntStrErr> {
        if isize::MIN <= var && var <= isize::MAX {
            Ok(var as isize)
        } else {
            Err(range_error_value())
        }
    }

    fn try_from_int_str(var: i128) -> (r: Result<isize, TryFromIntStrErr>) {
        let v: i128 = var as i128;
        if isize::MIN as i128 <= v && v <= isize::MAX as i128 {
            Ok(var as isize)
        } else {
            Err(TryFromIntStrErr::range_err())
        }
    }
}

impl TryFromIntStr<u128> for isize {
    /// Converts u128 to isize; fails when the value lies outside isize's range.
    open spec fn spec_try_from_int_str(var: u128) -> Result<isize, TryFromIntStrErr> {
        if isize::MIN <= var && var <= isize::MAX {
            Ok(var as isize)
        } else {
            Err(range_error_value())
        }
    }

    fn try_from_int_str(var: u128) -> (r: Result<isize, TryFromIntStrErr>) {
        if var <= isize::MAX as u128 {
            Ok(var as isize)
        } else {
            Err(TryFromIntStrErr::range_err())
        }
    }
}

impl TryFromIntStr<i8> for i128 {
    /// Converts i8 to i128 losslessly.
    open spec fn spec_try_from_int_str(var: i8) -> Result<i128, TryFromIntStrErr> {
        Ok(var as i128)
    }

    fn try_from_int_str(var: i8) -> (r: Result<i128, TryFromIntStrErr>) {
        Ok(var as i128)
    }
}

impl TryFromIntStr<u8> for i128 {
    /// Converts u8 to i128 losslessly.
    open spec fn spec_try_from_int_str(var: u8) -> Result<i128, TryFromIntStrErr> {
        Ok(var as i128)
    }

    fn try_from_int_str(var: u8) -> (r: Result<i128, TryFromIntStrErr>) {
        Ok(var as i128)
    }
}

impl TryFromIntStr<i16> for i128 {
    /// Converts i16 to i128 losslessly.
    open spec fn spec_try_from_int_str(var: i16) -> Result<i128, TryFromIntStrErr> {
        Ok(var as i128)
    }

    fn try_from_int_str(var: i16) -> (r: Result<i128, TryFromIntStrErr>) {
        Ok(var as i128)
    }
}

impl TryFromIntStr<u16> for i128 {
    /// Converts u16 to i128 losslessly.
    open spec fn spec_try_from_int_str(var: u16) -> Result<i128, TryFromIntStrErr> {
        Ok(var as i128)
    }

    fn try_from_int_str(var: u16) -> (r: Result<i128, TryFromIntStrErr>) {
        Ok(var as i128)
    }
}

impl TryFromIntStr<i32> for i128 {
    /// Converts i32 to i128 losslessly.
    open spec fn spec_try_from_int_str(var: i32) -> Result<i128, TryFromIntStrErr> {
        Ok(var as i128)
    }

    fn try_from_int_str(var: i32) -> (r: Result<i128, TryFromIntStrErr>) {
        Ok(var as i128)
    }
}

impl TryFromIntStr<u32> for i128 {
    /// Converts u32 to i128 losslessly.
    open spec fn spec_try_from_int_str(var: u32) -> Result<i128, TryFromIntStrErr> {
        Ok(var as i128)
    }

    fn try_from_int_str(var: u32) -> (r: Result<i128, TryFromIntStrErr>) {
        Ok(var as i128)
    }
}

impl TryFromIntStr<i64> for i128 {
    /// Converts i64 to i128 losslessly.
    open spec fn spec_try_from_int_str(var: i64) -> Result<i128, TryFromIntStrErr> {
        Ok(var as i128)
    }

    fn try_from_int_str(var: i64) -> (r: Result<i128, TryFromIntStrErr>) {
        Ok(var as i128)
    }
}

impl TryFromIntStr<u64> for i128 {
    /// Converts u64 to i128 losslessly.
    open spec fn spec_try_from_int_str(var: u64) -> Result<i128, TryFromIntStrErr> {
        Ok(var as i128)
    }

    fn try_from_int_str(var: u64) -> (r: Result<i128, TryFromIntStrErr>) {
        Ok(var as i128)
    }
}

impl TryFromIntStr<isize> for i128 {
    /// Converts isize to i128 losslessly.
    open spec fn spec_try_from_int_str(var: isize) -> Result<i128, TryFromIntStrErr> {
        Ok(var as i128)
    }

    fn try_from_int_str(var: isize) -> (r: Result<i128, TryFromIntStrErr>) {
        Ok(var as i128)
    }
}

impl TryFromIntStr<usize> for i128 {
    /// Converts usize to i128 losslessly.
    open spec fn spec_try_from_int_str(var: usize) -> Result<i128, TryFromIntStrErr> {
        Ok(var as i128)
    }

    fn try_from_int_str(var: usize) -> (r: Result<i128, TryFromIntStrErr>) {
        Ok(var as i128)
    }
}

impl TryFromIntStr<i128> for i128 {
    /// Converts i128 to i128 losslessly.
    open spec fn spec_try_from_int_str(var: i128) -> Result<i128, TryFromIntStrErr> {
        Ok(var)
    }

    fn try_from_int_str(var: i128) -> (r: Result<i128, TryFromIntStrErr>) {
        Ok(var)
    }
}

impl TryFromIntStr<u128> for i128 {
    /// Converts u128 to i128; fails when the value lies outside i128's range.
    open spec fn spec_try_from_int_str(var: u128) -> Result<i128, TryFromIntStrErr> {
        if i128::MIN <= var && var <= i128::MAX {
            Ok(var as i128)
        } else {
            Err(range_error_value())
        }
    }

    fn try_from_int_str(var: u128) -> (r: Result<i128, TryFromIntStrErr>) {
        if var <= i128::MAX as u128 {
            Ok(var as i128)
        } else {
            Err(TryFromIntStrErr::range_err())
        }
    }
}

} // verus!
