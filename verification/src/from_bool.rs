//! Conversions from `bool` into every integer type.
//!
//! The boolean conversion is total: `false` maps to 0 and `true` maps to 1
//! in every target type.

use vstd::prelude::*;
use crate::convert::TryFromIntStr;
use crate::errors::TryFromIntStrErr;

verus! {

impl TryFromIntStr<bool> for i8 {
    /// Converts bool to i8 losslessly.
    open spec fn spec_try_from_int_str(var: bool) -> Result<i8, TryFromIntStrErr> {
        Ok(if var { 1i8 } else { 0i8 })
    }

    fn try_from_int_str(var: bool) -> (r: Result<i8, TryFromIntStrErr>) {
        Ok(if var { 1 } else { 0 })
    }
}

impl TryFromIntStr<bool> for u8 {
    /// Converts bool to u8 losslessly.
    open spec fn spec_try_from_int_str(var: bool) -> Result<u8, TryFromIntStrErr> {
        Ok(if var { 1u8 } else { 0u8 })
    }

    fn try_from_int_str(var: bool) -> (r: Result<u8, TryFromIntStrErr>) {
        Ok(if var { 1 } else { 0 })
    }
}

impl TryFromIntStr<bool> for i16 {
    /// Converts bool to i16 losslessly.
    open spec fn spec_try_from_int_str(var: bool) -> Result<i16, TryFromIntStrErr> {
        Ok(if var { 1i16 } else { 0i16 })
    }

    fn try_from_int_str(var: bool) -> (r: Result<i16, TryFromIntStrErr>) {
        Ok(if var { 1 } else { 0 })
    }
}

impl TryFromIntStr<bool> for u16 {
    /// Converts bool to u16 losslessly.
    open spec fn spec_try_from_int_str(var: bool) -> Result<u16, TryFromIntStrErr> {
        Ok(if var { 1u16 } else { 0u16 })
    }

    fn try_from_int_str(var: bool) -> (r: Result<u16, TryFromIntStrErr>) {
        Ok(if var { 1 } else { 0 })
    }
}

impl TryFromIntStr<bool> for i32 {
    /// Converts bool to i32 losslessly.
    open spec fn spec_try_from_int_str(var: bool) -> Result<i32, TryFromIntStrErr> {
        Ok(if var { 1i32 } else { 0i32 })
    }

    fn try_from_int_str(var: bool) -> (r: Result<i32, TryFromIntStrErr>) {
        Ok(if var { 1 } else { 0 })
    }
}

impl TryFromIntStr<bool> for u32 {
    /// Converts bool to u32 losslessly.
    open spec fn spec_try_from_int_str(var: bool) -> Result<u32, TryFromIntStrErr> {
        Ok(if var { 1u32 } else { 0u32 })
    }

    fn try_from_int_str(var: bool) -> (r: Result<u32, TryFromIntStrErr>) {
        Ok(if var { 1 } else { 0 })
    }
}

impl TryFromIntStr<bool> for i64 {
    /// Converts bool to i64 losslessly.
    open spec fn spec_try_from_int_str(var: bool) -> Result<i64, TryFromIntStrErr> {
        Ok(if var { 1i64 } else { 0i64 })
    }

    fn try_from_int_str(var: bool) -> (r: Result<i64, TryFromIntStrErr>) {
        Ok(if var { 1 } else { 0 })
    }
}

impl TryFromIntStr<bool> for u64 {
    /// Converts bool to u64 losslessly.
    open spec fn spec_try_from_int_str(var: bool) -> Result<u64, TryFromIntStrErr> {
        Ok(if var { 1u64 } else { 0u64 })
    }

    fn try_from_int_str(var: bool) -> (r: Result<u64, TryFromIntStrErr>) {
        Ok(if var { 1 } else { 0 })
    }
}

impl TryFromIntStr<bool> for isize {
    /// Converts bool to isize losslessly.
    open spec fn spec_try_from_int_str(var: bool) -> Result<isize, TryFromIntStrErr> {
        Ok(if var { 1isize } else { 0isize })
    }

    fn try_from_int_str(var: bool) -> (r: Result<isize, TryFromIntStrErr>) {
        Ok(if var { 1 } else { 0 })
    }
}

impl TryFromIntStr<bool> for usize {
    /// Converts bool to usize losslessly.
    open spec fn spec_try_from_int_str(var: bool) -> Result<usize, TryFromIntStrErr> {
        Ok(if var { 1usize } else { 0usize })
    }

    fn try_from_int_str(var: bool) -> (r: Result<usize, TryFromIntStrErr>) {
        Ok(if var { 1 } else { 0 })
    }
}

impl TryFromIntStr<bool> for i128 {
    /// Converts bool to i128 losslessly.
    open spec fn spec_try_from_int_str(var: bool) -> Result<i128, TryFromIntStrErr> {
        Ok(if var { 1i128 } else { 0i128 })
    }

    fn try_from_int_str(var: bool) -> (r: Result<i128, TryFromIntStrErr>) {
        Ok(if var { 1 } else { 0 })
    }
}

impl TryFromIntStr<bool> for u128 {
    /// Converts bool to u128 losslessly.
    open spec fn spec_try_from_int_str(var: bool) -> Result<u128, TryFromIntStrErr> {
        Ok(if var { 1u128 } else { 0u128 })
    }

    fn try_from_int_str(var: bool) -> (r: Result<u128, TryFromIntStrErr>) {
        Ok(if var { 1 } else { 0 })
    }
}

} // verus!
