//! Conversions from `&str` into every integer type.
//!
//! Each implementation parses the text as a base-10 numeral for its
//! target, with a single leading minus sign accepted for signed targets
//! only, and wraps any failure in a parse error, so a caller can always
//! tell a text failure from a numeric range failure.

use vstd::prelude::*;
use crate::convert::TryFromIntStr;
use crate::errors::TryFromIntStrErr;
use crate::errors::parse_error_value;
use crate::parse::lemma_spec_parse_int_range;
use crate::parse::parse_i128_in_range;
use crate::parse::parse_u128_in_range;
use crate::parse::spec_parse_int;

verus! {

impl TryFromIntStr<&str> for i8 {
    /// Converts &str to i8; fails on malformed or out-of-range numerals.
    open spec fn spec_try_from_int_str(var: &str) -> Result<i8, TryFromIntStrErr> {
        match spec_parse_int(var@, true, i8::MIN as int, i8::MAX as int) {
            Ok(v) => Ok(v as i8),
            Err(k) => Err(parse_error_value(k)),
        }
    }

    fn try_from_int_str(var: &str) -> (r: Result<i8, TryFromIntStrErr>) {
        proof {
            lemma_spec_parse_int_range(var@, true, i8::MIN as int, i8::MAX as int);
        }
        match parse_i128_in_range(var, i8::MIN as i128, i8::MAX as i128) {
            Ok(v) => Ok(v as i8),
            Err(k) => Err(TryFromIntStrErr::parse_err(k)),
        }
    }
}

impl TryFromIntStr<&str> for u8 {
    /// Converts &str to u8; fails on malformed or out-of-range numerals.
    open spec fn spec_try_from_int_str(var: &str) -> Result<u8, TryFromIntStrErr> {
        match spec_parse_int(var@, false, 0, u8::MAX as int) {
            Ok(v) => Ok(v as u8),
            Err(k) => Err(parse_error_value(k)),
        }
    }

    fn try_from_int_str(var: &str) -> (r: Result<u8, TryFromIntStrErr>) {
        proof {
            lemma_spec_parse_int_range(var@, false, 0, u8::MAX as int);
        }
        match parse_u128_in_range(var, u8::MAX as u128) {
            Ok(v) => Ok(v as u8),
            Err(k) => Err(TryFromIntStrErr::parse_err(k)),
        }
    }
}

impl TryFromIntStr<&str> for i16 {
    /// Converts &str to i16; fails on malformed or out-of-range numerals.
    open spec fn spec_try_from_int_str(var: &str) -> Result<i16, TryFromIntStrErr> {
        match spec_parse_int(var@, true, i16::MIN as int, i16::MAX as int) {
            Ok(v) => Ok(v as i16),
            Err(k) => Err(parse_error_value(k)),
        }
    }

    fn try_from_int_str(var: &str) -> (r: Result<i16, TryFromIntStrErr>) {
        proof {
            lemma_spec_parse_int_range(var@, true, i16::MIN as int, i16::MAX as int);
        }
        match parse_i128_in_range(var, i16::MIN as i128, i16::MAX as i128) {
            Ok(v) => Ok(v as i16),
            Err(k) => Err(TryFromIntStrErr::parse_err(k)),
        }
    }
}

impl TryFromIntStr<&str> for u16 {
    /// Converts &str to u16; fails on malformed or out-of-range numerals.
    open spec fn spec_try_from_int_str(var: &str) -> Result<u16, TryFromIntStrErr> {
        match spec_parse_int(var@, false, 0, u16::MAX as int) {
            Ok(v) => Ok(v as u16),
            Err(k) => Err(parse_error_value(k)),
        }
    }

    fn try_from_int_str(var: &str) -> (r: Result<u16, TryFromIntStrErr>) {
        proof {
            lemma_spec_parse_int_range(var@, false, 0, u16::MAX as int);
        }
        match parse_u128_in_range(var, u16::MAX as u128) {
            Ok(v) => Ok(v as u16),
            Err(k) => Err(TryFromIntStrErr::parse_err(k)),
        }
    }
}

impl TryFromIntStr<&str> for i32 {
    /// Converts &str to i32; fails on malformed or out-of-range numerals.
    open spec fn spec_try_from_int_str(var: &str) -> Result<i32, TryFromIntStrErr> {
        match spec_parse_int(var@, true, i32::MIN as int, i32::MAX as int) {
            Ok(v) => Ok(v as i32),
            Err(k) => Err(parse_error_value(k)),
        }
    }

    fn try_from_int_str(var: &str) -> (r: Result<i32, TryFromIntStrErr>) {
        proof {
            lemma_spec_parse_int_range(var@, true, i32::MIN as int, i32::MAX as int);
        }
        match parse_i128_in_range(var, i32::MIN as i128, i32::MAX as i128) {
            Ok(v) => Ok(v as i32),
            Err(k) => Err(TryFromIntStrErr::parse_err(k)),
        }
    }
}

impl TryFromIntStr<&str> for u32 {
    /// Converts &str to u32; fails on malformed or out-of-range numerals.
    open spec fn spec_try_from_int_str(var: &str) -> Result<u32, TryFromIntStrErr> {
        match spec_parse_int(var@, false, 0, u32::MAX as int) {
            Ok(v) => Ok(v as u32),
            Err(k) => Err(parse_error_value(k)),
        }
    }

    fn try_from_int_str(var: &str) -> (r: Result<u32, TryFromIntStrErr>) {
        proof {
            lemma_spec_parse_int_range(var@, false, 0, u32::MAX as int);
        }
        match parse_u128_in_range(var, u32::MAX as u128) {
            Ok(v) => Ok(v as u32),
            Err(k) => Err(TryFromIntStrErr::parse_err(k)),
        }
    }
}

impl TryFromIntStr<&str> for i64 {
    /// Converts &str to i64; fails on malformed or out-of-range numerals.
    open spec fn spec_try_from_int_str(var: &str) -> Result<i64, TryFromIntStrErr> {
        match spec_parse_int(var@, true, i64::MIN as int, i64::MAX as int) {
            Ok(v) => Ok(v as i64),
            Err(k) => Err(parse_error_value(k)),
        }
    }

    fn try_from_int_str(var: &str) -> (r: Result<i64, TryFromIntStrErr>) {
        proof {
            lemma_spec_parse_int_range(var@, true, i64::MIN as int, i64::MAX as int);
        }
        match parse_i128_in_range(var, i64::MIN as i128, i64::MAX as i128) {
            Ok(v) => Ok(v as i64),
            Err(k) => Err(TryFromIntStrErr::parse_err(k)),
        }
    }
}

impl TryFromIntStr<&str> for u64 {
    /// Converts &str to u64; fails on malformed or out-of-range numerals.
    open spec fn spec_try_from_int_str(var: &str) -> Result<u64, TryFromIntStrErr> {
        match spec_parse_int(var@, false, 0, u64::MAX as int) {
            Ok(v) => Ok(v as u64),
            Err(k) => Err(parse_error_value(k)),
        }
    }

    fn try_from_int_str(var: &str) -> (r: Result<u64, TryFromIntStrErr>) {
        proof {
            lemma_spec_parse_int_range(var@, false, 0, u64::MAX as int);
        }
        match parse_u128_in_range(var, u64::MAX as u128) {
            Ok(v) => Ok(v as u64),
            Err(k) => Err(TryFromIntStrErr::parse_err(k)),
        }
    }
}

impl TryFromIntStr<&str> for isize {
    /// Converts &str to isize; fails on malformed or out-of-range numerals.
    open spec fn spec_try_from_int_str(var: &str) -> Result<isize, TryFromIntStrErr> {
        match spec_parse_int(var@, true, isize::MIN as int, isize::MAX as int) {
            Ok(v) => Ok(v as isize),
            Err(k) => Err(parse_error_value(k)),
        }
    }

    fn try_from_int_str(var: &str) -> (r: Result<isize, TryFromIntStrErr>) {
        proof {
            lemma_spec_parse_int_range(var@, true, isize::MIN as int, isize::MAX as int);
        }
        match parse_i128_in_range(var, isize::MIN as i128, isize::MAX as i128) {
            Ok(v) => Ok(v as isize),
            Err(k) => Err(TryFromIntStrErr::parse_err(k)),
        }
    }
}

impl TryFromIntStr<&str> for usize {
    /// Converts &str to usize; fails on malformed or out-of-range numerals.
    open spec fn spec_try_from_int_str(var: &str) -> Result<usize, TryFromIntStrErr> {
        match spec_parse_int(var@, false, 0, usize::MAX as int) {
            Ok(v) => Ok(v as usize),
            Err(k) => Err(parse_error_value(k)),
        }
    }

    fn try_from_int_str(var: &str) -> (r: Result<usize, TryFromIntStrErr>) {
        proof {
            lemma_spec_parse_int_range(var@, false, 0, usize::MAX as int);
        }
        match parse_u128_in_range(var, usize::MAX as u128) {
            Ok(v) => Ok(v as usize),
            Err(k) => Err(TryFromIntStrErr::parse_err(k)),
        }
    }
}

impl TryFromIntStr<&str> for i128 {
    /// Converts &str to i128; fails on malformed or out-of-range numerals.
    open spec fn spec_try_from_int_str(var: &str) -> Result<i128, TryFromIntStrErr> {
        match spec_parse_int(var@, true, i128::MIN as int, i128::MAX as int) {
            Ok(v) => Ok(v as i128),
            Err(k) => Err(parse_error_value(k)),
        }
    }

    fn try_from_int_str(var: &str) -> (r: Result<i128, TryFromIntStrErr>) {
        proof {
            lemma_spec_parse_int_range(var@, true, i128::MIN as int, i128::MAX as int);
        }
        match parse_i128_in_range(var, i128::MIN as i128, i128::MAX as i128) {
            Ok(v) => Ok(v),
            Err(k) => Err(TryFromIntStrErr::parse_err(k)),
        }
    }
}

impl TryFromIntStr<&str> for u128 {
    /// Converts &str to u128; fails on malformed or out-of-range numerals.
    open spec fn spec_try_from_int_str(var: &str) -> Result<u128, TryFromIntStrErr> {
        match spec_parse_int(var@, false, 0, u128::MAX as int) {
            Ok(v) => Ok(v as u128),
            Err(k) => Err(parse_error_value(k)),
        }
    }

    fn try_from_int_str(var: &str) -> (r: Result<u128, TryFromIntStrErr>) {
        proof {
            lemma_spec_parse_int_range(var@, false, 0, u128::MAX as int);
        }
        match parse_u128_in_range(var, u128::MAX as u128) {
            Ok(v) => Ok(v),
            Err(k) => Err(TryFromIntStrErr::parse_err(k)),
        }
    }
}

} // verus!
