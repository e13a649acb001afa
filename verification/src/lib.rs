//! Checked conversion from integers, booleans and decimal text into any
//! fixed-width integer type.
//!
//! The crate offers one operation, [`TryFromIntStr::try_from_int_str`]: it
//! turns a source value (an integer of any width or signedness, a `bool`, or
//! a base-10 numeral in a `&str`) into the chosen target integer type, and
//! fails explicitly with a [`TryFromIntStrErr`] instead of truncating or
//! wrapping. Widening conversions and the boolean conversion never fail;
//! narrowing conversions fail exactly when the value lies outside the
//! target's range; text conversion fails exactly on malformed or
//! out-of-range numerals.

pub mod errors;
pub mod parse;
pub mod convert;
pub mod into_signed;
pub mod into_unsigned;
pub mod from_bool;
pub mod from_str;
pub mod laws;

pub use errors::IntStrError;
pub use errors::ParseIntErrorKind;
pub use errors::RangeError;
pub use errors::TryFromIntStrErr;
pub use convert::TryFromIntStr;
