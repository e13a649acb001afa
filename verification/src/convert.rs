//! The conversion trait.

use vstd::prelude::*;
use crate::errors::TryFromIntStrErr;

verus! {

/// A generic trait for converting an integer, boolean or string into an
/// integer type.
///
/// Every implementation fixes one (target, source) pair and pins the result
/// of [`Self::try_from_int_str`] completely through its
/// [`Self::spec_try_from_int_str`]:
/// - a widening integer conversion, the identity conversion, and the
///   boolean conversion always return `Ok`;
/// - a narrowing integer conversion returns `Ok` exactly when the value
///   lies in the target's range, and otherwise a range error;
/// - a text conversion returns `Ok` exactly when the text is a base-10
///   numeral, carrying a leading minus sign only for a signed target,
///   whose value lies in the target's range, and otherwise a parse error
///   naming the failure.
pub trait TryFromIntStr<T>: Sized {
    /// What the conversion returns, as a function of the source value.
    spec fn spec_try_from_int_str(var: T) -> Result<Self, TryFromIntStrErr>;

    /// Conversion from str, boolean or integer to an integer type.
    fn try_from_int_str(var: T) -> (r: Result<Self, TryFromIntStrErr>)
        ensures
            r == Self::spec_try_from_int_str(var),
    ;
}

} // verus!
