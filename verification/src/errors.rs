//! The error values returned by failed conversions.
//!
//! A conversion fails for one of two reasons: a numeric source value lies
//! outside the target type's range ([`RangeError`]), or a text source is not
//! a well-formed base-10 numeral for the target ([`ParseIntErrorKind`]).
//! Both are collapsed into the single reportable value
//! [`TryFromIntStrErr`].

use vstd::prelude::*;

verus! {

/// The ways parsing a numeral out of text can fail.
#[derive(Debug, Clone, PartialEq, Eq)]
pub enum ParseIntErrorKind {
    /// The input text was empty.
    Empty,
    /// The input text held a character that is not part of a base-10
    /// numeral, or a minus sign where the target cannot be negative.
    InvalidDigit,
    /// The numeral's value exceeds the target type's largest value.
    PosOverflow,
    /// The numeral's value lies below the target type's smallest value.
    NegOverflow,
}

/// A numeric conversion failed: the source value lies outside the target
/// type's range.
#[derive(Debug, Clone, PartialEq, Eq)]
pub struct RangeError;

/// The two failure families of a conversion, kept apart so a caller can
/// tell a numeric out-of-range failure from a text-parse failure.
#[derive(Debug, Clone, PartialEq, Eq)]
pub enum IntStrError {
    /// Parsing text failed.
    ErrorStr(ParseIntErrorKind),
    /// A numeric value did not fit the target type.
    ErrorInt(RangeError),
}

/// An error which can be returned when converting an integer, boolean or
/// string into an integer type.
#[derive(Debug, Clone, PartialEq, Eq)]
pub struct TryFromIntStrErr {
    /// Which of the two failure families occurred.
    pub int_str_error: IntStrError,
}

/// The error value for a numeric out-of-range conversion.
pub open spec fn range_error_value() -> TryFromIntStrErr {
    TryFromIntStrErr { int_str_error: IntStrError::ErrorInt(RangeError {}) }
}

/// The error value for a failed text parse of the given kind.
pub open spec fn parse_error_value(kind: ParseIntErrorKind) -> TryFromIntStrErr {
    TryFromIntStrErr { int_str_error: IntStrError::ErrorStr(kind) }
}

/// The message that describes the given error, rendered exactly as the
/// standard library renders the matching failure.
pub open spec fn spec_message(err: TryFromIntStrErr) -> Seq<char> {
    match err.int_str_error {
        IntStrError::ErrorStr(ParseIntErrorKind::Empty) => "cannot parse integer from empty string"@,
        IntStrError::ErrorStr(ParseIntErrorKind::InvalidDigit) => "invalid digit found in string"@,
        IntStrError::ErrorStr(ParseIntErrorKind::PosOverflow) => "number too large to fit in target type"@,
        IntStrError::ErrorStr(ParseIntErrorKind::NegOverflow) => "number too small to fit in target type"@,
        IntStrError::ErrorInt(RangeError {}) => "out of range integral type conversion attempted"@,
    }
}

impl TryFromIntStrErr {
    /// Returns the enum error variant describing why the conversion failed.
    pub fn multi_err(&self) -> (r: &IntStrError)
        ensures
            *r == self.int_str_error,
    {
        &self.int_str_error
    }

    /// Returns the human-readable message for this error.
    pub fn message(&self) -> (r: String)
        ensures
            r@ == spec_message(*self),
    {
        match &self.int_str_error {
            IntStrError::ErrorStr(ParseIntErrorKind::Empty) => {
                String::from_str("cannot parse integer from empty string")
            },
            IntStrError::ErrorStr(ParseIntErrorKind::InvalidDigit) => {
                String::from_str("invalid digit found in string")
            },
            IntStrError::ErrorStr(ParseIntErrorKind::PosOverflow) => {
                String::from_str("number too large to fit in target type")
            },
            IntStrError::ErrorStr(ParseIntErrorKind::NegOverflow) => {
                String::from_str("number too small to fit in target type")
            },
            IntStrError::ErrorInt(RangeError {}) => {
                String::from_str("out of range integral type conversion attempted")
            },
        }
    }

    /// Builds the error for a numeric out-of-range conversion.
    pub fn range_err() -> (r: TryFromIntStrErr)
        ensures
            r == range_error_value(),
    {
        TryFromIntStrErr { int_str_error: IntStrError::ErrorInt(RangeError {}) }
    }

    /// Builds the error for a failed text parse of the given kind.
    pub fn parse_err(kind: ParseIntErrorKind) -> (r: TryFromIntStrErr)
        ensures
            r == parse_error_value(kind),
    {
        TryFromIntStrErr { int_str_error: IntStrError::ErrorStr(kind) }
    }
}

impl From<ParseIntErrorKind> for TryFromIntStrErr {
    /// Wraps a text-parse failure in the unified error.
    fn from(err: ParseIntErrorKind) -> (r: TryFromIntStrErr) {
        TryFromIntStrErr { int_str_error: IntStrError::ErrorStr(err) }
    }
}

impl vstd::std_specs::convert::FromSpecImpl<ParseIntErrorKind> for TryFromIntStrErr {
    open spec fn obeys_from_spec() -> bool {
        true
    }

    open spec fn from_spec(err: ParseIntErrorKind) -> TryFromIntStrErr {
        parse_error_value(err)
    }
}

impl From<RangeError> for TryFromIntStrErr {
    /// Wraps a numeric out-of-range failure in the unified error.
    fn from(err: RangeError) -> (r: TryFromIntStrErr) {
        TryFromIntStrErr { int_str_error: IntStrError::ErrorInt(err) }
    }
}

impl vstd::std_specs::convert::FromSpecImpl<RangeError> for TryFromIntStrErr {
    open spec fn obeys_from_spec() -> bool {
        true
    }

    open spec fn from_spec(err: RangeError) -> TryFromIntStrErr {
        range_error_value()
    }
}

} // verus!
