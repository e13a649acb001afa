use try_from_int_str::IntStrError;
use try_from_int_str::ParseIntErrorKind;
use try_from_int_str::RangeError;
use try_from_int_str::TryFromIntStr;
use try_from_int_str::TryFromIntStrErr;

fn range_err() -> TryFromIntStrErr {
    TryFromIntStrErr { int_str_error: IntStrError::ErrorInt(RangeError) }
}

#[test]
fn identity_round_trip() {
    assert_eq!(i8::try_from_int_str(i8::MIN), Ok(i8::MIN));
    assert_eq!(u8::try_from_int_str(255u8), Ok(255u8));
    assert_eq!(i32::try_from_int_str(-7i32), Ok(-7i32));
    assert_eq!(u64::try_from_int_str(u64::MAX), Ok(u64::MAX));
    assert_eq!(i128::try_from_int_str(i128::MIN), Ok(i128::MIN));
    assert_eq!(u128::try_from_int_str(u128::MAX), Ok(u128::MAX));
    assert_eq!(usize::try_from_int_str(usize::MAX), Ok(usize::MAX));
    assert_eq!(isize::try_from_int_str(isize::MIN), Ok(isize::MIN));
}

#[test]
fn widening_never_fails() {
    assert_eq!(i16::try_from_int_str(i8::MIN), Ok(-128i16));
    assert_eq!(i16::try_from_int_str(u8::MAX), Ok(255i16));
    assert_eq!(i64::try_from_int_str(-5i8), Ok(-5i64));
    assert_eq!(u64::try_from_int_str(u32::MAX), Ok(4294967295u64));
    assert_eq!(i128::try_from_int_str(i64::MIN), Ok(-9223372036854775808i128));
    assert_eq!(u128::try_from_int_str(u64::MAX), Ok(18446744073709551615u128));
    assert_eq!(i128::try_from_int_str(u64::MAX), Ok(18446744073709551615i128));
    assert_eq!(u64::try_from_int_str(usize::MIN), Ok(0u64));
    assert_eq!(i64::try_from_int_str(isize::MAX), Ok(isize::MAX as i64));
    assert_eq!(usize::try_from_int_str(u16::MAX), Ok(65535usize));
    assert_eq!(isize::try_from_int_str(-32768i16), Ok(-32768isize));
}

#[test]
fn narrowing_boundary_u8() {
    assert_eq!(u8::try_from_int_str(255i32), Ok(u8::MAX));
    assert_eq!(u8::try_from_int_str(256i32), Err(range_err()));
    assert_eq!(u8::try_from_int_str(255u16), Ok(u8::MAX));
    assert_eq!(u8::try_from_int_str(256u16), Err(range_err()));
    assert_eq!(u8::try_from_int_str(-1i8), Err(range_err()));
}

#[test]
fn narrowing_boundary_i8() {
    assert_eq!(i8::try_from_int_str(127i16), Ok(i8::MAX));
    assert_eq!(i8::try_from_int_str(128i16), Err(range_err()));
    assert_eq!(i8::try_from_int_str(-128i16), Ok(i8::MIN));
    assert_eq!(i8::try_from_int_str(-129i16), Err(range_err()));
    assert_eq!(i8::try_from_int_str(127u8), Ok(i8::MAX));
    assert_eq!(i8::try_from_int_str(128u8), Err(range_err()));
}

#[test]
fn narrowing_boundary_wide() {
    assert_eq!(u64::try_from_int_str(u64::MAX as u128), Ok(u64::MAX));
    assert_eq!(u64::try_from_int_str(u64::MAX as u128 + 1), Err(range_err()));
    assert_eq!(i64::try_from_int_str(i64::MAX as i128), Ok(i64::MAX));
    assert_eq!(i64::try_from_int_str(i64::MAX as i128 + 1), Err(range_err()));
    assert_eq!(i64::try_from_int_str(i64::MIN as i128 - 1), Err(range_err()));
    assert_eq!(i128::try_from_int_str(i128::MAX as u128), Ok(i128::MAX));
    assert_eq!(i128::try_from_int_str(i128::MAX as u128 + 1), Err(range_err()));
    assert_eq!(u128::try_from_int_str(-1i128), Err(range_err()));
    assert_eq!(u32::try_from_int_str(u32::MAX as i64), Ok(u32::MAX));
    assert_eq!(u32::try_from_int_str(u32::MAX as i64 + 1), Err(range_err()));
}

#[test]
fn narrowing_pointer_width() {
    assert_eq!(usize::try_from_int_str(-1i32), Err(range_err()));
    assert_eq!(usize::try_from_int_str(65535u128), Ok(65535usize));
    assert_eq!(usize::try_from_int_str(usize::MAX as u128 + 1), Err(range_err()));
    assert_eq!(isize::try_from_int_str(isize::MAX as i128), Ok(isize::MAX));
    assert_eq!(isize::try_from_int_str(isize::MAX as i128 + 1), Err(range_err()));
    assert_eq!(isize::try_from_int_str(isize::MIN as i128 - 1), Err(range_err()));
}

#[test]
fn bool_maps_to_zero_and_one() {
    assert_eq!(i8::try_from_int_str(false), Ok(0i8));
    assert_eq!(i8::try_from_int_str(true), Ok(1i8));
    assert_eq!(u8::try_from_int_str(false), Ok(0u8));
    assert_eq!(u8::try_from_int_str(true), Ok(1u8));
    assert_eq!(i16::try_from_int_str(false), Ok(0i16));
    assert_eq!(i16::try_from_int_str(true), Ok(1i16));
    assert_eq!(u16::try_from_int_str(false), Ok(0u16));
    assert_eq!(u16::try_from_int_str(true), Ok(1u16));
    assert_eq!(i32::try_from_int_str(false), Ok(0i32));
    assert_eq!(i32::try_from_int_str(true), Ok(1i32));
    assert_eq!(u32::try_from_int_str(false), Ok(0u32));
    assert_eq!(u32::try_from_int_str(true), Ok(1u32));
    assert_eq!(i64::try_from_int_str(false), Ok(0i64));
    assert_eq!(i64::try_from_int_str(true), Ok(1i64));
    assert_eq!(u64::try_from_int_str(false), Ok(0u64));
    assert_eq!(u64::try_from_int_str(true), Ok(1u64));
    assert_eq!(isize::try_from_int_str(false), Ok(0isize));
    assert_eq!(isize::try_from_int_str(true), Ok(1isize));
    assert_eq!(usize::try_from_int_str(false), Ok(0usize));
    assert_eq!(usize::try_from_int_str(true), Ok(1usize));
    assert_eq!(i128::try_from_int_str(false), Ok(0i128));
    assert_eq!(i128::try_from_int_str(true), Ok(1i128));
    assert_eq!(u128::try_from_int_str(false), Ok(0u128));
    assert_eq!(u128::try_from_int_str(true), Ok(1u128));
}

#[test]
fn errors_wrap_through_from() {
    let from_parse = TryFromIntStrErr::from(ParseIntErrorKind::Empty);
    assert!(matches!(from_parse.multi_err(), IntStrError::ErrorStr(ParseIntErrorKind::Empty)));
    let from_range = TryFromIntStrErr::from(RangeError);
    assert!(matches!(from_range.multi_err(), IntStrError::ErrorInt(RangeError)));
    assert_eq!(from_range, range_err());
}

#[test]
fn range_error_is_reported_as_such() {
    let err = u64::try_from_int_str(u128::MAX).unwrap_err();
    assert!(matches!(err.multi_err(), IntStrError::ErrorInt(RangeError)));
    assert_eq!(err.message(), "out of range integral type conversion attempted");
}
