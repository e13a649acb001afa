use try_from_int_str::IntStrError;
use try_from_int_str::ParseIntErrorKind;
use try_from_int_str::TryFromIntStr;
use try_from_int_str::TryFromIntStrErr;

fn parse_err(kind: ParseIntErrorKind) -> TryFromIntStrErr {
    TryFromIntStrErr { int_str_error: IntStrError::ErrorStr(kind) }
}

#[test]
fn parses_plain_numerals() {
    assert_eq!(u32::try_from_int_str("2023"), Ok(2023u32));
    assert_eq!(i32::try_from_int_str("0"), Ok(0i32));
    assert_eq!(i32::try_from_int_str("-42"), Ok(-42i32));
    assert_eq!(u8::try_from_int_str("007"), Ok(7u8));
    assert_eq!(i64::try_from_int_str("-0"), Ok(0i64));
}

#[test]
fn text_out_of_range_fails() {
    assert!(u8::try_from_int_str("2023").is_err());
    assert_eq!(u8::try_from_int_str("2023"), Err(parse_err(ParseIntErrorKind::PosOverflow)));
    assert_eq!(i8::try_from_int_str("128"), Err(parse_err(ParseIntErrorKind::PosOverflow)));
    assert_eq!(i8::try_from_int_str("-129"), Err(parse_err(ParseIntErrorKind::NegOverflow)));
    assert_eq!(
        u128::try_from_int_str("340282366920938463463374607431768211456"),
        Err(parse_err(ParseIntErrorKind::PosOverflow))
    );
    assert_eq!(
        i128::try_from_int_str("-170141183460469231731687303715884105729"),
        Err(parse_err(ParseIntErrorKind::NegOverflow))
    );
}

#[test]
fn min_and_max_round_trip_through_text() {
    assert_eq!(i8::try_from_int_str(i8::MIN.to_string().as_str()), Ok(i8::MIN));
    assert_eq!(i8::try_from_int_str(i8::MAX.to_string().as_str()), Ok(i8::MAX));
    assert_eq!(u8::try_from_int_str(u8::MIN.to_string().as_str()), Ok(u8::MIN));
    assert_eq!(u8::try_from_int_str(u8::MAX.to_string().as_str()), Ok(u8::MAX));
    assert_eq!(i16::try_from_int_str(i16::MIN.to_string().as_str()), Ok(i16::MIN));
    assert_eq!(i16::try_from_int_str(i16::MAX.to_string().as_str()), Ok(i16::MAX));
    assert_eq!(u16::try_from_int_str(u16::MIN.to_string().as_str()), Ok(u16::MIN));
    assert_eq!(u16::try_from_int_str(u16::MAX.to_string().as_str()), Ok(u16::MAX));
    assert_eq!(i32::try_from_int_str(i32::MIN.to_string().as_str()), Ok(i32::MIN));
    assert_eq!(i32::try_from_int_str(i32::MAX.to_string().as_str()), Ok(i32::MAX));
    assert_eq!(u32::try_from_int_str(u32::MIN.to_string().as_str()), Ok(u32::MIN));
    assert_eq!(u32::try_from_int_str(u32::MAX.to_string().as_str()), Ok(u32::MAX));
    assert_eq!(i64::try_from_int_str(i64::MIN.to_string().as_str()), Ok(i64::MIN));
    assert_eq!(i64::try_from_int_str(i64::MAX.to_string().as_str()), Ok(i64::MAX));
    assert_eq!(u64::try_from_int_str(u64::MIN.to_string().as_str()), Ok(u64::MIN));
    assert_eq!(u64::try_from_int_str(u64::MAX.to_string().as_str()), Ok(u64::MAX));
    assert_eq!(isize::try_from_int_str(isize::MIN.to_string().as_str()), Ok(isize::MIN));
    assert_eq!(isize::try_from_int_str(isize::MAX.to_string().as_str()), Ok(isize::MAX));
    assert_eq!(usize::try_from_int_str(usize::MIN.to_string().as_str()), Ok(usize::MIN));
    assert_eq!(usize::try_from_int_str(usize::MAX.to_string().as_str()), Ok(usize::MAX));
    assert_eq!(i128::try_from_int_str(i128::MIN.to_string().as_str()), Ok(i128::MIN));
    assert_eq!(i128::try_from_int_str(i128::MAX.to_string().as_str()), Ok(i128::MAX));
    assert_eq!(u128::try_from_int_str(u128::MIN.to_string().as_str()), Ok(u128::MIN));
    assert_eq!(u128::try_from_int_str(u128::MAX.to_string().as_str()), Ok(u128::MAX));
}

#[test]
fn empty_text_fails() {
    let err = u32::try_from_int_str("").unwrap_err();
    assert!(matches!(err.multi_err(), IntStrError::ErrorStr(ParseIntErrorKind::Empty)));
    assert_eq!(err.message(), "cannot parse integer from empty string");
    assert_eq!(i128::try_from_int_str(""), Err(parse_err(ParseIntErrorKind::Empty)));
}

#[test]
fn malformed_text_fails() {
    let err = u32::try_from_int_str("notanumber").unwrap_err();
    assert!(matches!(err.multi_err(), IntStrError::ErrorStr(ParseIntErrorKind::InvalidDigit)));
    assert_eq!(err.message(), "invalid digit found in string");
    assert_eq!(i64::try_from_int_str("12a3"), Err(parse_err(ParseIntErrorKind::InvalidDigit)));
    assert_eq!(i64::try_from_int_str(" 5"), Err(parse_err(ParseIntErrorKind::InvalidDigit)));
    assert_eq!(i64::try_from_int_str("5 "), Err(parse_err(ParseIntErrorKind::InvalidDigit)));
    assert_eq!(i64::try_from_int_str("+"), Err(parse_err(ParseIntErrorKind::InvalidDigit)));
    assert_eq!(i64::try_from_int_str("+42"), Err(parse_err(ParseIntErrorKind::InvalidDigit)));
    assert_eq!(u32::try_from_int_str("+42"), Err(parse_err(ParseIntErrorKind::InvalidDigit)));
    assert_eq!(i64::try_from_int_str("-"), Err(parse_err(ParseIntErrorKind::InvalidDigit)));
    assert_eq!(i64::try_from_int_str("--5"), Err(parse_err(ParseIntErrorKind::InvalidDigit)));
    assert_eq!(i64::try_from_int_str("5-"), Err(parse_err(ParseIntErrorKind::InvalidDigit)));
}

#[test]
fn minus_sign_is_rejected_for_unsigned_targets() {
    assert_eq!(u32::try_from_int_str("-5"), Err(parse_err(ParseIntErrorKind::InvalidDigit)));
    assert_eq!(u32::try_from_int_str("-0"), Err(parse_err(ParseIntErrorKind::InvalidDigit)));
    assert_eq!(u128::try_from_int_str("-1"), Err(parse_err(ParseIntErrorKind::InvalidDigit)));
}

#[test]
fn overflow_messages_match_the_standard_ones() {
    let too_big = u8::try_from_int_str("2023").unwrap_err();
    assert_eq!(too_big.message(), "number too large to fit in target type");
    let too_small = i8::try_from_int_str("-129").unwrap_err();
    assert_eq!(too_small.message(), "number too small to fit in target type");
}

#[test]
fn long_zero_padded_numerals_stay_in_range() {
    assert_eq!(
        u8::try_from_int_str("0000000000000000000000000000000000000000000123"),
        Ok(123u8)
    );
    assert_eq!(
        i8::try_from_int_str("-0000000000000000000000000000000000000000000128"),
        Ok(i8::MIN)
    );
}
