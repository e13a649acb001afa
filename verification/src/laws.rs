//! The library's laws, stated and proved over the conversion
//! specifications.
//!
//! Each public proof function here states one property of the conversion
//! surface: the identity round trip, totality of widening conversions,
//! the exact boundary of narrowing conversions, the boolean mapping, and
//! the behaviour of text parsing on renderings of in-range values, on the
//! empty text and on out-of-range numerals.

use vstd::prelude::*;
use vstd::arithmetic::div_mod::lemma_fundamental_div_mod;
use crate::convert::TryFromIntStr;
use crate::errors::ParseIntErrorKind;
use crate::errors::TryFromIntStrErr;
use crate::errors::parse_error_value;
use crate::errors::range_error_value;
use crate::parse::all_digits;
use crate::parse::digit_value;
use crate::parse::digits_val;
use crate::parse::is_digit_char;
use crate::parse::spec_parse_int;

verus! {

/// The decimal digit character for the value `d`, for `d` between 0
/// and 9.
pub open spec fn digit_char(d: int) -> char {
    if d == 0 {
        '0'
    } else if d == 1 {
        '1'
    } else if d == 2 {
        '2'
    } else if d == 3 {
        '3'
    } else if d == 4 {
        '4'
    } else if d == 5 {
        '5'
    } else if d == 6 {
        '6'
    } else if d == 7 {
        '7'
    } else if d == 8 {
        '8'
    } else {
        '9'
    }
}

/// The canonical decimal digit string of the non-negative value `n`,
/// without sign and without leading zeros.
pub open spec fn dec_digits(n: int) -> Seq<char>
    decreases n,
{
    if n < 10 {
        seq![digit_char(n)]
    } else {
        dec_digits(n / 10).push(digit_char(n % 10))
    }
}

/// The canonical decimal rendering of the integer `v`, with a leading
/// minus sign exactly when `v` is negative.
pub open spec fn render_int(v: int) -> Seq<char> {
    if v < 0 {
        seq!['-'] + dec_digits(-v)
    } else {
        dec_digits(v)
    }
}

/// A canonical digit string is non-empty and holds only digits.
pub proof fn lemma_dec_digits_are_digits(n: int)
    ensures
        dec_digits(n).len() >= 1,
        all_digits(dec_digits(n)),
    decreases n,
{
    if n < 10 {
    } else {
        lemma_dec_digits_are_digits(n / 10);
        let p = dec_digits(n / 10);
        let s = dec_digits(n);
        assert forall|i: int| 0 <= i < s.len() implies is_digit_char(#[trigger] s[i]) by {
            if i < p.len() {
                assert(s[i] == p[i]);
            } else {
                assert(s[i] == digit_char(n % 10));
            }
        }
    }
}

/// The canonical digit string of `n` reads back as the value `n`.
pub proof fn lemma_dec_digits_val(n: int)
    requires
        n >= 0,
    ensures
        digits_val(dec_digits(n)) == n,
    decreases n,
{
    if n < 10 {
        let s = dec_digits(n);
        assert(s.drop_last() =~= Seq::<char>::empty());
        assert(digits_val(Seq::<char>::empty()) == 0);
        assert(s.last() == digit_char(n));
        assert(digits_val(s) == digit_value(digit_char(n)));
    } else {
        lemma_dec_digits_val(n / 10);
        let p = dec_digits(n / 10);
        let s = dec_digits(n);
        assert(s.drop_last() =~= p);
        assert(s.last() == digit_char(n % 10));
        lemma_fundamental_div_mod(n, 10);
        assert(digit_value(digit_char(n % 10)) == n % 10);
        assert(digits_val(s) == digits_val(p) * 10 + digit_value(digit_char(n % 10)));
    }
}

/// Text round trip: parsing the canonical decimal rendering of any value
/// in the target's range returns exactly that value.
pub proof fn lemma_parse_render_round_trip(v: int, signed: bool, min: int, max: int)
    requires
        min <= v <= max,
        v < 0 ==> signed,
        min <= 0 <= max,
    ensures
        spec_parse_int(render_int(v), signed, min, max) == Ok::<int, ParseIntErrorKind>(v),
{
    if v < 0 {
        let s = render_int(v);
        let d = dec_digits(-v);
        assert(s[0] == '-');
        assert(s.subrange(1, s.len() as int) =~= d);
        lemma_dec_digits_are_digits(-v);
        lemma_dec_digits_val(-v);
    } else {
        let s = render_int(v);
        lemma_dec_digits_are_digits(v);
        lemma_dec_digits_val(v);
        assert(is_digit_char(s[0]));
    }
}

/// An out-of-range numeral fails: a non-empty all-digit text whose value
/// exceeds the target's largest value parses to the positive-overflow
/// error, whatever the sign convention of the target.
pub proof fn lemma_text_overflow_fails(s: Seq<char>, signed: bool, min: int, max: int)
    requires
        s.len() > 0,
        all_digits(s),
        digits_val(s) > max,
        min <= 0 <= max,
    ensures
        spec_parse_int(s, signed, min, max) == Err::<int, ParseIntErrorKind>(
            ParseIntErrorKind::PosOverflow,
        ),
{
    assert(is_digit_char(s[0]));
}

/// Round-trip identity: converting a value into its own type always
/// succeeds and returns the value unchanged.
pub proof fn lemma_round_trip_identity()
    ensures
        forall|v: i8| #[trigger] <i8 as TryFromIntStr<i8>>::spec_try_from_int_str(v)
            == Ok::<i8, TryFromIntStrErr>(v),
        forall|v: u8| #[trigger] <u8 as TryFromIntStr<u8>>::spec_try_from_int_str(v)
            == Ok::<u8, TryFromIntStrErr>(v),
        forall|v: i16| #[trigger] <i16 as TryFromIntStr<i16>>::spec_try_from_int_str(v)
            == Ok::<i16, TryFromIntStrErr>(v),
        forall|v: u16| #[trigger] <u16 as TryFromIntStr<u16>>::spec_try_from_int_str(v)
            == Ok::<u16, TryFromIntStrErr>(v),
        forall|v: i32| #[trigger] <i32 as TryFromIntStr<i32>>::spec_try_from_int_str(v)
            == Ok::<i32, TryFromIntStrErr>(v),
        forall|v: u32| #[trigger] <u32 as TryFromIntStr<u32>>::spec_try_from_int_str(v)
            == Ok::<u32, TryFromIntStrErr>(v),
        forall|v: i64| #[trigger] <i64 as TryFromIntStr<i64>>::spec_try_from_int_str(v)
            == Ok::<i64, TryFromIntStrErr>(v),
        forall|v: u64| #[trigger] <u64 as TryFromIntStr<u64>>::spec_try_from_int_str(v)
            == Ok::<u64, TryFromIntStrErr>(v),
        forall|v: isize| #[trigger] <isize as TryFromIntStr<isize>>::spec_try_from_int_str(v)
            == Ok::<isize, TryFromIntStrErr>(v),
        forall|v: usize| #[trigger] <usize as TryFromIntStr<usize>>::spec_try_from_int_str(v)
            == Ok::<usize, TryFromIntStrErr>(v),
        forall|v: i128| #[trigger] <i128 as TryFromIntStr<i128>>::spec_try_from_int_str(v)
            == Ok::<i128, TryFromIntStrErr>(v),
        forall|v: u128| #[trigger] <u128 as TryFromIntStr<u128>>::spec_try_from_int_str(v)
            == Ok::<u128, TryFromIntStrErr>(v),
{
}

/// Widening totality: whenever the source type's range is contained in
/// the target type's range, the conversion never fails and keeps the
/// numeric value. The final clauses cover the pairs whose containment
/// holds only at one pointer width.
pub proof fn lemma_widening_totality()
    ensures
        forall|v: i8| #[trigger] <i16 as TryFromIntStr<i8>>::spec_try_from_int_str(v)
            == Ok::<i16, TryFromIntStrErr>(v as i16),
        forall|v: u8| #[trigger] <i16 as TryFromIntStr<u8>>::spec_try_from_int_str(v)
            == Ok::<i16, TryFromIntStrErr>(v as i16),
        forall|v: u8| #[trigger] <u16 as TryFromIntStr<u8>>::spec_try_from_int_str(v)
            == Ok::<u16, TryFromIntStrErr>(v as u16),
        forall|v: i8| #[trigger] <i32 as TryFromIntStr<i8>>::spec_try_from_int_str(v)
            == Ok::<i32, TryFromIntStrErr>(v as i32),
        forall|v: u8| #[trigger] <i32 as TryFromIntStr<u8>>::spec_try_from_int_str(v)
            == Ok::<i32, TryFromIntStrErr>(v as i32),
        forall|v: i16| #[trigger] <i32 as TryFromIntStr<i16>>::spec_try_from_int_str(v)
            == Ok::<i32, TryFromIntStrErr>(v as i32),
        forall|v: u16| #[trigger] <i32 as TryFromIntStr<u16>>::spec_try_from_int_str(v)
            == Ok::<i32, TryFromIntStrErr>(v as i32),
        forall|v: u8| #[trigger] <u32 as TryFromIntStr<u8>>::spec_try_from_int_str(v)
            == Ok::<u32, TryFromIntStrErr>(v as u32),
        forall|v: u16| #[trigger] <u32 as TryFromIntStr<u16>>::spec_try_from_int_str(v)
            == Ok::<u32, TryFromIntStrErr>(v as u32),
        forall|v: i8| #[trigger] <i64 as TryFromIntStr<i8>>::spec_try_from_int_str(v)
            == Ok::<i64, TryFromIntStrErr>(v as i64),
        forall|v: u8| #[trigger] <i64 as TryFromIntStr<u8>>::spec_try_from_int_str(v)
            == Ok::<i64, TryFromIntStrErr>(v as i64),
        forall|v: i16| #[trigger] <i64 as TryFromIntStr<i16>>::spec_try_from_int_str(v)
            == Ok::<i64, TryFromIntStrErr>(v as i64),
        forall|v: u16| #[trigger] <i64 as TryFromIntStr<u16>>::spec_try_from_int_str(v)
            == Ok::<i64, TryFromIntStrErr>(v as i64),
        forall|v: i32| #[trigger] <i64 as TryFromIntStr<i32>>::spec_try_from_int_str(v)
            == Ok::<i64, TryFromIntStrErr>(v as i64),
        forall|v: u32| #[trigger] <i64 as TryFromIntStr<u32>>::spec_try_from_int_str(v)
            == Ok::<i64, TryFromIntStrErr>(v as i64),
        forall|v: isize| #[trigger] <i64 as TryFromIntStr<isize>>::spec_try_from_int_str(v)
            == Ok::<i64, TryFromIntStrErr>(v as i64),
        forall|v: u8| #[trigger] <u64 as TryFromIntStr<u8>>::spec_try_from_int_str(v)
            == Ok::<u64, TryFromIntStrErr>(v as u64),
        forall|v: u16| #[trigger] <u64 as TryFromIntStr<u16>>::spec_try_from_int_str(v)
            == Ok::<u64, TryFromIntStrErr>(v as u64),
        forall|v: u32| #[trigger] <u64 as TryFromIntStr<u32>>::spec_try_from_int_str(v)
            == Ok::<u64, TryFromIntStrErr>(v as u64),
        forall|v: usize| #[trigger] <u64 as TryFromIntStr<usize>>::spec_try_from_int_str(v)
            == Ok::<u64, TryFromIntStrErr>(v as u64),
        forall|v: i8| #[trigger] <isize as TryFromIntStr<i8>>::spec_try_from_int_str(v)
            == Ok::<isize, TryFromIntStrErr>(v as isize),
        forall|v: u8| #[trigger] <isize as TryFromIntStr<u8>>::spec_try_from_int_str(v)
            == Ok::<isize, TryFromIntStrErr>(v as isize),
        forall|v: i16| #[trigger] <isize as TryFromIntStr<i16>>::spec_try_from_int_str(v)
            == Ok::<isize, TryFromIntStrErr>(v as isize),
        forall|v: u16| #[trigger] <isize as TryFromIntStr<u16>>::spec_try_from_int_str(v)
            == Ok::<isize, TryFromIntStrErr>(v as isize),
        forall|v: i32| #[trigger] <isize as TryFromIntStr<i32>>::spec_try_from_int_str(v)
            == Ok::<isize, TryFromIntStrErr>(v as isize),
        forall|v: u8| #[trigger] <usize as TryFromIntStr<u8>>::spec_try_from_int_str(v)
            == Ok::<usize, TryFromIntStrErr>(v as usize),
        forall|v: u16| #[trigger] <usize as TryFromIntStr<u16>>::spec_try_from_int_str(v)
            == Ok::<usize, TryFromIntStrErr>(v as usize),
        forall|v: u32| #[trigger] <usize as TryFromIntStr<u32>>::spec_try_from_int_str(v)
            == Ok::<usize, TryFromIntStrErr>(v as usize),
        forall|v: i8| #[trigger] <i128 as TryFromIntStr<i8>>::spec_try_from_int_str(v)
            == Ok::<i128, TryFromIntStrErr>(v as i128),
        forall|v: u8| #[trigger] <i128 as TryFromIntStr<u8>>::spec_try_from_int_str(v)
            == Ok::<i128, TryFromIntStrErr>(v as i128),
        forall|v: i16| #[trigger] <i128 as TryFromIntStr<i16>>::spec_try_from_int_str(v)
            == Ok::<i128, TryFromIntStrErr>(v as i128),
        forall|v: u16| #[trigger] <i128 as TryFromIntStr<u16>>::spec_try_from_int_str(v)
            == Ok::<i128, TryFromIntStrErr>(v as i128),
        forall|v: i32| #[trigger] <i128 as TryFromIntStr<i32>>::spec_try_from_int_str(v)
            == Ok::<i128, TryFromIntStrErr>(v as i128),
        forall|v: u32| #[trigger] <i128 as TryFromIntStr<u32>>::spec_try_from_int_str(v)
            == Ok::<i128, TryFromIntStrErr>(v as i128),
        forall|v: i64| #[trigger] <i128 as TryFromIntStr<i64>>::spec_try_from_int_str(v)
            == Ok::<i128, TryFromIntStrErr>(v as i128),
        forall|v: u64| #[trigger] <i128 as TryFromIntStr<u64>>::spec_try_from_int_str(v)
            == Ok::<i128, TryFromIntStrErr>(v as i128),
        forall|v: isize| #[trigger] <i128 as TryFromIntStr<isize>>::spec_try_from_int_str(v)
            == Ok::<i128, TryFromIntStrErr>(v as i128),
        forall|v: usize| #[trigger] <i128 as TryFromIntStr<usize>>::spec_try_from_int_str(v)
            == Ok::<i128, TryFromIntStrErr>(v as i128),
        forall|v: u8| #[trigger] <u128 as TryFromIntStr<u8>>::spec_try_from_int_str(v)
            == Ok::<u128, TryFromIntStrErr>(v as u128),
        forall|v: u16| #[trigger] <u128 as TryFromIntStr<u16>>::spec_try_from_int_str(v)
            == Ok::<u128, TryFromIntStrErr>(v as u128),
        forall|v: u32| #[trigger] <u128 as TryFromIntStr<u32>>::spec_try_from_int_str(v)
            == Ok::<u128, TryFromIntStrErr>(v as u128),
        forall|v: u64| #[trigger] <u128 as TryFromIntStr<u64>>::spec_try_from_int_str(v)
            == Ok::<u128, TryFromIntStrErr>(v as u128),
        forall|v: usize| #[trigger] <u128 as TryFromIntStr<usize>>::spec_try_from_int_str(v)
            == Ok::<u128, TryFromIntStrErr>(v as u128),
        usize::BITS == 32 ==> forall|v: isize| #[trigger] <i32 as TryFromIntStr<isize>>::spec_try_from_int_str(
            v,
        ) == Ok::<i32, TryFromIntStrErr>(v as i32),
        usize::BITS == 32 ==> forall|v: usize| #[trigger] <u32 as TryFromIntStr<usize>>::spec_try_from_int_str(
            v,
        ) == Ok::<u32, TryFromIntStrErr>(v as u32),
        usize::BITS == 32 ==> forall|v: usize| #[trigger] <i64 as TryFromIntStr<usize>>::spec_try_from_int_str(
            v,
        ) == Ok::<i64, TryFromIntStrErr>(v as i64),
        usize::BITS == 64 ==> forall|v: u32| #[trigger] <isize as TryFromIntStr<u32>>::spec_try_from_int_str(
            v,
        ) == Ok::<isize, TryFromIntStrErr>(v as isize),
        usize::BITS == 64 ==> forall|v: i64| #[trigger] <isize as TryFromIntStr<i64>>::spec_try_from_int_str(
            v,
        ) == Ok::<isize, TryFromIntStrErr>(v as isize),
        usize::BITS == 64 ==> forall|v: u64| #[trigger] <usize as TryFromIntStr<u64>>::spec_try_from_int_str(
            v,
        ) == Ok::<usize, TryFromIntStrErr>(v as usize),
{
}

/// Narrowing boundary for target i8: the largest value of i8 converts
/// successfully from every wider source, and the next value up fails
/// with a range error, wherever that value is representable in the
/// source.
pub proof fn lemma_narrowing_boundary_i8()
    ensures
        <i8 as TryFromIntStr<u8>>::spec_try_from_int_str(127u8) == Ok::<
            i8,
            TryFromIntStrErr,
        >(i8::MAX),
        <i8 as TryFromIntStr<u8>>::spec_try_from_int_str(128u8) == Err::<
            i8,
            TryFromIntStrErr,
        >(range_error_value()),
        <i8 as TryFromIntStr<i16>>::spec_try_from_int_str(127i16) == Ok::<
            i8,
            TryFromIntStrErr,
        >(i8::MAX),
        <i8 as TryFromIntStr<i16>>::spec_try_from_int_str(128i16) == Err::<
            i8,
            TryFromIntStrErr,
        >(range_error_value()),
        <i8 as TryFromIntStr<u16>>::spec_try_from_int_str(127u16) == Ok::<
            i8,
            TryFromIntStrErr,
        >(i8::MAX),
        <i8 as TryFromIntStr<u16>>::spec_try_from_int_str(128u16) == Err::<
            i8,
            TryFromIntStrErr,
        >(range_error_value()),
        <i8 as TryFromIntStr<i32>>::spec_try_from_int_str(127i32) == Ok::<
            i8,
            TryFromIntStrErr,
        >(i8::MAX),
        <i8 as TryFromIntStr<i32>>::spec_try_from_int_str(128i32) == Err::<
            i8,
            TryFromIntStrErr,
        >(range_error_value()),
        <i8 as TryFromIntStr<u32>>::spec_try_from_int_str(127u32) == Ok::<
            i8,
            TryFromIntStrErr,
        >(i8::MAX),
        <i8 as TryFromIntStr<u32>>::spec_try_from_int_str(128u32) == Err::<
            i8,
            TryFromIntStrErr,
        >(range_error_value()),
        <i8 as TryFromIntStr<i64>>::spec_try_from_int_str(127i64) == Ok::<
            i8,
            TryFromIntStrErr,
        >(i8::MAX),
        <i8 as TryFromIntStr<i64>>::spec_try_from_int_str(128i64) == Err::<
            i8,
            TryFromIntStrErr,
        >(range_error_value()),
        <i8 as TryFromIntStr<u64>>::spec_try_from_int_str(127u64) == Ok::<
            i8,
            TryFromIntStrErr,
        >(i8::MAX),
        <i8 as TryFromIntStr<u64>>::spec_try_from_int_str(128u64) == Err::<
            i8,
            TryFromIntStrErr,
        >(range_error_value()),
        <i8 as TryFromIntStr<isize>>::spec_try_from_int_str(127isize) == Ok::<
            i8,
            TryFromIntStrErr,
        >(i8::MAX),
        <i8 as TryFromIntStr<isize>>::spec_try_from_int_str(128isize) == Err::<
            i8,
            TryFromIntStrErr,
        >(range_error_value()),
        <i8 as TryFromIntStr<usize>>::spec_try_from_int_str(127usize) == Ok::<
            i8,
            TryFromIntStrErr,
        >(i8::MAX),
        <i8 as TryFromIntStr<usize>>::spec_try_from_int_str(128usize) == Err::<
            i8,
            TryFromIntStrErr,
        >(range_error_value()),
        <i8 as TryFromIntStr<i128>>::spec_try_from_int_str(127i128) == Ok::<
            i8,
            TryFromIntStrErr,
        >(i8::MAX),
        <i8 as TryFromIntStr<i128>>::spec_try_from_int_str(128i128) == Err::<
            i8,
            TryFromIntStrErr,
        >(range_error_value()),
        <i8 as TryFromIntStr<u128>>::spec_try_from_int_str(127u128) == Ok::<
            i8,
            TryFromIntStrErr,
        >(i8::MAX),
        <i8 as TryFromIntStr<u128>>::spec_try_from_int_str(128u128) == Err::<
            i8,
            TryFromIntStrErr,
        >(range_error_value()),
{
}

/// Narrowing boundary for target u8: the largest value of u8 converts
/// successfully from every wider source, and the next value up fails
/// with a range error, wherever that value is representable in the
/// source.
pub proof fn lemma_narrowing_boundary_u8()
    ensures
        <u8 as TryFromIntStr<i16>>::spec_try_from_int_str(255i16) == Ok::<
            u8,
            TryFromIntStrErr,
        >(u8::MAX),
        <u8 as TryFromIntStr<i16>>::spec_try_from_int_str(256i16) == Err::<
            u8,
            TryFromIntStrErr,
        >(range_error_value()),
        <u8 as TryFromIntStr<u16>>::spec_try_from_int_str(255u16) == Ok::<
            u8,
            TryFromIntStrErr,
        >(u8::MAX),
        <u8 as TryFromIntStr<u16>>::spec_try_from_int_str(256u16) == Err::<
            u8,
            TryFromIntStrErr,
        >(range_error_value()),
        <u8 as TryFromIntStr<i32>>::spec_try_from_int_str(255i32) == Ok::<
            u8,
            TryFromIntStrErr,
        >(u8::MAX),
        <u8 as TryFromIntStr<i32>>::spec_try_from_int_str(256i32) == Err::<
            u8,
            TryFromIntStrErr,
        >(range_error_value()),
        <u8 as TryFromIntStr<u32>>::spec_try_from_int_str(255u32) == Ok::<
            u8,
            TryFromIntStrErr,
        >(u8::MAX),
        <u8 as TryFromIntStr<u32>>::spec_try_from_int_str(256u32) == Err::<
            u8,
            TryFromIntStrErr,
        >(range_error_value()),
        <u8 as TryFromIntStr<i64>>::spec_try_from_int_str(255i64) == Ok::<
            u8,
            TryFromIntStrErr,
        >(u8::MAX),
        <u8 as TryFromIntStr<i64>>::spec_try_from_int_str(256i64) == Err::<
            u8,
            TryFromIntStrErr,
        >(range_error_value()),
        <u8 as TryFromIntStr<u64>>::spec_try_from_int_str(255u64) == Ok::<
            u8,
            TryFromIntStrErr,
        >(u8::MAX),
        <u8 as TryFromIntStr<u64>>::spec_try_from_int_str(256u64) == Err::<
            u8,
            TryFromIntStrErr,
        >(range_error_value()),
        <u8 as TryFromIntStr<isize>>::spec_try_from_int_str(255isize) == Ok::<
            u8,
            TryFromIntStrErr,
        >(u8::MAX),
        <u8 as TryFromIntStr<isize>>::spec_try_from_int_str(256isize) == Err::<
            u8,
            TryFromIntStrErr,
        >(range_error_value()),
        <u8 as TryFromIntStr<usize>>::spec_try_from_int_str(255usize) == Ok::<
            u8,
            TryFromIntStrErr,
        >(u8::MAX),
        <u8 as TryFromIntStr<usize>>::spec_try_from_int_str(256usize) == Err::<
            u8,
            TryFromIntStrErr,
        >(range_error_value()),
        <u8 as TryFromIntStr<i128>>::spec_try_from_int_str(255i128) == Ok::<
            u8,
            TryFromIntStrErr,
        >(u8::MAX),
        <u8 as TryFromIntStr<i128>>::spec_try_from_int_str(256i128) == Err::<
            u8,
            TryFromIntStrErr,
        >(range_error_value()),
        <u8 as TryFromIntStr<u128>>::spec_try_from_int_str(255u128) == Ok::<
            u8,
            TryFromIntStrErr,
        >(u8::MAX),
        <u8 as TryFromIntStr<u128>>::spec_try_from_int_str(256u128) == Err::<
            u8,
            TryFromIntStrErr,
        >(range_error_value()),
{
}

/// Narrowing boundary for target i16: the largest value of i16 converts
/// successfully from every wider source, and the next value up fails
/// with a range error, wherever that value is representable in the
/// source.
pub proof fn lemma_narrowing_boundary_i16()
    ensures
        <i16 as TryFromIntStr<u16>>::spec_try_from_int_str(32767u16) == Ok::<
            i16,
            TryFromIntStrErr,
        >(i16::MAX),
        <i16 as TryFromIntStr<u16>>::spec_try_from_int_str(32768u16) == Err::<
            i16,
            TryFromIntStrErr,
        >(range_error_value()),
        <i16 as TryFromIntStr<i32>>::spec_try_from_int_str(32767i32) == Ok::<
            i16,
            TryFromIntStrErr,
        >(i16::MAX),
        <i16 as TryFromIntStr<i32>>::spec_try_from_int_str(32768i32) == Err::<
            i16,
            TryFromIntStrErr,
        >(range_error_value()),
        <i16 as TryFromIntStr<u32>>::spec_try_from_int_str(32767u32) == Ok::<
            i16,
            TryFromIntStrErr,
        >(i16::MAX),
        <i16 as TryFromIntStr<u32>>::spec_try_from_int_str(32768u32) == Err::<
            i16,
            TryFromIntStrErr,
        >(range_error_value()),
        <i16 as TryFromIntStr<i64>>::spec_try_from_int_str(32767i64) == Ok::<
            i16,
            TryFromIntStrErr,
        >(i16::MAX),
        <i16 as TryFromIntStr<i64>>::spec_try_from_int_str(32768i64) == Err::<
            i16,
            TryFromIntStrErr,
        >(range_error_value()),
        <i16 as TryFromIntStr<u64>>::spec_try_from_int_str(32767u64) == Ok::<
            i16,
            TryFromIntStrErr,
        >(i16::MAX),
        <i16 as TryFromIntStr<u64>>::spec_try_from_int_str(32768u64) == Err::<
            i16,
            TryFromIntStrErr,
        >(range_error_value()),
        <i16 as TryFromIntStr<isize>>::spec_try_from_int_str(32767isize) == Ok::<
            i16,
            TryFromIntStrErr,
        >(i16::MAX),
        <i16 as TryFromIntStr<isize>>::spec_try_from_int_str(32768isize) == Err::<
            i16,
            TryFromIntStrErr,
        >(range_error_value()),
        <i16 as TryFromIntStr<usize>>::spec_try_from_int_str(32767usize) == Ok::<
            i16,
            TryFromIntStrErr,
        >(i16::MAX),
        <i16 as TryFromIntStr<usize>>::spec_try_from_int_str(32768usize) == Err::<
            i16,
            TryFromIntStrErr,
        >(range_error_value()),
        <i16 as TryFromIntStr<i128>>::spec_try_from_int_str(32767i128) == Ok::<
            i16,
            TryFromIntStrErr,
        >(i16::MAX),
        <i16 as TryFromIntStr<i128>>::spec_try_from_int_str(32768i128) == Err::<
            i16,
            TryFromIntStrErr,
        >(range_error_value()),
        <i16 as TryFromIntStr<u128>>::spec_try_from_int_str(32767u128) == Ok::<
            i16,
            TryFromIntStrErr,
        >(i16::MAX),
        <i16 as TryFromIntStr<u128>>::spec_try_from_int_str(32768u128) == Err::<
            i16,
            TryFromIntStrErr,
        >(range_error_value()),
{
}

/// Narrowing boundary for target u16: the largest value of u16 converts
/// successfully from every wider source, and the next value up fails
/// with a range error, wherever that value is representable in the
/// source.
pub proof fn lemma_narrowing_boundary_u16()
    ensures
        <u16 as TryFromIntStr<i32>>::spec_try_from_int_str(65535i32) == Ok::<
            u16,
            TryFromIntStrErr,
        >(u16::MAX),
        <u16 as TryFromIntStr<i32>>::spec_try_from_int_str(65536i32) == Err::<
            u16,
            TryFromIntStrErr,
        >(range_error_value()),
        <u16 as TryFromIntStr<u32>>::spec_try_from_int_str(65535u32) == Ok::<
            u16,
            TryFromIntStrErr,
        >(u16::MAX),
        <u16 as TryFromIntStr<u32>>::spec_try_from_int_str(65536u32) == Err::<
            u16,
            TryFromIntStrErr,
        >(range_error_value()),
        <u16 as TryFromIntStr<i64>>::spec_try_from_int_str(65535i64) == Ok::<
            u16,
            TryFromIntStrErr,
        >(u16::MAX),
        <u16 as TryFromIntStr<i64>>::spec_try_from_int_str(65536i64) == Err::<
            u16,
            TryFromIntStrErr,
        >(range_error_value()),
        <u16 as TryFromIntStr<u64>>::spec_try_from_int_str(65535u64) == Ok::<
            u16,
            TryFromIntStrErr,
        >(u16::MAX),
        <u16 as TryFromIntStr<u64>>::spec_try_from_int_str(65536u64) == Err::<
            u16,
            TryFromIntStrErr,
        >(range_error_value()),
        <u16 as TryFromIntStr<isize>>::spec_try_from_int_str(65535isize) == Ok::<
            u16,
            TryFromIntStrErr,
        >(u16::MAX),
        <u16 as TryFromIntStr<isize>>::spec_try_from_int_str(65536isize) == Err::<
            u16,
            TryFromIntStrErr,
        >(range_error_value()),
        <u16 as TryFromIntStr<usize>>::spec_try_from_int_str(65535usize) == Ok::<
            u16,
            TryFromIntStrErr,
        >(u16::MAX),
        <u16 as TryFromIntStr<usize>>::spec_try_from_int_str(65536usize) == Err::<
            u16,
            TryFromIntStrErr,
        >(range_error_value()),
        <u16 as TryFromIntStr<i128>>::spec_try_from_int_str(65535i128) == Ok::<
            u16,
            TryFromIntStrErr,
        >(u16::MAX),
        <u16 as TryFromIntStr<i128>>::spec_try_from_int_str(65536i128) == Err::<
            u16,
            TryFromIntStrErr,
        >(range_error_value()),
        <u16 as TryFromIntStr<u128>>::spec_try_from_int_str(65535u128) == Ok::<
            u16,
            TryFromIntStrErr,
        >(u16::MAX),
        <u16 as TryFromIntStr<u128>>::spec_try_from_int_str(65536u128) == Err::<
            u16,
            TryFromIntStrErr,
        >(range_error_value()),
{
}

/// Narrowing boundary for target i32: the largest value of i32 converts
/// successfully from every wider source, and the next value up fails
/// with a range error, wherever that value is representable in the
/// source.
pub proof fn lemma_narrowing_boundary_i32()
    ensures
        <i32 as TryFromIntStr<u32>>::spec_try_from_int_str(2147483647u32) == Ok::<
            i32,
            TryFromIntStrErr,
        >(i32::MAX),
        <i32 as TryFromIntStr<u32>>::spec_try_from_int_str(2147483648u32) == Err::<
            i32,
            TryFromIntStrErr,
        >(range_error_value()),
        <i32 as TryFromIntStr<i64>>::spec_try_from_int_str(2147483647i64) == Ok::<
            i32,
            TryFromIntStrErr,
        >(i32::MAX),
        <i32 as TryFromIntStr<i64>>::spec_try_from_int_str(2147483648i64) == Err::<
            i32,
            TryFromIntStrErr,
        >(range_error_value()),
        <i32 as TryFromIntStr<u64>>::spec_try_from_int_str(2147483647u64) == Ok::<
            i32,
            TryFromIntStrErr,
        >(i32::MAX),
        <i32 as TryFromIntStr<u64>>::spec_try_from_int_str(2147483648u64) == Err::<
            i32,
            TryFromIntStrErr,
        >(range_error_value()),
        <i32 as TryFromIntStr<isize>>::spec_try_from_int_str(2147483647isize) == Ok::<
            i32,
            TryFromIntStrErr,
        >(i32::MAX),
        <i32 as TryFromIntStr<usize>>::spec_try_from_int_str(2147483647usize) == Ok::<
            i32,
            TryFromIntStrErr,
        >(i32::MAX),
        <i32 as TryFromIntStr<usize>>::spec_try_from_int_str(2147483648usize) == Err::<
            i32,
            TryFromIntStrErr,
        >(range_error_value()),
        <i32 as TryFromIntStr<i128>>::spec_try_from_int_str(2147483647i128) == Ok::<
            i32,
            TryFromIntStrErr,
        >(i32::MAX),
        <i32 as TryFromIntStr<i128>>::spec_try_from_int_str(2147483648i128) == Err::<
            i32,
            TryFromIntStrErr,
        >(range_error_value()),
        <i32 as TryFromIntStr<u128>>::spec_try_from_int_str(2147483647u128) == Ok::<
            i32,
            TryFromIntStrErr,
        >(i32::MAX),
        <i32 as TryFromIntStr<u128>>::spec_try_from_int_str(2147483648u128) == Err::<
            i32,
            TryFromIntStrErr,
        >(range_error_value()),
{
}

/// Narrowing boundary for target u32: the largest value of u32 converts
/// successfully from every wider source, and the next value up fails
/// with a range error, wherever that value is representable in the
/// source.
pub proof fn lemma_narrowing_boundary_u32()
    ensures
        <u32 as TryFromIntStr<i64>>::spec_try_from_int_str(4294967295i64) == Ok::<
            u32,
            TryFromIntStrErr,
        >(u32::MAX),
        <u32 as TryFromIntStr<i64>>::spec_try_from_int_str(4294967296i64) == Err::<
            u32,
            TryFromIntStrErr,
        >(range_error_value()),
        <u32 as TryFromIntStr<u64>>::spec_try_from_int_str(4294967295u64) == Ok::<
            u32,
            TryFromIntStrErr,
        >(u32::MAX),
        <u32 as TryFromIntStr<u64>>::spec_try_from_int_str(4294967296u64) == Err::<
            u32,
            TryFromIntStrErr,
        >(range_error_value()),
        <u32 as TryFromIntStr<usize>>::spec_try_from_int_str(4294967295usize) == Ok::<
            u32,
            TryFromIntStrErr,
        >(u32::MAX),
        <u32 as TryFromIntStr<i128>>::spec_try_from_int_str(4294967295i128) == Ok::<
            u32,
            TryFromIntStrErr,
        >(u32::MAX),
        <u32 as TryFromIntStr<i128>>::spec_try_from_int_str(4294967296i128) == Err::<
            u32,
            TryFromIntStrErr,
        >(range_error_value()),
        <u32 as TryFromIntStr<u128>>::spec_try_from_int_str(4294967295u128) == Ok::<
            u32,
            TryFromIntStrErr,
        >(u32::MAX),
        <u32 as TryFromIntStr<u128>>::spec_try_from_int_str(4294967296u128) == Err::<
            u32,
            TryFromIntStrErr,
        >(range_error_value()),
{
}

/// Narrowing boundary for target i64: the largest value of i64 converts
/// successfully from every wider source, and the next value up fails
/// with a range error, wherever that value is representable in the
/// source.
pub proof fn lemma_narrowing_boundary_i64()
    ensures
        <i64 as TryFromIntStr<u64>>::spec_try_from_int_str(9223372036854775807u64) == Ok::<
            i64,
            TryFromIntStrErr,
        >(i64::MAX),
        <i64 as TryFromIntStr<u64>>::spec_try_from_int_str(9223372036854775808u64) == Err::<
            i64,
            TryFromIntStrErr,
        >(range_error_value()),
        <i64 as TryFromIntStr<i128>>::spec_try_from_int_str(9223372036854775807i128) == Ok::<
            i64,
            TryFromIntStrErr,
        >(i64::MAX),
        <i64 as TryFromIntStr<i128>>::spec_try_from_int_str(9223372036854775808i128) == Err::<
            i64,
            TryFromIntStrErr,
        >(range_error_value()),
        <i64 as TryFromIntStr<u128>>::spec_try_from_int_str(9223372036854775807u128) == Ok::<
            i64,
            TryFromIntStrErr,
        >(i64::MAX),
        <i64 as TryFromIntStr<u128>>::spec_try_from_int_str(9223372036854775808u128) == Err::<
            i64,
            TryFromIntStrErr,
        >(range_error_value()),
{
}

/// Narrowing boundary for target u64: the largest value of u64 converts
/// successfully from every wider source, and the next value up fails
/// with a range error, wherever that value is representable in the
/// source.
pub proof fn lemma_narrowing_boundary_u64()
    ensures
        <u64 as TryFromIntStr<i128>>::spec_try_from_int_str(18446744073709551615i128) == Ok::<
            u64,
            TryFromIntStrErr,
        >(u64::MAX),
        <u64 as TryFromIntStr<i128>>::spec_try_from_int_str(18446744073709551616i128) == Err::<
            u64,
            TryFromIntStrErr,
        >(range_error_value()),
        <u64 as TryFromIntStr<u128>>::spec_try_from_int_str(18446744073709551615u128) == Ok::<
            u64,
            TryFromIntStrErr,
        >(u64::MAX),
        <u64 as TryFromIntStr<u128>>::spec_try_from_int_str(18446744073709551616u128) == Err::<
            u64,
            TryFromIntStrErr,
        >(range_error_value()),
{
}

/// Narrowing boundary for target isize: the largest value of isize converts
/// successfully from every wider source, and the next value up fails
/// with a range error, wherever that value is representable in the
/// source.
pub proof fn lemma_narrowing_boundary_isize()
    ensures
        <isize as TryFromIntStr<i64>>::spec_try_from_int_str(isize::MAX as i64) == Ok::<
            isize,
            TryFromIntStrErr,
        >(isize::MAX),
        <isize as TryFromIntStr<u64>>::spec_try_from_int_str(isize::MAX as u64) == Ok::<
            isize,
            TryFromIntStrErr,
        >(isize::MAX),
        <isize as TryFromIntStr<u64>>::spec_try_from_int_str(
            ((isize::MAX as u64) + 1) as u64,
        ) == Err::<isize, TryFromIntStrErr>(range_error_value()),
        <isize as TryFromIntStr<usize>>::spec_try_from_int_str(isize::MAX as usize) == Ok::<
            isize,
            TryFromIntStrErr,
        >(isize::MAX),
        <isize as TryFromIntStr<usize>>::spec_try_from_int_str(
            ((isize::MAX as usize) + 1) as usize,
        ) == Err::<isize, TryFromIntStrErr>(range_error_value()),
        <isize as TryFromIntStr<i128>>::spec_try_from_int_str(isize::MAX as i128) == Ok::<
            isize,
            TryFromIntStrErr,
        >(isize::MAX),
        <isize as TryFromIntStr<i128>>::spec_try_from_int_str(
            ((isize::MAX as i128) + 1) as i128,
        ) == Err::<isize, TryFromIntStrErr>(range_error_value()),
        <isize as TryFromIntStr<u128>>::spec_try_from_int_str(isize::MAX as u128) == Ok::<
            isize,
            TryFromIntStrErr,
        >(isize::MAX),
        <isize as TryFromIntStr<u128>>::spec_try_from_int_str(
            ((isize::MAX as u128) + 1) as u128,
        ) == Err::<isize, TryFromIntStrErr>(range_error_value()),
{
}

/// Narrowing boundary for target usize: the largest value of usize converts
/// successfully from every wider source, and the next value up fails
/// with a range error, wherever that value is representable in the
/// source.
pub proof fn lemma_narrowing_boundary_usize()
    ensures
        <usize as TryFromIntStr<u64>>::spec_try_from_int_str(usize::MAX as u64) == Ok::<
            usize,
            TryFromIntStrErr,
        >(usize::MAX),
        <usize as TryFromIntStr<i128>>::spec_try_from_int_str(usize::MAX as i128) == Ok::<
            usize,
            TryFromIntStrErr,
        >(usize::MAX),
        <usize as TryFromIntStr<i128>>::spec_try_from_int_str(
            ((usize::MAX as i128) + 1) as i128,
        ) == Err::<usize, TryFromIntStrErr>(range_error_value()),
        <usize as TryFromIntStr<u128>>::spec_try_from_int_str(usize::MAX as u128) == Ok::<
            usize,
            TryFromIntStrErr,
        >(usize::MAX),
        <usize as TryFromIntStr<u128>>::spec_try_from_int_str(
            ((usize::MAX as u128) + 1) as u128,
        ) == Err::<usize, TryFromIntStrErr>(range_error_value()),
{
}

/// Narrowing boundary for target i128: the largest value of i128 converts
/// successfully from every wider source, and the next value up fails
/// with a range error, wherever that value is representable in the
/// source.
pub proof fn lemma_narrowing_boundary_i128()
    ensures
        <i128 as TryFromIntStr<u128>>::spec_try_from_int_str(170141183460469231731687303715884105727u128) == Ok::<
            i128,
            TryFromIntStrErr,
        >(i128::MAX),
        <i128 as TryFromIntStr<u128>>::spec_try_from_int_str(170141183460469231731687303715884105728u128) == Err::<
            i128,
            TryFromIntStrErr,
        >(range_error_value()),
{
}

/// Boolean mapping: for every integer target, `false` converts to 0 and
/// `true` converts to 1, and the conversion never fails.
pub proof fn lemma_boolean_mapping()
    ensures
        <i8 as TryFromIntStr<bool>>::spec_try_from_int_str(false) == Ok::<
            i8,
            TryFromIntStrErr,
        >(0i8),
        <i8 as TryFromIntStr<bool>>::spec_try_from_int_str(true) == Ok::<
            i8,
            TryFromIntStrErr,
        >(1i8),
        <u8 as TryFromIntStr<bool>>::spec_try_from_int_str(false) == Ok::<
            u8,
            TryFromIntStrErr,
        >(0u8),
        <u8 as TryFromIntStr<bool>>::spec_try_from_int_str(true) == Ok::<
            u8,
            TryFromIntStrErr,
        >(1u8),
        <i16 as TryFromIntStr<bool>>::spec_try_from_int_str(false) == Ok::<
            i16,
            TryFromIntStrErr,
        >(0i16),
        <i16 as TryFromIntStr<bool>>::spec_try_from_int_str(true) == Ok::<
            i16,
            TryFromIntStrErr,
        >(1i16),
        <u16 as TryFromIntStr<bool>>::spec_try_from_int_str(false) == Ok::<
            u16,
            TryFromIntStrErr,
        >(0u16),
        <u16 as TryFromIntStr<bool>>::spec_try_from_int_str(true) == Ok::<
            u16,
            TryFromIntStrErr,
        >(1u16),
        <i32 as TryFromIntStr<bool>>::spec_try_from_int_str(false) == Ok::<
            i32,
            TryFromIntStrErr,
        >(0i32),
        <i32 as TryFromIntStr<bool>>::spec_try_from_int_str(true) == Ok::<
            i32,
            TryFromIntStrErr,
        >(1i32),
        <u32 as TryFromIntStr<bool>>::spec_try_from_int_str(false) == Ok::<
            u32,
            TryFromIntStrErr,
        >(0u32),
        <u32 as TryFromIntStr<bool>>::spec_try_from_int_str(true) == Ok::<
            u32,
            TryFromIntStrErr,
        >(1u32),
        <i64 as TryFromIntStr<bool>>::spec_try_from_int_str(false) == Ok::<
            i64,
            TryFromIntStrErr,
        >(0i64),
        <i64 as TryFromIntStr<bool>>::spec_try_from_int_str(true) == Ok::<
            i64,
            TryFromIntStrErr,
        >(1i64),
        <u64 as TryFromIntStr<bool>>::spec_try_from_int_str(false) == Ok::<
            u64,
            TryFromIntStrErr,
        >(0u64),
        <u64 as TryFromIntStr<bool>>::spec_try_from_int_str(true) == Ok::<
            u64,
            TryFromIntStrErr,
        >(1u64),
        <isize as TryFromIntStr<bool>>::spec_try_from_int_str(false) == Ok::<
            isize,
            TryFromIntStrErr,
        >(0isize),
        <isize as TryFromIntStr<bool>>::spec_try_from_int_str(true) == Ok::<
            isize,
            TryFromIntStrErr,
        >(1isize),
        <usize as TryFromIntStr<bool>>::spec_try_from_int_str(false) == Ok::<
            usize,
            TryFromIntStrErr,
        >(0usize),
        <usize as TryFromIntStr<bool>>::spec_try_from_int_str(true) == Ok::<
            usize,
            TryFromIntStrErr,
        >(1usize),
        <i128 as TryFromIntStr<bool>>::spec_try_from_int_str(false) == Ok::<
            i128,
            TryFromIntStrErr,
        >(0i128),
        <i128 as TryFromIntStr<bool>>::spec_try_from_int_str(true) == Ok::<
            i128,
            TryFromIntStrErr,
        >(1i128),
        <u128 as TryFromIntStr<bool>>::spec_try_from_int_str(false) == Ok::<
            u128,
            TryFromIntStrErr,
        >(0u128),
        <u128 as TryFromIntStr<bool>>::spec_try_from_int_str(true) == Ok::<
            u128,
            TryFromIntStrErr,
        >(1u128),
{
}

/// Empty text fails: for every integer target, converting the empty
/// string fails with the empty-input parse error.
pub proof fn lemma_empty_text_fails()
    ensures
        forall|s: &str| s@.len() == 0 ==> #[trigger] <i8 as TryFromIntStr<&str>>::spec_try_from_int_str(
            s,
        ) == Err::<i8, TryFromIntStrErr>(parse_error_value(ParseIntErrorKind::Empty)),
        forall|s: &str| s@.len() == 0 ==> #[trigger] <u8 as TryFromIntStr<&str>>::spec_try_from_int_str(
            s,
        ) == Err::<u8, TryFromIntStrErr>(parse_error_value(ParseIntErrorKind::Empty)),
        forall|s: &str| s@.len() == 0 ==> #[trigger] <i16 as TryFromIntStr<&str>>::spec_try_from_int_str(
            s,
        ) == Err::<i16, TryFromIntStrErr>(parse_error_value(ParseIntErrorKind::Empty)),
        forall|s: &str| s@.len() == 0 ==> #[trigger] <u16 as TryFromIntStr<&str>>::spec_try_from_int_str(
            s,
        ) == Err::<u16, TryFromIntStrErr>(parse_error_value(ParseIntErrorKind::Empty)),
        forall|s: &str| s@.len() == 0 ==> #[trigger] <i32 as TryFromIntStr<&str>>::spec_try_from_int_str(
            s,
        ) == Err::<i32, TryFromIntStrErr>(parse_error_value(ParseIntErrorKind::Empty)),
        forall|s: &str| s@.len() == 0 ==> #[trigger] <u32 as TryFromIntStr<&str>>::spec_try_from_int_str(
            s,
        ) == Err::<u32, TryFromIntStrErr>(parse_error_value(ParseIntErrorKind::Empty)),
        forall|s: &str| s@.len() == 0 ==> #[trigger] <i64 as TryFromIntStr<&str>>::spec_try_from_int_str(
            s,
        ) == Err::<i64, TryFromIntStrErr>(parse_error_value(ParseIntErrorKind::Empty)),
        forall|s: &str| s@.len() == 0 ==> #[trigger] <u64 as TryFromIntStr<&str>>::spec_try_from_int_str(
            s,
        ) == Err::<u64, TryFromIntStrErr>(parse_error_value(ParseIntErrorKind::Empty)),
        forall|s: &str| s@.len() == 0 ==> #[trigger] <isize as TryFromIntStr<&str>>::spec_try_from_int_str(
            s,
        ) == Err::<isize, TryFromIntStrErr>(parse_error_value(ParseIntErrorKind::Empty)),
        forall|s: &str| s@.len() == 0 ==> #[trigger] <usize as TryFromIntStr<&str>>::spec_try_from_int_str(
            s,
        ) == Err::<usize, TryFromIntStrErr>(parse_error_value(ParseIntErrorKind::Empty)),
        forall|s: &str| s@.len() == 0 ==> #[trigger] <i128 as TryFromIntStr<&str>>::spec_try_from_int_str(
            s,
        ) == Err::<i128, TryFromIntStrErr>(parse_error_value(ParseIntErrorKind::Empty)),
        forall|s: &str| s@.len() == 0 ==> #[trigger] <u128 as TryFromIntStr<&str>>::spec_try_from_int_str(
            s,
        ) == Err::<u128, TryFromIntStrErr>(parse_error_value(ParseIntErrorKind::Empty)),
{
}

/// Text round trip for i8: parsing the canonical decimal rendering of
/// any i8 value returns exactly that value.
pub proof fn lemma_text_round_trip_i8(s: &str, v: i8)
    requires
        s@ == render_int(v as int),
    ensures
        <i8 as TryFromIntStr<&str>>::spec_try_from_int_str(s) == Ok::<i8, TryFromIntStrErr>(v),
{
    lemma_parse_render_round_trip(v as int, true, i8::MIN as int, i8::MAX as int);
}

/// Text round trip for u8: parsing the canonical decimal rendering of
/// any u8 value returns exactly that value.
pub proof fn lemma_text_round_trip_u8(s: &str, v: u8)
    requires
        s@ == render_int(v as int),
    ensures
        <u8 as TryFromIntStr<&str>>::spec_try_from_int_str(s) == Ok::<u8, TryFromIntStrErr>(v),
{
    lemma_parse_render_round_trip(v as int, false, 0, u8::MAX as int);
}

/// Text round trip for i16: parsing the canonical decimal rendering of
/// any i16 value returns exactly that value.
pub proof fn lemma_text_round_trip_i16(s: &str, v: i16)
    requires
        s@ == render_int(v as int),
    ensures
        <i16 as TryFromIntStr<&str>>::spec_try_from_int_str(s) == Ok::<i16, TryFromIntStrErr>(v),
{
    lemma_parse_render_round_trip(v as int, true, i16::MIN as int, i16::MAX as int);
}

/// Text round trip for u16: parsing the canonical decimal rendering of
/// any u16 value returns exactly that value.
pub proof fn lemma_text_round_trip_u16(s: &str, v: u16)
    requires
        s@ == render_int(v as int),
    ensures
        <u16 as TryFromIntStr<&str>>::spec_try_from_int_str(s) == Ok::<u16, TryFromIntStrErr>(v),
{
    lemma_parse_render_round_trip(v as int, false, 0, u16::MAX as int);
}

/// Text round trip for i32: parsing the canonical decimal rendering of
/// any i32 value returns exactly that value.
pub proof fn lemma_text_round_trip_i32(s: &str, v: i32)
    requires
        s@ == render_int(v as int),
    ensures
        <i32 as TryFromIntStr<&str>>::spec_try_from_int_str(s) == Ok::<i32, TryFromIntStrErr>(v),
{
    lemma_parse_render_round_trip(v as int, true, i32::MIN as int, i32::MAX as int);
}

/// Text round trip for u32: parsing the canonical decimal rendering of
/// any u32 value returns exactly that value.
pub proof fn lemma_text_round_trip_u32(s: &str, v: u32)
    requires
        s@ == render_int(v as int),
    ensures
        <u32 as TryFromIntStr<&str>>::spec_try_from_int_str(s) == Ok::<u32, TryFromIntStrErr>(v),
{
    lemma_parse_render_round_trip(v as int, false, 0, u32::MAX as int);
}

/// Text round trip for i64: parsing the canonical decimal rendering of
/// any i64 value returns exactly that value.
pub proof fn lemma_text_round_trip_i64(s: &str, v: i64)
    requires
        s@ == render_int(v as int),
    ensures
        <i64 as TryFromIntStr<&str>>::spec_try_from_int_str(s) == Ok::<i64, TryFromIntStrErr>(v),
{
    lemma_parse_render_round_trip(v as int, true, i64::MIN as int, i64::MAX as int);
}

/// Text round trip for u64: parsing the canonical decimal rendering of
/// any u64 value returns exactly that value.
pub proof fn lemma_text_round_trip_u64(s: &str, v: u64)
    requires
        s@ == render_int(v as int),
    ensures
        <u64 as TryFromIntStr<&str>>::spec_try_from_int_str(s) == Ok::<u64, TryFromIntStrErr>(v),
{
    lemma_parse_render_round_trip(v as int, false, 0, u64::MAX as int);
}

/// Text round trip for isize: parsing the canonical decimal rendering of
/// any isize value returns exactly that value.
pub proof fn lemma_text_round_trip_isize(s: &str, v: isize)
    requires
        s@ == render_int(v as int),
    ensures
        <isize as TryFromIntStr<&str>>::spec_try_from_int_str(s) == Ok::<isize, TryFromIntStrErr>(v),
{
    lemma_parse_render_round_trip(v as int, true, isize::MIN as int, isize::MAX as int);
}

/// Text round trip for usize: parsing the canonical decimal rendering of
/// any usize value returns exactly that value.
pub proof fn lemma_text_round_trip_usize(s: &str, v: usize)
    requires
        s@ == render_int(v as int),
    ensures
        <usize as TryFromIntStr<&str>>::spec_try_from_int_str(s) == Ok::<usize, TryFromIntStrErr>(v),
{
    lemma_parse_render_round_trip(v as int, false, 0, usize::MAX as int);
}

/// Text round trip for i128: parsing the canonical decimal rendering of
/// any i128 value returns exactly that value.
pub proof fn lemma_text_round_trip_i128(s: &str, v: i128)
    requires
        s@ == render_int(v as int),
    ensures
        <i128 as TryFromIntStr<&str>>::spec_try_from_int_str(s) == Ok::<i128, TryFromIntStrErr>(v),
{
    lemma_parse_render_round_trip(v as int, true, i128::MIN as int, i128::MAX as int);
}

/// Text round trip for u128: parsing the canonical decimal rendering of
/// any u128 value returns exactly that value.
pub proof fn lemma_text_round_trip_u128(s: &str, v: u128)
    requires
        s@ == render_int(v as int),
    ensures
        <u128 as TryFromIntStr<&str>>::spec_try_from_int_str(s) == Ok::<u128, TryFromIntStrErr>(v),
{
    lemma_parse_render_round_trip(v as int, false, 0, u128::MAX as int);
}

} // verus!
