//! A verified parser for base-10 numerals with an optional minus sign.
//!
//! [`spec_parse_int`] states what parsing a character sequence yields: the
//! empty text fails with [`ParseIntErrorKind::Empty`]; a single leading `-`
//! is accepted for signed targets only; any other non-digit character,
//! a leading `+` included, fails with
//! [`ParseIntErrorKind::InvalidDigit`]; a well-formed numeral whose value
//! lies outside the target's range fails with
//! [`ParseIntErrorKind::PosOverflow`] or
//! [`ParseIntErrorKind::NegOverflow`]; and otherwise parsing returns the
//! numeral's exact value. When a text both holds a non-digit character and
//! names a value out of range, the non-digit failure wins.
//!
//! The executable parsers [`parse_u128_in_range`] and
//! [`parse_i128_in_range`] are proved to return exactly what
//! [`spec_parse_int`] states.

use vstd::prelude::*;
use crate::errors::ParseIntErrorKind;

verus! {

/// True when `c` is a decimal digit.
pub open spec fn is_digit_char(c: char) -> bool {
    48 <= c as int && c as int <= 57
}

/// The numeric value of the decimal digit `c`.
pub open spec fn digit_value(c: char) -> int {
    c as int - 48
}

/// True when every character of `s` is a decimal digit.
pub open spec fn all_digits(s: Seq<char>) -> bool {
    forall|i: int| 0 <= i < s.len() ==> is_digit_char(#[trigger] s[i])
}

/// The value of the digit string `s` read as a base-10 numeral.
pub open spec fn digits_val(s: Seq<char>) -> int
    decreases s.len(),
{
    if s.len() == 0 {
        0
    } else {
        digits_val(s.drop_last()) * 10 + digit_value(s.last())
    }
}

/// What parsing the unsigned digit part of a numeral yields, once an
/// optional sign has been taken off: `neg` says whether a minus sign
/// preceded the digits, and `min` and `max` bound the target's range.
pub open spec fn spec_parse_digits(digits: Seq<char>, neg: bool, min: int, max: int) -> Result<
    int,
    ParseIntErrorKind,
> {
    if digits.len() == 0 || !all_digits(digits) {
        Err(ParseIntErrorKind::InvalidDigit)
    } else if neg {
        if -digits_val(digits) < min {
            Err(ParseIntErrorKind::NegOverflow)
        } else {
            Ok(-digits_val(digits))
        }
    } else {
        if digits_val(digits) > max {
            Err(ParseIntErrorKind::PosOverflow)
        } else {
            Ok(digits_val(digits))
        }
    }
}

/// What parsing the text `s` as a base-10 numeral yields for a target
/// whose range is `min..=max`; `signed` says whether a leading minus sign
/// is accepted.
pub open spec fn spec_parse_int(s: Seq<char>, signed: bool, min: int, max: int) -> Result<
    int,
    ParseIntErrorKind,
> {
    if s.len() == 0 {
        Err(ParseIntErrorKind::Empty)
    } else if s[0] == '-' {
        if signed {
            spec_parse_digits(s.subrange(1, s.len() as int), true, min, max)
        } else {
            Err(ParseIntErrorKind::InvalidDigit)
        }
    } else {
        spec_parse_digits(s, false, min, max)
    }
}

/// Maps an abstract parse result onto `u128`, which is faithful whenever
/// the value lies in `u128`'s range.
pub open spec fn to_u128_result(r: Result<int, ParseIntErrorKind>) -> Result<
    u128,
    ParseIntErrorKind,
> {
    match r {
        Ok(v) => Ok(v as u128),
        Err(k) => Err(k),
    }
}

/// Maps an abstract parse result onto `i128`, which is faithful whenever
/// the value lies in `i128`'s range.
pub open spec fn to_i128_result(r: Result<int, ParseIntErrorKind>) -> Result<
    i128,
    ParseIntErrorKind,
> {
    match r {
        Ok(v) => Ok(v as i128),
        Err(k) => Err(k),
    }
}

/// A digit string's value is never negative.
pub proof fn lemma_digits_val_nonneg(s: Seq<char>)
    requires
        all_digits(s),
    ensures
        digits_val(s) >= 0,
    decreases s.len(),
{
    if s.len() > 0 {
        assert forall|i: int| 0 <= i < s.drop_last().len() implies is_digit_char(
            #[trigger] s.drop_last()[i],
        ) by {
            assert(s.drop_last()[i] == s[i]);
        }
        lemma_digits_val_nonneg(s.drop_last());
    }
}

/// Appending further digits to a digit string never lowers its value.
pub proof fn lemma_digits_val_prefix(s: Seq<char>, i: int)
    requires
        all_digits(s),
        0 <= i <= s.len(),
    ensures
        digits_val(s.subrange(0, i)) <= digits_val(s),
    decreases s.len() - i,
{
    if i == s.len() {
        assert(s.subrange(0, i) =~= s);
    } else {
        let p = s.subrange(0, i);
        let q = s.subrange(0, i + 1);
        assert(q.drop_last() =~= p);
        assert(q.last() == s[i]);
        assert forall|j: int| 0 <= j < p.len() implies is_digit_char(#[trigger] p[j]) by {
            assert(p[j] == s[j]);
        }
        lemma_digits_val_nonneg(p);
        assert(digits_val(q) == digits_val(p) * 10 + digit_value(s[i]));
        lemma_digits_val_prefix(s, i + 1);
    }
}

/// A successful parse yields a value in the target's range.
pub proof fn lemma_spec_parse_int_range(s: Seq<char>, signed: bool, min: int, max: int)
    requires
        min <= 0 <= max,
    ensures
        spec_parse_int(s, signed, min, max) matches Ok(v) ==> min <= v <= max,
{
    if s.len() == 0 {
    } else if s[0] == '-' && signed {
        let ds = s.subrange(1, s.len() as int);
        if ds.len() > 0 && all_digits(ds) {
            lemma_digits_val_nonneg(ds);
        }
    } else {
        if all_digits(s) {
            lemma_digits_val_nonneg(s);
        }
    }
}

/// Scans `s` between `start` and `n` as a plain digit string and returns
/// its value, failing on a non-digit character, on the empty range, and on
/// a value above `limit`.
fn scan_digits(s: &str, start: usize, n: usize, limit: u128) -> (r: Result<
    u128,
    ParseIntErrorKind,
>)
    requires
        n as nat == s@.len(),
        start <= n,
    ensures
        ({
            let ds = s@.subrange(start as int, n as int);
            &&& (ds.len() == 0 || !all_digits(ds)) ==> r == Err::<u128, ParseIntErrorKind>(
                ParseIntErrorKind::InvalidDigit,
            )
            &&& ds.len() > 0 && all_digits(ds) && digits_val(ds) > limit ==> r == Err::<
                u128,
                ParseIntErrorKind,
            >(ParseIntErrorKind::PosOverflow)
            &&& ds.len() > 0 && all_digits(ds) && digits_val(ds) <= limit ==> r == Ok::<
                u128,
                ParseIntErrorKind,
            >(digits_val(ds) as u128)
            &&& r is Ok ==> ds.len() > 0 && all_digits(ds) && 0 <= digits_val(ds) <= limit
        }),
{
    let ghost ds = s@.subrange(start as int, n as int);
    if start == n {
        return Err(ParseIntErrorKind::InvalidDigit);
    }
    let mut i: usize = start;
    while i < n
        invariant
            start <= i <= n,
            n as nat == s@.len(),
            ds == s@.subrange(start as int, n as int),
            forall|j: int| start <= j < i ==> is_digit_char(#[trigger] s@[j]),
        decreases n - i,
    {
        let c = s.get_char(i);
        let code: u32 = c as u32;
        if code < 48 || code > 57 {
            proof {
                assert(ds[i - start] == s@[i as int]);
                assert(!is_digit_char(ds[i - start]));
                assert(!all_digits(ds));
            }
            return Err(ParseIntErrorKind::InvalidDigit);
        }
        i = i + 1;
    }
    proof {
        assert forall|k: int| 0 <= k < ds.len() implies is_digit_char(#[trigger] ds[k]) by {
            assert(ds[k] == s@[start + k]);
        }
    }
    let mut acc: u128 = 0;
    i = start;
    while i < n
        invariant
            start <= i <= n,
            n as nat == s@.len(),
            start < n,
            ds == s@.subrange(start as int, n as int),
            all_digits(ds),
            forall|j: int| start <= j < n ==> is_digit_char(#[trigger] s@[j]),
            acc as int == digits_val(s@.subrange(start as int, i as int)),
            acc <= limit,
        decreases n - i,
    {
        let c = s.get_char(i);
        let d: u32 = c as u32 - 48;
        let ghost pi = s@.subrange(start as int, i as int);
        let ghost pi1 = s@.subrange(start as int, i + 1 as int);
        proof {
            assert(pi1.drop_last() =~= pi);
            assert(pi1.last() == s@[i as int]);
            assert(digits_val(pi1) == digits_val(pi) * 10 + digit_value(s@[i as int]));
        }
        let next: u128;
        match acc.checked_mul(10) {
            Some(t) => {
                match t.checked_add(d as u128) {
                    Some(v) => {
                        next = v;
                    },
                    None => {
                        proof {
                            assert(digits_val(pi1) > limit);
                            assert(pi1 =~= ds.subrange(0, i + 1 - start));
                            lemma_digits_val_prefix(ds, i + 1 - start);
                        }
                        return Err(ParseIntErrorKind::PosOverflow);
                    },
                }
            },
            None => {
                proof {
                    assert(digit_value(s@[i as int]) >= 0);
                    assert(digits_val(pi1) > limit);
                    assert(pi1 =~= ds.subrange(0, i + 1 - start));
                    lemma_digits_val_prefix(ds, i + 1 - start);
                }
                return Err(ParseIntErrorKind::PosOverflow);
            },
        }
        if next > limit {
            proof {
                assert(digits_val(pi1) > limit);
                assert(pi1 =~= ds.subrange(0, i + 1 - start));
                lemma_digits_val_prefix(ds, i + 1 - start);
            }
            return Err(ParseIntErrorKind::PosOverflow);
        }
        acc = next;
        i = i + 1;
    }
    proof {
        assert(s@.subrange(start as int, n as int) =~= ds);
    }
    Ok(acc)
}

/// Parses `s` as an unsigned base-10 numeral bounded by `max`, returning
/// exactly what [`spec_parse_int`] states for an unsigned target.
pub(crate) fn parse_u128_in_range(s: &str, max: u128) -> (r: Result<u128, ParseIntErrorKind>)
    ensures
        r == to_u128_result(spec_parse_int(s@, false, 0, max as int)),
{
    let n: usize = s.unicode_len();
    if n == 0 {
        return Err(ParseIntErrorKind::Empty);
    }
    let c0 = s.get_char(0);
    if c0 == '-' {
        Err(ParseIntErrorKind::InvalidDigit)
    } else {
        proof {
            assert(s@.subrange(0, n as int) =~= s@);
        }
        match scan_digits(s, 0, n, max) {
            Ok(m) => Ok(m),
            Err(k) => Err(k),
        }
    }
}

/// Parses `s` as a signed base-10 numeral bounded by `min..=max`,
/// returning exactly what [`spec_parse_int`] states for a signed target.
pub(crate) fn parse_i128_in_range(s: &str, min: i128, max: i128) -> (r: Result<i128, ParseIntErrorKind>)
    requires
        min <= 0 <= max,
    ensures
        r == to_i128_result(spec_parse_int(s@, true, min as int, max as int)),
{
    let n: usize = s.unicode_len();
    if n == 0 {
        return Err(ParseIntErrorKind::Empty);
    }
    let c0 = s.get_char(0);
    if c0 == '-' {
        let min_mag: u128 = if min >= 0 {
            0
        } else {
            ((-(min + 1)) as u128) + 1
        };
        proof {
            assert(min_mag as int == -(min as int));
        }
        match scan_digits(s, 1, n, min_mag) {
            Ok(m) => {
                if m == 0 {
                    Ok(0)
                } else {
                    proof {
                        assert(m as int <= min_mag as int);
                        assert(min_mag as int <= 0x8000_0000_0000_0000_0000_0000_0000_0000);
                    }
                    Ok((-((m - 1) as i128)) - 1)
                }
            },
            Err(ParseIntErrorKind::PosOverflow) => Err(ParseIntErrorKind::NegOverflow),
            Err(k) => Err(k),
        }
    } else {
        proof {
            assert(s@.subrange(0, n as int) =~= s@);
        }
        match scan_digits(s, 0, n, max as u128) {
            Ok(m) => Ok(m as i128),
            Err(k) => Err(k),
        }
    }
}

} // verus!
