//! Decimal integers written as text: an optional sign followed by ASCII digits,
//! read the way Rust's `str::parse` reads `i64` and `u32`.

use vstd::prelude::*;

verus! {

/// Why a text is not a decimal integer of the wanted type.
#[derive(Debug, Clone, Copy, PartialEq, Eq, Structural)]
pub enum IntErrorKind {
    /// The text is empty.
    Empty,
    /// The text holds something other than a digit where a digit belongs.
    InvalidDigit,
    /// The number is too large for the type.
    PosOverflow,
    /// The number is too small for the type.
    NegOverflow,
}

/// `c` is one of the ASCII digits `0` to `9`.
pub open spec fn is_digit(c: char) -> bool {
    '0' <= c && c <= '9'
}

/// The value of the ASCII digit `c`.
pub open spec fn digit_value(c: char) -> int {
    c as int - '0' as int
}

/// Reads `digits` after the value `acc` read so far, one digit at a time,
/// and fails at the first character that is no digit or at the first step
/// that leaves `[min, max]`.
pub open spec fn accumulate(acc: int, digits: Seq<char>, negative: bool, min: int, max: int) -> Result<
    int,
    IntErrorKind,
>
    decreases digits.len(),
{
    if digits.len() == 0 {
        Ok(acc)
    } else if !is_digit(digits[0]) {
        Err(IntErrorKind::InvalidDigit)
    } else {
        let next = if negative {
            acc * 10 - digit_value(digits[0])
        } else {
            acc * 10 + digit_value(digits[0])
        };
        if next > max {
            Err(IntErrorKind::PosOverflow)
        } else if next < min {
            Err(IntErrorKind::NegOverflow)
        } else {
            accumulate(next, digits.drop_first(), negative, min, max)
        }
    }
}

/// The integer that `s` writes, for a type with the range `[min, max]`;
/// a leading `-` is only read as a sign when the type is signed.
pub open spec fn parse_int(s: Seq<char>, signed: bool, min: int, max: int) -> Result<
    int,
    IntErrorKind,
> {
    if s.len() == 0 {
        Err(IntErrorKind::Empty)
    } else if s.len() == 1 && (s[0] == '+' || s[0] == '-') {
        Err(IntErrorKind::InvalidDigit)
    } else if s[0] == '+' {
        accumulate(0, s.drop_first(), false, min, max)
    } else if s[0] == '-' && signed {
        accumulate(0, s.drop_first(), true, min, max)
    } else {
        accumulate(0, s, false, min, max)
    }
}

/// `s` read as an `i64`.
pub open spec fn parse_i64_spec(s: Seq<char>) -> Result<int, IntErrorKind> {
    parse_int(s, true, i64::MIN as int, i64::MAX as int)
}

/// `s` read as a `u32`.
pub open spec fn parse_u32_spec(s: Seq<char>) -> Result<int, IntErrorKind> {
    parse_int(s, false, 0, u32::MAX as int)
}

/// A read integer kept as an `i128`.
pub open spec fn to_i128_result(r: Result<int, IntErrorKind>) -> Result<i128, IntErrorKind> {
    match r {
        Ok(v) => Ok(v as i128),
        Err(e) => Err(e),
    }
}

/// A read integer kept as an `i64`.
pub open spec fn to_i64_result(r: Result<int, IntErrorKind>) -> Result<i64, IntErrorKind> {
    match r {
        Ok(v) => Ok(v as i64),
        Err(e) => Err(e),
    }
}

/// A read integer kept as a `u32`.
pub open spec fn to_u32_result(r: Result<int, IntErrorKind>) -> Result<u32, IntErrorKind> {
    match r {
        Ok(v) => Ok(v as u32),
        Err(e) => Err(e),
    }
}

/// Every value `accumulate` yields lies in `[min, max]`.
pub proof fn lemma_accumulate_in_range(acc: int, digits: Seq<char>, negative: bool, min: int, max: int)
    requires
        min <= acc <= max,
    ensures
        accumulate(acc, digits, negative, min, max) matches Ok(v) ==> min <= v <= max,
    decreases digits.len(),
{
    if digits.len() > 0 && is_digit(digits[0]) {
        let next = if negative {
            acc * 10 - digit_value(digits[0])
        } else {
            acc * 10 + digit_value(digits[0])
        };
        if min <= next <= max {
            lemma_accumulate_in_range(next, digits.drop_first(), negative, min, max);
        }
    }
}

/// Every value `parse_int` yields lies in `[min, max]`.
pub proof fn lemma_parse_int_in_range(s: Seq<char>, signed: bool, min: int, max: int)
    requires
        min <= 0 <= max,
    ensures
        parse_int(s, signed, min, max) matches Ok(v) ==> min <= v <= max,
{
    lemma_accumulate_in_range(0, s, false, min, max);
    lemma_accumulate_in_range(0, s.drop_first(), false, min, max);
    lemma_accumulate_in_range(0, s.drop_first(), true, min, max);
}

/// Every character of `ds` is an ASCII digit.
pub open spec fn all_digits(ds: Seq<char>) -> bool {
    forall|i: int| 0 <= i < ds.len() ==> is_digit(#[trigger] ds[i])
}

/// The number that the digits `ds` write, read after the value `acc`.
pub open spec fn digits_value(acc: int, ds: Seq<char>) -> int
    decreases ds.len(),
{
    if ds.len() == 0 {
        acc
    } else {
        digits_value(acc * 10 + digit_value(ds[0]), ds.drop_first())
    }
}

/// Ten to the power `n`.
pub open spec fn pow10(n: nat) -> int
    decreases n,
{
    if n == 0 {
        1
    } else {
        10 * pow10((n - 1) as nat)
    }
}

/// Powers of ten are positive.
pub proof fn lemma_pow10_positive(n: nat)
    ensures
        pow10(n) >= 1,
    decreases n,
{
    if n > 0 {
        lemma_pow10_positive((n - 1) as nat);
    }
}

/// Reading `n` more digits after `acc` gives at least `acc` followed by `n`
/// zeros and less than `acc + 1` followed by `n` zeros.
pub proof fn lemma_digits_value_bounds(acc: int, ds: Seq<char>)
    requires
        acc >= 0,
        all_digits(ds),
    ensures
        acc * pow10(ds.len()) <= digits_value(acc, ds) < (acc + 1) * pow10(ds.len()),
    decreases ds.len(),
{
    if ds.len() > 0 {
        let d = digit_value(ds[0]);
        assert(is_digit(ds[0]));
        let next = acc * 10 + d;
        let rest = ds.drop_first();
        assert(all_digits(rest)) by {
            assert forall|i: int| 0 <= i < rest.len() implies is_digit(#[trigger] rest[i]) by {
                assert(rest[i] == ds[i + 1]);
            }
        }
        lemma_digits_value_bounds(next, rest);
        let p = pow10(rest.len());
        lemma_pow10_positive(rest.len());
        assert(pow10(ds.len()) == 10 * p);
        assert(0 <= d <= 9);
        assert(acc * (10 * p) <= next * p) by (nonlinear_arith)
            requires
                next == acc * 10 + d,
                d >= 0,
                p >= 1,
        ;
        assert((next + 1) * p <= (acc + 1) * (10 * p)) by (nonlinear_arith)
            requires
                next == acc * 10 + d,
                d <= 9,
                p >= 1,
        ;
    }
}

/// Digits whose value fits below `max` read as that value.
pub proof fn lemma_accumulate_digits(acc: int, ds: Seq<char>, min: int, max: int)
    requires
        acc >= 0,
        min <= 0,
        all_digits(ds),
        digits_value(acc, ds) <= max,
    ensures
        accumulate(acc, ds, false, min, max) == Ok::<int, IntErrorKind>(digits_value(acc, ds)),
    decreases ds.len(),
{
    if ds.len() > 0 {
        assert(is_digit(ds[0]));
        let next = acc * 10 + digit_value(ds[0]);
        let rest = ds.drop_first();
        assert(all_digits(rest)) by {
            assert forall|i: int| 0 <= i < rest.len() implies is_digit(#[trigger] rest[i]) by {
                assert(rest[i] == ds[i + 1]);
            }
        }
        lemma_digits_value_bounds(next, rest);
        lemma_pow10_positive(rest.len());
        let p = pow10(rest.len());
        assert(next <= next * p) by (nonlinear_arith)
            requires
                next >= 0,
                p >= 1,
        ;
        lemma_accumulate_digits(next, rest, min, max);
    }
}

/// A text of digits only reads as the number its digits write, when that
/// number fits the type.
pub proof fn lemma_parse_digits(s: Seq<char>, signed: bool, min: int, max: int)
    requires
        s.len() > 0,
        min <= 0,
        all_digits(s),
        digits_value(0, s) <= max,
    ensures
        parse_int(s, signed, min, max) == Ok::<int, IntErrorKind>(digits_value(0, s)),
{
    assert(is_digit(s[0]));
    lemma_accumulate_digits(0, s, min, max);
}

/// Reads `s[start..end]` as an integer of the range `[min, max]`.
fn parse_range(s: &Vec<char>, start: usize, end: usize, signed: bool, min: i128, max: i128) -> (r:
    Result<i128, IntErrorKind>)
    requires
        start <= end <= s@.len(),
        min <= 0 <= max,
        min >= i64::MIN,
        max <= u64::MAX,
    ensures
        r == to_i128_result(
            parse_int(s@.subrange(start as int, end as int), signed, min as int, max as int),
        ),
        r matches Ok(v) ==> min <= v <= max,
{
    let ghost text = s@.subrange(start as int, end as int);
    if start == end {
        return Err(IntErrorKind::Empty);
    }
    let first = s[start];
    if end - start == 1 && (first == '+' || first == '-') {
        return Err(IntErrorKind::InvalidDigit);
    }
    let mut negative = false;
    let mut i = start;
    if first == '+' {
        i = start + 1;
    } else if first == '-' && signed {
        negative = true;
        i = start + 1;
    }
    assert(s@.subrange(i as int, end as int) == if i == start {
        text
    } else {
        text.drop_first()
    });
    let ghost whole = accumulate(0, s@.subrange(i as int, end as int), negative, min as int, max as int);
    assert(whole == parse_int(text, signed, min as int, max as int));
    let mut acc: i128 = 0;
    while i < end
        invariant
            start <= i <= end <= s@.len(),
            min <= 0 <= max,
            min >= i64::MIN,
            max <= u64::MAX,
            min <= acc <= max,
            whole == accumulate(acc as int, s@.subrange(i as int, end as int), negative, min as int, max as int),
            whole == parse_int(text, signed, min as int, max as int),
            text == s@.subrange(start as int, end as int),
        decreases end - i,
    {
        let c = s[i];
        assert(s@.subrange(i as int, end as int)[0] == c);
        assert(s@.subrange(i as int, end as int).drop_first() =~= s@.subrange(i + 1, end as int));
        if !('0' <= c && c <= '9') {
            return Err(IntErrorKind::InvalidDigit);
        }
        let d = (c as u32 - '0' as u32) as i128;
        let next = if negative {
            acc * 10 - d
        } else {
            acc * 10 + d
        };
        if next > max {
            return Err(IntErrorKind::PosOverflow);
        } else if next < min {
            return Err(IntErrorKind::NegOverflow);
        }
        acc = next;
        i = i + 1;
    }
    assert(s@.subrange(i as int, end as int).len() == 0);
    Ok(acc)
}

/// Reads `s[start..end]` as an `i64`.
pub fn parse_i64(s: &Vec<char>, start: usize, end: usize) -> (r: Result<i64, IntErrorKind>)
    requires
        start <= end <= s@.len(),
    ensures
        r == to_i64_result(parse_i64_spec(s@.subrange(start as int, end as int))),
        r matches Ok(v) ==> parse_i64_spec(s@.subrange(start as int, end as int)) == Ok::<
            int,
            IntErrorKind,
        >(v as int),
{
    let lo: i128 = i64::MIN as i128;
    let hi: i128 = i64::MAX as i128;
    assert(lo as int == i64::MIN as int && hi as int == i64::MAX as int);
    proof {
        lemma_parse_int_in_range(s@.subrange(start as int, end as int), true, lo as int, hi as int);
    }
    match parse_range(s, start, end, true, lo, hi) {
        Ok(v) => {
            assert(v as i64 as int == v as int);
            Ok(v as i64)
        },
        Err(e) => Err(e),
    }
}

/// Reads `s[start..end]` as a `u32`.
pub fn parse_u32(s: &Vec<char>, start: usize, end: usize) -> (r: Result<u32, IntErrorKind>)
    requires
        start <= end <= s@.len(),
    ensures
        r == to_u32_result(parse_u32_spec(s@.subrange(start as int, end as int))),
        r matches Ok(v) ==> parse_u32_spec(s@.subrange(start as int, end as int)) == Ok::<
            int,
            IntErrorKind,
        >(v as int),
{
    let hi: i128 = u32::MAX as i128;
    assert(hi as int == u32::MAX as int);
    proof {
        lemma_parse_int_in_range(s@.subrange(start as int, end as int), false, 0, hi as int);
    }
    match parse_range(s, start, end, false, 0, hi) {
        Ok(v) => {
            assert(v as u32 as int == v as int);
            Ok(v as u32)
        },
        Err(e) => Err(e),
    }
}

} // verus!
