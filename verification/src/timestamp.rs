//! Timestamps of sensor values: seconds and nanoseconds since the UNIX epoch,
//! within what `chrono` can represent, and the text form that the sensors
//! send (`1485547437.987534`: ten digits of seconds, a dot, six digits of
//! microseconds).

use vstd::prelude::*;
use crate::chrono_calls::{
    chrono_accepts_timestamp, chrono_error_kind, chrono_parse_from_str, chrono_parse_result,
};
use crate::decimal::{
    IntErrorKind, all_digits, digits_value, lemma_digits_value_bounds, lemma_parse_digits, parse_i64,
    parse_i64_spec, parse_u32, parse_u32_spec, pow10,
};
use crate::text::chars_of;

verus! {

/// The first second that `chrono` represents: -262143-01-01 00:00:00 UTC.
pub const MIN_TIMESTAMP: i64 = -8_334_601_228_800;

/// The last second that `chrono` represents: 262142-12-31 23:59:59 UTC.
pub const MAX_TIMESTAMP: i64 = 8_210_266_876_799;

/// The number of characters of a timestamp text.
pub const BMOS_TIME_STRING_LEN: usize = 17;

/// The pairs of seconds and nanoseconds that make a date-time: a second in
/// range, fewer than two seconds of nanoseconds, and a leap second (one of
/// 1_000_000_000 nanoseconds or more) only in the last second of a minute.
pub open spec fn valid_timestamp(secs: int, nsecs: int) -> bool {
    &&& MIN_TIMESTAMP <= secs <= MAX_TIMESTAMP
    &&& 0 <= nsecs < 2_000_000_000
    &&& nsecs >= 1_000_000_000 ==> secs % 60 == 59
}

/// The kinds of error that `chrono` reports when a text does not match a format.
#[derive(Clone, Copy, Debug, PartialEq, Eq, Structural)]
pub enum ChronoParseErrorKind {
    /// A field is out of its permitted range.
    OutOfRange,
    /// No date-time has the given fields.
    Impossible,
    /// The fields do not determine a date-time.
    NotEnough,
    /// The text holds characters that the format does not allow.
    Invalid,
    /// The text ends early.
    TooShort,
    /// Text is left over after the format.
    TooLong,
    /// The format itself is malformed or not supported.
    BadFormat,
    /// A kind that `chrono` keeps for later.
    Unknown,
}

/// A failure of `chrono` to read a text with a format: its error and the
/// error's kind.
#[derive(Debug)]
pub struct ChronoParseFailure {
    pub error: chrono::format::ParseError,
    pub kind: ChronoParseErrorKind,
}

/// Why a timestamp could not be made.
#[allow(non_camel_case_types)]
#[derive(Debug)]
pub enum BmosTimeError {
    /// The text does not have the shape `seconds.microseconds` in 17 characters.
    INVALID_BMOS_TIME_STRING,
    /// `chrono` could not read the text with the given format: its error,
    /// and the error's kind.
    ChronoParse(chrono::format::ParseError, ChronoParseErrorKind),
    /// A part of the text is not a number of the needed type.
    ParseInt(IntErrorKind),
}

impl From<IntErrorKind> for BmosTimeError {
    fn from(err: IntErrorKind) -> (r: BmosTimeError)
        ensures
            r == BmosTimeError::ParseInt(err),
    {
        BmosTimeError::ParseInt(err)
    }
}

impl vstd::std_specs::convert::FromSpecImpl<IntErrorKind> for BmosTimeError {
    open spec fn obeys_from_spec() -> bool {
        true
    }

    open spec fn from_spec(err: IntErrorKind) -> BmosTimeError {
        BmosTimeError::ParseInt(err)
    }
}

/// A moment in time, as seconds and nanoseconds since the UNIX epoch.
#[derive(Debug, Clone, Copy)]
pub struct BmosTimeStamp {
    secs: i64,
    nanos: u32,
}

impl View for BmosTimeStamp {
    type V = (i64, u32);

    closed spec fn view(&self) -> (i64, u32) {
        (self.secs, self.nanos)
    }
}

/// `d` is the position of the only dot in `s`.
pub open spec fn single_dot_at(s: Seq<char>, d: int) -> bool {
    &&& 0 <= d < s.len()
    &&& s[d] == '.'
    &&& forall|j: int| 0 <= j < s.len() && j != d ==> s[j] != '.'
}

/// The seconds and the microseconds that a timestamp text writes, or why it
/// writes none: 17 characters, split at their only dot into an `i64` and a `u32`.
pub open spec fn bmos_time_fields(s: Seq<char>) -> Result<(int, int), BmosTimeError> {
    if s.len() != BMOS_TIME_STRING_LEN {
        Err(BmosTimeError::INVALID_BMOS_TIME_STRING)
    } else if !(exists|d: int| single_dot_at(s, d)) {
        Err(BmosTimeError::INVALID_BMOS_TIME_STRING)
    } else {
        let d = choose|d: int| single_dot_at(s, d);
        match parse_i64_spec(s.take(d)) {
            Err(e) => Err(BmosTimeError::ParseInt(e)),
            Ok(secs) => match parse_u32_spec(s.skip(d + 1)) {
                Err(e) => Err(BmosTimeError::ParseInt(e)),
                Ok(micros) => Ok((secs, micros)),
            },
        }
    }
}

/// A timestamp text whose fields, where it has them, give a date-time: its
/// microseconds times 1000 fit a `u32` and the pair is a valid timestamp.
pub open spec fn bmos_time_in_range(s: Seq<char>) -> bool {
    bmos_time_fields(s) matches Ok((secs, micros)) ==> {
        &&& micros * 1000 <= u32::MAX
        &&& valid_timestamp(secs, micros * 1000)
    }
}

/// Reading a timestamp from its text form.
pub trait BmosTimeConverter: Sized {
    /// Reads a text such as `1485547437.987534`.
    fn from_bmos_time_string(s: &str) -> Result<Self, BmosTimeError>
        requires
            bmos_time_in_range(s@),
    ;
}

impl BmosTimeStamp {
    #[verifier::type_invariant]
    spec fn inv(self) -> bool {
        valid_timestamp(self.secs as int, self.nanos as int)
    }

    /// Whether `chrono` makes a date-time of these seconds and nanoseconds.
    pub fn timestamp_is_valid(secs: i64, nsecs: u32) -> (r: bool)
        ensures
            r == valid_timestamp(secs as int, nsecs as int),
    {
        chrono_accepts_timestamp(secs, nsecs)
    }

    /// The timestamp of `secs` seconds and `nsecs` nanoseconds.
    pub fn from_timestamp(secs: i64, nsecs: u32) -> (r: BmosTimeStamp)
        requires
            valid_timestamp(secs as int, nsecs as int),
        ensures
            r@ == (secs, nsecs),
    {
        BmosTimeStamp { secs, nanos: nsecs }
    }

    /// Reads `s` with the `chrono` format `fmt`.
    pub fn parse_from_str(s: &str, fmt: &str) -> (r: Result<BmosTimeStamp, BmosTimeError>)
        ensures
            match chrono_parse_result(s@, fmt@) {
                Ok(v) => r matches Ok(t) && t@ == v,
                Err(k) => r matches Err(BmosTimeError::ChronoParse(e, k2)) && k2 == k
                    && chrono_error_kind(e) == k,
            },
    {
        match chrono_parse_from_str(s, fmt) {
            Ok((secs, nsecs)) => Ok(BmosTimeStamp { secs, nanos: nsecs }),
            Err(f) => Err(BmosTimeError::ChronoParse(f.error, f.kind)),
        }
    }

    /// Reads a timestamp text such as `1485547437.987534`; a text that is
    /// not 17 characters long is a bad format to `chrono`.
    pub fn parse_from_bmos_str(s: &str) -> (r: Result<BmosTimeStamp, BmosTimeError>)
        requires
            bmos_time_in_range(s@),
        ensures
            s@.len() != BMOS_TIME_STRING_LEN ==> (r matches Err(BmosTimeError::ChronoParse(e, k))
                && k == ChronoParseErrorKind::BadFormat && chrono_error_kind(e)
                == ChronoParseErrorKind::BadFormat),
            s@.len() == BMOS_TIME_STRING_LEN ==> match bmos_time_fields(s@) {
                Ok((secs, micros)) => r matches Ok(t) && t@ == (secs as i64, (micros * 1000) as u32),
                Err(e) => r matches Err(f) && f == e,
            },
    {
        if s.unicode_len() != BMOS_TIME_STRING_LEN {
            return match chrono_parse_from_str(s, "%") {
                Ok(_) => {
                    assert(false);
                    Err(BmosTimeError::INVALID_BMOS_TIME_STRING)
                },
                Err(f) => Err(BmosTimeError::ChronoParse(f.error, f.kind)),
            };
        }
        <BmosTimeStamp as BmosTimeConverter>::from_bmos_time_string(s)
    }

    /// The whole seconds since the epoch.
    pub fn timestamp(&self) -> (r: i64)
        ensures
            r == self@.0,
            MIN_TIMESTAMP <= r <= MAX_TIMESTAMP,
    {
        proof {
            use_type_invariant(self);
        }
        self.secs
    }

    /// The nanoseconds past the whole second.
    pub fn timestamp_subsec_nanos(&self) -> (r: u32)
        ensures
            r == self@.1,
            valid_timestamp(self@.0 as int, r as int),
    {
        proof {
            use_type_invariant(self);
        }
        self.nanos
    }
}

/// The seconds and microseconds that a timestamp text writes, or why it
/// writes none.
pub fn bmos_time_fields_of(s: &str) -> (r: Result<(i64, u32), BmosTimeError>)
    ensures
        match bmos_time_fields(s@) {
            Ok((secs, micros)) => r matches Ok(v) && v.0 as int == secs && v.1 as int == micros,
            Err(e) => r matches Err(f) && f == e,
        },
{
    let chars = chars_of(s);
    let len = chars.len();
    if len != BMOS_TIME_STRING_LEN {
        return Err(BmosTimeError::INVALID_BMOS_TIME_STRING);
    }
    let mut dots: usize = 0;
    let mut dot: usize = 0;
    let mut i: usize = 0;
    while i < len
        invariant
            i <= len,
            len == chars@.len(),
            dots <= i,
            dots == 0 ==> forall|j: int| 0 <= j < i ==> chars@[j] != '.',
            dots >= 1 ==> dot < i && chars@[dot as int] == '.',
            dots == 1 ==> forall|j: int| 0 <= j < i && j != dot ==> chars@[j] != '.',
            dots >= 2 ==> exists|j: int| 0 <= j < i && j != dot && chars@[j] == '.',
        decreases len - i,
    {
        if chars[i] == '.' {
            if dots == 0 {
                dot = i;
            }
            dots = dots + 1;
        }
        i = i + 1;
    }
    if dots != 1 {
        proof {
            if dots >= 2 {
                let j = choose|j: int| 0 <= j < len && j != dot && chars@[j] == '.';
                assert forall|d: int| !single_dot_at(s@, d) by {
                    if single_dot_at(s@, d) {
                        assert(d == dot as int || d == j);
                    }
                }
            } else {
                assert forall|d: int| !single_dot_at(s@, d) by {
                    if single_dot_at(s@, d) {
                        assert(chars@[d] == '.');
                    }
                }
            }
        }
        return Err(BmosTimeError::INVALID_BMOS_TIME_STRING);
    }
    proof {
        assert(single_dot_at(s@, dot as int));
        let d = choose|d: int| single_dot_at(s@, d);
        assert(d == dot as int);
        assert(s@.take(dot as int) =~= chars@.subrange(0, dot as int));
        assert(s@.skip(dot + 1) =~= chars@.subrange(dot + 1, len as int));
    }
    let secs = match parse_i64(&chars, 0, dot) {
        Ok(v) => v,
        Err(e) => return Err(BmosTimeError::from(e)),
    };
    let micros = match parse_u32(&chars, dot + 1, len) {
        Ok(v) => v,
        Err(e) => return Err(BmosTimeError::from(e)),
    };
    Ok((secs, micros))
}

/// A text of ten digits of seconds, a dot and six digits of microseconds,
/// the form the sensors send, reads as the numbers its digits write, and is
/// always within the range of date-times.
pub proof fn lemma_bmos_time_string_reads(secs: Seq<char>, micros: Seq<char>)
    requires
        secs.len() == 10,
        micros.len() == 6,
        all_digits(secs),
        all_digits(micros),
    ensures
        bmos_time_fields(secs + seq!['.'] + micros) == Ok::<(int, int), BmosTimeError>(
            (digits_value(0, secs), digits_value(0, micros)),
        ),
        bmos_time_in_range(secs + seq!['.'] + micros),
{
    let s = secs + seq!['.'] + micros;
    assert(s.len() == 17);
    assert forall|j: int| 0 <= j < s.len() && j != 10 implies s[j] != '.' by {
        if j < 10 {
            assert(s[j] == secs[j]);
            assert(crate::decimal::is_digit(secs[j]));
        } else {
            assert(s[j] == micros[j - 11]);
            assert(crate::decimal::is_digit(micros[j - 11]));
        }
    }
    assert(single_dot_at(s, 10));
    let d = choose|d: int| single_dot_at(s, d);
    assert(d == 10);
    assert(s.take(10) =~= secs);
    assert(s.skip(11) =~= micros);
    reveal_with_fuel(pow10, 11);
    lemma_digits_value_bounds(0, secs);
    lemma_digits_value_bounds(0, micros);
    assert(pow10(10) == 10_000_000_000);
    assert(pow10(6) == 1_000_000);
    lemma_parse_digits(secs, true, i64::MIN as int, i64::MAX as int);
    lemma_parse_digits(micros, false, 0, u32::MAX as int);
}

/// Whether a timestamp text can be read without leaving the range of
/// date-times: the condition `from_bmos_time_string` asks of its text.
pub fn bmos_time_string_in_range(s: &str) -> (r: bool)
    ensures
        r == bmos_time_in_range(s@),
{
    match bmos_time_fields_of(s) {
        Ok((secs, micros)) => {
            if micros > u32::MAX / 1000 {
                false
            } else {
                BmosTimeStamp::timestamp_is_valid(secs, micros * 1000)
            }
        },
        Err(_) => true,
    }
}

impl BmosTimeConverter for BmosTimeStamp {
    fn from_bmos_time_string(s: &str) -> (r: Result<BmosTimeStamp, BmosTimeError>)
        ensures
            match bmos_time_fields(s@) {
                Ok((secs, micros)) => r matches Ok(t) && t@ == (secs as i64, (micros * 1000) as u32),
                Err(e) => r matches Err(f) && f == e,
            },
    {
        match bmos_time_fields_of(s) {
            Ok((secs, micros)) => Ok(BmosTimeStamp::from_timestamp(secs, micros * 1000)),
            Err(e) => Err(e),
        }
    }
}

/// The pair that a timestamp is stored as: whole seconds and nanoseconds.
pub fn dt_as_tuple(ndt: &BmosTimeStamp) -> (r: (i64, u32))
    ensures
        r == ndt@,
        valid_timestamp(r.0 as int, r.1 as int),
{
    proof {
        use_type_invariant(ndt);
    }
    (ndt.timestamp(), ndt.timestamp_subsec_nanos())
}

/// The timestamp that a stored pair of seconds and nanoseconds stands for.
pub fn dt_from_tuple(t: (i64, u32)) -> (r: BmosTimeStamp)
    requires
        valid_timestamp(t.0 as int, t.1 as int),
    ensures
        r@ == t,
{
    BmosTimeStamp::from_timestamp(t.0, t.1)
}

} // verus!
