//! The calls into `chrono` that the timestamp logic makes.

use vstd::prelude::*;
use chrono::format::ParseErrorKind;
use crate::timestamp::{ChronoParseErrorKind, ChronoParseFailure, valid_timestamp};

verus! {

/// `chrono`'s error for a text that does not match a format.
#[verifier::external_type_specification]
#[verifier::external_body]
pub struct ExChronoParseError(chrono::format::ParseError);

/// The `(seconds, nanoseconds)` UNIX timestamp of what
/// `chrono::NaiveDateTime::parse_from_str` reads from a text with a format,
/// or the kind of its error where it fails.
pub uninterp spec fn chrono_parse_result(s: Seq<char>, fmt: Seq<char>) -> Result<
    (i64, u32),
    ChronoParseErrorKind,
>;

/// Calls `chrono::DateTime::from_timestamp`, the function that
/// `NaiveDateTime::from_timestamp` forwards to, and reports whether it makes
/// a date-time. Claimed: that happens exactly for the pairs that
/// `valid_timestamp` describes, as the function's source shows (a day within
/// the years -262143 to 262142, fewer than 2_000_000_000 nanoseconds, and at
/// least 1_000_000_000 only in the last second of a minute).
#[verifier::external_body]
pub(crate) fn chrono_accepts_timestamp(secs: i64, nsecs: u32) -> (r: bool)
    ensures
        r == valid_timestamp(secs as int, nsecs as int),
{
    match chrono::DateTime::from_timestamp(secs, nsecs) {
        Some(_) => true,
        None => false,
    }
}

/// The kind of a `chrono` parse error, what `ParseError::kind` returns.
pub uninterp spec fn chrono_error_kind(e: chrono::format::ParseError) -> ChronoParseErrorKind;

/// The format `%` alone: an escape with nothing after it.
pub open spec fn is_lone_escape(fmt: Seq<char>) -> bool {
    fmt == "%"@
}

/// Calls `chrono::NaiveDateTime::parse_from_str` and hands out the parsed
/// date-time as its UNIX timestamp, `(and_utc().timestamp(),
/// and_utc().timestamp_subsec_nanos())`, or the error together with its
/// `kind()`, variant for variant. Claimed: the kind handed out is the
/// error's own, named `chrono_error_kind`; the outcome is the named
/// `chrono_parse_result` of the two texts; a parsed date-time is always one
/// that `chrono::DateTime::from_timestamp` would make again (every
/// `NaiveDateTime` lies in chrono's range of years and keeps leap nanoseconds
/// to the last second of a minute); and the format `%` alone, an unfinished
/// escape, fails with `BadFormat` whatever the text (its only item is
/// `Item::Error`, on which `format::parse` returns `BAD_FORMAT` at once).
#[verifier::external_body]
pub(crate) fn chrono_parse_from_str(s: &str, fmt: &str) -> (r: Result<(i64, u32), ChronoParseFailure>)
    ensures
        r matches Ok(v) ==> chrono_parse_result(s@, fmt@) matches Ok(w) && w == v && valid_timestamp(
            v.0 as int,
            v.1 as int,
        ),
        r matches Err(e) ==> chrono_parse_result(s@, fmt@) matches Err(k) && k == e.kind,
        r matches Err(e) ==> chrono_error_kind(e.error) == e.kind,
        is_lone_escape(fmt@) ==> r is Err,
        r matches Err(e) ==> is_lone_escape(fmt@) ==> e.kind == ChronoParseErrorKind::BadFormat,
{
    match chrono::NaiveDateTime::parse_from_str(s, fmt) {
        Ok(dt) => Ok((dt.and_utc().timestamp(), dt.and_utc().timestamp_subsec_nanos())),
        Err(e) => Err(ChronoParseFailure { error: e, kind: match e.kind() {
            ParseErrorKind::OutOfRange => ChronoParseErrorKind::OutOfRange,
            ParseErrorKind::Impossible => ChronoParseErrorKind::Impossible,
            ParseErrorKind::NotEnough => ChronoParseErrorKind::NotEnough,
            ParseErrorKind::Invalid => ChronoParseErrorKind::Invalid,
            ParseErrorKind::TooShort => ChronoParseErrorKind::TooShort,
            ParseErrorKind::TooLong => ChronoParseErrorKind::TooLong,
            ParseErrorKind::BadFormat => ChronoParseErrorKind::BadFormat,
            ParseErrorKind::__Nonexhaustive => ChronoParseErrorKind::Unknown,
        } }),
    }
}

} // verus!
