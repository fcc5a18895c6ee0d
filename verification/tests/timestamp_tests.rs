use bmos::decimal::IntErrorKind;
use bmos::timestamp::{
    ChronoParseErrorKind, dt_as_tuple, dt_from_tuple, BmosTimeConverter, BmosTimeError, BmosTimeStamp, MAX_TIMESTAMP,
    MIN_TIMESTAMP,
};

#[test]
fn reads_the_documented_example() {
    let t = BmosTimeStamp::from_bmos_time_string("1485547437.987534").unwrap();
    assert_eq!(t.timestamp(), 1485547437);
    assert_eq!(t.timestamp_subsec_nanos(), 987534000);
}

#[test]
fn parse_from_bmos_str_reads_the_same() {
    let t = BmosTimeStamp::parse_from_bmos_str("1485517650.675674").unwrap();
    assert_eq!(dt_as_tuple(&t), (1485517650, 675674000));
}

#[test]
fn signs_and_short_fields() {
    let t = BmosTimeStamp::from_bmos_time_string("-485547437.987534").unwrap();
    assert_eq!(dt_as_tuple(&t), (-485547437, 987534000));
    let t = BmosTimeStamp::from_bmos_time_string("+485547437.987534").unwrap();
    assert_eq!(dt_as_tuple(&t), (485547437, 987534000));
    let t = BmosTimeStamp::from_bmos_time_string("-1485547437987.53").unwrap();
    assert_eq!(dt_as_tuple(&t), (-1485547437987, 53000));
}

#[test]
fn wrong_length_is_invalid() {
    assert!(matches!(
        BmosTimeStamp::from_bmos_time_string("1485547437.98753"),
        Err(BmosTimeError::INVALID_BMOS_TIME_STRING)
    ));
    assert!(matches!(
        BmosTimeStamp::from_bmos_time_string("1485547437.9875345"),
        Err(BmosTimeError::INVALID_BMOS_TIME_STRING)
    ));
    assert!(matches!(
        BmosTimeStamp::from_bmos_time_string(""),
        Err(BmosTimeError::INVALID_BMOS_TIME_STRING)
    ));
}

#[test]
fn not_exactly_one_dot_is_invalid() {
    assert!(matches!(
        BmosTimeStamp::from_bmos_time_string("1485547437,987534"),
        Err(BmosTimeError::INVALID_BMOS_TIME_STRING)
    ));
    assert!(matches!(
        BmosTimeStamp::from_bmos_time_string("14855.47437.98755"),
        Err(BmosTimeError::INVALID_BMOS_TIME_STRING)
    ));
}

#[test]
fn bad_numbers_are_parse_errors() {
    assert!(matches!(
        BmosTimeStamp::from_bmos_time_string("14855474x7.987534"),
        Err(BmosTimeError::ParseInt(IntErrorKind::InvalidDigit))
    ));
    assert!(matches!(
        BmosTimeStamp::from_bmos_time_string("1485547437.-87534"),
        Err(BmosTimeError::ParseInt(IntErrorKind::InvalidDigit))
    ));
    assert!(matches!(
        BmosTimeStamp::from_bmos_time_string(".1485547437987534"),
        Err(BmosTimeError::ParseInt(IntErrorKind::Empty))
    ));
    assert!(matches!(
        BmosTimeStamp::from_bmos_time_string("1485547437987534."),
        Err(BmosTimeError::ParseInt(IntErrorKind::Empty))
    ));
    assert!(matches!(
        BmosTimeStamp::from_bmos_time_string("1.999999999999999"),
        Err(BmosTimeError::ParseInt(IntErrorKind::PosOverflow))
    ));
}

#[test]
fn int_error_converts_into_time_error() {
    let e: BmosTimeError = IntErrorKind::Empty.into();
    assert!(matches!(e, BmosTimeError::ParseInt(IntErrorKind::Empty)));
}

#[test]
fn validity_follows_chrono() {
    assert!(BmosTimeStamp::timestamp_is_valid(0, 0));
    assert!(BmosTimeStamp::timestamp_is_valid(MAX_TIMESTAMP, 999_999_999));
    assert!(!BmosTimeStamp::timestamp_is_valid(MAX_TIMESTAMP + 1, 0));
    assert!(BmosTimeStamp::timestamp_is_valid(MIN_TIMESTAMP, 0));
    assert!(!BmosTimeStamp::timestamp_is_valid(MIN_TIMESTAMP - 1, 999_999_999));
    assert!(BmosTimeStamp::timestamp_is_valid(59, 1_500_000_000));
    assert!(!BmosTimeStamp::timestamp_is_valid(58, 1_500_000_000));
    assert!(BmosTimeStamp::timestamp_is_valid(-1, 1_999_999_999));
    assert!(!BmosTimeStamp::timestamp_is_valid(59, 2_000_000_000));
    assert!(!BmosTimeStamp::timestamp_is_valid(i64::MAX, 0));
    assert!(!BmosTimeStamp::timestamp_is_valid(i64::MIN, 0));
}

#[test]
fn tuple_roundtrip() {
    let t = BmosTimeStamp::from_timestamp(1485682118, 0x04040404);
    let pair = dt_as_tuple(&t);
    assert_eq!(pair, (1485682118, 0x04040404));
    let back = dt_from_tuple(pair);
    assert_eq!(dt_as_tuple(&back), pair);
}

#[test]
fn parse_with_a_chrono_format() {
    let t = BmosTimeStamp::parse_from_str("2015-09-05 23:56:04", "%Y-%m-%d %H:%M:%S").unwrap();
    assert_eq!(dt_as_tuple(&t), (1441497364, 0));
    let t = BmosTimeStamp::parse_from_str("5sep2015pm012345.6789", "%d%b%Y%p%I%M%S%.f").unwrap();
    assert_eq!(dt_as_tuple(&t), (1441459425, 678_900_000));
    assert!(matches!(
        BmosTimeStamp::parse_from_str("2015-13-05 23:56:04", "%Y-%m-%d %H:%M:%S"),
        Err(BmosTimeError::ChronoParse(_, ChronoParseErrorKind::OutOfRange))
    ));
    assert!(matches!(
        BmosTimeStamp::parse_from_str("not a date", "%Y"),
        Err(BmosTimeError::ChronoParse(_, ChronoParseErrorKind::Invalid))
    ));
    assert!(matches!(
        BmosTimeStamp::parse_from_str("", "%Y"),
        Err(BmosTimeError::ChronoParse(_, ChronoParseErrorKind::TooShort))
    ));
    assert!(matches!(
        BmosTimeStamp::parse_from_str("2015-09-05 23:56:04 x", "%Y-%m-%d %H:%M:%S"),
        Err(BmosTimeError::ChronoParse(_, ChronoParseErrorKind::TooLong))
    ));
    assert!(matches!(
        BmosTimeStamp::parse_from_str("2015", "%Y"),
        Err(BmosTimeError::ChronoParse(_, ChronoParseErrorKind::NotEnough))
    ));
    assert!(matches!(
        BmosTimeStamp::parse_from_str("anything", "%"),
        Err(BmosTimeError::ChronoParse(_, ChronoParseErrorKind::BadFormat))
    ));
}

#[test]
fn chrono_error_is_the_one_chrono_gives() {
    let expected = chrono::NaiveDateTime::parse_from_str("2015-13-05", "%Y-%m-%d").unwrap_err();
    match BmosTimeStamp::parse_from_str("2015-13-05", "%Y-%m-%d") {
        Err(BmosTimeError::ChronoParse(e, k)) => {
            assert_eq!(e, expected);
            assert_eq!(k, ChronoParseErrorKind::OutOfRange);
        }
        _ => panic!("expected a chrono error"),
    }
}

#[test]
fn bmos_str_of_wrong_length_is_a_bad_format() {
    for s in ["1485517650.67567", "", "1485517650.6756745"] {
        match BmosTimeStamp::parse_from_bmos_str(s) {
            Err(BmosTimeError::ChronoParse(e, k)) => {
                assert_eq!(k, ChronoParseErrorKind::BadFormat);
                assert_eq!(e.kind(), chrono::format::ParseErrorKind::BadFormat);
            }
            _ => panic!("expected a bad format for {:?}", s),
        }
    }
    assert!(matches!(
        BmosTimeStamp::parse_from_bmos_str("1485517650,675674"),
        Err(BmosTimeError::INVALID_BMOS_TIME_STRING)
    ));
}
