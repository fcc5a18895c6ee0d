use bmos::decimal::{parse_i64, parse_u32, IntErrorKind};

fn chars(s: &str) -> Vec<char> {
    s.chars().collect()
}

fn i64_of(s: &str) -> Result<i64, IntErrorKind> {
    let c = chars(s);
    parse_i64(&c, 0, c.len())
}

fn u32_of(s: &str) -> Result<u32, IntErrorKind> {
    let c = chars(s);
    parse_u32(&c, 0, c.len())
}

fn std_kind(k: &std::num::IntErrorKind) -> IntErrorKind {
    match k {
        std::num::IntErrorKind::Empty => IntErrorKind::Empty,
        std::num::IntErrorKind::InvalidDigit => IntErrorKind::InvalidDigit,
        std::num::IntErrorKind::PosOverflow => IntErrorKind::PosOverflow,
        std::num::IntErrorKind::NegOverflow => IntErrorKind::NegOverflow,
        _ => panic!("unexpected kind"),
    }
}

#[test]
fn i64_values() {
    assert_eq!(i64_of("0"), Ok(0));
    assert_eq!(i64_of("1485547437"), Ok(1485547437));
    assert_eq!(i64_of("-42"), Ok(-42));
    assert_eq!(i64_of("+42"), Ok(42));
    assert_eq!(i64_of("007"), Ok(7));
    assert_eq!(i64_of("9223372036854775807"), Ok(i64::MAX));
    assert_eq!(i64_of("-9223372036854775808"), Ok(i64::MIN));
}

#[test]
fn i64_errors() {
    assert_eq!(i64_of(""), Err(IntErrorKind::Empty));
    assert_eq!(i64_of("+"), Err(IntErrorKind::InvalidDigit));
    assert_eq!(i64_of("-"), Err(IntErrorKind::InvalidDigit));
    assert_eq!(i64_of("12a"), Err(IntErrorKind::InvalidDigit));
    assert_eq!(i64_of(" 1"), Err(IntErrorKind::InvalidDigit));
    assert_eq!(i64_of("9223372036854775808"), Err(IntErrorKind::PosOverflow));
    assert_eq!(i64_of("-9223372036854775809"), Err(IntErrorKind::NegOverflow));
    assert_eq!(i64_of("99999999999999999999x"), Err(IntErrorKind::PosOverflow));
}

#[test]
fn u32_values_and_errors() {
    assert_eq!(u32_of("987534"), Ok(987534));
    assert_eq!(u32_of("+7"), Ok(7));
    assert_eq!(u32_of("4294967295"), Ok(u32::MAX));
    assert_eq!(u32_of("4294967296"), Err(IntErrorKind::PosOverflow));
    assert_eq!(u32_of("-1"), Err(IntErrorKind::InvalidDigit));
    assert_eq!(u32_of("-0"), Err(IntErrorKind::InvalidDigit));
    assert_eq!(u32_of(""), Err(IntErrorKind::Empty));
}

#[test]
fn parse_range_of_a_longer_text() {
    let c = chars("1485547437.987534");
    assert_eq!(parse_i64(&c, 0, 10), Ok(1485547437));
    assert_eq!(parse_u32(&c, 11, 17), Ok(987534));
    assert_eq!(parse_u32(&c, 10, 17), Err(IntErrorKind::InvalidDigit));
}

#[test]
fn agrees_with_std_parse() {
    let samples = [
        "", "+", "-", "0", "-0", "+0", "1", "-1", "12", "a", "1a", "a1", "--1", "+-1", "-+1",
        "4294967295", "4294967296", "-4294967295", "9223372036854775807", "9223372036854775808",
        "-9223372036854775808", "-9223372036854775809", "123456789012345678901234567890",
        "-123456789012345678901234567890", "1 ", "١٢", "0000000000000000000000042",
        "99999999999x", "42949672950x",
    ];
    for s in samples.iter() {
        let mine = i64_of(s);
        let theirs: Result<i64, IntErrorKind> = s.parse::<i64>().map_err(|e| std_kind(e.kind()));
        assert_eq!(mine, theirs, "i64 of {:?}", s);
        let mine = u32_of(s);
        let theirs: Result<u32, IntErrorKind> = s.parse::<u32>().map_err(|e| std_kind(e.kind()));
        assert_eq!(mine, theirs, "u32 of {:?}", s);
    }
}

#[test]
fn agrees_with_std_parse_on_every_short_text() {
    let alphabet = ['0', '1', '5', '9', '+', '-', 'a', ' ', '\u{663}'];
    let mut texts: Vec<String> = vec![String::new()];
    let mut layer: Vec<String> = vec![String::new()];
    for _ in 0..4 {
        let mut next = Vec::new();
        for t in &layer {
            for c in alphabet.iter() {
                let mut u = t.clone();
                u.push(*c);
                next.push(u);
            }
        }
        texts.extend(next.iter().cloned());
        layer = next;
    }
    for s in texts.iter() {
        let theirs: Result<i64, IntErrorKind> = s.parse::<i64>().map_err(|e| std_kind(e.kind()));
        assert_eq!(i64_of(s), theirs, "i64 of {:?}", s);
        let theirs: Result<u32, IntErrorKind> = s.parse::<u32>().map_err(|e| std_kind(e.kind()));
        assert_eq!(u32_of(s), theirs, "u32 of {:?}", s);
    }
}

#[test]
fn agrees_with_std_parse_around_the_bounds() {
    let mut texts: Vec<String> = Vec::new();
    for base in [i64::MAX as i128, i64::MIN as i128, u32::MAX as i128, 0i128] {
        for d in -3i128..=3 {
            let v = base + d;
            texts.push(v.to_string());
            texts.push(format!("+{}", v));
            texts.push(format!("{}0", v));
            texts.push(format!("{}x", v));
        }
    }
    for s in texts.iter() {
        let theirs: Result<i64, IntErrorKind> = s.parse::<i64>().map_err(|e| std_kind(e.kind()));
        assert_eq!(i64_of(s), theirs, "i64 of {:?}", s);
        let theirs: Result<u32, IntErrorKind> = s.parse::<u32>().map_err(|e| std_kind(e.kind()));
        assert_eq!(u32_of(s), theirs, "u32 of {:?}", s);
    }
}
