use rrr_proxy::decimal::{decimal_string, parse_decimal, parse_u16, parse_u32, parse_u64, parse_usize, IntErrorKind};

#[test]
fn parses_plain_ports() {
    assert_eq!(parse_u16("0"), Ok(0));
    assert_eq!(parse_u16("3333"), Ok(3333));
    assert_eq!(parse_u16("65535"), Ok(65535));
    assert_eq!(parse_u16("007"), Ok(7));
    assert_eq!(parse_u16("+80"), Ok(80));
}

#[test]
fn rejects_bad_port_text() {
    assert_eq!(parse_u16(""), Err(IntErrorKind::Empty));
    assert_eq!(parse_u16("+"), Err(IntErrorKind::InvalidDigit));
    assert_eq!(parse_u16("-"), Err(IntErrorKind::InvalidDigit));
    assert_eq!(parse_u16("-1"), Err(IntErrorKind::InvalidDigit));
    assert_eq!(parse_u16("12a"), Err(IntErrorKind::InvalidDigit));
    assert_eq!(parse_u16(" 1"), Err(IntErrorKind::InvalidDigit));
    assert_eq!(parse_u16("65536"), Err(IntErrorKind::PosOverflow));
    assert_eq!(parse_u16("99999a"), Err(IntErrorKind::PosOverflow));
    assert_eq!(parse_u16("1a99999"), Err(IntErrorKind::InvalidDigit));
}

#[test]
fn agrees_with_std_parsing() {
    let samples = ["", "0", "+", "-", "+0", "-0", "1", "42", "65535", "65536", "4294967295",
        "4294967296", "18446744073709551615", "18446744073709551616", "x", "1x", "٣", "00000000000000000000001"];
    for s in samples.iter() {
        assert_eq!(parse_u16(s).ok(), s.parse::<u16>().ok(), "u16 {:?}", s);
        assert_eq!(parse_u32(s).ok(), s.parse::<u32>().ok(), "u32 {:?}", s);
        assert_eq!(parse_u64(s).ok(), s.parse::<u64>().ok(), "u64 {:?}", s);
        assert_eq!(parse_usize(s).ok(), s.parse::<usize>().ok(), "usize {:?}", s);
    }
}

#[test]
fn parses_against_a_bound() {
    assert_eq!(parse_decimal("9", 9), Ok(9));
    assert_eq!(parse_decimal("10", 9), Err(IntErrorKind::PosOverflow));
    assert_eq!(parse_decimal("0", 0), Ok(0));
}

#[test]
fn formats_decimal() {
    assert_eq!(decimal_string(0), "0");
    assert_eq!(decimal_string(7), "7");
    assert_eq!(decimal_string(10), "10");
    assert_eq!(decimal_string(3333), "3333");
    assert_eq!(decimal_string(u64::MAX), "18446744073709551615");
}

#[test]
fn decimal_round_trip() {
    for n in [0u64, 1, 9, 10, 99, 100, 65535, 4294967295, u64::MAX] {
        assert_eq!(parse_u64(&decimal_string(n)), Ok(n));
    }
    for n in [0u16, 80, 443, 65535] {
        assert_eq!(parse_u16(&decimal_string(n as u64)), Ok(n));
    }
}
