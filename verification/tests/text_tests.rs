use robo_trading::text::{i64_to_decimal, parse_unsigned_up_to, text_eq, u128_to_decimal, IntParseError};

#[test]
fn renders_unsigned_decimals() {
    assert_eq!(u128_to_decimal(0), "0");
    assert_eq!(u128_to_decimal(7), "7");
    assert_eq!(u128_to_decimal(10), "10");
    assert_eq!(u128_to_decimal(1499827319559), "1499827319559");
    assert_eq!(u128_to_decimal(u128::MAX), u128::MAX.to_string());
}

#[test]
fn renders_signed_decimals() {
    assert_eq!(i64_to_decimal(0), "0");
    assert_eq!(i64_to_decimal(-1121), "-1121");
    assert_eq!(i64_to_decimal(42), "42");
    assert_eq!(i64_to_decimal(i64::MIN), i64::MIN.to_string());
    assert_eq!(i64_to_decimal(i64::MAX), i64::MAX.to_string());
}

#[test]
fn parses_unsigned_like_the_standard_parser() {
    assert_eq!(parse_unsigned_up_to("30", u64::MAX), Ok(30));
    assert_eq!(parse_unsigned_up_to("+30", u64::MAX), Ok(30));
    assert_eq!(parse_unsigned_up_to("007", u64::MAX), Ok(7));
    assert_eq!(parse_unsigned_up_to("", u64::MAX), Err(IntParseError::Empty));
    assert_eq!(parse_unsigned_up_to("+", u64::MAX), Err(IntParseError::InvalidDigit));
    assert_eq!(parse_unsigned_up_to("-", u64::MAX), Err(IntParseError::InvalidDigit));
    assert_eq!(parse_unsigned_up_to("-5", u64::MAX), Err(IntParseError::InvalidDigit));
    assert_eq!(parse_unsigned_up_to("12a", u64::MAX), Err(IntParseError::InvalidDigit));
    assert_eq!(parse_unsigned_up_to(" 1", u64::MAX), Err(IntParseError::InvalidDigit));
    assert_eq!(parse_unsigned_up_to("4294967295", u32::MAX as u64), Ok(4294967295));
    assert_eq!(parse_unsigned_up_to("4294967296", u32::MAX as u64), Err(IntParseError::PosOverflow));
    assert_eq!(parse_unsigned_up_to("18446744073709551615", u64::MAX), Ok(u64::MAX));
    assert_eq!(parse_unsigned_up_to("18446744073709551616", u64::MAX), Err(IntParseError::PosOverflow));
}

#[test]
fn parse_errors_agree_with_std_on_position() {
    // a digit overflows before a later non-digit is reached
    assert_eq!(parse_unsigned_up_to("99999999999x", u32::MAX as u64), Err(IntParseError::PosOverflow));
    assert!("99999999999x".parse::<u32>().is_err());
    assert_eq!(parse_unsigned_up_to("99999999999x", u64::MAX), Err(IntParseError::InvalidDigit));
    for s in ["0", "1", "+9", "4294967295", "4294967296", "abc", "", "-", "+", "12 "] {
        let ours = parse_unsigned_up_to(s, u32::MAX as u64).ok().map(|v| v as u32);
        assert_eq!(ours, s.parse::<u32>().ok(), "input {:?}", s);
    }
}

#[test]
fn rendering_then_parsing_gives_the_number_back() {
    for n in [0u64, 1, 9, 10, 99, 100, 12345, u32::MAX as u64, u64::MAX] {
        let text = u128_to_decimal(n as u128);
        assert_eq!(parse_unsigned_up_to(&text, u64::MAX), Ok(n));
    }
}

#[test]
fn compares_texts_by_characters() {
    assert!(text_eq("abc", "abc"));
    assert!(text_eq("", ""));
    assert!(!text_eq("abc", "abd"));
    assert!(!text_eq("abc", "ab"));
    assert!(text_eq("ção", "ção"));
}
