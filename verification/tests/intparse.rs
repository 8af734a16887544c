use force_touch::intparse::{IntErrorKind, parse_decimal, parse_i32};
use force_touch::text::{decimal_string, trim};

#[test]
fn parse_i32_bounds() {
    assert_eq!(parse_i32("--x", "2147483647"), Ok(i32::MAX));
    assert_eq!(parse_i32("--x", "-2147483648"), Ok(i32::MIN));
    assert_eq!(parse_i32("--x", "2147483648"), Err("--x: number too large to fit in target type".to_string()));
    assert_eq!(parse_i32("--x", "-2147483649"), Err("--x: number too small to fit in target type".to_string()));
    assert_eq!(parse_i32("--x", "+5"), Ok(5));
    assert_eq!(parse_i32("--x", "-"), Err("--x: invalid digit found in string".to_string()));
    assert_eq!(parse_i32("--x", ""), Err("--x: cannot parse integer from empty string".to_string()));
    assert_eq!(parse_i32("--x", " 5"), Err("--x: invalid digit found in string".to_string()));
}

#[test]
fn first_problem_decides_error() {
    assert_eq!(parse_decimal("99999999999x", i32::MIN as i64, i32::MAX as i64), Err(IntErrorKind::PosOverflow));
    assert_eq!(parse_decimal("9x99999999999", i32::MIN as i64, i32::MAX as i64), Err(IntErrorKind::InvalidDigit));
    assert_eq!(parse_decimal("007", i64::MIN, i64::MAX), Ok(7));
}

#[test]
fn decimal_rendering() {
    assert_eq!(decimal_string(0), "0");
    assert_eq!(decimal_string(7), "7");
    assert_eq!(decimal_string(1234567), "1234567");
    assert_eq!(decimal_string(u64::MAX), "18446744073709551615");
}

#[test]
fn trim_white_space() {
    assert_eq!(trim("\t a b \n"), "a b");
    assert_eq!(trim("\u{3000}x\u{a0}"), "x");
    assert_eq!(trim("   "), "");
}
