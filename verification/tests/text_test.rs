use iiko_server_api_sdk::text::{bool_str, i32_to_dec, i64_to_dec, trim, u64_to_dec};
use iiko_server_api_sdk::xml::response::employees::parse_bool_flag;

#[test]
fn trim_removes_leading_and_trailing_whitespace() {
    assert_eq!(trim("  ABC123 \r\n"), "ABC123");
    assert_eq!(trim("\t token \x0b"), "token");
    assert_eq!(trim("plain"), "plain");
}

#[test]
fn trim_keeps_inner_whitespace() {
    assert_eq!(trim("  a b  c "), "a b  c");
}

#[test]
fn trim_of_all_whitespace_is_empty() {
    assert_eq!(trim(" \r\n\t "), "");
    assert_eq!(trim(""), "");
}

#[test]
fn unsigned_decimal_rendering() {
    assert_eq!(u64_to_dec(0), "0");
    assert_eq!(u64_to_dec(7), "7");
    assert_eq!(u64_to_dec(10), "10");
    assert_eq!(u64_to_dec(12345), "12345");
    assert_eq!(u64_to_dec(u64::MAX), "18446744073709551615");
}

#[test]
fn signed_decimal_rendering() {
    assert_eq!(i64_to_dec(0), "0");
    assert_eq!(i64_to_dec(-1), "-1");
    assert_eq!(i64_to_dec(42), "42");
    assert_eq!(i64_to_dec(-9007), "-9007");
    assert_eq!(i64_to_dec(i64::MAX), "9223372036854775807");
    assert_eq!(i64_to_dec(i64::MIN), "-9223372036854775808");
    assert_eq!(i32_to_dec(-600), "-600");
    assert_eq!(i32_to_dec(i32::MIN), "-2147483648");
}

#[test]
fn boolean_rendering() {
    assert_eq!(bool_str(true), "true");
    assert_eq!(bool_str(false), "false");
}

#[test]
fn wire_flags_accept_true_and_one_in_any_case() {
    assert!(parse_bool_flag("true"));
    assert!(parse_bool_flag("TRUE"));
    assert!(parse_bool_flag("True"));
    assert!(parse_bool_flag("1"));
    assert!(!parse_bool_flag("false"));
    assert!(!parse_bool_flag("0"));
    assert!(!parse_bool_flag(""));
    assert!(!parse_bool_flag("yes"));
    assert!(!parse_bool_flag("true "));
}
