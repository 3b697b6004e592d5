use smxdasm::errors::Error;
use smxdasm::text::{decimal_string, hex_string, join, push_digits};

#[test]
fn decimal_of_zero_and_small_numbers() {
    assert_eq!(decimal_string(0), "0");
    assert_eq!(decimal_string(7), "7");
    assert_eq!(decimal_string(10), "10");
    assert_eq!(decimal_string(129), "129");
}

#[test]
fn decimal_of_negative_numbers() {
    assert_eq!(decimal_string(-1), "-1");
    assert_eq!(decimal_string(-2147483648), "-2147483648");
}

#[test]
fn decimal_of_the_extremes() {
    assert_eq!(decimal_string(i64::MAX), "9223372036854775807");
    assert_eq!(decimal_string(i64::MIN), "-9223372036854775808");
}

#[test]
fn hex_is_lower_case_without_leading_zeros() {
    assert_eq!(hex_string(0), "0");
    assert_eq!(hex_string(0x1f), "1f");
    assert_eq!(hex_string(0xdead_beef), "deadbeef");
    assert_eq!(hex_string(u32::MAX), "ffffffff");
    assert_eq!(hex_string(0x100), "100");
}

#[test]
fn push_digits_appends_in_the_given_base() {
    let mut out = String::from("n=");
    push_digits(&mut out, 5, 2);
    assert_eq!(out, "n=101");
    push_digits(&mut out, 255, 16);
    assert_eq!(out, "n=101ff");
    push_digits(&mut out, 0, 10);
    assert_eq!(out, "n=101ff0");
}

#[test]
fn join_puts_the_separator_between_neighbours() {
    let parts = vec![String::from("a"), String::from("b"), String::from("c")];
    assert_eq!(join(&parts, ", "), "a, b, c");
}

#[test]
fn join_of_one_part_and_of_none() {
    assert_eq!(join(&vec![String::from("only")], ", "), "only");
    assert_eq!(join(&Vec::new(), ", "), "");
}

#[test]
fn join_keeps_empty_parts() {
    let parts = vec![String::new(), String::from("x"), String::new()];
    assert_eq!(join(&parts, "-"), "-x-");
}

#[test]
fn description_of_each_error() {
    assert_eq!(Error::InvalidMagic.description(), "Invalid magic header");
    assert_eq!(Error::InvalidSize.description(), "Invalid size");
    assert_eq!(Error::InvalidOffset.description(), "Invalid offset");
    assert_eq!(Error::InvalidIndex.description(), "Invalid index");
    assert_eq!(Error::OffsetOverflow.description(), "Offset overflow");
    assert_eq!(Error::SizeOverflow.description(), "Size overflow");
    assert_eq!(Error::Other("custom").description(), "custom");
}

#[test]
fn text_of_an_error_that_is_no_io_error() {
    assert_eq!(Error::InvalidIndex.to_string(), "dnno");
    assert_eq!(Error::Other("custom").to_string(), "dnno");
}

#[allow(deprecated)]
fn described_by_std(inner: &std::io::Error) -> String {
    String::from(std::error::Error::description(inner))
}

#[test]
fn io_error_keeps_its_own_description() {
    let inner = std::io::Error::from(std::io::ErrorKind::UnexpectedEof);
    let expected = described_by_std(&inner);
    assert!(!expected.is_empty());
    assert_eq!(Error::Io(inner).description(), expected);
}

#[test]
fn io_error_keeps_its_own_text() {
    let inner = std::io::Error::new(std::io::ErrorKind::UnexpectedEof, "short read");
    let e = Error::from(inner);
    assert!(matches!(e, Error::Io(_)));
    assert_eq!(e.to_string(), "short read");
}
