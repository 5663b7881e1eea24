use items_crud::{parse_i32, render_i32};

#[test]
fn renders_zero() {
    assert_eq!(render_i32(0), "0");
}

#[test]
fn renders_single_digits() {
    assert_eq!(render_i32(7), "7");
    assert_eq!(render_i32(9), "9");
    assert_eq!(render_i32(-1), "-1");
}

#[test]
fn renders_several_digits() {
    assert_eq!(render_i32(10), "10");
    assert_eq!(render_i32(42), "42");
    assert_eq!(render_i32(1234567890), "1234567890");
    assert_eq!(render_i32(-305), "-305");
}

#[test]
fn renders_the_bounds() {
    assert_eq!(render_i32(i32::MAX), "2147483647");
    assert_eq!(render_i32(i32::MIN), "-2147483648");
}

#[test]
fn renders_as_the_standard_library_does() {
    for n in [0, 1, -1, 9, 10, 99, 100, 101, -100, 65535, -65536, i32::MAX, i32::MIN] {
        assert_eq!(render_i32(n), format!("{}", n));
    }
}

#[test]
fn parses_plain_numbers() {
    assert_eq!(parse_i32("0"), Some(0));
    assert_eq!(parse_i32("42"), Some(42));
    assert_eq!(parse_i32("99999"), Some(99999));
}

#[test]
fn parses_signs() {
    assert_eq!(parse_i32("-42"), Some(-42));
    assert_eq!(parse_i32("+5"), Some(5));
    assert_eq!(parse_i32("-0"), Some(0));
}

#[test]
fn parses_leading_zeros() {
    assert_eq!(parse_i32("007"), Some(7));
    assert_eq!(parse_i32("00000000000000000000001"), Some(1));
    assert_eq!(parse_i32("-0000000000002147483648"), Some(i32::MIN));
}

#[test]
fn parses_the_bounds() {
    assert_eq!(parse_i32("2147483647"), Some(i32::MAX));
    assert_eq!(parse_i32("-2147483648"), Some(i32::MIN));
}

#[test]
fn refuses_what_does_not_fit() {
    assert_eq!(parse_i32("2147483648"), None);
    assert_eq!(parse_i32("-2147483649"), None);
    assert_eq!(parse_i32("99999999999999999999999999"), None);
    assert_eq!(parse_i32("-99999999999999999999999999"), None);
}

#[test]
fn refuses_what_is_no_number() {
    assert_eq!(parse_i32(""), None);
    assert_eq!(parse_i32("-"), None);
    assert_eq!(parse_i32("+"), None);
    assert_eq!(parse_i32("abc"), None);
    assert_eq!(parse_i32("12a"), None);
    assert_eq!(parse_i32("a12"), None);
    assert_eq!(parse_i32("1 "), None);
    assert_eq!(parse_i32(" 1"), None);
    assert_eq!(parse_i32("--1"), None);
    assert_eq!(parse_i32("+-1"), None);
    assert_eq!(parse_i32("1.0"), None);
    assert_eq!(parse_i32("1e3"), None);
}

#[test]
fn refuses_digits_of_other_scripts() {
    assert_eq!(parse_i32("\u{0661}\u{0662}"), None);
    assert_eq!(parse_i32("1\u{00e9}"), None);
}

#[test]
fn parses_as_the_standard_library_does() {
    for text in ["0", "-0", "+0", "12", "-12", "+12", "", "-", "x", "2147483647", "2147483648",
        "-2147483648", "-2147483649", "0012", "1_000"]
    {
        assert_eq!(parse_i32(text), text.parse::<i32>().ok(), "for {:?}", text);
    }
}

#[test]
fn text_of_a_number_reads_back() {
    for n in [0, 1, -1, 7, 10, -10, 123456, -123456, i32::MAX, i32::MIN, i32::MAX - 1] {
        assert_eq!(parse_i32(&render_i32(n)), Some(n));
    }
}
