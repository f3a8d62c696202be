use vss_server::text::{decimal_text, parse_i32, parse_i64, path_segments};

fn parts_of(path: &str) -> Vec<String> {
    path_segments(path)
}

#[test]
fn decimal_of_single_digits() {
    for n in 0..10i64 {
        assert_eq!(decimal_text(n), n.to_string());
    }
}

#[test]
fn decimal_of_larger_numbers() {
    assert_eq!(decimal_text(10), "10");
    assert_eq!(decimal_text(1000), "1000");
    assert_eq!(decimal_text(8080), "8080");
    assert_eq!(decimal_text(1234567890), "1234567890");
    assert_eq!(decimal_text(i64::MAX), "9223372036854775807");
}

#[test]
fn decimal_of_negative_numbers() {
    assert_eq!(decimal_text(-1), "-1");
    assert_eq!(decimal_text(-90), "-90");
    assert_eq!(decimal_text(i64::MIN), "-9223372036854775808");
}

#[test]
fn numerals_read_back() {
    for n in [0, 1, -1, 9, 10, 99, -100, i64::MAX, i64::MIN, i64::MAX - 1, i64::MIN + 1] {
        assert_eq!(parse_i64(&decimal_text(n)), Some(n));
    }
}

#[test]
fn parse_accepts_signs_and_leading_zeros() {
    assert_eq!(parse_i64("+5"), Some(5));
    assert_eq!(parse_i64("-5"), Some(-5));
    assert_eq!(parse_i64("007"), Some(7));
    assert_eq!(parse_i64("-0"), Some(0));
    assert_eq!(parse_i64("+0"), Some(0));
    assert_eq!(parse_i64("00000000000000000000000000000000000012"), Some(12));
}

#[test]
fn parse_refuses_what_is_no_numeral() {
    for text in ["", "-", "+", "--1", "+-1", "1-", " 1", "1 ", "1.0", "1e3", "0x10", "a", "12a4", "１"] {
        assert_eq!(parse_i64(text), None, "{}", text);
        assert!(text.parse::<i64>().is_err());
    }
}

#[test]
fn parse_refuses_what_does_not_fit() {
    assert_eq!(parse_i64("9223372036854775807"), Some(i64::MAX));
    assert_eq!(parse_i64("9223372036854775808"), None);
    assert_eq!(parse_i64("+9223372036854775808"), None);
    assert_eq!(parse_i64("-9223372036854775808"), Some(i64::MIN));
    assert_eq!(parse_i64("-9223372036854775809"), None);
    assert_eq!(parse_i64("99999999999999999999999999999999999999999"), None);
    assert_eq!(parse_i64("-99999999999999999999999999999999999999999"), None);
    assert_eq!(parse_i64("99999999999999999999999999999999999999999x"), None);
}

#[test]
fn parse_of_32_bits() {
    assert_eq!(parse_i32("100"), Some(100));
    assert_eq!(parse_i32("2147483647"), Some(i32::MAX));
    assert_eq!(parse_i32("2147483648"), None);
    assert_eq!(parse_i32("-2147483648"), Some(i32::MIN));
    assert_eq!(parse_i32("-2147483649"), None);
    assert_eq!(parse_i32("many"), None);
    assert_eq!(parse_i32(""), None);
}

#[test]
fn segments_of_paths() {
    assert_eq!(parts_of(""), vec![""]);
    assert_eq!(parts_of("/"), vec![""]);
    assert_eq!(parts_of("a"), vec!["a"]);
    assert_eq!(parts_of("/a/b"), vec!["a", "b"]);
    assert_eq!(parts_of("///a/b/"), vec!["a", "b", ""]);
    assert_eq!(parts_of("a//b"), vec!["a", "", "b"]);
    assert_eq!(parts_of("/é/日本"), vec!["é", "日本"]);
}

#[test]
fn segments_join_to_the_path() {
    for path in ["", "a", "a/b", "a//b/", "v1/store/key/more", "é/ß"] {
        let parts = parts_of(path);
        assert_eq!(parts.join("/"), path);
        assert!(parts.iter().all(|part| !part.contains('/')));
    }
}
