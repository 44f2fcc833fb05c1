use tencentcloud_sdk_sms::text::{decimal, eq_ignore_ascii_case};

#[test]
fn decimal_of_zero_and_small_numbers() {
    assert_eq!(decimal(0), "0");
    assert_eq!(decimal(7), "7");
    assert_eq!(decimal(10), "10");
    assert_eq!(decimal(1609459200), "1609459200");
}

#[test]
fn decimal_of_negative_numbers() {
    assert_eq!(decimal(-1), "-1");
    assert_eq!(decimal(-10), "-10");
    assert_eq!(decimal(-1609459200), "-1609459200");
}

#[test]
fn decimal_of_the_extremes() {
    assert_eq!(decimal(i64::MAX), "9223372036854775807");
    assert_eq!(decimal(i64::MIN), "-9223372036854775808");
}

#[test]
fn decimal_agrees_with_the_standard_library() {
    let mut n: i64 = 1;
    for _ in 0..62 {
        assert_eq!(decimal(n), n.to_string());
        assert_eq!(decimal(-n), (-n).to_string());
        assert_eq!(decimal(n - 1), (n - 1).to_string());
        n *= 2;
    }
}

#[test]
fn comparison_ignores_the_case_of_ascii_letters() {
    assert!(eq_ignore_ascii_case("POST", "post"));
    assert!(eq_ignore_ascii_case("PoSt", "pOsT"));
    assert!(eq_ignore_ascii_case("", ""));
    assert!(eq_ignore_ascii_case("a-1", "A-1"));
}

#[test]
fn comparison_tells_different_texts_apart() {
    assert!(!eq_ignore_ascii_case("POST", "POS"));
    assert!(!eq_ignore_ascii_case("POST", "POSTS"));
    assert!(!eq_ignore_ascii_case("GET", "PUT"));
    assert!(!eq_ignore_ascii_case("a", ""));
    assert!(!eq_ignore_ascii_case("@", "`"));
    assert!(!eq_ignore_ascii_case("[", "{"));
}

#[test]
fn comparison_leaves_other_letters_alone() {
    assert!(eq_ignore_ascii_case("\u{e9}", "\u{e9}"));
    assert!(!eq_ignore_ascii_case("\u{e9}", "\u{c9}"));
    assert!(!eq_ignore_ascii_case("\u{e9}", "e"));
}
