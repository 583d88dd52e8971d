use sunk::{Api, Version};

#[test]
fn version_test_parse_api_full() {
    let s = "1.11.0";
    let v = Version::from(s);
    assert_eq!(v.0, 1);
    assert_eq!(v.1, 11);
    assert_eq!(v.2, 0);
}

#[test]
fn version_test_parse_api_no_inc() {
    let s = "1.12";
    let v = Version::from(s);
    assert_eq!(v.0, 1);
    assert_eq!(v.1, 12);
    assert_eq!(v.2, 0);
}

#[test]
fn api_test_parse_api_full() {
    let s = "1.11.0";
    let v = Api::from(s);
    assert_eq!(v.0, 1);
    assert_eq!(v.1, 11);
    assert_eq!(v.2, 0);
}

#[test]
fn api_test_parse_api_no_inc() {
    let s = "1.12";
    let v = Api::from(s);
    assert_eq!(v.0, 1);
    assert_eq!(v.1, 12);
    assert_eq!(v.2, 0);
}

#[test]
fn version_single_component() {
    let v = Version::from("2");
    assert_eq!((v.0, v.1, v.2), (2, 0, 0));
}

#[test]
fn version_renders_dotted() {
    assert_eq!(Version(1, 8, 0).to_string(), "1.8.0");
    assert_eq!(Version(0, 0, 0).to_string(), "0.0.0");
    assert_eq!(Version(10, 255, 3).to_string(), "10.255.3");
}

#[test]
fn version_order_is_lexicographic() {
    let v1130 = Version(1, 13, 0);
    assert!(Version(1, 13, 0).at_least(&v1130));
    assert!(Version(1, 14, 0).at_least(&v1130));
    assert!(Version(2, 0, 0).at_least(&v1130));
    assert!(!Version(1, 12, 9).at_least(&v1130));
    assert!(!Version(0, 200, 0).at_least(&v1130));
}

#[test]
fn numerals_render_exactly() {
    assert_eq!(sunk::u64_to_string(0), "0");
    assert_eq!(sunk::u64_to_string(7), "7");
    assert_eq!(sunk::u64_to_string(1234567890), "1234567890");
    assert_eq!(sunk::u64_to_string(u64::MAX), "18446744073709551615");
    assert_eq!(sunk::i64_to_string(-5), "-5");
    assert_eq!(sunk::i64_to_string(0), "0");
    assert_eq!(sunk::i64_to_string(i64::MIN), "-9223372036854775808");
}
