use discover_weekly::encoding::is_encodable;
use discover_weekly::http::{clone_pairs, query_string, HttpMethod, HttpRequest};
use discover_weekly::text::{clone_optional, decimal_string, join, signed_decimal_string};

#[test]
fn decimal_of_small_and_large_numbers() {
    assert_eq!(decimal_string(0), "0");
    assert_eq!(decimal_string(7), "7");
    assert_eq!(decimal_string(10), "10");
    assert_eq!(decimal_string(3600), "3600");
    assert_eq!(decimal_string(1234567890), "1234567890");
    assert_eq!(decimal_string(u64::MAX), "18446744073709551615");
}

#[test]
fn decimal_agrees_with_the_standard_formatting() {
    let mut n: u64 = 1;
    for _ in 0..40 {
        assert_eq!(decimal_string(n), format!("{}", n));
        assert_eq!(decimal_string(n - 1), format!("{}", n - 1));
        n = n.wrapping_mul(3).wrapping_add(7) % 1_000_000_000_000_000_000;
        n += 1;
    }
}

#[test]
fn signed_decimal_writes_the_sign() {
    assert_eq!(signed_decimal_string(0), "0");
    assert_eq!(signed_decimal_string(50), "50");
    assert_eq!(signed_decimal_string(-1), "-1");
    assert_eq!(signed_decimal_string(-50), "-50");
    assert_eq!(signed_decimal_string(i64::MAX), "9223372036854775807");
    assert_eq!(signed_decimal_string(i64::MIN), "-9223372036854775808");
}

#[test]
fn join_puts_two_texts_together() {
    assert_eq!(join("Bearer ", "abc"), "Bearer abc");
    assert_eq!(join("", ""), "");
    assert_eq!(join("é", "ü"), "éü");
}

#[test]
fn optional_text_is_copied() {
    assert_eq!(clone_optional(&None), None);
    assert_eq!(clone_optional(&Some("é".to_string())), Some("é".to_string()));
}

#[test]
fn query_of_no_parameters_is_empty() {
    assert_eq!(query_string(&Vec::new()), "");
}

#[test]
fn query_keeps_the_order_given() {
    let one = vec![("limit".to_string(), 50i64)];
    assert_eq!(query_string(&one), "?limit=50");
    let two = vec![("limit".to_string(), 50i64), ("offset".to_string(), 100i64)];
    assert_eq!(query_string(&two), "?limit=50&offset=100");
    let swapped = vec![("offset".to_string(), 100i64), ("limit".to_string(), 50i64)];
    assert_eq!(query_string(&swapped), "?offset=100&limit=50");
    let three = vec![
        ("b".to_string(), -1i64),
        ("a".to_string(), 0i64),
        ("b".to_string(), 2i64),
    ];
    assert_eq!(query_string(&three), "?b=-1&a=0&b=2");
}

#[test]
fn pairs_are_copied_in_order() {
    let pairs = vec![
        ("a".to_string(), "1".to_string()),
        ("b".to_string(), "2".to_string()),
    ];
    assert_eq!(clone_pairs(&pairs), pairs);
    assert_eq!(clone_pairs(&Vec::new()), Vec::new());
}

#[test]
fn request_clone_is_equal() {
    let request = HttpRequest {
        method: HttpMethod::Post,
        url: "https://example.org/x".to_string(),
        headers: vec![("A".to_string(), "b".to_string())],
        form: vec![("k".to_string(), "v".to_string())],
    };
    assert_eq!(request.clone(), request);
}

#[test]
fn ordinary_texts_are_encodable() {
    assert!(is_encodable(""));
    assert!(is_encodable("hunter2"));
    let long = "x".repeat(100_000);
    assert!(is_encodable(&long));
}
