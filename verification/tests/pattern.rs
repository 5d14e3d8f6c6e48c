use house_query::pattern::{extract_number, extract_number2, first_amount_of, is_valid_date};

#[test]
fn extract_number_reads_first_number() {
    assert_eq!(extract_number("35000元/㎡"), 35000);
    assert_eq!(extract_number("单价 123.9 元"), 123);
    assert_eq!(extract_number("abc"), 0);
    assert_eq!(extract_number(""), 0);
    assert_eq!(extract_number("1.2.3"), 0);
    assert_eq!(extract_number(".5"), 0);
    assert_eq!(extract_number("7."), 7);
}

#[test]
fn extract_number_saturates_like_a_float_cast() {
    assert_eq!(extract_number("99999999999999999999"), i64::MAX);
}

#[test]
fn extract_number_non_ascii_digits_are_not_numbers() {
    assert_eq!(extract_number("５5"), 0);
}

#[test]
fn extract_number2_reads_first_amount() {
    assert_eq!(extract_number2("首付 120.5万"), 120);
    assert_eq!(extract_number2("约 88 万"), 88);
    assert_eq!(first_amount_of("无"), None);
    assert_eq!(first_amount_of("12x3"), Some(12));
}

#[test]
fn valid_dates() {
    assert!(is_valid_date("2024-05-01"));
    assert!(!is_valid_date("2024-5-01"));
    assert!(!is_valid_date(" 2024-05-01"));
    assert!(!is_valid_date("2024-05-01 "));
    assert!(!is_valid_date("普通住宅"));
}
