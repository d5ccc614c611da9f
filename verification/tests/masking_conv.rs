use ucs_fe::conv::{new_null_i32, opt_i32_or, opt_string, opt_string_or, string_to_i32_default, string_to_i64_default};
use ucs_fe::masking::{is_sensitive, mask_request, mask_value};
use ucs_fe::types::{SubmitVerifyRequest, VerifyDataItem, VerifyItem};

#[test]
fn mask_value_non_sensitive_passthrough() {
    assert_eq!(mask_value("NICKNAME", "hello"), "hello");
    assert_eq!(mask_value("UNKNOWN_FIELD", "abc"), "abc");
}

#[test]
fn mask_value_sensitive_short_passthrough() {
    assert_eq!(mask_value("EMAIL", "a@b.c"), "a@b.c");
}

#[test]
fn mask_value_sensitive_long_masked() {
    let result = mask_value("EMAIL", "user@example.com");
    assert_eq!(&result[..5], "user@");
    assert!(result[5..].chars().all(|c| c == '*'));
    assert_eq!(result.len(), "user@example.com".len());
}

#[test]
fn mask_value_exact_text() {
    assert_eq!(mask_value("BANK_ACCOUNT", "1234567890"), "12345*****");
    assert_eq!(mask_value("MOBILE_NUMBER", "123456"), "12345*");
    assert!(is_sensitive("GOOGLE"));
    assert!(!is_sensitive("email"));
}

#[test]
fn mask_value_counts_characters_not_bytes() {
    assert_eq!(mask_value("EMAIL", "张三李四王五"), "张三李四王*");
}

#[test]
fn mask_request_masks_only_sensitive_answers() {
    let mut req = SubmitVerifyRequest {
        customer_name: "john".to_string(),
        data: vec![
            VerifyDataItem { item: VerifyItem { field_id: "EMAIL".to_string(), field_value: "user@example.com".to_string() }, bind: true },
            VerifyDataItem { item: VerifyItem { field_id: "NICKNAME".to_string(), field_value: "johnny-boy".to_string() }, bind: false },
        ],
    };
    mask_request(&mut req);
    assert_eq!(req.customer_name, "john");
    assert_eq!(req.data[0].item.field_value, "user@***********");
    assert!(req.data[0].bind);
    assert_eq!(req.data[1].item.field_value, "johnny-boy");
    assert!(!req.data[1].bind);
}

#[test]
fn test_string_to_i64_default() {
    assert_eq!(string_to_i64_default("42", 0), 42);
    assert_eq!(string_to_i64_default("", 0), 0);
    assert_eq!(string_to_i64_default("x", -1), -1);
    assert_eq!(string_to_i64_default(" 7 ", 0), 7);
    assert_eq!(string_to_i64_default("-5", 0), -5);
}

#[test]
fn string_to_i64_default_edges() {
    assert_eq!(string_to_i64_default("9223372036854775807", 0), i64::MAX);
    assert_eq!(string_to_i64_default("9223372036854775808", 3), 3);
    assert_eq!(string_to_i64_default("+8", 0), 8);
    assert_eq!(string_to_i64_default("1 2", 9), 9);
}

#[test]
fn string_to_i32_default_values() {
    assert_eq!(string_to_i32_default("123", 0), 123);
    assert_eq!(string_to_i32_default("abc", 7), 7);
    assert_eq!(string_to_i32_default("3000000000", 7), 7);
    assert_eq!(string_to_i32_default(" -2147483648 ", 7), -2147483648);
    assert_eq!(string_to_i32_default("2147483648", 7), 7);
}

#[test]
fn optional_helpers() {
    assert_eq!(opt_string(None), "");
    assert_eq!(opt_string(Some("a".to_string())), "a");
    assert_eq!(opt_string_or(None, "dflt"), "dflt");
    assert_eq!(opt_i32_or(None, 4), 4);
    assert_eq!(opt_i32_or(Some(2), 4), 2);
    assert_eq!(new_null_i32(5), Some(5));
}
