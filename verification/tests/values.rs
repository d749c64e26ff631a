//! Parsing command-line value strings into field values.

use cli_settings::model::{FieldValue, TypeTag};
use cli_settings::parse::{parse_bool, parse_i64, parse_u32, parse_u64, parse_value};

#[test]
fn u32_values() {
    assert_eq!(parse_u32("0"), Some(0));
    assert_eq!(parse_u32("42"), Some(42));
    assert_eq!(parse_u32("0042"), Some(42));
    assert_eq!(parse_u32("4294967295"), Some(u32::MAX));
    assert_eq!(parse_u32("4294967296"), None);
    assert_eq!(parse_u32(""), None);
    assert_eq!(parse_u32("-1"), None);
    assert_eq!(parse_u32("1.5"), None);
    assert_eq!(parse_u32("ten"), None);
}

#[test]
fn u64_values() {
    assert_eq!(parse_u64("9223372036854775808"), Some(1 << 63));
    assert_eq!(parse_u64("18446744073709551615"), Some(u64::MAX));
    assert_eq!(parse_u64("18446744073709551616"), None);
    assert_eq!(parse_u64("999999999999999999999999999"), None);
}

#[test]
fn i64_values() {
    assert_eq!(parse_i64("0"), Some(0));
    assert_eq!(parse_i64("-0"), Some(0));
    assert_eq!(parse_i64("-42"), Some(-42));
    assert_eq!(parse_i64("9223372036854775807"), Some(i64::MAX));
    assert_eq!(parse_i64("9223372036854775808"), None);
    assert_eq!(parse_i64("-9223372036854775808"), Some(i64::MIN));
    assert_eq!(parse_i64("-9223372036854775809"), None);
    assert_eq!(parse_i64("-"), None);
    assert_eq!(parse_i64("--5"), None);
    assert_eq!(parse_i64("+5"), None);
    assert_eq!(parse_i64(""), None);
}

#[test]
fn bool_values() {
    assert_eq!(parse_bool("true"), Some(true));
    assert_eq!(parse_bool("false"), Some(false));
    assert_eq!(parse_bool("TRUE"), None);
    assert_eq!(parse_bool("1"), None);
    assert_eq!(parse_bool(""), None);
}

#[test]
fn typed_values() {
    assert_eq!(parse_value("7", TypeTag::U32), Some(FieldValue::U32(7)));
    assert_eq!(parse_value("7", TypeTag::U64), Some(FieldValue::U64(7)));
    assert_eq!(parse_value("-7", TypeTag::I64), Some(FieldValue::I64(-7)));
    assert_eq!(parse_value("-7", TypeTag::U64), None);
    assert_eq!(parse_value("true", TypeTag::Bool), Some(FieldValue::Bool(true)));
    assert_eq!(
        parse_value("anything at all", TypeTag::Text),
        Some(FieldValue::Text("anything at all".to_string()))
    );
    assert_eq!(parse_value("x", TypeTag::U32), None);
    assert_eq!(parse_value("yes", TypeTag::Bool), None);
}
