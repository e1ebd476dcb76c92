use aisdk::json_text::to_json_string;
use aisdk::json_value::JSONValue;
use aisdk::strings::{i64_to_string, u64_to_string};

#[test]
fn test_u64_to_string_values() {
    assert_eq!(u64_to_string(0), "0");
    assert_eq!(u64_to_string(7), "7");
    assert_eq!(u64_to_string(10), "10");
    assert_eq!(u64_to_string(12345), "12345");
    assert_eq!(u64_to_string(u64::MAX), "18446744073709551615");
}

#[test]
fn test_i64_to_string_values() {
    assert_eq!(i64_to_string(0), "0");
    assert_eq!(i64_to_string(-1), "-1");
    assert_eq!(i64_to_string(42), "42");
    assert_eq!(i64_to_string(i64::MIN), "-9223372036854775808");
    assert_eq!(i64_to_string(i64::MAX), "9223372036854775807");
}

#[test]
fn test_json_scalars() {
    assert_eq!(to_json_string(&JSONValue::Null), "null");
    assert_eq!(to_json_string(&JSONValue::Undefined), "null");
    assert_eq!(to_json_string(&JSONValue::Bool(true)), "true");
    assert_eq!(to_json_string(&JSONValue::Bool(false)), "false");
    assert_eq!(to_json_string(&JSONValue::Number(-17)), "-17");
    assert_eq!(
        to_json_string(&JSONValue::String("plain".to_string())),
        "\"plain\""
    );
}

#[test]
fn test_json_string_escapes() {
    assert_eq!(
        to_json_string(&JSONValue::String("a\"b\\c\nd\te\r".to_string())),
        "\"a\\\"b\\\\c\\nd\\te\\r\""
    );
    assert_eq!(
        to_json_string(&JSONValue::String("\u{8}\u{c}\u{1}".to_string())),
        "\"\\b\\f\\u0001\""
    );
}

#[test]
fn test_json_nested_containers() {
    let value = JSONValue::JSONObject(vec![
        (
            "items".to_string(),
            JSONValue::JSONArray(vec![
                JSONValue::Number(1),
                JSONValue::Number(2),
                JSONValue::JSONArray(vec![]),
            ]),
        ),
        ("empty".to_string(), JSONValue::JSONObject(vec![])),
    ]);
    assert_eq!(
        to_json_string(&value),
        "{\"items\":[1,2,[]],\"empty\":{}}"
    );
}
