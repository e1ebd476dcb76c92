use aisdk::json_value::{is_json_array, is_json_object, is_json_value, JSONValue};

#[test]
fn test_is_json_value_accepts_every_variant() {
    assert!(is_json_value(&JSONValue::Null));
    assert!(is_json_value(&JSONValue::Bool(true)));
    assert!(is_json_value(&JSONValue::Number(3)));
    assert!(is_json_value(&JSONValue::String("x".to_string())));
    assert!(is_json_value(&JSONValue::JSONArray(vec![JSONValue::Null])));
    assert!(is_json_value(&JSONValue::JSONObject(vec![])));
    assert!(is_json_value(&JSONValue::Undefined));
}

#[test]
fn test_is_json_array_and_object() {
    assert!(is_json_array(&JSONValue::JSONArray(vec![])));
    assert!(!is_json_array(&JSONValue::Null));
    assert!(is_json_object(&JSONValue::JSONObject(vec![])));
    assert!(!is_json_object(&JSONValue::JSONArray(vec![])));
}

#[test]
fn test_clone_preserves_nested_values() {
    let value = JSONValue::JSONObject(vec![
        (
            "list".to_string(),
            JSONValue::JSONArray(vec![JSONValue::Number(1), JSONValue::String("two".to_string())]),
        ),
        ("flag".to_string(), JSONValue::Bool(false)),
    ]);
    assert_eq!(value.clone(), value);
}
