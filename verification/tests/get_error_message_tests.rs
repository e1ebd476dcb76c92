use aisdk::errors::get_error_message::{get_error_message, ErrorPayload};
use aisdk::json_value::JSONValue;

#[test]
fn test_none() {
    let error = get_error_message(None);
    assert_eq!(error, "unknown error")
}

#[test]
fn test_string() {
    let custom_error = "Custom Error";
    let payload = ErrorPayload::Text(String::from(custom_error));
    let error = get_error_message(Some(&payload));

    assert_eq!(error, custom_error)
}

#[test]
fn test_serd_json() {
    let custome_error = JSONValue::JSONObject(vec![(
        "an".to_string(),
        JSONValue::String("object".to_string()),
    )]);
    let payload = ErrorPayload::Json(custome_error);
    let error = get_error_message(Some(&payload));

    assert_eq!(error, "{\"an\":\"object\"}")
}

#[test]
fn test_error() {
    let custom_error_str = "Custom Error";
    let payload = ErrorPayload::Io(custom_error_str.to_string());
    let error = get_error_message(Some(&payload));

    assert_eq!(error, custom_error_str)
}
