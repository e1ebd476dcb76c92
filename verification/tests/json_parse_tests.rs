use aisdk::errors::json_parse_error::JSONParseError;

#[test]
fn json_parse_error_test_constructor() {
    let text = String::from("New Error");
    let json_parse_error = JSONParseError::new(&text, None);

    let message =
        format!("JSON parsing failed: Text: {text} \n Error message: unknown error");

    assert_eq!(json_parse_error.text, text);
    assert_eq!(
        json_parse_error.base.display_string(),
        format!("AI_JSONParseError: {message}")
    )
}

#[test]
fn json_parse_error_test_is_instance() {
    let text = String::from("New Error");
    let json_parse_error = JSONParseError::new(&text, None);

    assert!(JSONParseError::is_instance(&json_parse_error))
}
