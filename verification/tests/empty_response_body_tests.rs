use aisdk::errors::empty_response_body_error::EmptyResponseBodyError;

#[test]
fn empty_response_body_error_constructor() {
    let message = "New Error";
    let empty_response_body_error = EmptyResponseBodyError::new(Some(message.to_string()));

    assert_eq!(
        empty_response_body_error.display_string(),
        format!("AI_EmptyResponseBodyError: {message}")
    )
}

#[test]
fn empty_response_body_error_test_is_instance() {
    let message = "New Error";
    let empty_response_body_error = EmptyResponseBodyError::new(Some(message.to_string()));

    assert_eq!(
        EmptyResponseBodyError::is_instance(&empty_response_body_error),
        true
    );
}

#[test]
fn empty_response_body_error_default_message() {
    let empty_response_body_error = EmptyResponseBodyError::new(None);

    assert_eq!(
        empty_response_body_error.display_string(),
        "AI_EmptyResponseBodyError: Empty response body"
    );
}
