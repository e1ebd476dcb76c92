use aisdk::errors::no_content_generated::NoContentGeneratedError;
use aisdk::errors::sdk_errors::AISDKError;

#[test]
fn no_content_generated_test_constructor() {
    let message = String::from("No Content Generated");
    let load_no_content_generated_error = NoContentGeneratedError::new(&message);

    assert_eq!(load_no_content_generated_error.message, message);
    assert_eq!(
        load_no_content_generated_error.base.display_string(),
        format!("AI_NoContentGeneratedError: No Content Generated: {}", message)
    );
}

#[test]
fn no_content_generated_test_is_instance() {
    let message = String::from("No Content Generated");
    let load_no_content_generated_error = NoContentGeneratedError::new(&message);

    assert!(NoContentGeneratedError::is_instance(
        &load_no_content_generated_error
    ));
}

#[test]
fn no_content_generated_test_display() {
    let message = String::from("No Content Generated");
    let load_api_key_error = NoContentGeneratedError::new(&message);

    assert_eq!(
        load_api_key_error.display_string(),
        format!("AI_NoContentGeneratedError: {}", message)
    );
}

#[test]
fn test_load_api_key_error_to_aisdk_error() {
    let message = String::from("No Content Generated");
    let load_api_key_error = NoContentGeneratedError::new(&message);
    let aisdk_error: AISDKError = load_api_key_error.into();

    assert_eq!(
        aisdk_error.display_string(),
        format!("AI_NoContentGeneratedError: No Content Generated: {}", message)
    );
}
