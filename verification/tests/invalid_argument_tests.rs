use aisdk::errors::invalid_argument_error::InvalidArgumentError;
use aisdk::errors::sdk_errors::{AISDKError, ErrorCause};

#[test]
fn test_invalid_argument_error_creation() {
    let arg_error = InvalidArgumentError::new(
        "param1".to_string(),
        "must be a positive integer".to_string(),
        None,
    );

    assert_eq!(arg_error.argument, "param1");
    assert_eq!(arg_error.message, "must be a positive integer");
    assert!(arg_error.cause.is_none());
}

#[test]
fn test_invalid_argument_error_display() {
    let arg_error = InvalidArgumentError::new(
        "param1".to_string(),
        "must be a positive integer".to_string(),
        None,
    );
    assert_eq!(
        arg_error.display_string(),
        "param1: must be a positive integer"
    );
}

#[test]
fn test_invalid_argument_error_source() {
    let cause = ErrorCause::Message("io error".to_string());
    let arg_error = InvalidArgumentError::new(
        "param1".to_string(),
        "must be a positive integer".to_string(),
        Some(cause),
    );
    let source = arg_error.source();
    assert!(source.is_some());
    assert_eq!(source.unwrap().display_string(), "io error");
}

#[test]
fn test_invalid_argument_error_to_aisdk_error() {
    let arg_error = InvalidArgumentError::new(
        "param1".to_string(),
        "must be a positive integer".to_string(),
        None,
    );
    let aisdk_error: AISDKError = arg_error.into();
    assert_eq!(aisdk_error.name, "AI_InvalidArgumentError");
    assert_eq!(
        aisdk_error.message,
        "Invalid argument 'param1': must be a positive integer"
    );
}

#[test]
fn invalid_argument_error_test_is_instance() {
    let arg_error = InvalidArgumentError::new(
        "param1".to_string(),
        "must be a positive integer".to_string(),
        None,
    );
    assert!(InvalidArgumentError::is_instance(&arg_error));

    let aisdk_error: AISDKError = arg_error.into();
    assert!(InvalidArgumentError::is_instance(&aisdk_error));
}
