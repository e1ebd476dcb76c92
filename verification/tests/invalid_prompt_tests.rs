use aisdk::errors::invalid_prompt_error::InvalidPromptError;
use aisdk::errors::sdk_errors::{AISDKError, ErrorCause};
use aisdk::json_value::JSONValue;

#[test]
fn invalid_prompt_error_test_constructor() {
    let prompt: Option<JSONValue> = None;
    let message = String::from("Invalid Prompt Error");
    let invalid_prompt_error = InvalidPromptError::new(prompt, message.clone(), None);

    assert!(invalid_prompt_error.prompt.is_none());
    assert_eq!(invalid_prompt_error.message, message);
}

#[test]
fn test_invalid_prompt_error_creation_with_aisdkerror_couples() {
    let prompt: Option<JSONValue> = None;
    let message = String::from("Invalid Prompt Error");
    let invalid_prompt_error = InvalidPromptError::new(prompt, message.clone(), None);
    let aisdk_error: AISDKError = invalid_prompt_error.into();

    assert_eq!(aisdk_error.name, "AI_InvalidPromptError");
    assert_eq!(aisdk_error.message, format!("Invalid prompt: {}", message));
}

#[test]
fn test_invalid_prompt_error_display() {
    let prompt: Option<JSONValue> = None;
    let message = String::from("Invalid Prompt Error");
    let invalid_prompt_error = InvalidPromptError::new(prompt, message.clone(), None);

    assert_eq!(
        invalid_prompt_error.display_string(),
        format!("Invalid prompt: {}", message)
    );
}

#[test]
fn test_invalid_prompt_error_source() {
    let prompt: Option<JSONValue> = None;
    let message = String::from("Invalid Prompt Error");
    let cause = ErrorCause::Message("io error".to_string());
    let invalid_prompt_error = InvalidPromptError::new(prompt, message, Some(cause));

    assert!(invalid_prompt_error.source().is_some());
}

#[test]
fn test_invalid_prompt_error_source_none() {
    let prompt: Option<JSONValue> = None;
    let message = String::from("Invalid Prompt Error");
    let invalid_prompt_error = InvalidPromptError::new(prompt, message, None);

    assert!(invalid_prompt_error.source().is_none());
}

#[test]
fn test_invalid_prompt_error_with_cause() {
    let prompt: Option<JSONValue> = None;
    let message = String::from("Invalid Prompt Error");
    let cause = ErrorCause::Message("io error".to_string());
    let invalid_prompt_error = InvalidPromptError::new(prompt, message, Some(cause));

    assert!(invalid_prompt_error.cause.is_some());
}

#[test]
fn test_invalid_prompt_error_without_cause() {
    let prompt: Option<JSONValue> = None;
    let message = String::from("Invalid Prompt Error");
    let invalid_prompt_error = InvalidPromptError::new(prompt, message, None);

    assert!(invalid_prompt_error.cause.is_none());
}

#[test]
fn test_invalid_prompt_error_some_prompt_value() {
    let sample_prompt = JSONValue::String("Sample Prompt".to_string());
    let prompt: Option<JSONValue> = Some(sample_prompt.clone());
    let message = String::from("Invalid Prompt Error");
    let invalid_prompt_error = InvalidPromptError::new(prompt, message, None);

    assert!(invalid_prompt_error.prompt.is_some());
    assert_eq!(invalid_prompt_error.prompt.unwrap(), sample_prompt);
}

#[test]
fn invalid_prompt_error_test_is_instance() {
    let prompt: Option<JSONValue> = None;
    let message = String::from("Invalid Prompt Error");
    let invalid_prompt_error = InvalidPromptError::new(prompt, message, None);

    assert!(InvalidPromptError::is_instance(&invalid_prompt_error));
}
