use aisdk::errors::sdk_errors::ErrorCause;
use aisdk::errors::type_validation_error::TypeValidationError;

#[test]
fn type_validation_error_test_constructor() {
    let value = String::from("Invalid Value");
    let type_validation_error = TypeValidationError::new(&value, None);

    let message =
        format!("Type validation failed: Value: {value} \n Error message: unknown error");

    assert_eq!(type_validation_error.value, value);
    assert_eq!(
        type_validation_error.base.display_string(),
        format!("AI_TypeValidationError: {message}")
    )
}

#[test]
fn type_validation_error_test_is_instance() {
    let value = String::from("Invalid Value");
    let type_validation_error = TypeValidationError::new(&value, None);

    assert!(TypeValidationError::is_instance(&type_validation_error));
}

#[test]
fn test_wrap_existing_error() {
    let value = String::from("Invalid Value");
    let original_error = TypeValidationError::new(&value, None);

    let wrapped_error = TypeValidationError::wrap(
        &value,
        Some(ErrorCause::TypeValidation(Box::new(original_error))),
    );

    assert_eq!(wrapped_error.value, value);
}

#[test]
fn test_wrap_new_error() {
    let value = String::from("Invalid Value");
    let different_value = String::from("Different Invalid Value");
    let original_error = TypeValidationError::new(&different_value, None);

    let wrapped_error = TypeValidationError::wrap(
        &value,
        Some(ErrorCause::TypeValidation(Box::new(original_error))),
    );

    assert_eq!(wrapped_error.value, value);
}

#[test]
fn test_wrap_no_cause() {
    let value = String::from("Invalid Value");

    let wrapped_error = TypeValidationError::wrap(&value, None);

    assert_eq!(wrapped_error.value, value);
}

#[test]
fn test_display_trait() {
    let value = String::from("Invalid Value");
    let type_validation_error = TypeValidationError::new(&value, None);

    let message =
        format!("Type validation failed: Value: {value} \n Error message: unknown error");

    assert_eq!(
        type_validation_error.display_string(),
        format!("AI_TypeValidationError: {message}")
    );
}

#[test]
fn test_error_trait_source() {
    let value = String::from("Invalid Value");
    let type_validation_error = TypeValidationError::new(&value, None);

    assert!(type_validation_error.source().is_none());
}
