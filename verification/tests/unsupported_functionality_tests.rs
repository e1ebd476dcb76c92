use aisdk::errors::sdk_errors::AISDKError;
use aisdk::errors::unsupported_functionality_error::UnsupportedFunctionalityError;

#[test]
fn unsupported_functionality_error_test_constructor() {
    let message = String::from("This");
    let unsupported_functionality_error = UnsupportedFunctionalityError::new(&message);

    assert_eq!(unsupported_functionality_error.message, message);
    assert_eq!(
        unsupported_functionality_error.base.display_string(),
        format!("AI_UnsupportedFunctionalityError: {} functionality not supported", message)
    );
}

#[test]
fn unsupported_functionality_error_test_is_instance() {
    let message = String::from("This");
    let unsupported_functionality_error = UnsupportedFunctionalityError::new(&message);

    assert!(UnsupportedFunctionalityError::is_instance(
        &unsupported_functionality_error
    ));
}

#[test]
fn unsupported_functionality_error_test_display() {
    let message = String::from("This");
    let unsupported_functionality_error = UnsupportedFunctionalityError::new(&message);

    assert_eq!(
        unsupported_functionality_error.display_string(),
        format!("AI_UnsupportedFunctionalityError: {}", message)
    );
}

#[test]
fn test_unsupported_functionality_to_aisdk_error() {
    let message = String::from("This");
    let unsupported_functionality_error = UnsupportedFunctionalityError::new(&message);
    let aisdk_error: AISDKError = unsupported_functionality_error.into();

    assert_eq!(
        aisdk_error.display_string(),
        format!(
            "AI_UnsupportedFunctionalityError: {} functionality not supported",
            message
        )
    );
}
