use aisdk::errors::no_such_model_error::{ModelType, NoSuchModelError};

#[test]
fn no_such_model_error_test_constructor() {
    let error = "Custom Error";
    let model_id = "OpenAI:5.1";
    let model_type = ModelType::LanguageModel;
    let message = None;
    let no_such_model_error = NoSuchModelError::new(
        Some(error.to_string()),
        model_id.to_string(),
        model_type,
        message,
    );

    assert_eq!(no_such_model_error.model_id, model_id);
    assert_eq!(
        no_such_model_error.model_type.display_string(),
        model_type.display_string()
    );
    assert_eq!(no_such_model_error.base.name, error);
    assert_eq!(
        no_such_model_error.base.message,
        format!("No such ${}: ${}", model_type.display_string(), model_id)
    )
}

#[test]
fn no_such_model_error_test_is_instance() {
    let error = "Custom Error";
    let model_id = "OpenAI:5.1";
    let model_type = ModelType::LanguageModel;
    let message = None;
    let no_such_model_error = NoSuchModelError::new(
        Some(error.to_string()),
        model_id.to_string(),
        model_type,
        message,
    );

    assert!(NoSuchModelError::is_instance(&no_such_model_error))
}
