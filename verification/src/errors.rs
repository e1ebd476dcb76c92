pub mod api_call_error;
pub mod client_error;
pub mod empty_response_body_error;
pub mod generate_text_error;
pub mod get_error_message;
pub mod invalid_argument_error;
pub mod invalid_prompt_error;
pub mod invalid_response_data_error;
pub mod json_parse_error;
pub mod load_api_key_error;
pub mod load_setting_error;
pub mod no_content_generated;
pub mod no_such_model_error;
pub mod sdk_errors;
pub mod too_many_embedding_values_for_call_error;
pub mod type_validation_error;
pub mod unsupported_functionality_error;
