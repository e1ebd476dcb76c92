pub mod collect_tool_approvals;
pub mod envelope_json;
pub mod errors;
pub mod execute_tool;
pub mod execute_tool_call;
pub mod gateway_models;
pub mod generate_text;
pub mod json_text;
pub mod json_value;
pub mod language_model;
pub mod language_model_source;
pub mod messages;
pub mod openai;
pub mod shared_provider_warning;
pub mod strings;
pub mod tool;
pub mod tool_call;
pub mod tool_error;
pub mod tool_output;
pub mod tool_result;
