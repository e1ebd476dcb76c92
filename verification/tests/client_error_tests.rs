use aisdk::errors::client_error::ClientError;
use aisdk::gateway_models::{AnthropicModel, GatewayModelId};
use aisdk::language_model::{FinishReason, ToolChoice};

#[test]
fn test_client_error_messages() {
    assert_eq!(ClientError::EmptyAPIKey.display_string(), "API key is missing");
    assert_eq!(
        ClientError::InvalidAPIKey.display_string(),
        "API key format is invalid"
    );
}

#[test]
fn test_catalog_types_are_usable() {
    let model = GatewayModelId::Anthropic(AnthropicModel::Claude35Sonnet);
    assert_eq!(model, GatewayModelId::Anthropic(AnthropicModel::Claude35Sonnet));
    assert_ne!(model, GatewayModelId::Custom("other".to_string()));
    assert_eq!(FinishReason::Stop, FinishReason::Stop);
    let choice = ToolChoice::Tool {
        tool_name: "tool1".to_string(),
    };
    assert_eq!(
        choice,
        ToolChoice::Tool {
            tool_name: "tool1".to_string()
        }
    );
}
