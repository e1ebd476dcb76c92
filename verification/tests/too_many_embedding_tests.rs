use aisdk::errors::too_many_embedding_values_for_call_error::TooManyEmbeddingValuesForCallError;
use aisdk::json_value::JSONValue;

#[test]
fn too_many_embedding_values_for_call_error_test_constructor() {
    let provider = "OpenAI";
    let model_id = "OpenAI:5.1";
    let max_embedding_per_call = 24;
    let values = vec![
        JSONValue::Number(1),
        JSONValue::Number(2),
        JSONValue::Number(3),
    ];

    let aisdk_error_msg = "Too many values for a single embedding call. The OpenAI model OpenAI:5.1 can only embed up to 24 values per call, but 3 values were provided.";

    let too_many_embedding_values_for_call_error = TooManyEmbeddingValuesForCallError::new(
        provider.to_string(),
        model_id.to_string(),
        max_embedding_per_call,
        values,
    );

    assert_eq!(too_many_embedding_values_for_call_error.provider, provider);
    assert_eq!(too_many_embedding_values_for_call_error.model_id, model_id);
    assert_eq!(
        too_many_embedding_values_for_call_error.max_embedding_per_call,
        max_embedding_per_call
    );

    assert_eq!(
        too_many_embedding_values_for_call_error.base.message,
        aisdk_error_msg
    );

    assert_eq!(
        too_many_embedding_values_for_call_error.base.name,
        "AI_TooManyEmbeddingValuesForCallError"
    )
}

#[test]
fn too_many_embedding_values_for_call_error_test_is_instance() {
    let provider = "OpenAI";
    let model_id = "OpenAI:5.1";
    let max_embedding_per_call = 24;
    let values = vec![
        JSONValue::Number(1),
        JSONValue::Number(2),
        JSONValue::Number(3),
    ];

    let too_many_embedding_values_for_call_error = TooManyEmbeddingValuesForCallError::new(
        provider.to_string(),
        model_id.to_string(),
        max_embedding_per_call,
        values,
    );

    assert!(TooManyEmbeddingValuesForCallError::is_instance(
        &too_many_embedding_values_for_call_error
    ))
}
