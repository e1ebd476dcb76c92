//! The error of an embedding call handed more values than the model takes.

use vstd::prelude::*;
use crate::json_value::JSONValue;
use crate::strings::{dec_digits, u64_to_string};
use crate::errors::sdk_errors::{AISDKError, ErrorInstance, ErrorKind, extended_marker};

verus! {

/// The message of this error for a given provider, model, limit and count.
pub open spec fn too_many_values_message(
    provider: Seq<char>,
    model_id: Seq<char>,
    max_embeddings_per_call: nat,
    count: nat,
) -> Seq<char> {
    "Too many values for a single embedding call. The "@ + provider + " model "@ + model_id
        + " can only embed up to "@ + dec_digits(max_embeddings_per_call)
        + " values per call, but "@ + dec_digits(count) + " values were provided."@
}

/// An error raised when one embedding call carries more values than the
/// model can embed.
#[derive(Debug)]
pub struct TooManyEmbeddingValuesForCallError {
    pub provider: String,
    pub model_id: String,
    pub max_embedding_per_call: u64,
    pub values: Vec<JSONValue>,
    pub base: AISDKError,
}

impl TooManyEmbeddingValuesForCallError {
    /// Creates the error, naming the provider, the model, its limit, and
    /// how many values were handed in.
    pub fn new(
        provider: String,
        model_id: String,
        max_embedding_per_call: u64,
        values: Vec<JSONValue>,
    ) -> (r: TooManyEmbeddingValuesForCallError)
        requires
            values@.len() <= u64::MAX,
        ensures
            r.provider@ == provider@,
            r.model_id@ == model_id@,
            r.max_embedding_per_call == max_embedding_per_call,
            r.values@ == values@,
            r.base.name@ == "AI_TooManyEmbeddingValuesForCallError"@,
            r.base.message@ == too_many_values_message(
                provider@,
                model_id@,
                max_embedding_per_call as nat,
                values@.len(),
            ),
            r.base.cause is None,
    {
        let values_len: u64 = values.len() as u64;
        let mut message = "Too many values for a single embedding call. The ".to_owned();
        message.append(provider.as_str());
        message.append(" model ");
        message.append(model_id.as_str());
        message.append(" can only embed up to ");
        let limit_text = u64_to_string(max_embedding_per_call);
        message.append(limit_text.as_str());
        message.append(" values per call, but ");
        let count_text = u64_to_string(values_len);
        message.append(count_text.as_str());
        message.append(" values were provided.");
        TooManyEmbeddingValuesForCallError {
            provider,
            model_id,
            max_embedding_per_call,
            values,
            base: AISDKError::new(
                "AI_TooManyEmbeddingValuesForCallError".to_owned(),
                message,
                None,
            ),
        }
    }

    /// Whether the given error is a too-many-embedding-values error.
    pub fn is_instance(error: &TooManyEmbeddingValuesForCallError) -> (r: bool)
        ensures
            r,
    {
        AISDKError::has_marker(
            &error.base,
            extended_marker("aisdk.error", "AI_TooManyEmbeddingValuesForCallError").as_str(),
        )
    }
}

impl ErrorInstance for TooManyEmbeddingValuesForCallError {
    open spec fn kind_spec(&self) -> ErrorKind {
        ErrorKind::TooManyEmbeddingValuesForCall
    }

    open spec fn cause_kind_spec(&self) -> Option<ErrorKind> {
        None
    }

    fn error_kind(&self) -> (k: ErrorKind) {
        ErrorKind::TooManyEmbeddingValuesForCall
    }

    fn cause_error_kind(&self) -> (k: Option<ErrorKind>) {
        None
    }
}

} // verus!
