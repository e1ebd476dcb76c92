//! The error of a model id that names no known model.

use vstd::prelude::*;
use crate::errors::sdk_errors::{AISDKError, ErrorInstance, ErrorKind, extended_marker};

verus! {

/// Which category of model an id was looked up in.
#[derive(Clone, Copy, Debug, PartialEq, Eq, Structural)]
pub enum ModelType {
    LanguageModel,
    EmbeddingModel,
    ImageModel,
    TranscriptionModel,
    SpeechModel,
    RerankingModel,
}

impl ModelType {
    /// The category's name in camel case.
    pub open spec fn name_spec(&self) -> Seq<char> {
        match self {
            ModelType::LanguageModel => "languageModel"@,
            ModelType::EmbeddingModel => "embeddingModel"@,
            ModelType::ImageModel => "imageModel"@,
            ModelType::TranscriptionModel => "transcriptionModel"@,
            ModelType::SpeechModel => "speechModel"@,
            ModelType::RerankingModel => "rerankingModel"@,
        }
    }

    /// The category rendered as text.
    pub fn display_string(&self) -> (r: String)
        ensures
            r@ == self.name_spec(),
    {
        match self {
            ModelType::LanguageModel => "languageModel".to_owned(),
            ModelType::EmbeddingModel => "embeddingModel".to_owned(),
            ModelType::ImageModel => "imageModel".to_owned(),
            ModelType::TranscriptionModel => "transcriptionModel".to_owned(),
            ModelType::SpeechModel => "speechModel".to_owned(),
            ModelType::RerankingModel => "rerankingModel".to_owned(),
        }
    }
}

/// An error raised when no model of the wanted category has the given id.
#[derive(Debug)]
pub struct NoSuchModelError {
    pub model_id: String,
    pub model_type: ModelType,
    pub base: AISDKError,
}

impl NoSuchModelError {
    /// Creates a no-such-model error. Without an explicit name the family
    /// name is used; without an explicit message, one naming the category
    /// and the id.
    pub fn new(
        error: Option<String>,
        model_id: String,
        model_type: ModelType,
        message: Option<String>,
    ) -> (r: NoSuchModelError)
        ensures
            r.model_id@ == model_id@,
            r.model_type == model_type,
            r.base.name@ == match error {
                Some(e) => e@,
                None => "AI_NoSuchModelError"@,
            },
            r.base.message@ == match message {
                Some(m) => m@,
                None => "No such $"@ + model_type.name_spec() + ": $"@ + model_id@,
            },
            r.base.cause is None,
    {
        let name = match error {
            Some(e) => e,
            None => "AI_NoSuchModelError".to_owned(),
        };
        let message = match message {
            Some(m) => m,
            None => {
                let mut m = "No such $".to_owned();
                let category = model_type.display_string();
                m.append(category.as_str());
                m.append(": $");
                m.append(model_id.as_str());
                m
            },
        };
        NoSuchModelError {
            model_id,
            model_type,
            base: AISDKError::new(name, message, None),
        }
    }

    /// Whether the given error is a no-such-model error.
    pub fn is_instance(error: &NoSuchModelError) -> (r: bool)
        ensures
            r,
    {
        AISDKError::has_marker(
            &error.base,
            extended_marker("aisdk.error", "AI_NoSuchModelError").as_str(),
        )
    }
}

impl ErrorInstance for NoSuchModelError {
    open spec fn kind_spec(&self) -> ErrorKind {
        ErrorKind::NoSuchModel
    }

    open spec fn cause_kind_spec(&self) -> Option<ErrorKind> {
        None
    }

    fn error_kind(&self) -> (k: ErrorKind) {
        ErrorKind::NoSuchModel
    }

    fn cause_error_kind(&self) -> (k: Option<ErrorKind>) {
        None
    }
}

} // verus!
