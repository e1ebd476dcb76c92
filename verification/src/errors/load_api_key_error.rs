//! The error of an API key that could not be loaded.

use vstd::prelude::*;
use crate::errors::sdk_errors::{AISDKError, ErrorCause, ErrorInstance, ErrorKind, extended_marker};

verus! {

/// An error raised when an API key cannot be loaded.
#[derive(Debug)]
pub struct LoadAPIKeyError {
    pub message: String,
    pub base: AISDKError,
}

impl LoadAPIKeyError {
    /// Creates a load-API-key error.
    pub fn new(message: &String) -> (r: LoadAPIKeyError)
        ensures
            r.message@ == message@,
            r.base.name@ == "AI_LoadAPIKeyError"@,
            r.base.message@ == "Failed to load API key: "@ + message@,
            r.base.cause is None,
    {
        let mut base_message = "Failed to load API key: ".to_owned();
        base_message.append(message.as_str());
        LoadAPIKeyError {
            message: message.clone(),
            base: AISDKError::new("AI_LoadAPIKeyError".to_owned(), base_message, None),
        }
    }

    /// Whether the given error is a load-API-key error.
    pub fn is_instance(error: &LoadAPIKeyError) -> (r: bool)
        ensures
            r,
    {
        AISDKError::has_marker(
            &error.base,
            extended_marker("aisdk.error", "AI_LoadAPIKeyError").as_str(),
        )
    }

    /// The error rendered as text: its name, then its own message.
    pub fn display_string(&self) -> (r: String)
        ensures
            r@ == "AI_LoadAPIKeyError: "@ + self.message@,
    {
        let mut s = "AI_LoadAPIKeyError: ".to_owned();
        s.append(self.message.as_str());
        s
    }
}

impl ErrorInstance for LoadAPIKeyError {
    open spec fn kind_spec(&self) -> ErrorKind {
        ErrorKind::LoadApiKey
    }

    open spec fn cause_kind_spec(&self) -> Option<ErrorKind> {
        None
    }

    fn error_kind(&self) -> (k: ErrorKind) {
        ErrorKind::LoadApiKey
    }

    fn cause_error_kind(&self) -> (k: Option<ErrorKind>) {
        None
    }
}

impl From<LoadAPIKeyError> for AISDKError {
    /// Wraps a load-API-key error as a base error, keeping its rendering as
    /// the cause.
    fn from(error: LoadAPIKeyError) -> (r: AISDKError) {
        let mut message = "Failed to load API key: ".to_owned();
        message.append(error.message.as_str());
        let rendered = error.display_string();
        AISDKError {
            name: "AI_LoadAPIKeyError".to_owned(),
            message,
            cause: Some(ErrorCause::Message(rendered)),
        }
    }
}

impl vstd::std_specs::convert::FromSpecImpl<LoadAPIKeyError> for AISDKError {
    open spec fn obeys_from_spec() -> bool {
        false
    }

    open spec fn from_spec(v: LoadAPIKeyError) -> AISDKError {
        arbitrary()
    }
}

} // verus!
