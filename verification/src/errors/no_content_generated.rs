//! The error of a model call that generated no content.

use vstd::prelude::*;
use crate::errors::sdk_errors::{AISDKError, ErrorCause, ErrorInstance, ErrorKind, extended_marker};

verus! {

/// An error raised when the model generated no content.
#[derive(Debug)]
pub struct NoContentGeneratedError {
    pub message: String,
    pub base: AISDKError,
}

impl NoContentGeneratedError {
    /// Creates a no-content-generated error.
    pub fn new(message: &String) -> (r: NoContentGeneratedError)
        ensures
            r.message@ == message@,
            r.base.name@ == "AI_NoContentGeneratedError"@,
            r.base.message@ == "No Content Generated: "@ + message@,
            r.base.cause is None,
    {
        let mut base_message = "No Content Generated: ".to_owned();
        base_message.append(message.as_str());
        NoContentGeneratedError {
            message: message.clone(),
            base: AISDKError::new("AI_NoContentGeneratedError".to_owned(), base_message, None),
        }
    }

    /// Whether the given error is a no-content-generated error.
    pub fn is_instance(error: &NoContentGeneratedError) -> (r: bool)
        ensures
            r,
    {
        AISDKError::has_marker(
            &error.base,
            extended_marker("aisdk.error", "AI_NoContentGeneratedError").as_str(),
        )
    }

    /// The error rendered as text: its name, then its own message.
    pub fn display_string(&self) -> (r: String)
        ensures
            r@ == "AI_NoContentGeneratedError: "@ + self.message@,
    {
        let mut s = "AI_NoContentGeneratedError: ".to_owned();
        s.append(self.message.as_str());
        s
    }
}

impl ErrorInstance for NoContentGeneratedError {
    open spec fn kind_spec(&self) -> ErrorKind {
        ErrorKind::NoContentGenerated
    }

    open spec fn cause_kind_spec(&self) -> Option<ErrorKind> {
        None
    }

    fn error_kind(&self) -> (k: ErrorKind) {
        ErrorKind::NoContentGenerated
    }

    fn cause_error_kind(&self) -> (k: Option<ErrorKind>) {
        None
    }
}

impl From<NoContentGeneratedError> for AISDKError {
    /// Wraps a no-content-generated error as a base error, keeping its
    /// rendering as the cause.
    fn from(error: NoContentGeneratedError) -> (r: AISDKError) {
        let mut message = "No Content Generated: ".to_owned();
        message.append(error.message.as_str());
        let rendered = error.display_string();
        AISDKError {
            name: "AI_NoContentGeneratedError".to_owned(),
            message,
            cause: Some(ErrorCause::Message(rendered)),
        }
    }
}

impl vstd::std_specs::convert::FromSpecImpl<NoContentGeneratedError> for AISDKError {
    open spec fn obeys_from_spec() -> bool {
        false
    }

    open spec fn from_spec(v: NoContentGeneratedError) -> AISDKError {
        arbitrary()
    }
}

} // verus!
