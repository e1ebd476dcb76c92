//! The error of a feature the model or provider does not support.

use vstd::prelude::*;
use crate::errors::sdk_errors::{AISDKError, ErrorCause, ErrorInstance, ErrorKind, extended_marker};

verus! {

/// An error raised when asked-for functionality is unsupported.
#[derive(Debug)]
pub struct UnsupportedFunctionalityError {
    pub message: String,
    pub base: AISDKError,
}

impl UnsupportedFunctionalityError {
    /// Creates an unsupported-functionality error naming the feature.
    pub fn new(message: &String) -> (r: UnsupportedFunctionalityError)
        ensures
            r.message@ == message@,
            r.base.name@ == "AI_UnsupportedFunctionalityError"@,
            r.base.message@ == message@ + " functionality not supported"@,
            r.base.cause is None,
    {
        let mut base_message = message.clone();
        base_message.append(" functionality not supported");
        UnsupportedFunctionalityError {
            message: message.clone(),
            base: AISDKError::new(
                "AI_UnsupportedFunctionalityError".to_owned(),
                base_message,
                None,
            ),
        }
    }

    /// Whether the given error is an unsupported-functionality error.
    pub fn is_instance(error: &UnsupportedFunctionalityError) -> (r: bool)
        ensures
            r,
    {
        AISDKError::has_marker(
            &error.base,
            extended_marker("aisdk.error", "AI_UnsupportedFunctionalityError").as_str(),
        )
    }

    /// The error rendered as text: its name, then its own message.
    pub fn display_string(&self) -> (r: String)
        ensures
            r@ == "AI_UnsupportedFunctionalityError: "@ + self.message@,
    {
        let mut s = "AI_UnsupportedFunctionalityError: ".to_owned();
        s.append(self.message.as_str());
        s
    }
}

impl ErrorInstance for UnsupportedFunctionalityError {
    open spec fn kind_spec(&self) -> ErrorKind {
        ErrorKind::UnsupportedFunctionality
    }

    open spec fn cause_kind_spec(&self) -> Option<ErrorKind> {
        None
    }

    fn error_kind(&self) -> (k: ErrorKind) {
        ErrorKind::UnsupportedFunctionality
    }

    fn cause_error_kind(&self) -> (k: Option<ErrorKind>) {
        None
    }
}

impl From<UnsupportedFunctionalityError> for AISDKError {
    /// Wraps an unsupported-functionality error as a base error, keeping
    /// its rendering as the cause.
    fn from(error: UnsupportedFunctionalityError) -> (r: AISDKError) {
        let mut message = error.message.clone();
        message.append(" functionality not supported");
        let rendered = error.display_string();
        AISDKError {
            name: "AI_UnsupportedFunctionalityError".to_owned(),
            message,
            cause: Some(ErrorCause::Message(rendered)),
        }
    }
}

impl vstd::std_specs::convert::FromSpecImpl<UnsupportedFunctionalityError> for AISDKError {
    open spec fn obeys_from_spec() -> bool {
        false
    }

    open spec fn from_spec(v: UnsupportedFunctionalityError) -> AISDKError {
        arbitrary()
    }
}

} // verus!
