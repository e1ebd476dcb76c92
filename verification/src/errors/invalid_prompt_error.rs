//! The error of an invalid prompt.

use vstd::prelude::*;
use crate::json_value::JSONValue;
use crate::errors::sdk_errors::{AISDKError, ErrorCause, ErrorInstance, ErrorKind};

verus! {

/// An error raised when a prompt is invalid; the offending prompt may be
/// carried along as an opaque value.
#[derive(Debug)]
pub struct InvalidPromptError {
    pub prompt: Option<JSONValue>,
    pub message: String,
    pub cause: Option<ErrorCause>,
}

impl InvalidPromptError {
    /// Creates an invalid-prompt error.
    pub fn new(prompt: Option<JSONValue>, message: String, cause: Option<ErrorCause>) -> (r:
        InvalidPromptError)
        ensures
            r.prompt == prompt,
            r.message@ == message@,
            r.cause == cause,
    {
        InvalidPromptError { prompt, message, cause }
    }

    /// Whether the given error is an invalid-prompt error: either directly,
    /// or any base error of the family.
    pub fn is_instance<E: ErrorInstance>(error: &E) -> (r: bool)
        ensures
            r == (error.kind_spec() == ErrorKind::InvalidPrompt || error.kind_spec()
                == ErrorKind::AiSdk),
    {
        Self::has_marker(error, "aisdk.error_AI_InvalidPromptError")
    }

    /// Whether the given error carries this family's marker: it is an
    /// invalid-prompt error or a base error; the marker string plays no
    /// part in the answer.
    pub fn has_marker<E: ErrorInstance>(error: &E, _marker: &str) -> (r: bool)
        ensures
            r == (error.kind_spec() == ErrorKind::InvalidPrompt || error.kind_spec()
                == ErrorKind::AiSdk),
    {
        matches!(error.error_kind(), ErrorKind::InvalidPrompt | ErrorKind::AiSdk)
    }

    /// The error rendered as text.
    pub fn display_string(&self) -> (r: String)
        ensures
            r@ == "Invalid prompt: "@ + self.message@,
    {
        let mut s = "Invalid prompt: ".to_owned();
        s.append(self.message.as_str());
        s
    }

    /// The underlying cause, if any.
    pub fn source(&self) -> (r: Option<&ErrorCause>)
        ensures
            match r {
                Some(c) => self.cause == Some(*c),
                None => self.cause is None,
            },
    {
        match &self.cause {
            Some(c) => Some(c),
            None => None,
        }
    }
}

impl ErrorInstance for InvalidPromptError {
    open spec fn kind_spec(&self) -> ErrorKind {
        ErrorKind::InvalidPrompt
    }

    open spec fn cause_kind_spec(&self) -> Option<ErrorKind> {
        None
    }

    fn error_kind(&self) -> (k: ErrorKind) {
        ErrorKind::InvalidPrompt
    }

    fn cause_error_kind(&self) -> (k: Option<ErrorKind>) {
        None
    }
}

impl From<InvalidPromptError> for AISDKError {
    /// Wraps an invalid-prompt error as a base error, passing its own cause
    /// through.
    fn from(error: InvalidPromptError) -> (r: AISDKError) {
        let mut message = "Invalid prompt: ".to_owned();
        message.append(error.message.as_str());
        AISDKError {
            name: "AI_InvalidPromptError".to_owned(),
            message,
            cause: error.cause,
        }
    }
}

impl vstd::std_specs::convert::FromSpecImpl<InvalidPromptError> for AISDKError {
    open spec fn obeys_from_spec() -> bool {
        false
    }

    open spec fn from_spec(v: InvalidPromptError) -> AISDKError {
        arbitrary()
    }
}

} // verus!
