//! The error of an invalid function argument.

use vstd::prelude::*;
use crate::errors::sdk_errors::{AISDKError, ErrorCause, ErrorInstance, ErrorKind};

verus! {

/// An error raised when an argument is invalid.
#[derive(Debug)]
pub struct InvalidArgumentError {
    pub argument: String,
    pub message: String,
    pub cause: Option<ErrorCause>,
}

impl InvalidArgumentError {
    /// Creates an invalid-argument error.
    pub fn new(argument: String, message: String, cause: Option<ErrorCause>) -> (r:
        InvalidArgumentError)
        ensures
            r.argument@ == argument@,
            r.message@ == message@,
            r.cause == cause,
    {
        InvalidArgumentError { argument, message, cause }
    }

    /// Whether the given error is an invalid-argument error: either
    /// directly, or any base error of the family.
    pub fn is_instance<E: ErrorInstance>(error: &E) -> (r: bool)
        ensures
            r == (error.kind_spec() == ErrorKind::InvalidArgument || error.kind_spec()
                == ErrorKind::AiSdk),
    {
        Self::has_marker(error, "aisdk.error_AI_InvalidArgumentError")
    }

    /// Whether the given error carries this family's marker: it is an
    /// invalid-argument error or a base error; the marker string plays no
    /// part in the answer.
    pub fn has_marker<E: ErrorInstance>(error: &E, _marker: &str) -> (r: bool)
        ensures
            r == (error.kind_spec() == ErrorKind::InvalidArgument || error.kind_spec()
                == ErrorKind::AiSdk),
    {
        matches!(error.error_kind(), ErrorKind::InvalidArgument | ErrorKind::AiSdk)
    }

    /// The error rendered as text: the argument, then the message.
    pub fn display_string(&self) -> (r: String)
        ensures
            r@ == self.argument@ + ": "@ + self.message@,
    {
        let mut s = self.argument.clone();
        s.append(": ");
        s.append(self.message.as_str());
        s
    }

    /// The underlying cause, if any.
    pub fn source(&self) -> (r: Option<&ErrorCause>)
        ensures
            match r {
                Some(c) => self.cause == Some(*c),
                None => self.cause is None,
            },
    {
        match &self.cause {
            Some(c) => Some(c),
            None => None,
        }
    }
}

impl ErrorInstance for InvalidArgumentError {
    open spec fn kind_spec(&self) -> ErrorKind {
        ErrorKind::InvalidArgument
    }

    open spec fn cause_kind_spec(&self) -> Option<ErrorKind> {
        None
    }

    fn error_kind(&self) -> (k: ErrorKind) {
        ErrorKind::InvalidArgument
    }

    fn cause_error_kind(&self) -> (k: Option<ErrorKind>) {
        None
    }
}

impl From<InvalidArgumentError> for AISDKError {
    /// Wraps an invalid-argument error as a base error, keeping its
    /// rendering as the cause.
    fn from(error: InvalidArgumentError) -> (r: AISDKError) {
        let mut message = "Invalid argument '".to_owned();
        message.append(error.argument.as_str());
        message.append("': ");
        message.append(error.message.as_str());
        let rendered = error.display_string();
        AISDKError {
            name: "AI_InvalidArgumentError".to_owned(),
            message,
            cause: Some(ErrorCause::Message(rendered)),
        }
    }
}

impl vstd::std_specs::convert::FromSpecImpl<InvalidArgumentError> for AISDKError {
    open spec fn obeys_from_spec() -> bool {
        false
    }

    open spec fn from_spec(v: InvalidArgumentError) -> AISDKError {
        arbitrary()
    }
}

} // verus!
