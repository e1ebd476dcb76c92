//! The error of an API response that arrived with an empty body.

use vstd::prelude::*;
use crate::errors::sdk_errors::{AISDKError, ErrorCause, ErrorInstance, ErrorKind, extended_marker};

verus! {

/// An error raised when a response body is empty.
#[derive(Debug)]
pub struct EmptyResponseBodyError {
    pub base: AISDKError,
}

impl EmptyResponseBodyError {
    /// Creates the error, with "Empty response body" as the message when
    /// none is given.
    pub fn new(message: Option<String>) -> (r: EmptyResponseBodyError)
        ensures
            r.base.name@ == "AI_EmptyResponseBodyError"@,
            r.base.message@ == match message {
                Some(m) => m@,
                None => "Empty response body"@,
            },
            r.base.cause is None,
    {
        let message = match message {
            Some(m) => m,
            None => "Empty response body".to_owned(),
        };
        EmptyResponseBodyError {
            base: AISDKError::new("AI_EmptyResponseBodyError".to_owned(), message, None),
        }
    }

    /// Whether the given error is an empty-response-body error.
    pub fn is_instance(error: &EmptyResponseBodyError) -> (r: bool)
        ensures
            r,
    {
        AISDKError::has_marker(
            &error.base,
            extended_marker("aisdk.error", "AI_EmptyResponseBodyError").as_str(),
        )
    }

    /// The error rendered as text.
    pub fn display_string(&self) -> (r: String)
        ensures
            r@ == self.base.name@ + ": "@ + self.base.message@,
    {
        self.base.display_string()
    }

    /// The underlying cause, if any.
    pub fn source(&self) -> (r: Option<&ErrorCause>)
        ensures
            match r {
                Some(c) => self.base.cause == Some(*c),
                None => self.base.cause is None,
            },
    {
        self.base.source()
    }
}

impl ErrorInstance for EmptyResponseBodyError {
    open spec fn kind_spec(&self) -> ErrorKind {
        ErrorKind::EmptyResponseBody
    }

    open spec fn cause_kind_spec(&self) -> Option<ErrorKind> {
        None
    }

    fn error_kind(&self) -> (k: ErrorKind) {
        ErrorKind::EmptyResponseBody
    }

    fn cause_error_kind(&self) -> (k: Option<ErrorKind>) {
        None
    }
}

} // verus!
