//! The error of text that could not be parsed as JSON.

use vstd::prelude::*;
use crate::errors::get_error_message::get_error_message;
use crate::errors::sdk_errors::{AISDKError, ErrorCause, ErrorInstance, ErrorKind, extended_marker};

verus! {

/// An error raised when JSON parsing fails, carrying the offending text.
#[derive(Debug)]
pub struct JSONParseError {
    pub text: String,
    pub base: AISDKError,
}

impl JSONParseError {
    /// Creates a JSON-parse error over the offending text. The cause, of a
    /// type the message renderer knows nothing of, reads "unknown error" in
    /// the message and is kept as the underlying cause.
    pub fn new(text: &String, cause: Option<ErrorCause>) -> (r: JSONParseError)
        ensures
            r.text@ == text@,
            r.base.name@ == "AI_JSONParseError"@,
            r.base.message@ == "JSON parsing failed: Text: "@ + text@ + " \n Error message: "@
                + "unknown error"@,
            r.base.cause == cause,
    {
        let error_msg = get_error_message(None);
        let mut message = "JSON parsing failed: Text: ".to_owned();
        message.append(text.as_str());
        message.append(" \n Error message: ");
        message.append(error_msg.as_str());
        JSONParseError {
            text: text.clone(),
            base: AISDKError::new("AI_JSONParseError".to_owned(), message, cause),
        }
    }

    /// Whether the given error is a JSON-parse error.
    pub fn is_instance(error: &JSONParseError) -> (r: bool)
        ensures
            r,
    {
        AISDKError::has_marker(
            &error.base,
            extended_marker("aisdk.error", "AI_JSONParseError").as_str(),
        )
    }
}

impl ErrorInstance for JSONParseError {
    open spec fn kind_spec(&self) -> ErrorKind {
        ErrorKind::JsonParse
    }

    open spec fn cause_kind_spec(&self) -> Option<ErrorKind> {
        None
    }

    fn error_kind(&self) -> (k: ErrorKind) {
        ErrorKind::JsonParse
    }

    fn cause_error_kind(&self) -> (k: Option<ErrorKind>) {
        None
    }
}

} // verus!
