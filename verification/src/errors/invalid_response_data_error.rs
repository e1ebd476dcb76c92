//! The error of response data that does not match what was expected.

use vstd::prelude::*;
use crate::json_value::JSONValue;
use crate::json_text::{json_text, to_json_string};
use crate::errors::sdk_errors::{AISDKError, ErrorCause, ErrorInstance, ErrorKind};

verus! {

/// An error raised when a server's response data cannot be used, carrying
/// that data.
#[derive(Debug)]
pub struct InvalidResponseDataError {
    pub data: JSONValue,
    pub message: String,
}

impl InvalidResponseDataError {
    /// Creates an invalid-response-data error; without an explicit message,
    /// the data's own JSON text names the offender.
    pub fn new(data: &JSONValue, message: Option<String>) -> (r: InvalidResponseDataError)
        ensures
            r.data.deep_view() == data.deep_view(),
            r.message@ == match message {
                Some(m) => m@,
                None => "Invalid response data: "@ + json_text(*data) + "."@,
            },
    {
        let message = match message {
            Some(m) => m,
            None => {
                let mut m = "Invalid response data: ".to_owned();
                let rendered = to_json_string(data);
                m.append(rendered.as_str());
                m.append(".");
                m
            },
        };
        InvalidResponseDataError { data: data.clone(), message }
    }

    /// Whether the given error is an invalid-response-data error: either
    /// directly, or any base error of the family.
    pub fn is_instance<E: ErrorInstance>(error: &E) -> (r: bool)
        ensures
            r == (error.kind_spec() == ErrorKind::InvalidResponseData || error.kind_spec()
                == ErrorKind::AiSdk),
    {
        matches!(error.error_kind(), ErrorKind::InvalidResponseData | ErrorKind::AiSdk)
    }

    /// The error rendered as text.
    pub fn display_string(&self) -> (r: String)
        ensures
            r@ == "AI_InvalidResponseDataError: "@ + self.message@,
    {
        let mut s = "AI_InvalidResponseDataError: ".to_owned();
        s.append(self.message.as_str());
        s
    }
}

impl ErrorInstance for InvalidResponseDataError {
    open spec fn kind_spec(&self) -> ErrorKind {
        ErrorKind::InvalidResponseData
    }

    open spec fn cause_kind_spec(&self) -> Option<ErrorKind> {
        None
    }

    fn error_kind(&self) -> (k: ErrorKind) {
        ErrorKind::InvalidResponseData
    }

    fn cause_error_kind(&self) -> (k: Option<ErrorKind>) {
        None
    }
}

impl From<InvalidResponseDataError> for AISDKError {
    /// Wraps an invalid-response-data error as a base error, keeping its
    /// rendering as the cause.
    fn from(error: InvalidResponseDataError) -> (r: AISDKError) {
        let message = error.message.clone();
        let rendered = error.display_string();
        AISDKError {
            name: "AI_InvalidResponseDataError".to_owned(),
            message,
            cause: Some(ErrorCause::Message(rendered)),
        }
    }
}

impl vstd::std_specs::convert::FromSpecImpl<InvalidResponseDataError> for AISDKError {
    open spec fn obeys_from_spec() -> bool {
        false
    }

    open spec fn from_spec(v: InvalidResponseDataError) -> AISDKError {
        arbitrary()
    }
}

} // verus!
