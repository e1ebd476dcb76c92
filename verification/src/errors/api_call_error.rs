//! The error of a failed API call: the request made, the response received,
//! and whether retrying is worthwhile.

use vstd::prelude::*;
use crate::json_value::JSONValue;
use crate::messages::StringEntry;
use crate::errors::sdk_errors::{AISDKError, ErrorCause, ErrorInstance, ErrorKind};

verus! {

/// Whether a status code calls for a retry: request timeout, conflict, too
/// many requests, or any server error.
pub open spec fn retryable_status(code: u16) -> bool {
    code == 408 || code == 409 || code == 429 || code >= 500
}

/// An error that occurred during an API call.
#[derive(Debug)]
pub struct APICallError {
    pub url: String,
    pub request_body_values: JSONValue,
    pub status_code: Option<u16>,
    pub response_headers: Option<Vec<StringEntry>>,
    pub response_body: Option<String>,
    pub is_retryable: bool,
    pub data: Option<JSONValue>,
    pub message: String,
    pub cause: Option<ErrorCause>,
}

impl APICallError {
    /// Creates an API call error. When no explicit retry verdict is given,
    /// it is derived from the status code: timeouts, conflicts, rate limits
    /// and server errors are retryable, anything else (or no status) is not.
    pub fn new(
        message: String,
        url: String,
        request_body_values: JSONValue,
        status_code: Option<u16>,
        response_headers: Option<Vec<StringEntry>>,
        response_body: Option<String>,
        cause: Option<ErrorCause>,
        is_retryable: Option<bool>,
        data: Option<JSONValue>,
    ) -> (r: APICallError)
        ensures
            r.message@ == message@,
            r.url@ == url@,
            r.request_body_values == request_body_values,
            r.status_code == status_code,
            r.response_headers == response_headers,
            r.response_body == response_body,
            r.cause == cause,
            r.data == data,
            r.is_retryable == match is_retryable {
                Some(b) => b,
                None => match status_code {
                    Some(code) => retryable_status(code),
                    None => false,
                },
            },
    {
        let is_retryable = match is_retryable {
            Some(b) => b,
            None => match status_code {
                Some(code) => code == 408 || code == 409 || code == 429 || code >= 500,
                None => false,
            },
        };
        APICallError {
            message,
            url,
            request_body_values,
            status_code,
            response_headers,
            response_body,
            cause,
            is_retryable,
            data,
        }
    }

    /// Whether the given error is an API call error: either directly, or a
    /// base error wrapping one as its cause.
    pub fn is_instance<E: ErrorInstance>(error: &E) -> (r: bool)
        ensures
            r == (error.kind_spec() == ErrorKind::ApiCall || (error.kind_spec() == ErrorKind::AiSdk
                && error.cause_kind_spec() == Some(ErrorKind::ApiCall))),
    {
        match error.error_kind() {
            ErrorKind::ApiCall => true,
            ErrorKind::AiSdk => matches!(error.cause_error_kind(), Some(ErrorKind::ApiCall)),
            _ => false,
        }
    }

    /// The error rendered as text: its name, then its message.
    pub fn display_string(&self) -> (r: String)
        ensures
            r@ == "AI_APICallError: "@ + self.message@,
    {
        let mut s = "AI_APICallError: ".to_owned();
        s.append(self.message.as_str());
        s
    }

    /// The underlying cause, if any.
    pub fn source(&self) -> (r: Option<&ErrorCause>)
        ensures
            match r {
                Some(c) => self.cause == Some(*c),
                None => self.cause is None,
            },
    {
        match &self.cause {
            Some(c) => Some(c),
            None => None,
        }
    }
}

impl ErrorInstance for APICallError {
    open spec fn kind_spec(&self) -> ErrorKind {
        ErrorKind::ApiCall
    }

    open spec fn cause_kind_spec(&self) -> Option<ErrorKind> {
        None
    }

    fn error_kind(&self) -> (k: ErrorKind) {
        ErrorKind::ApiCall
    }

    fn cause_error_kind(&self) -> (k: Option<ErrorKind>) {
        None
    }
}

impl From<APICallError> for AISDKError {
    /// Wraps an API call error as a base error carrying it as the cause.
    fn from(error: APICallError) -> (r: AISDKError) {
        let message = error.message.clone();
        AISDKError {
            name: "AI_APICallError".to_owned(),
            message,
            cause: Some(ErrorCause::ApiCall(Box::new(error))),
        }
    }
}

impl vstd::std_specs::convert::FromSpecImpl<APICallError> for AISDKError {
    open spec fn obeys_from_spec() -> bool {
        false
    }

    open spec fn from_spec(v: APICallError) -> AISDKError {
        arbitrary()
    }
}

} // verus!
