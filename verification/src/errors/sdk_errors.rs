//! The base error of the library and the marker machinery that identifies
//! error instances across the error family.
//!
//! Every error of the family answers which kind it is; instance checks are
//! stated and proved over those kinds.

use vstd::prelude::*;
use crate::errors::api_call_error::APICallError;
use crate::errors::type_validation_error::TypeValidationError;

verus! {

/// Which error of the family a value is.
#[derive(Clone, Copy, Debug, PartialEq, Eq, Structural)]
pub enum ErrorKind {
    AiSdk,
    ApiCall,
    Client,
    EmptyResponseBody,
    GenerateText,
    InvalidArgument,
    InvalidPrompt,
    InvalidResponseData,
    JsonParse,
    LoadApiKey,
    LoadSetting,
    NoContentGenerated,
    NoSuchModel,
    TooManyEmbeddingValuesForCall,
    TypeValidation,
    UnsupportedFunctionality,
}

/// An error that can answer which kind it is and, when it wraps an
/// underlying cause, which kind that cause is.
pub trait ErrorInstance {
    spec fn kind_spec(&self) -> ErrorKind;

    spec fn cause_kind_spec(&self) -> Option<ErrorKind>;

    fn error_kind(&self) -> (k: ErrorKind)
        ensures
            k == self.kind_spec(),
    ;

    fn cause_error_kind(&self) -> (k: Option<ErrorKind>)
        ensures
            k == self.cause_kind_spec(),
    ;
}

/// The underlying cause of an error: one of the causes the library inspects
/// held as a value, any other rendered as its message.
#[derive(Debug)]
pub enum ErrorCause {
    ApiCall(Box<APICallError>),
    TypeValidation(Box<TypeValidationError>),
    Message(String),
}

impl ErrorCause {
    /// The kind of the held cause, where one of the family is held.
    pub open spec fn held_kind_spec(&self) -> Option<ErrorKind> {
        match self {
            ErrorCause::ApiCall(_) => Some(ErrorKind::ApiCall),
            ErrorCause::TypeValidation(_) => Some(ErrorKind::TypeValidation),
            ErrorCause::Message(_) => None,
        }
    }

    /// The cause rendered as text.
    pub fn display_string(&self) -> (r: String)
        ensures
            r@ == match self {
                ErrorCause::ApiCall(e) => "AI_APICallError: "@ + e.message@,
                ErrorCause::TypeValidation(e) => e.base.name@ + ": "@ + e.base.message@,
                ErrorCause::Message(m) => m@,
            },
    {
        match self {
            ErrorCause::ApiCall(e) => e.display_string(),
            ErrorCause::TypeValidation(e) => e.display_string(),
            ErrorCause::Message(m) => m.clone(),
        }
    }
}

/// The marker of an extension of the error family: the base marker, an
/// underscore, and the extension's name.
pub fn extended_marker(base: &str, extension: &str) -> (r: String)
    ensures
        r@ == base@ + "_"@ + extension@,
{
    let mut s = base.to_owned();
    s.append("_");
    s.append(extension);
    s
}

/// The base error of the family: a name, a message, and an optional
/// underlying cause.
#[derive(Debug)]
pub struct AISDKError {
    pub name: String,
    pub message: String,
    pub cause: Option<ErrorCause>,
}

impl AISDKError {
    /// Creates a base error from a name, a message, and an optional cause.
    pub fn new(name: String, message: String, cause: Option<ErrorCause>) -> (r: AISDKError)
        ensures
            r.name@ == name@,
            r.message@ == message@,
            r.cause == cause,
    {
        AISDKError { name, message, cause }
    }

    /// Whether the given error is a base error of the family.
    pub fn is_instance<E: ErrorInstance>(error: &E) -> (r: bool)
        ensures
            r == (error.kind_spec() == ErrorKind::AiSdk),
    {
        Self::has_marker(error, "aisdk.error")
    }

    /// Whether the given error is a base error; the marker string plays no
    /// part in the answer.
    pub fn has_marker<E: ErrorInstance>(error: &E, _marker: &str) -> (r: bool)
        ensures
            r == (error.kind_spec() == ErrorKind::AiSdk),
    {
        matches!(error.error_kind(), ErrorKind::AiSdk)
    }

    /// The error rendered as text: its name, then its message.
    pub fn display_string(&self) -> (r: String)
        ensures
            r@ == self.name@ + ": "@ + self.message@,
    {
        let mut s = self.name.clone();
        s.append(": ");
        s.append(self.message.as_str());
        s
    }

    /// The underlying cause, if any.
    pub fn source(&self) -> (r: Option<&ErrorCause>)
        ensures
            match r {
                Some(c) => self.cause == Some(*c),
                None => self.cause is None,
            },
    {
        match &self.cause {
            Some(c) => Some(c),
            None => None,
        }
    }
}

impl ErrorInstance for AISDKError {
    open spec fn kind_spec(&self) -> ErrorKind {
        ErrorKind::AiSdk
    }

    open spec fn cause_kind_spec(&self) -> Option<ErrorKind> {
        match self.cause {
            Some(c) => c.held_kind_spec(),
            None => None,
        }
    }

    fn error_kind(&self) -> (k: ErrorKind) {
        ErrorKind::AiSdk
    }

    fn cause_error_kind(&self) -> (k: Option<ErrorKind>) {
        match &self.cause {
            Some(ErrorCause::ApiCall(_)) => Some(ErrorKind::ApiCall),
            Some(ErrorCause::TypeValidation(_)) => Some(ErrorKind::TypeValidation),
            Some(ErrorCause::Message(_)) => None,
            None => None,
        }
    }
}

} // verus!
