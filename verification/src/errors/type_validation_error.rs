//! The error of a failed type validation, remembering the value that failed.

use vstd::prelude::*;
use crate::errors::get_error_message::get_error_message;
use crate::errors::sdk_errors::{AISDKError, ErrorCause, ErrorInstance, ErrorKind, extended_marker};

verus! {

/// The message of a type validation error over this value.
pub open spec fn type_validation_message(value: Seq<char>) -> Seq<char> {
    "Type validation failed: Value: "@ + value + " \n Error message: "@ + "unknown error"@
}

/// An error raised when a value fails type validation.
#[derive(Debug)]
pub struct TypeValidationError {
    pub value: String,
    pub base: AISDKError,
}

impl TypeValidationError {
    /// Creates a type validation error over a value. The cause, of a type
    /// the message renderer knows nothing of, reads "unknown error" in the
    /// message and is kept as the underlying cause.
    pub fn new(value: &String, cause: Option<ErrorCause>) -> (r: TypeValidationError)
        ensures
            r.value@ == value@,
            r.base.name@ == "AI_TypeValidationError"@,
            r.base.message@ == type_validation_message(value@),
            r.base.cause == cause,
    {
        let error_msg = get_error_message(None);
        let mut message = "Type validation failed: Value: ".to_owned();
        message.append(value.as_str());
        message.append(" \n Error message: ");
        message.append(error_msg.as_str());
        TypeValidationError {
            value: value.clone(),
            base: AISDKError::new("AI_TypeValidationError".to_owned(), message, cause),
        }
    }

    /// Whether the given error is a type validation error.
    pub fn is_instance(error: &TypeValidationError) -> (r: bool)
        ensures
            r,
    {
        AISDKError::has_marker(
            &error.base,
            extended_marker("aisdk.error", "AI_TypeValidationError").as_str(),
        )
    }

    /// Wraps a cause as a type validation error over a value. A cause that
    /// is itself a type validation error over the same value is returned
    /// unchanged rather than wrapped again.
    pub fn wrap(value: &String, cause: Option<ErrorCause>) -> (r: TypeValidationError)
        ensures
            r.value@ == value@,
            match cause {
                Some(ErrorCause::TypeValidation(t)) => if t.value@ == value@ {
                    r.base.name@ == t.base.name@ && r.base.message@ == t.base.message@
                } else {
                    r.base.message@ == type_validation_message(value@)
                },
                _ => r.base.message@ == type_validation_message(value@),
            },
    {
        match cause {
            Some(ErrorCause::TypeValidation(type_val_err)) => {
                if type_val_err.value == *value {
                    *type_val_err
                } else {
                    Self::new(value, Some(ErrorCause::TypeValidation(type_val_err)))
                }
            },
            other => Self::new(value, other),
        }
    }

    /// The error rendered as text.
    pub fn display_string(&self) -> (r: String)
        ensures
            r@ == self.base.name@ + ": "@ + self.base.message@,
    {
        self.base.display_string()
    }

    /// The underlying cause, if any.
    pub fn source(&self) -> (r: Option<&ErrorCause>)
        ensures
            match r {
                Some(c) => self.base.cause == Some(*c),
                None => self.base.cause is None,
            },
    {
        self.base.source()
    }
}

impl ErrorInstance for TypeValidationError {
    open spec fn kind_spec(&self) -> ErrorKind {
        ErrorKind::TypeValidation
    }

    open spec fn cause_kind_spec(&self) -> Option<ErrorKind> {
        None
    }

    fn error_kind(&self) -> (k: ErrorKind) {
        ErrorKind::TypeValidation
    }

    fn cause_error_kind(&self) -> (k: Option<ErrorKind>) {
        None
    }
}

} // verus!
