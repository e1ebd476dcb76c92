//! The error of a setting that could not be loaded.

use vstd::prelude::*;
use crate::errors::sdk_errors::{AISDKError, ErrorCause, ErrorInstance, ErrorKind, extended_marker};

verus! {

/// An error raised when a setting cannot be loaded.
#[derive(Debug)]
pub struct LoadSettingError {
    pub message: String,
    pub base: AISDKError,
}

impl LoadSettingError {
    /// Creates a load-setting error.
    pub fn new(message: &String) -> (r: LoadSettingError)
        ensures
            r.message@ == message@,
            r.base.name@ == "AI_LoadSettingError"@,
            r.base.message@ == message@,
            r.base.cause is None,
    {
        LoadSettingError {
            message: message.clone(),
            base: AISDKError::new("AI_LoadSettingError".to_owned(), message.clone(), None),
        }
    }

    /// Whether the given error is a load-setting error.
    pub fn is_instance(error: &LoadSettingError) -> (r: bool)
        ensures
            r,
    {
        AISDKError::has_marker(
            &error.base,
            extended_marker("aisdk.error", "AI_LoadSettingError").as_str(),
        )
    }

    /// The error rendered as text: its name, then its message.
    pub fn display_string(&self) -> (r: String)
        ensures
            r@ == "AI_LoadSettingError: "@ + self.message@,
    {
        let mut s = "AI_LoadSettingError: ".to_owned();
        s.append(self.message.as_str());
        s
    }
}

impl ErrorInstance for LoadSettingError {
    open spec fn kind_spec(&self) -> ErrorKind {
        ErrorKind::LoadSetting
    }

    open spec fn cause_kind_spec(&self) -> Option<ErrorKind> {
        None
    }

    fn error_kind(&self) -> (k: ErrorKind) {
        ErrorKind::LoadSetting
    }

    fn cause_error_kind(&self) -> (k: Option<ErrorKind>) {
        None
    }
}

impl From<LoadSettingError> for AISDKError {
    /// Wraps a load-setting error as a base error, keeping its rendering as
    /// the cause.
    fn from(error: LoadSettingError) -> (r: AISDKError) {
        let message = error.message.clone();
        let rendered = error.display_string();
        AISDKError {
            name: "AI_LoadSettingError".to_owned(),
            message,
            cause: Some(ErrorCause::Message(rendered)),
        }
    }
}

impl vstd::std_specs::convert::FromSpecImpl<LoadSettingError> for AISDKError {
    open spec fn obeys_from_spec() -> bool {
        false
    }

    open spec fn from_spec(v: LoadSettingError) -> AISDKError {
        arbitrary()
    }
}

} // verus!
