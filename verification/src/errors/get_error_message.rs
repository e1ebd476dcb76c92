//! Rendering of an arbitrary error payload as a message string.

use vstd::prelude::*;
use crate::json_value::JSONValue;
use crate::json_text::{json_text, to_json_string};

verus! {

/// An arbitrary value handed in as an error: a plain string, a JSON value,
/// an I/O error's message, or something else entirely.
#[derive(Debug)]
pub enum ErrorPayload {
    Text(String),
    Json(JSONValue),
    Io(String),
    Other,
}

/// The message for an error payload: the string itself, a JSON value's
/// compact text, an I/O error's message; anything else, or no payload at
/// all, reads "unknown error".
pub fn get_error_message(error: Option<&ErrorPayload>) -> (r: String)
    ensures
        r@ == match error {
            Some(p) => match p {
                ErrorPayload::Text(s) => s@,
                ErrorPayload::Json(v) => json_text(*v),
                ErrorPayload::Io(m) => m@,
                ErrorPayload::Other => "unknown error"@,
            },
            None => "unknown error"@,
        },
{
    match error {
        Some(ErrorPayload::Text(s)) => s.clone(),
        Some(ErrorPayload::Json(v)) => to_json_string(v),
        Some(ErrorPayload::Io(m)) => m.clone(),
        Some(ErrorPayload::Other) => "unknown error".to_owned(),
        None => "unknown error".to_owned(),
    }
}

} // verus!
