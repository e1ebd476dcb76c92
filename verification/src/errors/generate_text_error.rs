//! The errors of a text-generation call: transport failure, or an error
//! answer from the API.

use vstd::prelude::*;
use crate::strings::dec_digits;
use crate::strings::u64_to_string;

verus! {

/// Why a text-generation call failed: the transport broke (the failure
/// rendered as its message), or the API answered with an error status.
#[derive(Debug)]
pub enum GenerateTextError {
    Transport(String),
    Api { status_code: u16, message: String },
}

impl GenerateTextError {
    /// The error rendered as text.
    pub fn display_string(&self) -> (r: String)
        ensures
            r@ == match self {
                GenerateTextError::Transport(m) => "network error: "@ + m@,
                GenerateTextError::Api { status_code, message } => "API error ["@ + dec_digits(
                    status_code as nat,
                ) + "]: "@ + message@,
            },
    {
        match self {
            GenerateTextError::Transport(m) => {
                let mut s = "network error: ".to_owned();
                s.append(m.as_str());
                s
            },
            GenerateTextError::Api { status_code, message } => {
                let mut s = "API error [".to_owned();
                let code_text = u64_to_string(*status_code as u64);
                s.append(code_text.as_str());
                s.append("]: ");
                s.append(message.as_str());
                s
            },
        }
    }
}

} // verus!
