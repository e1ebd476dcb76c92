//! The errors a provider client can raise before any request is sent.

use vstd::prelude::*;

verus! {

/// What is wrong with a client's configuration.
#[derive(Debug, PartialEq, Eq, Structural, Clone, Copy)]
pub enum ClientError {
    EmptyAPIKey,
    InvalidAPIKey,
}

impl ClientError {
    /// The error rendered as text.
    pub fn display_string(&self) -> (r: String)
        ensures
            r@ == match self {
                ClientError::EmptyAPIKey => "API key is missing"@,
                ClientError::InvalidAPIKey => "API key format is invalid"@,
            },
    {
        match self {
            ClientError::EmptyAPIKey => "API key is missing".to_owned(),
            ClientError::InvalidAPIKey => "API key format is invalid".to_owned(),
        }
    }
}

} // verus!
