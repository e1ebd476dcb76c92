//! The text-generation interface: a provider-agnostic request, the response,
//! and the one-shot helper that asks a provider for text.

use vstd::prelude::*;
use crate::errors::generate_text_error::GenerateTextError;

verus! {

/// A provider-agnostic text-generation request.
#[derive(Debug)]
pub struct GenerateTextRequest {
    pub model: String,
    pub prompt: String,
}

/// A provider's answer to a text-generation request.
#[derive(Debug)]
pub struct GenerateTextResponse {
    pub text: String,
}

/// A provider that can answer a text-generation request. Implemented by
/// host code around the library; nothing is assumed of its answers.
pub trait GenerateText {
    fn generate_text(&self, req: GenerateTextRequest) -> Result<
        GenerateTextResponse,
        GenerateTextError,
    >;
}

/// Asks the provider to generate text for a prompt against a model, and
/// hands back the answer's text unchanged.
pub fn generate_text<G: GenerateText>(provider: &G, model: String, prompt: &str) -> (r: Result<
    String,
    GenerateTextError,
>)
{
    let request = GenerateTextRequest { model, prompt: prompt.to_owned() };
    match provider.generate_text(request) {
        Ok(resp) => Ok(resp.text),
        Err(e) => Err(e),
    }
}

} // verus!
