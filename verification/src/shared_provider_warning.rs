//! Warnings a provider attaches to a call that proceeds anyway.

use vstd::prelude::*;

verus! {

/// A warning from the model provider for one call: an unsupported feature,
/// a compatibility fallback, or anything else.
#[derive(Debug)]
pub enum SharedProviderWarningV3 {
    Unsupported { feature: String, details: Option<String> },
    Compatibility { feature: String, details: Option<String> },
    Other { message: String },
}

} // verus!
