//! Language-model identifiers and call-level settings: pure data describing
//! which model is addressed and how it may answer.

use vstd::prelude::*;
use crate::gateway_models::GatewayModelId;

verus! {

/// Custom model ids registered by third parties. None are registered here,
/// and the one private marker field keeps it that way: no value of this
/// type can be made outside the library, and the library makes none.
#[derive(Debug, Clone, PartialEq, Eq)]
pub struct RegisteredProviderModels {
    reserved: bool,
}

/// A provider model id: a registered custom id, or a gateway model id.
#[derive(Debug, Clone, PartialEq, Eq)]
pub enum GlobalProviderModelId {
    Provider(RegisteredProviderModels),
    GatewayModel(GatewayModelId),
}

/// The language model a call addresses.
#[derive(Debug, Clone, PartialEq, Eq)]
pub enum LanguageModel {
    GlobalProviderModelId(GlobalProviderModelId),
    LanguageModelV3(),
    LanguageModelV2(),
}

/// Why a language model finished generating a response.
#[derive(Debug, Clone, Copy, PartialEq, Eq, Structural)]
pub enum FinishReason {
    Stop,
    Length,
    ContentFilter,
    ToolCalls,
    Error,
    Other,
}

/// Tool choice for a generation: the model may, must, or must not call a
/// tool, or must call one named tool.
#[derive(Debug, Clone, PartialEq, Eq)]
pub enum ToolChoice {
    Auto,
    NoTool,
    Required,
    Tool { tool_name: String },
}

} // verus!
