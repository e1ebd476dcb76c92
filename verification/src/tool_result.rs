//! The tagged tool-result union: the serializable record of a tool call's
//! output, tagged static or dynamic to mirror the call it answers.

use vstd::prelude::*;
use crate::json_value::{JSONValue, JSONValueView};

verus! {

/// Additional provider-specific metadata attached to a result or error;
/// an opaque value that the library only carries along.
pub type ProviderMetadata = JSONValue;

/// The record type tag a tool result carries when serialized.
pub fn default_tool_result_type() -> (r: String)
    ensures
        r@ == "tool-result"@,
{
    "tool-result".to_owned()
}

/// The result of a call to a statically known tool.
#[derive(Debug)]
pub struct StaticToolResult {
    pub kind: String,
    pub tool_call_id: String,
    pub tool_name: String,
    pub input: JSONValue,
    pub output: JSONValue,
    pub provider_executed: Option<bool>,
    pub provider_metadata: Option<ProviderMetadata>,
    pub dynamic: Option<bool>,
    pub preliminary: Option<bool>,
    pub title: Option<String>,
}

/// The mathematical shape of a [`StaticToolResult`].
#[verifier::ext_equal]
pub ghost struct StaticToolResultView {
    pub kind: Seq<char>,
    pub tool_call_id: Seq<char>,
    pub tool_name: Seq<char>,
    pub input: JSONValueView,
    pub output: JSONValueView,
    pub provider_executed: Option<bool>,
    pub provider_metadata: Option<JSONValueView>,
    pub dynamic: Option<bool>,
    pub preliminary: Option<bool>,
    pub title: Option<Seq<char>>,
}

impl DeepView for StaticToolResult {
    type V = StaticToolResultView;

    open spec fn deep_view(&self) -> StaticToolResultView {
        StaticToolResultView {
            kind: self.kind@,
            tool_call_id: self.tool_call_id@,
            tool_name: self.tool_name@,
            input: self.input.deep_view(),
            output: self.output.deep_view(),
            provider_executed: self.provider_executed,
            provider_metadata: match self.provider_metadata {
                Some(m) => Some(m.deep_view()),
                None => None,
            },
            dynamic: self.dynamic,
            preliminary: self.preliminary,
            title: match self.title {
                Some(t) => Some(t@),
                None => None,
            },
        }
    }
}

/// The result of a call to a dynamically resolved tool.
#[derive(Debug)]
pub struct DynamicToolResult {
    pub kind: String,
    pub tool_call_id: String,
    pub tool_name: String,
    pub input: JSONValue,
    pub output: JSONValue,
    pub provider_executed: Option<bool>,
    pub provider_metadata: Option<ProviderMetadata>,
    pub dynamic: bool,
    pub preliminary: Option<bool>,
    pub title: Option<String>,
}

/// The mathematical shape of a [`DynamicToolResult`].
#[verifier::ext_equal]
pub ghost struct DynamicToolResultView {
    pub kind: Seq<char>,
    pub tool_call_id: Seq<char>,
    pub tool_name: Seq<char>,
    pub input: JSONValueView,
    pub output: JSONValueView,
    pub provider_executed: Option<bool>,
    pub provider_metadata: Option<JSONValueView>,
    pub dynamic: bool,
    pub preliminary: Option<bool>,
    pub title: Option<Seq<char>>,
}

impl DeepView for DynamicToolResult {
    type V = DynamicToolResultView;

    open spec fn deep_view(&self) -> DynamicToolResultView {
        DynamicToolResultView {
            kind: self.kind@,
            tool_call_id: self.tool_call_id@,
            tool_name: self.tool_name@,
            input: self.input.deep_view(),
            output: self.output.deep_view(),
            provider_executed: self.provider_executed,
            provider_metadata: match self.provider_metadata {
                Some(m) => Some(m.deep_view()),
                None => None,
            },
            dynamic: self.dynamic,
            preliminary: self.preliminary,
            title: match self.title {
                Some(t) => Some(t@),
                None => None,
            },
        }
    }
}

/// The tagged union over static and dynamic tool results.
#[derive(Debug)]
pub enum TypedToolResult {
    Static(StaticToolResult),
    Dynamic(DynamicToolResult),
}

/// The mathematical shape of a [`TypedToolResult`].
#[verifier::ext_equal]
pub enum TypedToolResultView {
    Static(StaticToolResultView),
    Dynamic(DynamicToolResultView),
}

impl DeepView for TypedToolResult {
    type V = TypedToolResultView;

    open spec fn deep_view(&self) -> TypedToolResultView {
        match self {
            TypedToolResult::Static(r) => TypedToolResultView::Static(r.deep_view()),
            TypedToolResult::Dynamic(r) => TypedToolResultView::Dynamic(r.deep_view()),
        }
    }
}

} // verus!
