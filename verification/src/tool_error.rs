//! The tagged tool-error union: the serializable record of a tool call's
//! failure, tagged static or dynamic to mirror the call it answers.

use vstd::prelude::*;
use crate::json_value::{JSONValue, JSONValueView};
use crate::tool_result::ProviderMetadata;

verus! {

/// The record type tag a tool error carries when serialized.
pub fn default_tool_error_type() -> (r: String)
    ensures
        r@ == "tool-error"@,
{
    "tool-error".to_owned()
}

/// The failure of a call to a statically known tool.
#[derive(Debug)]
pub struct StaticToolError {
    pub kind: String,
    pub tool_call_id: String,
    pub tool_name: String,
    pub input: JSONValue,
    pub error: JSONValue,
    pub provider_executed: Option<bool>,
    pub provider_metadata: Option<ProviderMetadata>,
    pub dynamic: Option<bool>,
    pub title: Option<String>,
}

/// The mathematical shape of a [`StaticToolError`].
#[verifier::ext_equal]
pub ghost struct StaticToolErrorView {
    pub kind: Seq<char>,
    pub tool_call_id: Seq<char>,
    pub tool_name: Seq<char>,
    pub input: JSONValueView,
    pub error: JSONValueView,
    pub provider_executed: Option<bool>,
    pub provider_metadata: Option<JSONValueView>,
    pub dynamic: Option<bool>,
    pub title: Option<Seq<char>>,
}

impl DeepView for StaticToolError {
    type V = StaticToolErrorView;

    open spec fn deep_view(&self) -> StaticToolErrorView {
        StaticToolErrorView {
            kind: self.kind@,
            tool_call_id: self.tool_call_id@,
            tool_name: self.tool_name@,
            input: self.input.deep_view(),
            error: self.error.deep_view(),
            provider_executed: self.provider_executed,
            provider_metadata: match self.provider_metadata {
                Some(m) => Some(m.deep_view()),
                None => None,
            },
            dynamic: self.dynamic,
            title: match self.title {
                Some(t) => Some(t@),
                None => None,
            },
        }
    }
}

/// The failure of a call to a dynamically resolved tool.
#[derive(Debug)]
pub struct DynamicToolError {
    pub kind: String,
    pub tool_call_id: String,
    pub tool_name: String,
    pub input: JSONValue,
    pub error: JSONValue,
    pub provider_executed: Option<bool>,
    pub provider_metadata: Option<ProviderMetadata>,
    pub dynamic: bool,
    pub title: Option<String>,
}

/// The mathematical shape of a [`DynamicToolError`].
#[verifier::ext_equal]
pub ghost struct DynamicToolErrorView {
    pub kind: Seq<char>,
    pub tool_call_id: Seq<char>,
    pub tool_name: Seq<char>,
    pub input: JSONValueView,
    pub error: JSONValueView,
    pub provider_executed: Option<bool>,
    pub provider_metadata: Option<JSONValueView>,
    pub dynamic: bool,
    pub title: Option<Seq<char>>,
}

impl DeepView for DynamicToolError {
    type V = DynamicToolErrorView;

    open spec fn deep_view(&self) -> DynamicToolErrorView {
        DynamicToolErrorView {
            kind: self.kind@,
            tool_call_id: self.tool_call_id@,
            tool_name: self.tool_name@,
            input: self.input.deep_view(),
            error: self.error.deep_view(),
            provider_executed: self.provider_executed,
            provider_metadata: match self.provider_metadata {
                Some(m) => Some(m.deep_view()),
                None => None,
            },
            dynamic: self.dynamic,
            title: match self.title {
                Some(t) => Some(t@),
                None => None,
            },
        }
    }
}

/// The tagged union over static and dynamic tool errors.
#[derive(Debug)]
pub enum TypedToolError {
    Static(StaticToolError),
    Dynamic(DynamicToolError),
}

/// The mathematical shape of a [`TypedToolError`].
#[verifier::ext_equal]
pub enum TypedToolErrorView {
    Static(StaticToolErrorView),
    Dynamic(DynamicToolErrorView),
}

impl DeepView for TypedToolError {
    type V = TypedToolErrorView;

    open spec fn deep_view(&self) -> TypedToolErrorView {
        match self {
            TypedToolError::Static(e) => TypedToolErrorView::Static(e.deep_view()),
            TypedToolError::Dynamic(e) => TypedToolErrorView::Dynamic(e.deep_view()),
        }
    }
}

} // verus!
