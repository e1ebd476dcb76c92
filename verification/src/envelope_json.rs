//! Decoding of the tagged envelope unions from JSON values.
//!
//! A tool call, result or error is discriminated by its `dynamic` member:
//! absent or false means static, true means dynamic. An output envelope is
//! discriminated by its `type` member. The serialized member names are the
//! interop names: `toolCallId`, `toolName`, and so on, with `type`
//! defaulting to the record's tag when absent on input.

use vstd::prelude::*;
use crate::json_value::{get_member, member_lookup, JSONValue, JSONValueView};
use crate::tool_call::{
    DynamicToolCall, DynamicToolCallView, StaticToolCall, StaticToolCallView, TypedToolCall,
    TypedToolCallView,
};
use crate::tool_error::{
    DynamicToolError, DynamicToolErrorView, StaticToolError, StaticToolErrorView, TypedToolError,
    TypedToolErrorView,
};
use crate::tool_output::{ToolOutput, ToolOutputView};
use crate::tool_result::{
    DynamicToolResult, DynamicToolResultView, StaticToolResult, StaticToolResultView,
    TypedToolResult, TypedToolResultView,
};

verus! {

/// Whether the value's `dynamic` member is `true`; absent, null or
/// non-boolean members read as `false`.
pub open spec fn dynamic_flag(v: JSONValue) -> bool {
    match member_lookup(v, "dynamic"@) {
        Some(JSONValue::Bool(b)) => b,
        _ => false,
    }
}

/// A required string member: its characters, or nothing when it is absent
/// or not a string.
pub open spec fn req_string_member(v: JSONValue, key: Seq<char>) -> Option<Seq<char>> {
    match member_lookup(v, key) {
        Some(JSONValue::String(s)) => Some(s@),
        _ => None,
    }
}

/// An optional boolean member: absent or null decodes to nothing, a boolean
/// to itself, anything else fails.
pub open spec fn opt_bool_member(v: JSONValue, key: Seq<char>) -> Option<Option<bool>> {
    match member_lookup(v, key) {
        None => Some(None),
        Some(JSONValue::Null) => Some(None),
        Some(JSONValue::Bool(b)) => Some(Some(b)),
        Some(_) => None,
    }
}

/// An optional string member: absent or null decodes to nothing, a string
/// to its characters, anything else fails.
pub open spec fn opt_string_member(v: JSONValue, key: Seq<char>) -> Option<Option<Seq<char>>> {
    match member_lookup(v, key) {
        None => Some(None),
        Some(JSONValue::Null) => Some(None),
        Some(JSONValue::String(s)) => Some(Some(s@)),
        Some(_) => None,
    }
}

/// An optional member of any shape: absent or null decodes to nothing,
/// anything else to itself.
pub open spec fn opt_value_member(v: JSONValue, key: Seq<char>) -> Option<JSONValueView> {
    match member_lookup(v, key) {
        None => None,
        Some(JSONValue::Null) => None,
        Some(m) => Some(m.deep_view()),
    }
}

/// The record tag under `type`: the given default when absent, the string
/// itself otherwise, and failure for a non-string.
pub open spec fn kind_member(v: JSONValue, default: Seq<char>) -> Option<Seq<char>> {
    match member_lookup(v, "type"@) {
        None => Some(default),
        Some(JSONValue::String(s)) => Some(s@),
        Some(_) => None,
    }
}

/// The static tool call a value decodes to, if it decodes.
pub open spec fn parse_static_tool_call(v: JSONValue) -> Option<StaticToolCallView> {
    match (req_string_member(v, "toolCallId"@), req_string_member(v, "toolName"@)) {
        (Some(tool_call_id), Some(tool_name)) => match member_lookup(v, "input"@) {
            Some(input) => match (
                opt_bool_member(v, "dynamic"@),
                opt_bool_member(v, "invalid"@),
                opt_string_member(v, "title"@),
            ) {
                (Some(dynamic), Some(invalid), Some(title)) => Some(
                    StaticToolCallView {
                        tool_call_id,
                        tool_name,
                        input: input.deep_view(),
                        dynamic,
                        invalid,
                        title,
                    },
                ),
                _ => None,
            },
            None => None,
        },
        _ => None,
    }
}

/// The dynamic tool call a value decodes to, if it decodes.
pub open spec fn parse_dynamic_tool_call(v: JSONValue) -> Option<DynamicToolCallView> {
    match (req_string_member(v, "toolCallId"@), req_string_member(v, "toolName"@)) {
        (Some(tool_call_id), Some(tool_name)) => match (
            member_lookup(v, "input"@),
            member_lookup(v, "dynamic"@),
        ) {
            (Some(input), Some(JSONValue::Bool(dynamic))) => match (
                opt_bool_member(v, "invalid"@),
                opt_string_member(v, "title"@),
            ) {
                (Some(invalid), Some(title)) => Some(
                    DynamicToolCallView {
                        tool_call_id,
                        tool_name,
                        input: input.deep_view(),
                        dynamic,
                        invalid,
                        error: opt_value_member(v, "error"@),
                        title,
                    },
                ),
                _ => None,
            },
            _ => None,
        },
        _ => None,
    }
}

/// The tagged tool call a value decodes to: dynamic when its `dynamic`
/// member is `true`, static otherwise.
pub open spec fn parse_typed_tool_call(v: JSONValue) -> Option<TypedToolCallView> {
    if dynamic_flag(v) {
        match parse_dynamic_tool_call(v) {
            Some(c) => Some(TypedToolCallView::Dynamic(c)),
            None => None,
        }
    } else {
        match parse_static_tool_call(v) {
            Some(c) => Some(TypedToolCallView::Static(c)),
            None => None,
        }
    }
}

/// Reads a required string member.
fn get_req_string(v: &JSONValue, key: &str) -> (r: Option<String>)
    ensures
        match r {
            Some(s) => req_string_member(*v, key@) == Some(s@),
            None => req_string_member(*v, key@) is None,
        },
{
    match get_member(v, &key.to_owned()) {
        Some(JSONValue::String(s)) => Some(s.clone()),
        _ => None,
    }
}

/// Reads an optional boolean member.
fn get_opt_bool(v: &JSONValue, key: &str) -> (r: Option<Option<bool>>)
    ensures
        r == opt_bool_member(*v, key@),
{
    match get_member(v, &key.to_owned()) {
        None => Some(None),
        Some(JSONValue::Null) => Some(None),
        Some(JSONValue::Bool(b)) => Some(Some(*b)),
        Some(_) => None,
    }
}

/// Reads an optional string member.
fn get_opt_string(v: &JSONValue, key: &str) -> (r: Option<Option<String>>)
    ensures
        match r {
            Some(Some(s)) => opt_string_member(*v, key@) == Some(Some(s@)),
            Some(None) => opt_string_member(*v, key@) == Some(None::<Seq<char>>),
            None => opt_string_member(*v, key@) is None,
        },
{
    match get_member(v, &key.to_owned()) {
        None => Some(None),
        Some(JSONValue::Null) => Some(None),
        Some(JSONValue::String(s)) => Some(Some(s.clone())),
        Some(_) => None,
    }
}

/// Reads an optional member of any shape.
fn get_opt_value(v: &JSONValue, key: &str) -> (r: Option<JSONValue>)
    ensures
        match r {
            Some(m) => opt_value_member(*v, key@) == Some(m.deep_view()),
            None => opt_value_member(*v, key@) is None,
        },
{
    match get_member(v, &key.to_owned()) {
        None => None,
        Some(JSONValue::Null) => None,
        Some(m) => Some(m.clone()),
    }
}

/// Reads the record tag under `type`, with a default for an absent member.
fn get_kind(v: &JSONValue, default: &str) -> (r: Option<String>)
    ensures
        match r {
            Some(s) => kind_member(*v, default@) == Some(s@),
            None => kind_member(*v, default@) is None,
        },
{
    match get_member(v, &"type".to_owned()) {
        None => Some(default.to_owned()),
        Some(JSONValue::String(s)) => Some(s.clone()),
        Some(_) => None,
    }
}

impl TypedToolCall {
    /// Decodes a tagged tool call from a JSON value: dynamic when the
    /// `dynamic` member is `true`, static otherwise. Fails exactly when the
    /// members of the selected variant do not decode.
    pub fn from_json(v: &JSONValue) -> (r: Result<TypedToolCall, String>)
        ensures
            match r {
                Ok(c) => parse_typed_tool_call(*v) == Some(c.deep_view()),
                Err(_) => parse_typed_tool_call(*v) is None,
            },
    {
        let is_dynamic = match get_member(v, &"dynamic".to_owned()) {
            Some(JSONValue::Bool(b)) => *b,
            _ => false,
        };
        let tool_call_id = match get_req_string(v, "toolCallId") {
            Some(s) => s,
            None => {
                return Err("missing or invalid 'toolCallId' member".to_owned());
            },
        };
        let tool_name = match get_req_string(v, "toolName") {
            Some(s) => s,
            None => {
                return Err("missing or invalid 'toolName' member".to_owned());
            },
        };
        let input = match get_member(v, &"input".to_owned()) {
            Some(m) => m.clone(),
            None => {
                return Err("missing 'input' member".to_owned());
            },
        };
        let invalid = match get_opt_bool(v, "invalid") {
            Some(b) => b,
            None => {
                return Err("invalid 'invalid' member".to_owned());
            },
        };
        let title = match get_opt_string(v, "title") {
            Some(t) => t,
            None => {
                return Err("invalid 'title' member".to_owned());
            },
        };
        if is_dynamic {
            let error = get_opt_value(v, "error");
            let call = DynamicToolCall {
                tool_call_id,
                tool_name,
                input,
                dynamic: true,
                invalid,
                error,
                title,
            };
            proof {
                assert(parse_dynamic_tool_call(*v) == Some(call.deep_view()));
            }
            Ok(TypedToolCall::Dynamic(call))
        } else {
            let dynamic = match get_opt_bool(v, "dynamic") {
                Some(b) => b,
                None => {
                    return Err("invalid 'dynamic' member".to_owned());
                },
            };
            let call = StaticToolCall { tool_call_id, tool_name, input, dynamic, invalid, title };
            proof {
                assert(parse_static_tool_call(*v) == Some(call.deep_view()));
            }
            Ok(TypedToolCall::Static(call))
        }
    }
}

/// The static tool result a value decodes to, if it decodes.
pub open spec fn parse_static_tool_result(v: JSONValue) -> Option<StaticToolResultView> {
    match (
        kind_member(v, "tool-result"@),
        req_string_member(v, "toolCallId"@),
        req_string_member(v, "toolName"@),
    ) {
        (Some(kind), Some(tool_call_id), Some(tool_name)) => match (
            member_lookup(v, "input"@),
            member_lookup(v, "output"@),
        ) {
            (Some(input), Some(output)) => match (
                opt_bool_member(v, "providerExecuted"@),
                opt_bool_member(v, "dynamic"@),
                opt_bool_member(v, "preliminary"@),
                opt_string_member(v, "title"@),
            ) {
                (Some(provider_executed), Some(dynamic), Some(preliminary), Some(title)) => Some(
                    StaticToolResultView {
                        kind,
                        tool_call_id,
                        tool_name,
                        input: input.deep_view(),
                        output: output.deep_view(),
                        provider_executed,
                        provider_metadata: opt_value_member(v, "providerMetadata"@),
                        dynamic,
                        preliminary,
                        title,
                    },
                ),
                _ => None,
            },
            _ => None,
        },
        _ => None,
    }
}

/// The dynamic tool result a value decodes to, if it decodes.
pub open spec fn parse_dynamic_tool_result(v: JSONValue) -> Option<DynamicToolResultView> {
    match (
        kind_member(v, "tool-result"@),
        req_string_member(v, "toolCallId"@),
        req_string_member(v, "toolName"@),
    ) {
        (Some(kind), Some(tool_call_id), Some(tool_name)) => match (
            member_lookup(v, "input"@),
            member_lookup(v, "output"@),
            member_lookup(v, "dynamic"@),
        ) {
            (Some(input), Some(output), Some(JSONValue::Bool(dynamic))) => match (
                opt_bool_member(v, "providerExecuted"@),
                opt_bool_member(v, "preliminary"@),
                opt_string_member(v, "title"@),
            ) {
                (Some(provider_executed), Some(preliminary), Some(title)) => Some(
                    DynamicToolResultView {
                        kind,
                        tool_call_id,
                        tool_name,
                        input: input.deep_view(),
                        output: output.deep_view(),
                        provider_executed,
                        provider_metadata: opt_value_member(v, "providerMetadata"@),
                        dynamic,
                        preliminary,
                        title,
                    },
                ),
                _ => None,
            },
            _ => None,
        },
        _ => None,
    }
}

/// The tagged tool result a value decodes to.
pub open spec fn parse_typed_tool_result(v: JSONValue) -> Option<TypedToolResultView> {
    if dynamic_flag(v) {
        match parse_dynamic_tool_result(v) {
            Some(c) => Some(TypedToolResultView::Dynamic(c)),
            None => None,
        }
    } else {
        match parse_static_tool_result(v) {
            Some(c) => Some(TypedToolResultView::Static(c)),
            None => None,
        }
    }
}

impl TypedToolResult {
    /// Decodes a tagged tool result from a JSON value: dynamic when the
    /// `dynamic` member is `true`, static otherwise. Fails exactly when the
    /// members of the selected variant do not decode.
    pub fn from_json(v: &JSONValue) -> (r: Result<TypedToolResult, String>)
        ensures
            match r {
                Ok(c) => parse_typed_tool_result(*v) == Some(c.deep_view()),
                Err(_) => parse_typed_tool_result(*v) is None,
            },
    {
        let is_dynamic = match get_member(v, &"dynamic".to_owned()) {
            Some(JSONValue::Bool(b)) => *b,
            _ => false,
        };
        let kind = match get_kind(v, "tool-result") {
            Some(k) => k,
            None => {
                return Err("invalid 'type' member".to_owned());
            },
        };
        let tool_call_id = match get_req_string(v, "toolCallId") {
            Some(s) => s,
            None => {
                return Err("missing or invalid 'toolCallId' member".to_owned());
            },
        };
        let tool_name = match get_req_string(v, "toolName") {
            Some(s) => s,
            None => {
                return Err("missing or invalid 'toolName' member".to_owned());
            },
        };
        let input = match get_member(v, &"input".to_owned()) {
            Some(m) => m.clone(),
            None => {
                return Err("missing 'input' member".to_owned());
            },
        };
        let output = match get_member(v, &"output".to_owned()) {
            Some(m) => m.clone(),
            None => {
                return Err("missing 'output' member".to_owned());
            },
        };
        let provider_executed = match get_opt_bool(v, "providerExecuted") {
            Some(b) => b,
            None => {
                return Err("invalid 'providerExecuted' member".to_owned());
            },
        };
        let preliminary = match get_opt_bool(v, "preliminary") {
            Some(b) => b,
            None => {
                return Err("invalid 'preliminary' member".to_owned());
            },
        };
        let title = match get_opt_string(v, "title") {
            Some(t) => t,
            None => {
                return Err("invalid 'title' member".to_owned());
            },
        };
        let provider_metadata = get_opt_value(v, "providerMetadata");
        if is_dynamic {
            let result = DynamicToolResult {
                kind,
                tool_call_id,
                tool_name,
                input,
                output,
                provider_executed,
                provider_metadata,
                dynamic: true,
                preliminary,
                title,
            };
            proof {
                assert(parse_dynamic_tool_result(*v) == Some(result.deep_view()));
            }
            Ok(TypedToolResult::Dynamic(result))
        } else {
            let dynamic = match get_opt_bool(v, "dynamic") {
                Some(b) => b,
                None => {
                    return Err("invalid 'dynamic' member".to_owned());
                },
            };
            let result = StaticToolResult {
                kind,
                tool_call_id,
                tool_name,
                input,
                output,
                provider_executed,
                provider_metadata,
                dynamic,
                preliminary,
                title,
            };
            proof {
                assert(parse_static_tool_result(*v) == Some(result.deep_view()));
            }
            Ok(TypedToolResult::Static(result))
        }
    }
}

/// The static tool error a value decodes to, if it decodes.
pub open spec fn parse_static_tool_error(v: JSONValue) -> Option<StaticToolErrorView> {
    match (
        kind_member(v, "tool-error"@),
        req_string_member(v, "toolCallId"@),
        req_string_member(v, "toolName"@),
    ) {
        (Some(kind), Some(tool_call_id), Some(tool_name)) => match (
            member_lookup(v, "input"@),
            member_lookup(v, "error"@),
        ) {
            (Some(input), Some(error)) => match (
                opt_bool_member(v, "providerExecuted"@),
                opt_bool_member(v, "dynamic"@),
                opt_string_member(v, "title"@),
            ) {
                (Some(provider_executed), Some(dynamic), Some(title)) => Some(
                    StaticToolErrorView {
                        kind,
                        tool_call_id,
                        tool_name,
                        input: input.deep_view(),
                        error: error.deep_view(),
                        provider_executed,
                        provider_metadata: opt_value_member(v, "providerMetadata"@),
                        dynamic,
                        title,
                    },
                ),
                _ => None,
            },
            _ => None,
        },
        _ => None,
    }
}

/// The dynamic tool error a value decodes to, if it decodes.
pub open spec fn parse_dynamic_tool_error(v: JSONValue) -> Option<DynamicToolErrorView> {
    match (
        kind_member(v, "tool-error"@),
        req_string_member(v, "toolCallId"@),
        req_string_member(v, "toolName"@),
    ) {
        (Some(kind), Some(tool_call_id), Some(tool_name)) => match (
            member_lookup(v, "input"@),
            member_lookup(v, "error"@),
            member_lookup(v, "dynamic"@),
        ) {
            (Some(input), Some(error), Some(JSONValue::Bool(dynamic))) => match (
                opt_bool_member(v, "providerExecuted"@),
                opt_string_member(v, "title"@),
            ) {
                (Some(provider_executed), Some(title)) => Some(
                    DynamicToolErrorView {
                        kind,
                        tool_call_id,
                        tool_name,
                        input: input.deep_view(),
                        error: error.deep_view(),
                        provider_executed,
                        provider_metadata: opt_value_member(v, "providerMetadata"@),
                        dynamic,
                        title,
                    },
                ),
                _ => None,
            },
            _ => None,
        },
        _ => None,
    }
}

/// The tagged tool error a value decodes to.
pub open spec fn parse_typed_tool_error(v: JSONValue) -> Option<TypedToolErrorView> {
    if dynamic_flag(v) {
        match parse_dynamic_tool_error(v) {
            Some(c) => Some(TypedToolErrorView::Dynamic(c)),
            None => None,
        }
    } else {
        match parse_static_tool_error(v) {
            Some(c) => Some(TypedToolErrorView::Static(c)),
            None => None,
        }
    }
}

impl TypedToolError {
    /// Decodes a tagged tool error from a JSON value: dynamic when the
    /// `dynamic` member is `true`, static otherwise. Fails exactly when the
    /// members of the selected variant do not decode.
    pub fn from_json(v: &JSONValue) -> (r: Result<TypedToolError, String>)
        ensures
            match r {
                Ok(c) => parse_typed_tool_error(*v) == Some(c.deep_view()),
                Err(_) => parse_typed_tool_error(*v) is None,
            },
    {
        let is_dynamic = match get_member(v, &"dynamic".to_owned()) {
            Some(JSONValue::Bool(b)) => *b,
            _ => false,
        };
        let kind = match get_kind(v, "tool-error") {
            Some(k) => k,
            None => {
                return Err("invalid 'type' member".to_owned());
            },
        };
        let tool_call_id = match get_req_string(v, "toolCallId") {
            Some(s) => s,
            None => {
                return Err("missing or invalid 'toolCallId' member".to_owned());
            },
        };
        let tool_name = match get_req_string(v, "toolName") {
            Some(s) => s,
            None => {
                return Err("missing or invalid 'toolName' member".to_owned());
            },
        };
        let input = match get_member(v, &"input".to_owned()) {
            Some(m) => m.clone(),
            None => {
                return Err("missing 'input' member".to_owned());
            },
        };
        let error = match get_member(v, &"error".to_owned()) {
            Some(m) => m.clone(),
            None => {
                return Err("missing 'error' member".to_owned());
            },
        };
        let provider_executed = match get_opt_bool(v, "providerExecuted") {
            Some(b) => b,
            None => {
                return Err("invalid 'providerExecuted' member".to_owned());
            },
        };
        let title = match get_opt_string(v, "title") {
            Some(t) => t,
            None => {
                return Err("invalid 'title' member".to_owned());
            },
        };
        let provider_metadata = get_opt_value(v, "providerMetadata");
        if is_dynamic {
            let err = DynamicToolError {
                kind,
                tool_call_id,
                tool_name,
                input,
                error,
                provider_executed,
                provider_metadata,
                dynamic: true,
                title,
            };
            proof {
                assert(parse_dynamic_tool_error(*v) == Some(err.deep_view()));
            }
            Ok(TypedToolError::Dynamic(err))
        } else {
            let dynamic = match get_opt_bool(v, "dynamic") {
                Some(b) => b,
                None => {
                    return Err("invalid 'dynamic' member".to_owned());
                },
            };
            let err = StaticToolError {
                kind,
                tool_call_id,
                tool_name,
                input,
                error,
                provider_executed,
                provider_metadata,
                dynamic,
                title,
            };
            proof {
                assert(parse_static_tool_error(*v) == Some(err.deep_view()));
            }
            Ok(TypedToolError::Static(err))
        }
    }
}

/// The output envelope a value decodes to: a tool result under type
/// `tool-result`, a tool error under `tool-error`, nothing otherwise.
pub open spec fn parse_tool_output(v: JSONValue) -> Option<ToolOutputView> {
    match member_lookup(v, "type"@) {
        Some(JSONValue::String(s)) => if s@ == "tool-result"@ {
            match parse_typed_tool_result(v) {
                Some(r) => Some(ToolOutputView::Result(r)),
                None => None,
            }
        } else if s@ == "tool-error"@ {
            match parse_typed_tool_error(v) {
                Some(e) => Some(ToolOutputView::Error(e)),
                None => None,
            }
        } else {
            None
        },
        _ => None,
    }
}

impl ToolOutput {
    /// Decodes an output envelope from a JSON value, dispatching on its
    /// `type` member. Fails exactly when the member is absent, not one of
    /// the two record tags, or the selected record does not decode.
    pub fn from_json(v: &JSONValue) -> (r: Result<ToolOutput, String>)
        ensures
            match r {
                Ok(out) => parse_tool_output(*v) == Some(out.deep_view()),
                Err(_) => parse_tool_output(*v) is None,
            },
    {
        let type_member = get_member(v, &"type".to_owned());
        let tag_value = match type_member {
            Some(JSONValue::String(s)) => s,
            _ => {
                return Err("Missing or invalid 'type' field for ToolOutput".to_owned());
            },
        };
        let result_tag = "tool-result".to_owned();
        let error_tag = "tool-error".to_owned();
        if *tag_value == result_tag {
            match TypedToolResult::from_json(v) {
                Ok(result) => Ok(ToolOutput::Result(result)),
                Err(e) => Err(e),
            }
        } else if *tag_value == error_tag {
            match TypedToolError::from_json(v) {
                Ok(error) => Ok(ToolOutput::Error(error)),
                Err(e) => Err(e),
            }
        } else {
            Err("Missing or invalid 'type' field for ToolOutput".to_owned())
        }
    }
}

} // verus!
