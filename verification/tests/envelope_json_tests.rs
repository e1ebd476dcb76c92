use aisdk::json_value::JSONValue;
use aisdk::tool_call::TypedToolCall;
use aisdk::tool_error::TypedToolError;
use aisdk::tool_output::ToolOutput;
use aisdk::tool_result::TypedToolResult;

fn object(entries: Vec<(&str, JSONValue)>) -> JSONValue {
    JSONValue::JSONObject(
        entries
            .into_iter()
            .map(|(k, v)| (k.to_string(), v))
            .collect(),
    )
}

fn text(s: &str) -> JSONValue {
    JSONValue::String(s.to_string())
}

#[test]
fn test_tool_call_from_json_static() {
    let value = object(vec![
        ("toolCallId", text("call-1")),
        ("toolName", text("tool1")),
        ("input", object(vec![("value", text("in"))])),
    ]);
    match TypedToolCall::from_json(&value) {
        Ok(TypedToolCall::Static(call)) => {
            assert_eq!(call.tool_call_id, "call-1");
            assert_eq!(call.tool_name, "tool1");
            assert_eq!(call.input, object(vec![("value", text("in"))]));
            assert_eq!(call.dynamic, None);
            assert_eq!(call.invalid, None);
            assert_eq!(call.title, None);
        }
        _ => panic!("expected a static tool call"),
    }
}

#[test]
fn test_tool_call_from_json_dynamic() {
    let value = object(vec![
        ("toolCallId", text("call-2")),
        ("toolName", text("tool2")),
        ("input", JSONValue::Null),
        ("dynamic", JSONValue::Bool(true)),
        ("title", text("a title")),
    ]);
    match TypedToolCall::from_json(&value) {
        Ok(TypedToolCall::Dynamic(call)) => {
            assert_eq!(call.tool_call_id, "call-2");
            assert_eq!(call.tool_name, "tool2");
            assert!(call.dynamic);
            assert_eq!(call.title, Some("a title".to_string()));
            assert_eq!(call.error, None);
        }
        _ => panic!("expected a dynamic tool call"),
    }
}

#[test]
fn test_tool_call_from_json_rejects_missing_id() {
    let value = object(vec![
        ("toolName", text("tool1")),
        ("input", JSONValue::Null),
    ]);
    assert!(TypedToolCall::from_json(&value).is_err());
}

#[test]
fn test_tool_result_from_json_defaults_type() {
    let value = object(vec![
        ("toolCallId", text("call-1")),
        ("toolName", text("tool1")),
        ("input", JSONValue::Null),
        ("output", text("out")),
    ]);
    match TypedToolResult::from_json(&value) {
        Ok(TypedToolResult::Static(result)) => {
            assert_eq!(result.kind, "tool-result");
            assert_eq!(result.output, text("out"));
            assert_eq!(result.preliminary, None);
        }
        _ => panic!("expected a static tool result"),
    }
}

#[test]
fn test_tool_error_from_json_dynamic() {
    let value = object(vec![
        ("type", text("tool-error")),
        ("toolCallId", text("call-1")),
        ("toolName", text("tool1")),
        ("input", JSONValue::Null),
        ("error", text("boom")),
        ("dynamic", JSONValue::Bool(true)),
    ]);
    match TypedToolError::from_json(&value) {
        Ok(TypedToolError::Dynamic(error)) => {
            assert_eq!(error.kind, "tool-error");
            assert_eq!(error.error, text("boom"));
            assert!(error.dynamic);
        }
        _ => panic!("expected a dynamic tool error"),
    }
}

#[test]
fn test_tool_output_from_json_dispatches_on_type() {
    let result_value = object(vec![
        ("type", text("tool-result")),
        ("toolCallId", text("call-1")),
        ("toolName", text("tool1")),
        ("input", JSONValue::Null),
        ("output", text("out")),
    ]);
    assert!(matches!(
        ToolOutput::from_json(&result_value),
        Ok(ToolOutput::Result(_))
    ));

    let error_value = object(vec![
        ("type", text("tool-error")),
        ("toolCallId", text("call-1")),
        ("toolName", text("tool1")),
        ("input", JSONValue::Null),
        ("error", text("boom")),
    ]);
    assert!(matches!(
        ToolOutput::from_json(&error_value),
        Ok(ToolOutput::Error(_))
    ));

    let missing_type = object(vec![("toolCallId", text("call-1"))]);
    assert!(ToolOutput::from_json(&missing_type).is_err());

    let unknown_type = object(vec![("type", text("tool-banana"))]);
    assert!(ToolOutput::from_json(&unknown_type).is_err());
}
