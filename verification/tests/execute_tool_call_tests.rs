use std::cell::RefCell;
use std::rc::Rc;

use aisdk::execute_tool_call::execute_tool_call;
use aisdk::json_value::JSONValue;
use aisdk::messages::ModelMessage;
use aisdk::tool::{
    IsAsyncIterable, Tool, ToolExecute, ToolExecutionOptions, ToolSet, ToolType,
};
use aisdk::tool_call::{DynamicToolCall, StaticToolCall, TypedToolCall};
use aisdk::tool_output::ToolOutput;
use aisdk::tool_result::TypedToolResult;

enum ScriptedTool {
    Value(JSONValue),
    Stream(Vec<JSONValue>),
    Fail(String),
}

impl ToolExecute for ScriptedTool {
    fn execute(
        &self,
        _input: JSONValue,
        _options: ToolExecutionOptions,
    ) -> Result<IsAsyncIterable<JSONValue>, String> {
        match self {
            ScriptedTool::Value(v) => Ok(IsAsyncIterable::Value(v.clone())),
            ScriptedTool::Stream(items) => Ok(IsAsyncIterable::Stream(items.clone())),
            ScriptedTool::Fail(message) => Err(message.clone()),
        }
    }
}

fn tool_with(execute: Option<ScriptedTool>) -> Tool<ScriptedTool, bool> {
    Tool {
        description: None,
        title: None,
        provider_options: None,
        input_schema: JSONValue::Null,
        input_examples: None,
        needs_approval: None,
        strict: None,
        execute,
        tool_type: ToolType::Function,
    }
}

fn static_call(id: &str, name: &str, input: JSONValue) -> TypedToolCall {
    TypedToolCall::Static(StaticToolCall {
        tool_call_id: id.to_string(),
        tool_name: name.to_string(),
        input,
        dynamic: None,
        invalid: None,
        title: None,
    })
}

fn no_messages() -> Vec<ModelMessage> {
    Vec::new()
}

fn run_with_log(
    tool_call: TypedToolCall,
    tools: &ToolSet<ScriptedTool, bool>,
) -> (Vec<TypedToolResult>, Option<ToolOutput>) {
    let log: Rc<RefCell<Vec<TypedToolResult>>> = Rc::new(RefCell::new(Vec::new()));
    let sink = log.clone();
    let output = execute_tool_call(
        tool_call,
        tools,
        no_messages(),
        None,
        None,
        Some(move |r: TypedToolResult| {
            sink.borrow_mut().push(r);
        }),
    );
    let collected = log.borrow().iter().map(clone_result).collect();
    (collected, output)
}

fn clone_result(r: &TypedToolResult) -> TypedToolResult {
    match r {
        TypedToolResult::Static(s) => TypedToolResult::Static(aisdk::tool_result::StaticToolResult {
            kind: s.kind.clone(),
            tool_call_id: s.tool_call_id.clone(),
            tool_name: s.tool_name.clone(),
            input: s.input.clone(),
            output: s.output.clone(),
            provider_executed: s.provider_executed,
            provider_metadata: s.provider_metadata.clone(),
            dynamic: s.dynamic,
            preliminary: s.preliminary,
            title: s.title.clone(),
        }),
        TypedToolResult::Dynamic(d) => {
            TypedToolResult::Dynamic(aisdk::tool_result::DynamicToolResult {
                kind: d.kind.clone(),
                tool_call_id: d.tool_call_id.clone(),
                tool_name: d.tool_name.clone(),
                input: d.input.clone(),
                output: d.output.clone(),
                provider_executed: d.provider_executed,
                provider_metadata: d.provider_metadata.clone(),
                dynamic: d.dynamic,
                preliminary: d.preliminary,
                title: d.title.clone(),
            })
        }
    }
}

#[test]
fn test_absent_tool_returns_no_output() {
    let tools: ToolSet<ScriptedTool, bool> = ToolSet::new();
    let output = execute_tool_call(
        static_call("call-1", "missing", JSONValue::Null),
        &tools,
        no_messages(),
        None,
        None,
        None::<fn(TypedToolResult)>,
    );
    assert!(output.is_none());
}

#[test]
fn test_tool_without_execute_capability_returns_no_output() {
    let mut tools: ToolSet<ScriptedTool, bool> = ToolSet::new();
    tools.insert("tool1".to_string(), tool_with(None));
    let output = execute_tool_call(
        static_call("call-1", "tool1", JSONValue::String("anything".to_string())),
        &tools,
        no_messages(),
        None,
        None,
        None::<fn(TypedToolResult)>,
    );
    assert!(output.is_none());
}

#[test]
fn test_single_value_yields_final_result_and_no_preliminaries() {
    let mut tools: ToolSet<ScriptedTool, bool> = ToolSet::new();
    tools.insert(
        "tool1".to_string(),
        tool_with(Some(ScriptedTool::Value(JSONValue::String("v".to_string())))),
    );
    let (preliminaries, output) = run_with_log(
        static_call("call-1", "tool1", JSONValue::String("in".to_string())),
        &tools,
    );
    assert_eq!(preliminaries.len(), 0);
    match output {
        Some(ToolOutput::Result(TypedToolResult::Static(result))) => {
            assert_eq!(result.kind, "tool-result");
            assert_eq!(result.tool_call_id, "call-1");
            assert_eq!(result.tool_name, "tool1");
            assert_eq!(result.input, JSONValue::String("in".to_string()));
            assert_eq!(result.output, JSONValue::String("v".to_string()));
            assert_eq!(result.preliminary, None);
            assert_eq!(result.dynamic, None);
        }
        _ => panic!("expected a static result envelope"),
    }
}

#[test]
fn test_stream_yields_preliminaries_for_all_but_last_item() {
    let items = vec![
        JSONValue::String("a".to_string()),
        JSONValue::String("b".to_string()),
        JSONValue::String("c".to_string()),
    ];
    let mut tools: ToolSet<ScriptedTool, bool> = ToolSet::new();
    tools.insert("tool1".to_string(), tool_with(Some(ScriptedTool::Stream(items))));
    let (preliminaries, output) = run_with_log(
        static_call("call-1", "tool1", JSONValue::Null),
        &tools,
    );

    assert_eq!(preliminaries.len(), 2);
    for (envelope, expected) in preliminaries.iter().zip(["a", "b"]) {
        match envelope {
            TypedToolResult::Static(result) => {
                assert_eq!(result.output, JSONValue::String(expected.to_string()));
                assert_eq!(result.preliminary, Some(true));
            }
            _ => panic!("expected a static preliminary envelope"),
        }
    }
    match output {
        Some(ToolOutput::Result(TypedToolResult::Static(result))) => {
            assert_eq!(result.output, JSONValue::String("c".to_string()));
            assert_eq!(result.preliminary, None);
        }
        _ => panic!("expected a static result envelope"),
    }
}

#[test]
fn test_empty_stream_yields_no_output() {
    let mut tools: ToolSet<ScriptedTool, bool> = ToolSet::new();
    tools.insert("tool1".to_string(), tool_with(Some(ScriptedTool::Stream(vec![]))));
    let (preliminaries, output) = run_with_log(
        static_call("call-1", "tool1", JSONValue::Null),
        &tools,
    );
    assert_eq!(preliminaries.len(), 0);
    assert!(output.is_none());
}

#[test]
fn test_failure_yields_error_envelope() {
    let mut tools: ToolSet<ScriptedTool, bool> = ToolSet::new();
    tools.insert(
        "tool1".to_string(),
        tool_with(Some(ScriptedTool::Fail("boom".to_string()))),
    );
    let (preliminaries, output) = run_with_log(
        static_call("call-1", "tool1", JSONValue::String("in".to_string())),
        &tools,
    );
    assert_eq!(preliminaries.len(), 0);
    match output {
        Some(ToolOutput::Error(aisdk::tool_error::TypedToolError::Static(error))) => {
            assert_eq!(error.kind, "tool-error");
            assert_eq!(error.tool_call_id, "call-1");
            assert_eq!(error.tool_name, "tool1");
            assert_eq!(error.input, JSONValue::String("in".to_string()));
            assert_eq!(error.error, JSONValue::String("boom".to_string()));
        }
        _ => panic!("expected a static error envelope"),
    }
}

#[test]
fn test_dynamic_call_yields_dynamic_envelope() {
    let mut tools: ToolSet<ScriptedTool, bool> = ToolSet::new();
    tools.insert(
        "tool1".to_string(),
        tool_with(Some(ScriptedTool::Value(JSONValue::Bool(true)))),
    );
    let call = TypedToolCall::Dynamic(DynamicToolCall {
        tool_call_id: "call-1".to_string(),
        tool_name: "tool1".to_string(),
        input: JSONValue::Null,
        dynamic: true,
        invalid: None,
        error: None,
        title: None,
    });
    let (preliminaries, output) = run_with_log(call, &tools);
    assert_eq!(preliminaries.len(), 0);
    match output {
        Some(ToolOutput::Result(TypedToolResult::Dynamic(result))) => {
            assert_eq!(result.dynamic, true);
            assert_eq!(result.output, JSONValue::Bool(true));
        }
        _ => panic!("expected a dynamic result envelope"),
    }
}

#[test]
fn test_later_registration_under_same_name_wins() {
    let mut tools: ToolSet<ScriptedTool, bool> = ToolSet::new();
    tools.insert(
        "tool1".to_string(),
        tool_with(Some(ScriptedTool::Value(JSONValue::String("old".to_string())))),
    );
    tools.insert(
        "tool1".to_string(),
        tool_with(Some(ScriptedTool::Value(JSONValue::String("new".to_string())))),
    );
    let (_, output) = run_with_log(static_call("call-1", "tool1", JSONValue::Null), &tools);
    match output {
        Some(ToolOutput::Result(TypedToolResult::Static(result))) => {
            assert_eq!(result.output, JSONValue::String("new".to_string()));
        }
        _ => panic!("expected a static result envelope"),
    }
}
