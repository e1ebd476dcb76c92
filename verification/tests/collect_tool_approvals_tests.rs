use aisdk::collect_tool_approvals::{collect_tool_approvals, CollectedToolApprovals};
use aisdk::json_value::JSONValue;
use aisdk::messages::{
    AssistantContent, AssistantContentPart, AssistantModelMessage, ContentPart, ExecutionDeniedOutput,
    ModelMessage, TextOutput, ToolApprovalRequest, ToolApprovalResponse, ToolCallPart,
    ToolContentPart, ToolModelMessage, ToolResultOutput, ToolResultPart, UserContent,
    UserModelMessage,
};
use aisdk::tool_call::TypedToolCall;

fn sample_input(value: &str) -> JSONValue {
    JSONValue::JSONObject(vec![(
        "value".to_string(),
        JSONValue::String(value.to_string()),
    )])
}

fn tool_call_part(id: &str, name: &str, input_value: &str) -> AssistantContentPart {
    AssistantContentPart::ContentPart(ContentPart::ToolCall(ToolCallPart {
        tool_call_id: id.to_string(),
        tool_name: name.to_string(),
        input: sample_input(input_value),
        provider_options: None,
        provider_executed: false,
    }))
}

fn approval_request(approval_id: &str, tool_call_id: &str) -> AssistantContentPart {
    AssistantContentPart::ToolApprovalRequest(ToolApprovalRequest::ToolApprovalRequest {
        approval_id: approval_id.to_string(),
        tool_call_id: tool_call_id.to_string(),
    })
}

fn approval_response(approval_id: &str, approved: bool, reason: Option<&str>) -> ToolContentPart {
    ToolContentPart::ToolApproval(ToolApprovalResponse {
        approval_id: approval_id.to_string(),
        approved,
        reason: reason.map(|r| r.to_string()),
    })
}

fn text_result(tool_call_id: &str, tool_name: &str, value: &str) -> ToolContentPart {
    ToolContentPart::ToolResult(ToolResultPart {
        tool_call_id: tool_call_id.to_string(),
        tool_name: tool_name.to_string(),
        output: ToolResultOutput::Text(TextOutput {
            value: value.to_string(),
            provider_options: None,
        }),
        provider_options: None,
    })
}

fn denied_result(tool_call_id: &str, tool_name: &str, reason: Option<&str>) -> ToolContentPart {
    ToolContentPart::ToolResult(ToolResultPart {
        tool_call_id: tool_call_id.to_string(),
        tool_name: tool_name.to_string(),
        output: ToolResultOutput::ExecutionDenied(ExecutionDeniedOutput {
            reason: reason.map(|r| r.to_string()),
            provider_options: None,
        }),
        provider_options: None,
    })
}

fn assistant_message(parts: Vec<AssistantContentPart>) -> ModelMessage {
    ModelMessage::Assistant(AssistantModelMessage {
        role: "assistant".to_string(),
        content: AssistantContent::Parts(parts),
        provider_options: None,
    })
}

fn tool_message(content: Vec<ToolContentPart>) -> ModelMessage {
    ModelMessage::Tool(ToolModelMessage {
        content,
        provider_options: None,
    })
}

fn assert_collected(
    collected: &CollectedToolApprovals,
    approval_id: &str,
    tool_call_id: &str,
    tool_name: &str,
    input_value: &str,
    approved: bool,
    reason: Option<&str>,
) {
    let ToolApprovalRequest::ToolApprovalRequest {
        approval_id: req_approval_id,
        tool_call_id: req_tool_call_id,
    } = &collected.approval_request;
    assert_eq!(req_approval_id, approval_id);
    assert_eq!(req_tool_call_id, tool_call_id);
    assert_eq!(collected.approval_response.approval_id, approval_id);
    assert_eq!(collected.approval_response.approved, approved);
    assert_eq!(
        collected.approval_response.reason,
        reason.map(|r| r.to_string())
    );
    match &collected.tool_call {
        TypedToolCall::Static(call) => {
            assert_eq!(call.tool_call_id, tool_call_id);
            assert_eq!(call.tool_name, tool_name);
            assert_eq!(call.input, sample_input(input_value));
            assert_eq!(call.dynamic, None);
            assert_eq!(call.invalid, None);
            assert_eq!(call.title, None);
        }
        TypedToolCall::Dynamic(_) => panic!("expected a static tool call"),
    }
}

#[test]
fn test_should_not_return_any_tool_approvals_when_last_message_is_not_tool_message() {
    let messages = vec![ModelMessage::User(UserModelMessage {
        role: "user".to_string(),
        content: UserContent::String("Hello, world!".to_string()),
        provider_options: None,
    })];

    let result = collect_tool_approvals(&messages);

    assert!(result.approved_tool_approvals.is_empty());
    assert!(result.denied_tool_approvals.is_empty());
}

#[test]
fn test_should_ignore_approval_request_without_response() {
    let messages = vec![
        assistant_message(vec![
            tool_call_part("call-1", "tool1", "test-input"),
            approval_request("approval-id-1", "call-1"),
        ]),
        tool_message(vec![]),
    ];

    let result = collect_tool_approvals(&messages);

    assert!(result.approved_tool_approvals.is_empty());
    assert!(result.denied_tool_approvals.is_empty());
}

#[test]
fn test_should_return_approved_approval_with_approved_response() {
    let messages = vec![
        assistant_message(vec![
            tool_call_part("call-1", "tool1", "test-input"),
            approval_request("approval-id-1", "call-1"),
        ]),
        tool_message(vec![approval_response("approval-id-1", true, None)]),
    ];

    let result = collect_tool_approvals(&messages);

    assert_eq!(result.approved_tool_approvals.len(), 1);
    assert!(result.denied_tool_approvals.is_empty());
    assert_collected(
        &result.approved_tool_approvals[0],
        "approval-id-1",
        "call-1",
        "tool1",
        "test-input",
        true,
        None,
    );
}

#[test]
fn test_should_return_processed_approval_with_approved_response_and_tool_result() {
    let messages = vec![
        assistant_message(vec![
            tool_call_part("call-1", "tool1", "test-input"),
            approval_request("approval-id-1", "call-1"),
        ]),
        tool_message(vec![
            approval_response("approval-id-1", true, None),
            text_result("call-1", "tool1", "test-output"),
        ]),
    ];

    let result = collect_tool_approvals(&messages);

    assert!(result.approved_tool_approvals.is_empty());
    assert!(result.denied_tool_approvals.is_empty());
}

#[test]
fn test_should_return_denied_approval_with_denied_response() {
    let messages = vec![
        assistant_message(vec![
            tool_call_part("call-1", "tool1", "test-input"),
            approval_request("approval-id-1", "call-1"),
        ]),
        tool_message(vec![approval_response(
            "approval-id-1",
            false,
            Some("test-reason"),
        )]),
    ];

    let result = collect_tool_approvals(&messages);

    assert!(result.approved_tool_approvals.is_empty());
    assert_eq!(result.denied_tool_approvals.len(), 1);
    assert_collected(
        &result.denied_tool_approvals[0],
        "approval-id-1",
        "call-1",
        "tool1",
        "test-input",
        false,
        Some("test-reason"),
    );
}

#[test]
fn test_should_return_processed_approval_with_denied_response_and_tool_result() {
    let messages = vec![
        assistant_message(vec![
            tool_call_part("call-1", "tool1", "test-input"),
            approval_request("approval-id-1", "call-1"),
        ]),
        tool_message(vec![
            approval_response("approval-id-1", false, Some("test-reason")),
            denied_result("call-1", "tool1", Some("test-reason")),
        ]),
    ];

    let result = collect_tool_approvals(&messages);

    assert!(result.approved_tool_approvals.is_empty());
    assert!(result.denied_tool_approvals.is_empty());
}

#[test]
fn test_should_work_for_mixed_approvals_and_rejections() {
    let mut assistant_parts = Vec::new();
    for i in 1..=6 {
        assistant_parts.push(tool_call_part(
            &format!("call-approval-{}", i),
            "tool1",
            &format!("test-input-{}", i),
        ));
        assistant_parts.push(approval_request(
            &format!("approval-id-{}", i),
            &format!("call-approval-{}", i),
        ));
    }
    let messages = vec![
        assistant_message(assistant_parts),
        tool_message(vec![
            approval_response("approval-id-1", true, None),
            approval_response("approval-id-2", true, None),
            approval_response("approval-id-3", false, Some("test-reason")),
            approval_response("approval-id-4", false, None),
            approval_response("approval-id-5", true, None),
            text_result("call-approval-5", "tool1", "test-output-5"),
            approval_response("approval-id-6", false, None),
            denied_result("call-approval-6", "tool1", None),
        ]),
    ];

    let result = collect_tool_approvals(&messages);

    assert_eq!(result.approved_tool_approvals.len(), 2);
    assert_collected(
        &result.approved_tool_approvals[0],
        "approval-id-1",
        "call-approval-1",
        "tool1",
        "test-input-1",
        true,
        None,
    );
    assert_collected(
        &result.approved_tool_approvals[1],
        "approval-id-2",
        "call-approval-2",
        "tool1",
        "test-input-2",
        true,
        None,
    );
    assert_eq!(result.denied_tool_approvals.len(), 2);
    assert_collected(
        &result.denied_tool_approvals[0],
        "approval-id-3",
        "call-approval-3",
        "tool1",
        "test-input-3",
        false,
        Some("test-reason"),
    );
    assert_collected(
        &result.denied_tool_approvals[1],
        "approval-id-4",
        "call-approval-4",
        "tool1",
        "test-input-4",
        false,
        None,
    );
}

#[test]
fn test_should_ignore_response_without_matching_request() {
    let messages = vec![
        assistant_message(vec![tool_call_part("call-1", "tool1", "test-input")]),
        tool_message(vec![approval_response("approval-id-unknown", true, None)]),
    ];

    let result = collect_tool_approvals(&messages);

    assert!(result.approved_tool_approvals.is_empty());
    assert!(result.denied_tool_approvals.is_empty());
}

#[test]
fn test_should_ignore_response_whose_call_is_missing() {
    let messages = vec![
        assistant_message(vec![approval_request("approval-id-1", "call-ghost")]),
        tool_message(vec![approval_response("approval-id-1", true, None)]),
    ];

    let result = collect_tool_approvals(&messages);

    assert!(result.approved_tool_approvals.is_empty());
    assert!(result.denied_tool_approvals.is_empty());
}

#[test]
fn test_empty_transcript_yields_no_approvals() {
    let messages: Vec<ModelMessage> = vec![];

    let result = collect_tool_approvals(&messages);

    assert!(result.approved_tool_approvals.is_empty());
    assert!(result.denied_tool_approvals.is_empty());
}

#[test]
fn test_last_approval_request_under_same_id_wins() {
    let messages = vec![
        assistant_message(vec![
            tool_call_part("call-1", "tool1", "first-input"),
            tool_call_part("call-2", "tool2", "second-input"),
            approval_request("approval-id-1", "call-1"),
            approval_request("approval-id-1", "call-2"),
        ]),
        tool_message(vec![approval_response("approval-id-1", true, None)]),
    ];

    let result = collect_tool_approvals(&messages);

    assert_eq!(result.approved_tool_approvals.len(), 1);
    assert_collected(
        &result.approved_tool_approvals[0],
        "approval-id-1",
        "call-2",
        "tool2",
        "second-input",
        true,
        None,
    );
}
