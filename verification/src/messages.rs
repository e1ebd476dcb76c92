//! The transcript model: a conversation is an ordered sequence of role-tagged
//! messages, each holding content parts (text, tool calls, tool results,
//! approval requests and responses).

use vstd::prelude::*;
use crate::json_value::{JSONMemberView, JSONValue, JSONValueView};

verus! {

/// Provider-specific options attached to a message or content part; an
/// opaque value that the library only carries along.
#[derive(Debug)]
pub struct ProviderOptions {
    pub options: JSONValue,
}

/// Raw data carried by an image or file part.
#[derive(Debug)]
pub enum DataContent {
    String(String),
    Uint8Array(Vec<u8>),
    ArrayBuffer(Vec<u8>),
    Buffer(Vec<u8>),
}

/// Either inline data or a URL pointing at it.
#[derive(Debug)]
pub enum DataOrURL {
    Data(DataContent),
    URL(String),
}

/// One key/value pair of a string-keyed map.
#[derive(Debug)]
pub struct StringEntry {
    pub key: String,
    pub value: String,
}

/// A file identifier: either a plain string or a map of provider ids.
#[derive(Debug)]
pub enum FileIdType {
    String(String),
    Mapping(Vec<StringEntry>),
}

#[derive(Debug)]
pub struct TextPart {
    pub text: String,
    pub provider_options: Option<ProviderOptions>,
}

#[derive(Debug)]
pub struct ImagePart {
    pub image: DataOrURL,
    pub media_type: Option<String>,
    pub provider_options: Option<ProviderOptions>,
}

#[derive(Debug)]
pub struct FilePart {
    pub data: DataOrURL,
    pub filename: Option<String>,
    pub media_type: String,
    pub provider_options: Option<ProviderOptions>,
}

#[derive(Debug)]
pub struct ReasoningPart {
    pub text: String,
    pub provider_options: Option<ProviderOptions>,
}

/// A request, emitted by the assistant, to invoke a named tool.
#[derive(Debug)]
pub struct ToolCallPart {
    pub tool_call_id: String,
    pub tool_name: String,
    pub input: JSONValue,
    pub provider_options: Option<ProviderOptions>,
    pub provider_executed: bool,
}

/// A provider-level tool call record, generic over how the tool name and
/// the input are represented.
#[derive(Debug)]
pub struct ToolCall<N, I> {
    /// ID of the tool call. Matches the tool call with the tool result.
    pub tool_call_id: String,
    /// Name of the tool that is being called.
    pub tool_name: N,
    /// Arguments of the tool call.
    pub input: I,
    /// Whether the tool call will be executed by the provider.
    pub provider_executed: Option<bool>,
    /// Whether the tool is dynamic.
    pub dynamic: Option<bool>,
}

/// The terminal output of a tool call, recorded in a tool message.
#[derive(Debug)]
pub struct ToolResultPart {
    pub tool_call_id: String,
    pub tool_name: String,
    pub output: ToolResultOutput,
    pub provider_options: Option<ProviderOptions>,
}

#[derive(Debug)]
pub struct TextOutput {
    pub value: String,
    pub provider_options: Option<ProviderOptions>,
}

#[derive(Debug)]
pub struct JsonOutput {
    pub value: JSONValue,
    pub provider_options: Option<ProviderOptions>,
}

#[derive(Debug)]
pub struct ExecutionDeniedOutput {
    pub reason: Option<String>,
    pub provider_options: Option<ProviderOptions>,
}

#[derive(Debug)]
pub struct ErrorTextOutput {
    pub value: String,
    pub provider_options: Option<ProviderOptions>,
}

#[derive(Debug)]
pub struct ErrorJsonOutput {
    pub value: JSONValue,
    pub provider_options: Option<ProviderOptions>,
}

#[derive(Debug)]
pub struct ContentOutput {
    pub value: Vec<ToolResultContentPart>,
}

/// How a tool result is rendered back to the model.
#[derive(Debug)]
pub enum ToolResultOutput {
    Text(TextOutput),
    Json(JsonOutput),
    ExecutionDenied(ExecutionDeniedOutput),
    ErrorText(ErrorTextOutput),
    ErrorJson(ErrorJsonOutput),
    Content(ContentOutput),
}

/// One part of a structured tool result.
#[derive(Debug)]
pub enum ToolResultContentPart {
    Text { text: String, provider_options: Option<ProviderOptions> },
    Media { data: String, media_type: String },
    FileData {
        data: String,
        media_type: String,
        filename: Option<String>,
        provider_options: Option<ProviderOptions>,
    },
    FileUrl { url: String, provider_options: Option<ProviderOptions> },
    FileId { file_id: FileIdType, provider_options: Option<ProviderOptions> },
    ImageData { data: String, media_type: String, provider_options: Option<ProviderOptions> },
    ImageUrl { url: String, provider_options: Option<ProviderOptions> },
    ImageFileId { file_id: FileIdType, provider_options: Option<ProviderOptions> },
    Custom { provider_options: Option<ProviderOptions> },
}

/// A content part of an assistant message.
#[derive(Debug)]
pub enum ContentPart {
    Text(TextPart),
    Image(ImagePart),
    File(FilePart),
    Reasoning(ReasoningPart),
    ToolCall(ToolCallPart),
    ToolResult(ToolResultPart),
}

/// The human-in-the-loop gate between a tool call and its execution:
/// the assistant asks for approval of one tool call.
#[derive(Debug)]
pub enum ToolApprovalRequest {
    ToolApprovalRequest { approval_id: String, tool_call_id: String },
}

/// The mathematical shape of a [`ToolApprovalRequest`].
#[verifier::ext_equal]
pub ghost struct ToolApprovalRequestView {
    pub approval_id: Seq<char>,
    pub tool_call_id: Seq<char>,
}

impl DeepView for ToolApprovalRequest {
    type V = ToolApprovalRequestView;

    open spec fn deep_view(&self) -> ToolApprovalRequestView {
        match self {
            ToolApprovalRequest::ToolApprovalRequest { approval_id, tool_call_id } =>
                ToolApprovalRequestView {
                    approval_id: approval_id@,
                    tool_call_id: tool_call_id@,
                },
        }
    }
}

impl Clone for ToolApprovalRequest {
    /// Cloning keeps both identifiers.
    fn clone(&self) -> (res: ToolApprovalRequest)
        ensures
            res.deep_view() == self.deep_view(),
    {
        match self {
            ToolApprovalRequest::ToolApprovalRequest { approval_id, tool_call_id } =>
                ToolApprovalRequest::ToolApprovalRequest {
                    approval_id: approval_id.clone(),
                    tool_call_id: tool_call_id.clone(),
                },
        }
    }
}


/// The serialized shape of an approval request: its record tag and its two
/// ids under their interop names.
pub open spec fn approval_request_json(r: ToolApprovalRequestView) -> JSONValueView {
    JSONValueView::JSONObject(
        seq![
            JSONMemberView { key: "type"@, value: JSONValueView::String("tool-approval-request"@) },
            JSONMemberView { key: "approvalID"@, value: JSONValueView::String(r.approval_id) },
            JSONMemberView { key: "toolCallID"@, value: JSONValueView::String(r.tool_call_id) },
        ],
    )
}

impl ToolApprovalRequest {
    /// The request as a JSON object in its serialized shape.
    pub fn to_json(&self) -> (r: JSONValue)
        ensures
            r.deep_view() == approval_request_json(self.deep_view()),
    {
        let ToolApprovalRequest::ToolApprovalRequest { approval_id, tool_call_id } = self;
        let mut entries: Vec<(String, JSONValue)> = Vec::new();
        entries.push(("type".to_owned(), JSONValue::String("tool-approval-request".to_owned())));
        entries.push(("approvalID".to_owned(), JSONValue::String(approval_id.clone())));
        entries.push(("toolCallID".to_owned(), JSONValue::String(tool_call_id.clone())));
        let r = JSONValue::JSONObject(entries);
        proof {
            let m = r.deep_view()->JSONObject_0;
            assert(m.len() == 3);
            assert(entries@[0].0@ == "type"@ && entries@[0].1.deep_view()
                == JSONValueView::String("tool-approval-request"@));
            assert(entries@[1].0@ == "approvalID"@ && entries@[1].1.deep_view()
                == JSONValueView::String(approval_id@));
            assert(entries@[2].0@ == "toolCallID"@ && entries@[2].1.deep_view()
                == JSONValueView::String(tool_call_id@));
            assert(m[0] == approval_request_json(self.deep_view())->JSONObject_0[0]);
            assert(m[1] == approval_request_json(self.deep_view())->JSONObject_0[1]);
            assert(m[2] == approval_request_json(self.deep_view())->JSONObject_0[2]);
            assert(m =~= approval_request_json(self.deep_view())->JSONObject_0);
        }
        r
    }
}

/// The verdict on an approval request, recorded in a tool message.
#[derive(Debug)]
pub struct ToolApprovalResponse {
    pub approval_id: String,
    pub approved: bool,
    pub reason: Option<String>,
}

/// The mathematical shape of a [`ToolApprovalResponse`].
#[verifier::ext_equal]
pub ghost struct ToolApprovalResponseView {
    pub approval_id: Seq<char>,
    pub approved: bool,
    pub reason: Option<Seq<char>>,
}

impl DeepView for ToolApprovalResponse {
    type V = ToolApprovalResponseView;

    open spec fn deep_view(&self) -> ToolApprovalResponseView {
        ToolApprovalResponseView {
            approval_id: self.approval_id@,
            approved: self.approved,
            reason: match self.reason {
                Some(r) => Some(r@),
                None => None,
            },
        }
    }
}

impl Clone for ToolApprovalResponse {
    /// Cloning keeps the identifier, the verdict and the reason.
    fn clone(&self) -> (res: ToolApprovalResponse)
        ensures
            res.deep_view() == self.deep_view(),
    {
        ToolApprovalResponse {
            approval_id: self.approval_id.clone(),
            approved: self.approved,
            reason: match &self.reason {
                Some(r) => Some(r.clone()),
                None => None,
            },
        }
    }
}


/// The serialized shape of an approval response: its record tag, its id
/// under the deliberately snake-cased interop name, the verdict, and the
/// reason (null when absent).
pub open spec fn approval_response_json(r: ToolApprovalResponseView) -> JSONValueView {
    JSONValueView::JSONObject(
        seq![
            JSONMemberView {
                key: "type"@,
                value: JSONValueView::String("tool-approval-response"@),
            },
            JSONMemberView { key: "approval_id"@, value: JSONValueView::String(r.approval_id) },
            JSONMemberView { key: "approved"@, value: JSONValueView::Bool(r.approved) },
            JSONMemberView {
                key: "reason"@,
                value: match r.reason {
                    Some(t) => JSONValueView::String(t),
                    None => JSONValueView::Null,
                },
            },
        ],
    )
}

impl ToolApprovalResponse {
    /// The response as a JSON object in its serialized shape.
    pub fn to_json(&self) -> (r: JSONValue)
        ensures
            r.deep_view() == approval_response_json(self.deep_view()),
    {
        let mut entries: Vec<(String, JSONValue)> = Vec::new();
        entries.push(("type".to_owned(), JSONValue::String("tool-approval-response".to_owned())));
        entries.push(("approval_id".to_owned(), JSONValue::String(self.approval_id.clone())));
        entries.push(("approved".to_owned(), JSONValue::Bool(self.approved)));
        let reason = match &self.reason {
            Some(t) => JSONValue::String(t.clone()),
            None => JSONValue::Null,
        };
        entries.push(("reason".to_owned(), reason));
        let r = JSONValue::JSONObject(entries);
        proof {
            let m = r.deep_view()->JSONObject_0;
            let expected = approval_response_json(self.deep_view())->JSONObject_0;
            assert(m.len() == 4);
            assert(entries@[0].0@ == "type"@ && entries@[0].1.deep_view()
                == JSONValueView::String("tool-approval-response"@));
            assert(entries@[1].0@ == "approval_id"@ && entries@[1].1.deep_view()
                == JSONValueView::String(self.approval_id@));
            assert(entries@[2].0@ == "approved"@ && entries@[2].1.deep_view()
                == JSONValueView::Bool(self.approved));
            assert(entries@[3].0@ == "reason"@ && entries@[3].1.deep_view() == match self.deep_view().reason {
                Some(t) => JSONValueView::String(t),
                None => JSONValueView::Null,
            });
            assert(m[0] == expected[0]);
            assert(m[1] == expected[1]);
            assert(m[2] == expected[2]);
            assert(m[3] == expected[3]);
            assert(m =~= expected);
        }
        r
    }
}

#[derive(Debug)]
pub struct SystemModelMessage {
    pub role: String,
    pub content: String,
    pub provider_options: Option<ProviderOptions>,
}

#[derive(Debug)]
pub enum UserContent {
    String(String),
    Parts(Vec<UserContentPart>),
}

#[derive(Debug)]
pub enum UserContentPart {
    TextPart(TextPart),
    ImagePart(ImagePart),
    FilePart(FilePart),
}

#[derive(Debug)]
pub struct UserModelMessage {
    pub role: String,
    pub content: UserContent,
    pub provider_options: Option<ProviderOptions>,
}

#[derive(Debug)]
pub struct AssistantModelMessage {
    pub role: String,
    pub content: AssistantContent,
    pub provider_options: Option<ProviderOptions>,
}

#[derive(Debug)]
pub enum AssistantContent {
    String(String),
    Parts(Vec<AssistantContentPart>),
}

#[derive(Debug)]
pub enum AssistantContentPart {
    ContentPart(ContentPart),
    ToolApprovalRequest(ToolApprovalRequest),
}

/// A message holding tool results and approval responses.
#[derive(Debug)]
pub struct ToolModelMessage {
    pub content: Vec<ToolContentPart>,
    pub provider_options: Option<ProviderOptions>,
}

#[derive(Debug)]
pub enum ToolContentPart {
    ToolResult(ToolResultPart),
    ToolApproval(ToolApprovalResponse),
}

/// One message of a conversation transcript.
#[derive(Debug)]
pub enum ModelMessage {
    System(SystemModelMessage),
    User(UserModelMessage),
    Assistant(AssistantModelMessage),
    Tool(ToolModelMessage),
}

/// The ordered message history of a conversation.
pub type ModelMessages = Vec<ModelMessage>;

} // verus!
