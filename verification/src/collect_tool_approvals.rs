//! The approval correlator: joins approval requests (emitted by the
//! assistant) with approval responses from the newest tool message and with
//! the tool calls they reference, and produces disjoint approved/denied work
//! lists.
//!
//! Only the most recent message is consulted for approval responses: the
//! protocol records them as the content of the newest tool message. Tool
//! calls and approval requests are looked up across the whole transcript by
//! id, with the last occurrence winning.

use vstd::prelude::*;
use crate::messages::{
    AssistantContent, AssistantContentPart, ContentPart, ModelMessage, ModelMessages,
    ToolApprovalRequest, ToolApprovalRequestView, ToolApprovalResponse, ToolApprovalResponseView,
    ToolCallPart, ToolContentPart,
};
use crate::tool_call::{StaticToolCall, StaticToolCallView, TypedToolCall, TypedToolCallView};

verus! {

/// The join of an approval request, its response, and the referenced tool
/// call, for one `approval_id`.
#[derive(Debug)]
pub struct CollectedToolApprovals {
    pub approval_request: ToolApprovalRequest,
    pub approval_response: ToolApprovalResponse,
    pub tool_call: TypedToolCall,
}

/// The mathematical shape of a [`CollectedToolApprovals`].
#[verifier::ext_equal]
pub ghost struct CollectedToolApprovalsView {
    pub approval_request: ToolApprovalRequestView,
    pub approval_response: ToolApprovalResponseView,
    pub tool_call: TypedToolCallView,
}

impl DeepView for CollectedToolApprovals {
    type V = CollectedToolApprovalsView;

    open spec fn deep_view(&self) -> CollectedToolApprovalsView {
        CollectedToolApprovalsView {
            approval_request: self.approval_request.deep_view(),
            approval_response: self.approval_response.deep_view(),
            tool_call: self.tool_call.deep_view(),
        }
    }
}

/// The correlator's output: approved and denied work lists.
#[derive(Debug)]
pub struct ToolApprovalsResult {
    pub approved_tool_approvals: Vec<CollectedToolApprovals>,
    pub denied_tool_approvals: Vec<CollectedToolApprovals>,
}

/// The tool call that correlation emits for a matching tool-call part.
pub open spec fn call_view_of_part(p: ToolCallPart) -> StaticToolCallView {
    StaticToolCallView {
        tool_call_id: p.tool_call_id@,
        tool_name: p.tool_name@,
        input: p.input.deep_view(),
        dynamic: None,
        invalid: None,
        title: None,
    }
}

/// The content parts of an assistant message; empty for any other message
/// or for plain-string assistant content.
pub open spec fn assistant_parts(m: ModelMessage) -> Seq<AssistantContentPart> {
    match m {
        ModelMessage::Assistant(am) => match am.content {
            AssistantContent::Parts(parts) => parts@,
            _ => Seq::empty(),
        },
        _ => Seq::empty(),
    }
}

/// The last tool-call part with the given id among these parts, if any.
pub open spec fn find_call_in_parts(parts: Seq<AssistantContentPart>, id: Seq<char>) -> Option<
    StaticToolCallView,
>
    decreases parts.len(),
{
    if parts.len() == 0 {
        None
    } else {
        match parts.last() {
            AssistantContentPart::ContentPart(ContentPart::ToolCall(p)) => {
                if p.tool_call_id@ == id {
                    Some(call_view_of_part(p))
                } else {
                    find_call_in_parts(parts.drop_last(), id)
                }
            },
            _ => find_call_in_parts(parts.drop_last(), id),
        }
    }
}

/// The last tool-call part with the given id anywhere in the transcript's
/// assistant messages, if any (later occurrences win).
pub open spec fn find_tool_call_view(messages: Seq<ModelMessage>, id: Seq<char>) -> Option<
    StaticToolCallView,
>
    decreases messages.len(),
{
    if messages.len() == 0 {
        None
    } else {
        match find_call_in_parts(assistant_parts(messages.last()), id) {
            Some(c) => Some(c),
            None => find_tool_call_view(messages.drop_last(), id),
        }
    }
}

/// The last approval request with the given id among these parts, if any.
pub open spec fn find_request_in_parts(parts: Seq<AssistantContentPart>, id: Seq<char>) -> Option<
    ToolApprovalRequestView,
>
    decreases parts.len(),
{
    if parts.len() == 0 {
        None
    } else {
        match parts.last() {
            AssistantContentPart::ToolApprovalRequest(r) => {
                if r.deep_view().approval_id == id {
                    Some(r.deep_view())
                } else {
                    find_request_in_parts(parts.drop_last(), id)
                }
            },
            _ => find_request_in_parts(parts.drop_last(), id),
        }
    }
}

/// The last approval request with the given id anywhere in the transcript's
/// assistant messages, if any (later occurrences win).
pub open spec fn find_request_view(messages: Seq<ModelMessage>, id: Seq<char>) -> Option<
    ToolApprovalRequestView,
>
    decreases messages.len(),
{
    if messages.len() == 0 {
        None
    } else {
        match find_request_in_parts(assistant_parts(messages.last()), id) {
            Some(r) => Some(r),
            None => find_request_view(messages.drop_last(), id),
        }
    }
}

/// Whether this tool-content part is a tool result for the given call id.
pub open spec fn is_result_for(part: ToolContentPart, call_id: Seq<char>) -> bool {
    part matches ToolContentPart::ToolResult(p) && p.tool_call_id@ == call_id
}

/// Whether a tool result for the given call id is present among these parts.
pub open spec fn has_tool_result(content: Seq<ToolContentPart>, call_id: Seq<char>) -> bool {
    exists|i: int| 0 <= i < content.len() && #[trigger] is_result_for(content[i], call_id)
}

/// The content of the transcript's last message, when that message is a
/// tool message; empty otherwise.
pub open spec fn last_tool_content(messages: Seq<ModelMessage>) -> Seq<ToolContentPart> {
    if messages.len() == 0 {
        Seq::empty()
    } else {
        match messages.last() {
            ModelMessage::Tool(tm) => tm.content@,
            _ => Seq::empty(),
        }
    }
}

/// What correlation emits for one approval response: the joined record, or
/// nothing when the response has no matching request, references a call
/// that already has a tool result in the last tool message, or references a
/// call that does not exist.
pub open spec fn collected_view_of(messages: Seq<ModelMessage>, r: ToolApprovalResponse) -> Option<
    CollectedToolApprovalsView,
> {
    match find_request_view(messages, r.approval_id@) {
        None => None,
        Some(req) => {
            if has_tool_result(last_tool_content(messages), req.tool_call_id) {
                None
            } else {
                match find_tool_call_view(messages, req.tool_call_id) {
                    None => None,
                    Some(call) => Some(
                        CollectedToolApprovalsView {
                            approval_request: req,
                            approval_response: r.deep_view(),
                            tool_call: TypedToolCallView::Static(call),
                        },
                    ),
                }
            }
        },
    }
}

/// The records emitted for the approval responses among `content`, in
/// order, keeping those whose verdict equals `want_approved`.
pub open spec fn collected_with(
    messages: Seq<ModelMessage>,
    content: Seq<ToolContentPart>,
    want_approved: bool,
) -> Seq<CollectedToolApprovalsView>
    decreases content.len(),
{
    if content.len() == 0 {
        Seq::empty()
    } else {
        let prefix = collected_with(messages, content.drop_last(), want_approved);
        match content.last() {
            ToolContentPart::ToolApproval(r) => {
                if r.approved == want_approved {
                    match collected_view_of(messages, r) {
                        Some(c) => prefix.push(c),
                        None => prefix,
                    }
                } else {
                    prefix
                }
            },
            _ => prefix,
        }
    }
}

/// The approved work list that correlation owes for this transcript.
pub open spec fn approved_approvals_of(messages: Seq<ModelMessage>) -> Seq<
    CollectedToolApprovalsView,
> {
    collected_with(messages, last_tool_content(messages), true)
}

/// The denied work list that correlation owes for this transcript.
pub open spec fn denied_approvals_of(messages: Seq<ModelMessage>) -> Seq<
    CollectedToolApprovalsView,
> {
    collected_with(messages, last_tool_content(messages), false)
}

/// Looks a tool call up by id across all assistant messages, later
/// occurrences winning, and returns it converted to the emitted form.
#[verifier::loop_isolation(false)]
fn find_call_in_parts_exec(parts: &Vec<AssistantContentPart>, id: &String) -> (r: Option<
    StaticToolCall,
>)
    ensures
        match r {
            Some(c) => find_call_in_parts(parts@, id@) == Some(c.deep_view()),
            None => find_call_in_parts(parts@, id@) is None,
        },
{
    let mut i: usize = parts.len();
    proof {
        assert(parts@.take(parts@.len() as int) =~= parts@);
    }
    while i > 0
        invariant
            i <= parts.len(),
            find_call_in_parts(parts@, id@) == find_call_in_parts(parts@.take(i as int), id@),
        decreases i,
    {
        i = i - 1;
        proof {
            assert(parts@.take(i as int + 1).last() == parts@[i as int]);
            assert(parts@.take(i as int + 1).drop_last() =~= parts@.take(i as int));
        }
        if let AssistantContentPart::ContentPart(ContentPart::ToolCall(p)) = &parts[i] {
            if p.tool_call_id == *id {
                let call = StaticToolCall {
                    tool_call_id: p.tool_call_id.clone(),
                    tool_name: p.tool_name.clone(),
                    input: p.input.clone(),
                    dynamic: None,
                    invalid: None,
                    title: None,
                };
                proof {
                    assert(call.deep_view() =~= call_view_of_part(*p));
                }
                return Some(call);
            }
        }
    }
    None
}

/// Looks an approval request up by id among these parts, later occurrences
/// winning.
#[verifier::loop_isolation(false)]
fn find_request_in_parts_exec(parts: &Vec<AssistantContentPart>, id: &String) -> (r: Option<
    ToolApprovalRequest,
>)
    ensures
        match r {
            Some(req) => find_request_in_parts(parts@, id@) == Some(req.deep_view()),
            None => find_request_in_parts(parts@, id@) is None,
        },
{
    let mut i: usize = parts.len();
    proof {
        assert(parts@.take(parts@.len() as int) =~= parts@);
    }
    while i > 0
        invariant
            i <= parts.len(),
            find_request_in_parts(parts@, id@) == find_request_in_parts(
                parts@.take(i as int),
                id@,
            ),
        decreases i,
    {
        i = i - 1;
        proof {
            assert(parts@.take(i as int + 1).last() == parts@[i as int]);
            assert(parts@.take(i as int + 1).drop_last() =~= parts@.take(i as int));
        }
        if let AssistantContentPart::ToolApprovalRequest(req) = &parts[i] {
            let matches_id = match req {
                ToolApprovalRequest::ToolApprovalRequest { approval_id, .. } => *approval_id == *id,
            };
            if matches_id {
                return Some(req.clone());
            }
        }
    }
    None
}

/// Looks a tool call up by id across the whole transcript, later
/// occurrences winning.
#[verifier::loop_isolation(false)]
fn find_tool_call_exec(messages: &ModelMessages, id: &String) -> (r: Option<StaticToolCall>)
    ensures
        match r {
            Some(c) => find_tool_call_view(messages@, id@) == Some(c.deep_view()),
            None => find_tool_call_view(messages@, id@) is None,
        },
{
    let mut i: usize = messages.len();
    proof {
        assert(messages@.take(messages@.len() as int) =~= messages@);
    }
    while i > 0
        invariant
            i <= messages.len(),
            find_tool_call_view(messages@, id@) == find_tool_call_view(
                messages@.take(i as int),
                id@,
            ),
        decreases i,
    {
        i = i - 1;
        proof {
            assert(messages@.take(i as int + 1).last() == messages@[i as int]);
            assert(messages@.take(i as int + 1).drop_last() =~= messages@.take(i as int));
        }
        if let ModelMessage::Assistant(am) = &messages[i] {
            if let AssistantContent::Parts(parts) = &am.content {
                if let Some(c) = find_call_in_parts_exec(parts, id) {
                    return Some(c);
                }
            }
        }
    }
    None
}

/// Looks an approval request up by id across the whole transcript, later
/// occurrences winning.
#[verifier::loop_isolation(false)]
fn find_request_exec(messages: &ModelMessages, id: &String) -> (r: Option<ToolApprovalRequest>)
    ensures
        match r {
            Some(req) => find_request_view(messages@, id@) == Some(req.deep_view()),
            None => find_request_view(messages@, id@) is None,
        },
{
    let mut i: usize = messages.len();
    proof {
        assert(messages@.take(messages@.len() as int) =~= messages@);
    }
    while i > 0
        invariant
            i <= messages.len(),
            find_request_view(messages@, id@) == find_request_view(messages@.take(i as int), id@),
        decreases i,
    {
        i = i - 1;
        proof {
            assert(messages@.take(i as int + 1).last() == messages@[i as int]);
            assert(messages@.take(i as int + 1).drop_last() =~= messages@.take(i as int));
        }
        if let ModelMessage::Assistant(am) = &messages[i] {
            if let AssistantContent::Parts(parts) = &am.content {
                if let Some(req) = find_request_in_parts_exec(parts, id) {
                    return Some(req);
                }
            }
        }
    }
    None
}

/// Whether any part of this content is a tool result for the given call id.
#[verifier::loop_isolation(false)]
fn has_tool_result_exec(content: &Vec<ToolContentPart>, call_id: &String) -> (r: bool)
    ensures
        r == has_tool_result(content@, call_id@),
{
    let mut i: usize = 0;
    while i < content.len()
        invariant
            i <= content.len(),
            forall|j: int| 0 <= j < i ==> !is_result_for(content@[j], call_id@),
        decreases content.len() - i,
    {
        if let ToolContentPart::ToolResult(p) = &content[i] {
            if p.tool_call_id == *call_id {
                proof {
                    assert(is_result_for(content@[i as int], call_id@));
                }
                return true;
            }
        }
        proof {
            assert(!is_result_for(content@[i as int], call_id@));
        }
        i = i + 1;
    }
    false
}

/// Scans the transcript and correlates every approval response in the
/// newest tool message with its approval request and tool call.
///
/// If the transcript is empty or its last message is not a tool message,
/// both lists are empty: there is nothing to resolve this turn. A response
/// with no matching request, one whose call already has a tool result in
/// the same message, and one whose call cannot be found are all skipped.
/// The lists preserve the order in which the responses appear.
#[verifier::loop_isolation(false)]
pub fn collect_tool_approvals(messages: &ModelMessages) -> (r: ToolApprovalsResult)
    ensures
        r.approved_tool_approvals.deep_view() == approved_approvals_of(messages@),
        r.denied_tool_approvals.deep_view() == denied_approvals_of(messages@),
{
    let n = messages.len();
    if n == 0 {
        let r = ToolApprovalsResult {
            approved_tool_approvals: Vec::new(),
            denied_tool_approvals: Vec::new(),
        };
        proof {
            assert(r.approved_tool_approvals.deep_view() =~= approved_approvals_of(messages@));
            assert(r.denied_tool_approvals.deep_view() =~= denied_approvals_of(messages@));
        }
        return r;
    }

    let last_message = &messages[n - 1];
    let tool_message = match last_message {
        ModelMessage::Tool(m) => m,
        _ => {
            let r = ToolApprovalsResult {
                approved_tool_approvals: Vec::new(),
                denied_tool_approvals: Vec::new(),
            };
            proof {
                assert(last_tool_content(messages@) =~= Seq::<ToolContentPart>::empty());
                assert(r.approved_tool_approvals.deep_view() =~= approved_approvals_of(messages@));
                assert(r.denied_tool_approvals.deep_view() =~= denied_approvals_of(messages@));
            }
            return r;
        },
    };
    proof {
        assert(last_tool_content(messages@) == tool_message.content@);
    }

    let mut approved_tool_approvals: Vec<CollectedToolApprovals> = Vec::new();
    let mut denied_tool_approvals: Vec<CollectedToolApprovals> = Vec::new();

    let content = &tool_message.content;
    let mut i: usize = 0;
    proof {
        assert(content@.take(0) =~= Seq::<ToolContentPart>::empty());
        assert(approved_tool_approvals.deep_view() =~= collected_with(
            messages@,
            content@.take(0),
            true,
        ));
        assert(denied_tool_approvals.deep_view() =~= collected_with(
            messages@,
            content@.take(0),
            false,
        ));
    }
    while i < content.len()
        invariant
            i <= content.len(),
            approved_tool_approvals.deep_view() == collected_with(
                messages@,
                content@.take(i as int),
                true,
            ),
            denied_tool_approvals.deep_view() == collected_with(
                messages@,
                content@.take(i as int),
                false,
            ),
        decreases content.len() - i,
    {
        proof {
            assert(content@.take(i as int + 1).last() == content@[i as int]);
            assert(content@.take(i as int + 1).drop_last() =~= content@.take(i as int));
        }
        if let ToolContentPart::ToolApproval(approval_response) = &content[i] {
            let mut emitted: Option<CollectedToolApprovals> = None;
            if let Some(approval_request) = find_request_exec(
                messages,
                &approval_response.approval_id,
            ) {
                let request_call_id = match &approval_request {
                    ToolApprovalRequest::ToolApprovalRequest { tool_call_id, .. } => tool_call_id,
                };
                if !has_tool_result_exec(content, request_call_id) {
                    if let Some(tool_call) = find_tool_call_exec(messages, request_call_id) {
                        emitted = Some(
                            CollectedToolApprovals {
                                approval_request: approval_request.clone(),
                                approval_response: approval_response.clone(),
                                tool_call: TypedToolCall::Static(tool_call),
                            },
                        );
                    }
                }
            }
            proof {
                if emitted is Some {
                    assert(collected_view_of(messages@, *approval_response) == Some(
                        emitted->Some_0.deep_view(),
                    ));
                } else {
                    assert(collected_view_of(messages@, *approval_response) is None);
                }
            }
            if let Some(collected) = emitted {
                let ghost approved_before = approved_tool_approvals.deep_view();
                let ghost denied_before = denied_tool_approvals.deep_view();
                let ghost collected_dv = collected.deep_view();
                if approval_response.approved {
                    approved_tool_approvals.push(collected);
                    proof {
                        assert(approved_tool_approvals.deep_view() =~= approved_before.push(
                            collected_dv,
                        ));
                    }
                } else {
                    denied_tool_approvals.push(collected);
                    proof {
                        assert(denied_tool_approvals.deep_view() =~= denied_before.push(
                            collected_dv,
                        ));
                    }
                }
            }
        }
        i = i + 1;
    }
    proof {
        assert(content@.take(content@.len() as int) =~= content@);
    }
    ToolApprovalsResult { approved_tool_approvals, denied_tool_approvals }
}


/// The records emitted for the approval responses among `content`, in
/// order, regardless of verdict.
pub open spec fn collected_all(messages: Seq<ModelMessage>, content: Seq<ToolContentPart>) -> Seq<
    CollectedToolApprovalsView,
>
    decreases content.len(),
{
    if content.len() == 0 {
        Seq::empty()
    } else {
        let prefix = collected_all(messages, content.drop_last());
        match content.last() {
            ToolContentPart::ToolApproval(r) => match collected_view_of(messages, r) {
                Some(c) => prefix.push(c),
                None => prefix,
            },
            _ => prefix,
        }
    }
}

/// Law: correlating an empty transcript, or one whose last message is not a
/// tool message, yields empty approved and denied lists.
pub proof fn lemma_without_last_tool_message_no_approvals(messages: Seq<ModelMessage>)
    requires
        messages.len() == 0 || !(messages.last() matches ModelMessage::Tool(_)),
    ensures
        approved_approvals_of(messages) == Seq::<CollectedToolApprovalsView>::empty(),
        denied_approvals_of(messages) == Seq::<CollectedToolApprovalsView>::empty(),
{
    assert(last_tool_content(messages) =~= Seq::<ToolContentPart>::empty());
}

proof fn lemma_unmatched_response_excluded_from(
    messages: Seq<ModelMessage>,
    content: Seq<ToolContentPart>,
    want_approved: bool,
    approval_id: Seq<char>,
)
    requires
        find_request_view(messages, approval_id) is None,
    ensures
        forall|k: int|
            0 <= k < collected_with(messages, content, want_approved).len()
                ==> #[trigger] collected_with(
                messages,
                content,
                want_approved,
            )[k].approval_response.approval_id != approval_id,
    decreases content.len(),
{
    if content.len() > 0 {
        lemma_unmatched_response_excluded_from(
            messages,
            content.drop_last(),
            want_approved,
            approval_id,
        );
        let s = collected_with(messages, content, want_approved);
        let p = collected_with(messages, content.drop_last(), want_approved);
        assert forall|k: int| 0 <= k < s.len() implies #[trigger] s[k].approval_response.approval_id
            != approval_id by {
            if k < p.len() {
                assert(s[k] == p[k]);
            }
        }
    }
}

/// Law: an approval response whose id has no matching approval request
/// never appears in either output list.
pub proof fn lemma_unmatched_response_excluded(messages: Seq<ModelMessage>, approval_id: Seq<char>)
    requires
        find_request_view(messages, approval_id) is None,
    ensures
        forall|k: int|
            0 <= k < approved_approvals_of(messages).len() ==> #[trigger] approved_approvals_of(
                messages,
            )[k].approval_response.approval_id != approval_id,
        forall|k: int|
            0 <= k < denied_approvals_of(messages).len() ==> #[trigger] denied_approvals_of(
                messages,
            )[k].approval_response.approval_id != approval_id,
{
    lemma_unmatched_response_excluded_from(
        messages,
        last_tool_content(messages),
        true,
        approval_id,
    );
    lemma_unmatched_response_excluded_from(
        messages,
        last_tool_content(messages),
        false,
        approval_id,
    );
}

proof fn lemma_resolved_call_excluded_from(
    messages: Seq<ModelMessage>,
    content: Seq<ToolContentPart>,
    want_approved: bool,
    call_id: Seq<char>,
)
    requires
        has_tool_result(last_tool_content(messages), call_id),
    ensures
        forall|k: int|
            0 <= k < collected_with(messages, content, want_approved).len()
                ==> #[trigger] collected_with(
                messages,
                content,
                want_approved,
            )[k].approval_request.tool_call_id != call_id,
    decreases content.len(),
{
    if content.len() > 0 {
        lemma_resolved_call_excluded_from(
            messages,
            content.drop_last(),
            want_approved,
            call_id,
        );
        let s = collected_with(messages, content, want_approved);
        let p = collected_with(messages, content.drop_last(), want_approved);
        assert forall|k: int| 0 <= k < s.len() implies #[trigger] s[k].approval_request.tool_call_id
            != call_id by {
            if k < p.len() {
                assert(s[k] == p[k]);
            }
        }
    }
}

/// Law: a tool call that already has a tool result in the last tool message
/// is excluded from both output lists, whatever its approval responses say;
/// running correlation again after a result is recorded yields no duplicate
/// work.
pub proof fn lemma_resolved_call_excluded(messages: Seq<ModelMessage>, call_id: Seq<char>)
    requires
        has_tool_result(last_tool_content(messages), call_id),
    ensures
        forall|k: int|
            0 <= k < approved_approvals_of(messages).len() ==> #[trigger] approved_approvals_of(
                messages,
            )[k].approval_request.tool_call_id != call_id,
        forall|k: int|
            0 <= k < denied_approvals_of(messages).len() ==> #[trigger] denied_approvals_of(
                messages,
            )[k].approval_request.tool_call_id != call_id,
{
    lemma_resolved_call_excluded_from(messages, last_tool_content(messages), true, call_id);
    lemma_resolved_call_excluded_from(messages, last_tool_content(messages), false, call_id);
}

proof fn lemma_partition_and_order_from(messages: Seq<ModelMessage>, content: Seq<ToolContentPart>)
    ensures
        collected_with(messages, content, true) == collected_all(messages, content).filter(
            |c: CollectedToolApprovalsView| c.approval_response.approved,
        ),
        collected_with(messages, content, false) == collected_all(messages, content).filter(
            |c: CollectedToolApprovalsView| !c.approval_response.approved,
        ),
        collected_with(messages, content, true).len() + collected_with(
            messages,
            content,
            false,
        ).len() == collected_all(messages, content).len(),
    decreases content.len(),
{
    reveal(Seq::filter);
    let keep = |c: CollectedToolApprovalsView| c.approval_response.approved;
    let drop = |c: CollectedToolApprovalsView| !c.approval_response.approved;
    if content.len() == 0 {
        assert(collected_all(messages, content).filter(keep) =~= Seq::<
            CollectedToolApprovalsView,
        >::empty());
        assert(collected_all(messages, content).filter(drop) =~= Seq::<
            CollectedToolApprovalsView,
        >::empty());
    } else {
        lemma_partition_and_order_from(messages, content.drop_last());
        let all_prefix = collected_all(messages, content.drop_last());
        let all_here = collected_all(messages, content);
        match content.last() {
            ToolContentPart::ToolApproval(r) => {
                match collected_view_of(messages, r) {
                    Some(c) => {
                        assert(all_here == all_prefix.push(c));
                        assert(all_prefix.push(c).drop_last() =~= all_prefix);
                        assert(all_prefix.push(c).last() == c);
                        assert(c.approval_response.approved == r.approved);
                    },
                    None => {
                        assert(all_here == all_prefix);
                    },
                }
            },
            _ => {
                assert(all_here == all_prefix);
            },
        }
    }
}

/// Law: every emitted record appears in exactly one of the two lists,
/// partitioned by the `approved` verdict of its approval response, and each
/// list keeps the order in which the matching approval responses appear in
/// the last tool message.
pub proof fn lemma_partition_and_order(messages: Seq<ModelMessage>)
    ensures
        approved_approvals_of(messages) == collected_all(
            messages,
            last_tool_content(messages),
        ).filter(|c: CollectedToolApprovalsView| c.approval_response.approved),
        denied_approvals_of(messages) == collected_all(
            messages,
            last_tool_content(messages),
        ).filter(|c: CollectedToolApprovalsView| !c.approval_response.approved),
        approved_approvals_of(messages).len() + denied_approvals_of(messages).len()
            == collected_all(messages, last_tool_content(messages)).len(),
{
    lemma_partition_and_order_from(messages, last_tool_content(messages));
}


proof fn lemma_collected_verdicts_from(
    messages: Seq<ModelMessage>,
    content: Seq<ToolContentPart>,
    want_approved: bool,
)
    ensures
        forall|k: int|
            0 <= k < collected_with(messages, content, want_approved).len()
                ==> #[trigger] collected_with(
                messages,
                content,
                want_approved,
            )[k].approval_response.approved == want_approved,
    decreases content.len(),
{
    if content.len() > 0 {
        lemma_collected_verdicts_from(messages, content.drop_last(), want_approved);
        let s = collected_with(messages, content, want_approved);
        let p = collected_with(messages, content.drop_last(), want_approved);
        assert forall|k: int| 0 <= k < s.len() implies #[trigger] s[k].approval_response.approved
            == want_approved by {
            if k < p.len() {
                assert(s[k] == p[k]);
            }
        }
    }
}

/// Law: every record in the approved list carries an approving response and
/// every record in the denied list a denying one, so no record can stand in
/// both lists.
pub proof fn lemma_verdicts_split_the_lists(messages: Seq<ModelMessage>)
    ensures
        forall|k: int|
            0 <= k < approved_approvals_of(messages).len() ==> #[trigger] approved_approvals_of(
                messages,
            )[k].approval_response.approved,
        forall|k: int|
            0 <= k < denied_approvals_of(messages).len() ==> !#[trigger] denied_approvals_of(
                messages,
            )[k].approval_response.approved,
{
    lemma_collected_verdicts_from(messages, last_tool_content(messages), true);
    lemma_collected_verdicts_from(messages, last_tool_content(messages), false);
}

} // verus!
