//! The execution pipeline: given one resolved tool call, invokes the
//! registered execution capability, consumes its normalized output sequence,
//! surfaces preliminary results as they arrive, and produces a final result
//! or a typed error record.
//!
//! A tool that is absent from the registry, or has no execution capability,
//! produces no output at all: the caller must treat an absent result as
//! "not executable", not as failure. Once execution starts, the pipeline
//! produces an envelope for every outcome except an empty incremental
//! sequence, which yields nothing.

use vstd::prelude::*;
use crate::json_value::{JSONValue, JSONValueView};
use crate::messages::ModelMessages;
use crate::tool::{spec_get_tool, ToolExecute, ToolExecutionOptions, ToolSet};
use crate::execute_tool::{execute_tool, normalized_outputs, ToolOutput as ToolOutputPart};
use crate::tool_call::TypedToolCall;
use crate::tool_error::{DynamicToolError, StaticToolError, TypedToolError, TypedToolErrorView};
use crate::tool_error::default_tool_error_type;
use crate::tool_output::{ToolOutput, ToolOutputView};
use crate::tool_result::{DynamicToolResult, StaticToolResult, TypedToolResult, TypedToolResultView};
use crate::tool_result::default_tool_result_type;

verus! {

/// The result envelope owed for this call and output value, tagged to
/// mirror the call's static/dynamic discrimination.
pub open spec fn result_envelope_view(
    call: TypedToolCall,
    output: JSONValueView,
    preliminary: Option<bool>,
) -> TypedToolResultView {
    if call.spec_is_dynamic() {
        TypedToolResultView::Dynamic(
            crate::tool_result::DynamicToolResultView {
                kind: "tool-result"@,
                tool_call_id: call.spec_tool_call_id(),
                tool_name: call.spec_tool_name(),
                input: call.spec_input(),
                output: output,
                provider_executed: None,
                provider_metadata: None,
                dynamic: true,
                preliminary: preliminary,
                title: None,
            },
        )
    } else {
        TypedToolResultView::Static(
            crate::tool_result::StaticToolResultView {
                kind: "tool-result"@,
                tool_call_id: call.spec_tool_call_id(),
                tool_name: call.spec_tool_name(),
                input: call.spec_input(),
                output: output,
                provider_executed: None,
                provider_metadata: None,
                dynamic: None,
                preliminary: preliminary,
                title: None,
            },
        )
    }
}

/// The error envelope owed for this call and failure message, tagged to
/// mirror the call's static/dynamic discrimination. The failure is rendered
/// as an opaque JSON string value.
pub open spec fn error_envelope_view(call: TypedToolCall, message: Seq<char>) -> TypedToolErrorView {
    if call.spec_is_dynamic() {
        TypedToolErrorView::Dynamic(
            crate::tool_error::DynamicToolErrorView {
                kind: "tool-error"@,
                tool_call_id: call.spec_tool_call_id(),
                tool_name: call.spec_tool_name(),
                input: call.spec_input(),
                error: JSONValueView::String(message),
                provider_executed: None,
                provider_metadata: None,
                dynamic: true,
                title: None,
            },
        )
    } else {
        TypedToolErrorView::Static(
            crate::tool_error::StaticToolErrorView {
                kind: "tool-error"@,
                tool_call_id: call.spec_tool_call_id(),
                tool_name: call.spec_tool_name(),
                input: call.spec_input(),
                error: JSONValueView::String(message),
                provider_executed: None,
                provider_metadata: None,
                dynamic: None,
                title: None,
            },
        )
    }
}

/// What consuming a normalized output sequence leaves behind: the
/// preliminary result envelopes surfaced along the way, and the terminal
/// envelope, if any.
#[verifier::ext_equal]
pub ghost struct CollectedOutputsView {
    pub preliminary_results: Seq<TypedToolResultView>,
    pub output: Option<ToolOutputView>,
}

/// Consumes a normalized output sequence from the front. `pending` is the
/// most recently seen final value: only that one matters. A preliminary
/// output is surfaced and not retained; a failure immediately terminates
/// consumption with an error envelope and no further outputs are consumed;
/// at the end, the most recent final value (if any) becomes the terminal
/// result envelope.
pub open spec fn collect_from(
    call: TypedToolCall,
    parts: Seq<Result<ToolOutputPart<JSONValue>, String>>,
    pending: Option<JSONValueView>,
) -> CollectedOutputsView
    decreases parts.len(),
{
    if parts.len() == 0 {
        CollectedOutputsView {
            preliminary_results: Seq::empty(),
            output: match pending {
                Some(o) => Some(ToolOutputView::Result(result_envelope_view(call, o, None))),
                None => None,
            },
        }
    } else {
        match parts.first() {
            Ok(ToolOutputPart::Preliminary(v)) => {
                let rest = collect_from(call, parts.drop_first(), pending);
                CollectedOutputsView {
                    preliminary_results: seq![
                        result_envelope_view(call, v.deep_view(), Some(true)),
                    ] + rest.preliminary_results,
                    output: rest.output,
                }
            },
            Ok(ToolOutputPart::Final(v)) => collect_from(
                call,
                parts.drop_first(),
                Some(v.deep_view()),
            ),
            Err(e) => CollectedOutputsView {
                preliminary_results: Seq::empty(),
                output: Some(ToolOutputView::Error(error_envelope_view(call, e@))),
            },
        }
    }
}

/// What consuming a normalized output sequence owes, starting with no final
/// value seen.
pub open spec fn collected_outputs_of(
    call: TypedToolCall,
    parts: Seq<Result<ToolOutputPart<JSONValue>, String>>,
) -> CollectedOutputsView {
    collect_from(call, parts, None)
}

/// Builds the result envelope for this call and output value.
fn build_result_envelope(
    tool_call: &TypedToolCall,
    output: JSONValue,
    preliminary: Option<bool>,
) -> (r: TypedToolResult)
    ensures
        r.deep_view() == result_envelope_view(*tool_call, output.deep_view(), preliminary),
{
    if tool_call.is_dynamic() {
        let r = TypedToolResult::Dynamic(
            DynamicToolResult {
                kind: default_tool_result_type(),
                tool_call_id: tool_call.tool_call_id().clone(),
                tool_name: tool_call.tool_name().clone(),
                input: tool_call.input().clone(),
                output,
                provider_executed: None,
                provider_metadata: None,
                dynamic: true,
                preliminary,
                title: None,
            },
        );
        proof {
            assert(r.deep_view() =~= result_envelope_view(
                *tool_call,
                output.deep_view(),
                preliminary,
            ));
        }
        r
    } else {
        let r = TypedToolResult::Static(
            StaticToolResult {
                kind: default_tool_result_type(),
                tool_call_id: tool_call.tool_call_id().clone(),
                tool_name: tool_call.tool_name().clone(),
                input: tool_call.input().clone(),
                output,
                provider_executed: None,
                provider_metadata: None,
                dynamic: None,
                preliminary,
                title: None,
            },
        );
        proof {
            assert(r.deep_view() =~= result_envelope_view(
                *tool_call,
                output.deep_view(),
                preliminary,
            ));
        }
        r
    }
}

/// Builds the error envelope for this call and failure message.
fn build_error_envelope(tool_call: &TypedToolCall, message: &String) -> (r: TypedToolError)
    ensures
        r.deep_view() == error_envelope_view(*tool_call, message@),
{
    if tool_call.is_dynamic() {
        let r = TypedToolError::Dynamic(
            DynamicToolError {
                kind: default_tool_error_type(),
                tool_call_id: tool_call.tool_call_id().clone(),
                tool_name: tool_call.tool_name().clone(),
                input: tool_call.input().clone(),
                error: JSONValue::String(message.clone()),
                provider_executed: None,
                provider_metadata: None,
                dynamic: true,
                title: None,
            },
        );
        proof {
            assert(r.deep_view() =~= error_envelope_view(*tool_call, message@));
        }
        r
    } else {
        let r = TypedToolError::Static(
            StaticToolError {
                kind: default_tool_error_type(),
                tool_call_id: tool_call.tool_call_id().clone(),
                tool_name: tool_call.tool_name().clone(),
                input: tool_call.input().clone(),
                error: JSONValue::String(message.clone()),
                provider_executed: None,
                provider_metadata: None,
                dynamic: None,
                title: None,
            },
        );
        proof {
            assert(r.deep_view() =~= error_envelope_view(*tool_call, message@));
        }
        r
    }
}

/// Consumes a normalized output sequence and produces the preliminary
/// result envelopes in order, together with the terminal envelope, if any.
#[verifier::loop_isolation(false)]
pub fn collect_tool_call_outputs(
    tool_call: &TypedToolCall,
    parts: &Vec<Result<ToolOutputPart<JSONValue>, String>>,
) -> (r: (Vec<TypedToolResult>, Option<ToolOutput>))
    ensures
        r.0.deep_view() == collected_outputs_of(*tool_call, parts@).preliminary_results,
        match r.1 {
            Some(out) => collected_outputs_of(*tool_call, parts@).output == Some(out.deep_view()),
            None => collected_outputs_of(*tool_call, parts@).output is None,
        },
{
    let ghost total = collected_outputs_of(*tool_call, parts@);
    let mut preliminary_results: Vec<TypedToolResult> = Vec::new();
    let mut pending: Option<JSONValue> = None;
    let ghost pending_dv = None::<JSONValueView>;
    let mut i: usize = 0;
    proof {
        assert(parts@.skip(0) =~= parts@);
        assert(Seq::<TypedToolResultView>::empty() + total.preliminary_results
            =~= total.preliminary_results);
    }
    while i < parts.len()
        invariant
            i <= parts.len(),
            pending_dv == match pending {
                Some(v) => Some(v.deep_view()),
                None => None::<JSONValueView>,
            },
            total.preliminary_results == preliminary_results.deep_view() + collect_from(
                *tool_call,
                parts@.skip(i as int),
                pending_dv,
            ).preliminary_results,
            total.output == collect_from(*tool_call, parts@.skip(i as int), pending_dv).output,
        decreases parts.len() - i,
    {
        proof {
            assert(parts@.skip(i as int).first() == parts@[i as int]);
            assert(parts@.skip(i as int).drop_first() =~= parts@.skip(i as int + 1));
        }
        match &parts[i] {
            Ok(ToolOutputPart::Preliminary(v)) => {
                let envelope = build_result_envelope(tool_call, v.clone(), Some(true));
                let ghost emitted_before = preliminary_results.deep_view();
                let ghost envelope_dv = envelope.deep_view();
                preliminary_results.push(envelope);
                proof {
                    assert(preliminary_results.deep_view() =~= emitted_before.push(envelope_dv));
                    assert(emitted_before + (seq![envelope_dv] + collect_from(
                        *tool_call,
                        parts@.skip(i as int + 1),
                        pending_dv,
                    ).preliminary_results) =~= preliminary_results.deep_view() + collect_from(
                        *tool_call,
                        parts@.skip(i as int + 1),
                        pending_dv,
                    ).preliminary_results);
                }
            },
            Ok(ToolOutputPart::Final(v)) => {
                pending = Some(v.clone());
                proof {
                    pending_dv = Some(v.deep_view());
                }
            },
            Err(e) => {
                let envelope = build_error_envelope(tool_call, e);
                let ghost envelope_dv = envelope.deep_view();
                proof {
                    assert(preliminary_results.deep_view() + Seq::<TypedToolResultView>::empty()
                        =~= preliminary_results.deep_view());
                }
                return (preliminary_results, Some(ToolOutput::Error(envelope)));
            },
        }
        i = i + 1;
    }
    proof {
        assert(parts@.skip(parts@.len() as int) =~= Seq::<
            Result<ToolOutputPart<JSONValue>, String>,
        >::empty());
        assert(preliminary_results.deep_view() + Seq::<TypedToolResultView>::empty()
            =~= preliminary_results.deep_view());
    }
    match pending {
        Some(v) => {
            let envelope = build_result_envelope(tool_call, v, None);
            (preliminary_results, Some(ToolOutput::Result(envelope)))
        },
        None => (preliminary_results, None),
    }
}

/// Whatever sequence is consumed and whatever final value was pending, the
/// terminal envelope (when present) is a result or error envelope for this
/// very call: same id, name and input, matching static/dynamic tag.
proof fn lemma_collected_output_shape(
    call: TypedToolCall,
    parts: Seq<Result<ToolOutputPart<JSONValue>, String>>,
    pending: Option<JSONValueView>,
)
    ensures
        collect_from(call, parts, pending).output matches Some(out) ==> (exists|o: JSONValueView|
            out == ToolOutputView::Result(result_envelope_view(call, o, None))) || (exists|
            m: Seq<char>,
        |
            out == ToolOutputView::Error(error_envelope_view(call, m))),
    decreases parts.len(),
{
    if parts.len() == 0 {
        if pending is Some {
            let o = pending->Some_0;
            assert(collect_from(call, parts, pending).output == Some(
                ToolOutputView::Result(result_envelope_view(call, o, None)),
            ));
        }
    } else {
        match parts.first() {
            Ok(ToolOutputPart::Preliminary(_)) => {
                lemma_collected_output_shape(call, parts.drop_first(), pending);
            },
            Ok(ToolOutputPart::Final(v)) => {
                lemma_collected_output_shape(call, parts.drop_first(), Some(v.deep_view()));
            },
            Err(e) => {
                assert(collect_from(call, parts, pending).output == Some(
                    ToolOutputView::Error(error_envelope_view(call, e@)),
                ));
            },
        }
    }
}

/// Resolves the tool, invokes its execution capability, surfaces each
/// preliminary result through the callback in order, and returns the
/// terminal envelope.
///
/// Returns `None` when the tool is absent from the registry or has no
/// execution capability, whatever the input; and when the capability's
/// incremental sequence produced no values and no failure. Any returned
/// envelope carries this call's id, name and input, tagged to match the
/// call.
#[verifier::loop_isolation(false)]
pub fn execute_tool_call<Ex: ToolExecute, P, F: Fn(TypedToolResult)>(
    tool_call: TypedToolCall,
    tools: &ToolSet<Ex, P>,
    messages: ModelMessages,
    abort_signal: Option<JSONValue>,
    experimental_context: Option<JSONValue>,
    on_preliminary_tool_result: Option<F>,
) -> (r: Option<ToolOutput>)
    requires
        on_preliminary_tool_result matches Some(f) ==> forall|t: TypedToolResult| #[trigger]
            call_requires(f, (t,)),
    ensures
        spec_get_tool(tools.tools@, tool_call.spec_tool_name()) is None ==> r is None,
        (spec_get_tool(tools.tools@, tool_call.spec_tool_name()) matches Some(t) && t.execute
            is None) ==> r is None,
        r is Some ==> (spec_get_tool(tools.tools@, tool_call.spec_tool_name()) matches Some(t)
            && t.execute is Some),
        r matches Some(out) ==> (exists|o: JSONValueView|
            out.deep_view() == ToolOutputView::Result(result_envelope_view(tool_call, o, None)))
            || (exists|m: Seq<char>|
            out.deep_view() == ToolOutputView::Error(error_envelope_view(tool_call, m))),
{
    let tool = match tools.get(tool_call.tool_name()) {
        Some(t) => t,
        None => {
            return None;
        },
    };
    let execute = match &tool.execute {
        Some(e) => e,
        None => {
            return None;
        },
    };

    let input = tool_call.input().clone();
    let options = ToolExecutionOptions {
        tool_call_id: tool_call.tool_call_id().clone(),
        messages,
        abort_signal,
        experimental_context,
    };
    let parts = execute_tool(execute, input, options);
    let collected = collect_tool_call_outputs(&tool_call, &parts);
    let mut preliminary_results = collected.0;
    let output = collected.1;
    proof {
        lemma_collected_output_shape(tool_call, parts@, None);
    }

    if let Some(callback) = &on_preliminary_tool_result {
        while preliminary_results.len() > 0
            decreases preliminary_results.len(),
        {
            let envelope = preliminary_results.remove(0);
            callback(envelope);
        }
    }
    output
}

/// Law: given an execution capability that yielded the items of an
/// incremental sequence, all items but the last are surfaced as preliminary
/// result envelopes, in order, and the final envelope carries the last
/// item; an empty sequence yields nothing at all. A single terminal value
/// is surfaced through no preliminary envelope and becomes the final
/// envelope itself.
pub proof fn lemma_streaming_collapse(call: TypedToolCall, items: Vec<JSONValue>, v: JSONValue)
    ensures
        items@.len() == 0 ==> collected_outputs_of(
            call,
            normalized_outputs(Ok::<_, String>(crate::tool::IsAsyncIterable::Stream(items))),
        ) == (CollectedOutputsView {
            preliminary_results: Seq::<TypedToolResultView>::empty(),
            output: None::<ToolOutputView>,
        }),
        items@.len() > 0 ==> {
            let c = collected_outputs_of(
                call,
                normalized_outputs(Ok::<_, String>(crate::tool::IsAsyncIterable::Stream(items))),
            );
            &&& c.preliminary_results.len() == items@.len() - 1
            &&& (forall|k: int|
                0 <= k < items@.len() - 1 ==> c.preliminary_results[k] == result_envelope_view(
                    call,
                    #[trigger] items@[k].deep_view(),
                    Some(true),
                ))
            &&& c.output == Some(
                ToolOutputView::Result(result_envelope_view(call, items@.last().deep_view(), None)),
            )
        },
        collected_outputs_of(
            call,
            normalized_outputs(Ok::<_, String>(crate::tool::IsAsyncIterable::Value(v))),
        ) == (CollectedOutputsView {
            preliminary_results: Seq::<TypedToolResultView>::empty(),
            output: Some(ToolOutputView::Result(result_envelope_view(call, v.deep_view(), None))),
        }),
{
    lemma_stream_parts_collapse(call, items@, None);
    assert(normalized_outputs(Ok::<_, String>(crate::tool::IsAsyncIterable::Stream(items)))
        =~= stream_parts(items@));
    assert(normalized_outputs(Ok::<_, String>(crate::tool::IsAsyncIterable::Value(v)))
        =~= seq![Ok::<ToolOutputPart<JSONValue>, String>(ToolOutputPart::Final(v))]);
    let value_parts = seq![Ok::<ToolOutputPart<JSONValue>, String>(ToolOutputPart::Final(v))];
    assert(value_parts.drop_first() =~= Seq::<Result<ToolOutputPart<JSONValue>, String>>::empty());
    assert(value_parts.first() == Ok::<ToolOutputPart<JSONValue>, String>(ToolOutputPart::Final(v)));
    let value_rest = collect_from(call, value_parts.drop_first(), Some(v.deep_view()));
    assert(value_rest.preliminary_results =~= Seq::<TypedToolResultView>::empty());
    assert(value_rest.output == Some(
        ToolOutputView::Result(result_envelope_view(call, v.deep_view(), None)),
    ));
    assert(collect_from(call, value_parts, None) == value_rest);
    assert(collected_outputs_of(call, value_parts) =~= (CollectedOutputsView {
        preliminary_results: Seq::<TypedToolResultView>::empty(),
        output: Some(ToolOutputView::Result(result_envelope_view(call, v.deep_view(), None))),
    }));
    if items@.len() == 0 {
        assert(normalized_outputs(Ok::<_, String>(crate::tool::IsAsyncIterable::Stream(items)))
            =~= Seq::<Result<ToolOutputPart<JSONValue>, String>>::empty());
    }
}

/// The heart of the streaming-collapse law, by induction over the items.
proof fn lemma_stream_parts_collapse(
    call: TypedToolCall,
    items: Seq<JSONValue>,
    pending: Option<JSONValueView>,
)
    ensures
        items.len() > 0 ==> {
            let c = collect_from(call, stream_parts(items), pending);
            &&& c.preliminary_results.len() == items.len() - 1
            &&& (forall|k: int|
                0 <= k < items.len() - 1 ==> c.preliminary_results[k] == result_envelope_view(
                    call,
                    #[trigger] items[k].deep_view(),
                    Some(true),
                ))
            &&& c.output == Some(
                ToolOutputView::Result(result_envelope_view(call, items.last().deep_view(), None)),
            )
        },
    decreases items.len(),
{
    if items.len() == 1 {
        let parts = stream_parts(items);
        assert(parts.len() == 1);
        assert(parts.first() == Ok::<ToolOutputPart<JSONValue>, String>(
            ToolOutputPart::Final(items[0]),
        ));
        assert(parts.drop_first() =~= Seq::<Result<ToolOutputPart<JSONValue>, String>>::empty());
        let rest = collect_from(call, parts.drop_first(), Some(items[0].deep_view()));
        assert(rest.preliminary_results =~= Seq::<TypedToolResultView>::empty());
        assert(rest.output == Some(
            ToolOutputView::Result(result_envelope_view(call, items[0].deep_view(), None)),
        ));
        assert(collect_from(call, parts, pending) == rest);
        assert(items.last() == items[0]);
    } else if items.len() > 1 {
        lemma_stream_parts_collapse(call, items.drop_first(), pending);
        let parts = stream_parts(items);
        assert(parts.first() == Ok::<ToolOutputPart<JSONValue>, String>(
            ToolOutputPart::Preliminary(items[0]),
        ));
        assert(parts.drop_first() =~= stream_parts(items.drop_first()));
        let c = collect_from(call, parts, pending);
        let rest = collect_from(call, stream_parts(items.drop_first()), pending);
        assert(c.preliminary_results == seq![
            result_envelope_view(call, items[0].deep_view(), Some(true)),
        ] + rest.preliminary_results);
        assert forall|k: int| 0 <= k < items.len() - 1 implies c.preliminary_results[k]
            == result_envelope_view(call, #[trigger] items[k].deep_view(), Some(true)) by {
            if k > 0 {
                assert(c.preliminary_results[k] == rest.preliminary_results[k - 1]);
                assert(items.drop_first()[k - 1] == items[k]);
            }
        }
        assert(items.drop_first().last() == items.last());
        assert(c.output == rest.output);
    }
}

/// The normalized output sequence of an incremental stream with these items.
pub open spec fn stream_parts(items: Seq<JSONValue>) -> Seq<
    Result<ToolOutputPart<JSONValue>, String>,
> {
    Seq::new(
        items.len(),
        |i: int|
            if i < items.len() - 1 {
                Ok(ToolOutputPart::Preliminary(items[i]))
            } else {
                Ok(ToolOutputPart::Final(items[i]))
            },
    )
}

} // verus!
