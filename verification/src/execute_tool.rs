//! Normalization of a tool execution's outcome into a uniform sequence of
//! preliminary and final outputs.
//!
//! A single terminal value becomes one final output. An incremental
//! sequence becomes one preliminary output per item except the last, whose
//! value becomes the final output. A failure becomes the sequence's only
//! element, and an empty incremental sequence yields nothing.

use vstd::prelude::*;
use crate::json_value::JSONValue;
use crate::tool::{IsAsyncIterable, ToolExecute, ToolExecutionOptions};

verus! {

/// One normalized output of a tool execution.
#[derive(Debug)]
pub enum ToolOutput<T> {
    Preliminary(T),
    Final(T),
}

/// The normalized output sequence owed for one execution outcome.
pub open spec fn normalized_outputs<T, E>(outcome: Result<IsAsyncIterable<T>, E>) -> Seq<
    Result<ToolOutput<T>, E>,
> {
    match outcome {
        Err(e) => seq![Err(e)],
        Ok(IsAsyncIterable::Value(v)) => seq![Ok(ToolOutput::Final(v))],
        Ok(IsAsyncIterable::Stream(items)) => Seq::new(
            items@.len(),
            |i: int|
                if i < items@.len() - 1 {
                    Ok(ToolOutput::Preliminary(items@[i]))
                } else {
                    Ok(ToolOutput::Final(items@[i]))
                },
        ),
    }
}

/// Normalizes an already-produced outcome into the uniform output sequence.
#[verifier::loop_isolation(false)]
pub fn normalize_tool_outcome<T, E>(outcome: Result<IsAsyncIterable<T>, E>) -> (r: Vec<
    Result<ToolOutput<T>, E>,
>)
    ensures
        r@ == normalized_outputs(outcome),
{
    let ghost outcome_at_entry = outcome;
    match outcome {
        Err(e) => {
            let mut r: Vec<Result<ToolOutput<T>, E>> = Vec::new();
            r.push(Err(e));
            proof {
                assert(r@ =~= normalized_outputs(outcome_at_entry));
            }
            r
        },
        Ok(IsAsyncIterable::Value(v)) => {
            let mut r: Vec<Result<ToolOutput<T>, E>> = Vec::new();
            r.push(Ok(ToolOutput::Final(v)));
            proof {
                assert(r@ =~= normalized_outputs(outcome_at_entry));
            }
            r
        },
        Ok(IsAsyncIterable::Stream(items)) => {
            let ghost items_at_entry = items@;
            let mut items = items;
            let mut r: Vec<Result<ToolOutput<T>, E>> = Vec::new();
            while items.len() > 1
                invariant
                    items_at_entry.len() > 0 ==> items@.len() >= 1,
                    r@.len() + items@.len() == items_at_entry.len(),
                    items@ == items_at_entry.skip(r@.len() as int),
                    forall|k: int|
                        0 <= k < r@.len() ==> r@[k] == Ok::<ToolOutput<T>, E>(
                            ToolOutput::Preliminary(items_at_entry[k]),
                        ),
                decreases items.len(),
            {
                let ghost items_before = items@;
                let v = items.remove(0);
                proof {
                    assert(items@ =~= items_before.skip(1));
                    assert(items@ =~= items_at_entry.skip(r@.len() as int + 1));
                }
                r.push(Ok(ToolOutput::Preliminary(v)));
            }
            if items.len() == 1 {
                let v = items.remove(0);
                proof {
                    assert(v == items_at_entry.last());
                }
                r.push(Ok(ToolOutput::Final(v)));
            }
            proof {
                assert(outcome_at_entry matches Ok(IsAsyncIterable::Stream(w)) && w@ == items_at_entry);
                assert(normalized_outputs(outcome_at_entry).len() == items_at_entry.len());
                assert(r@.len() == items_at_entry.len());
                assert forall|k: int| 0 <= k < items_at_entry.len() implies r@[k] == normalized_outputs(
                    outcome_at_entry,
                )[k] by {
                    if k < items_at_entry.len() - 1 {
                        assert(r@[k] == Ok::<ToolOutput<T>, E>(ToolOutput::Preliminary(items_at_entry[k])));
                    } else {
                        assert(r@[k] == Ok::<ToolOutput<T>, E>(ToolOutput::Final(items_at_entry[k])));
                    }
                }
                assert(r@ =~= normalized_outputs(outcome_at_entry));
            }
            r
        },
    }
}

/// Invokes a tool's execution capability and normalizes whatever it
/// produced. The capability is host code: nothing is known of its outcome,
/// so the result is only promised to be the normalization of some outcome.
pub fn execute_tool<Ex: ToolExecute>(
    execute: &Ex,
    input: JSONValue,
    options: ToolExecutionOptions,
) -> (r: Vec<Result<ToolOutput<JSONValue>, String>>)
    ensures
        exists|outcome: Result<IsAsyncIterable<JSONValue>, String>|
            r@ == #[trigger] normalized_outputs(outcome),
{
    let outcome = execute.execute(input, options);
    let ghost outcome_at_entry = outcome;
    let r = normalize_tool_outcome(outcome);
    proof {
        assert(r@ == normalized_outputs(outcome_at_entry));
    }
    r
}

} // verus!
