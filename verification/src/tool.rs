//! Tool definitions and the tool registry: a lookup from tool name to a
//! definition carrying an optional execution capability and an optional
//! approval-requirement capability.

use vstd::prelude::*;
use crate::json_value::JSONValue;
use crate::messages::{ModelMessages, ProviderOptions};

verus! {

/// Everything handed to a tool's execution capability besides its input:
/// the call id, the conversational context, an optional abort signal and an
/// opaque execution context.
pub struct ToolExecutionOptions {
    pub tool_call_id: String,
    pub messages: ModelMessages,
    pub abort_signal: Option<JSONValue>,
    pub experimental_context: Option<JSONValue>,
}

/// Everything handed to a tool's approval predicate besides its input.
pub struct ToolNeedsApprovalOptions {
    pub tool_call_id: String,
    pub messages: ModelMessages,
    pub experimental_context: Option<JSONValue>,
}

/// Everything handed to a tool's model-output renderer.
pub struct ToolModelOutputOptions {
    pub tool_call_id: String,
    pub input: JSONValue,
    pub output: JSONValue,
}

/// What a tool execution produced: a single terminal value, or the items of
/// an incremental sequence in the order they were yielded (each item was a
/// suspension point of the producing tool).
pub enum IsAsyncIterable<T> {
    Value(T),
    Stream(Vec<T>),
}

impl<T> IsAsyncIterable<T> {
    /// Whether this outcome is an incremental sequence.
    pub fn is_async_iterable(&self) -> (r: bool)
        ensures
            r == (self matches IsAsyncIterable::Stream(_)),
    {
        matches!(self, IsAsyncIterable::Stream(_))
    }
}

/// A tool's execution capability, implemented by the host application.
/// Nothing is assumed of the result: the pipeline handles every outcome.
pub trait ToolExecute {
    fn execute(&self, input: JSONValue, options: ToolExecutionOptions) -> Result<
        IsAsyncIterable<JSONValue>,
        String,
    >;
}

/// A tool's approval predicate, implemented by the host application.
pub trait ToolNeedsApprovalFn {
    fn needs_approval(&self, input: JSONValue, options: ToolNeedsApprovalOptions) -> bool;
}

/// Whether a tool needs human approval: a fixed answer, or a predicate
/// consulted per call.
pub enum ToolNeedsApproval<P> {
    Boolean(bool),
    Function(P),
}

/// A provider-executed tool's description.
#[derive(Debug)]
pub struct ProviderTool {
    pub id: String,
    pub args: Vec<(String, JSONValue)>,
    pub supports_deferred_results: Option<bool>,
}

/// How a tool is bound: a registered function, a dynamically resolved tool,
/// or one the provider executes itself.
#[derive(Debug)]
pub enum ToolType {
    Function,
    Dynamic,
    Provider(ProviderTool),
}

/// A tool definition. `E` is the execution capability, `P` the approval
/// predicate; both are host-supplied types.
pub struct Tool<E, P> {
    pub description: Option<String>,
    pub title: Option<String>,
    pub provider_options: Option<ProviderOptions>,
    pub input_schema: JSONValue,
    pub input_examples: Option<Vec<JSONValue>>,
    pub needs_approval: Option<ToolNeedsApproval<P>>,
    pub strict: Option<bool>,
    pub execute: Option<E>,
    pub tool_type: ToolType,
}

/// The tool registered under this name: the last entry wins, mirroring
/// insert-overwrite registration.
pub open spec fn spec_get_tool<E, P>(entries: Seq<(String, Tool<E, P>)>, name: Seq<char>) -> Option<
    Tool<E, P>,
>
    decreases entries.len(),
{
    if entries.len() == 0 {
        None
    } else if entries.last().0@ == name {
        Some(entries.last().1)
    } else {
        spec_get_tool(entries.drop_last(), name)
    }
}

/// The registry: a lookup from tool name to tool definition, registered
/// once before a turn begins and read-only afterwards.
pub struct ToolSet<E, P> {
    pub tools: Vec<(String, Tool<E, P>)>,
}

impl<E, P> ToolSet<E, P> {
    /// An empty registry.
    pub fn new() -> (r: ToolSet<E, P>)
        ensures
            r.tools@.len() == 0,
    {
        ToolSet { tools: Vec::new() }
    }

    /// Registers a tool under a name; a later registration under the same
    /// name replaces an earlier one.
    pub fn insert(&mut self, name: String, tool: Tool<E, P>)
        ensures
            final(self).tools@ == old(self).tools@.push((name, tool)),
    {
        self.tools.push((name, tool));
    }

    /// Looks a tool up by name.
    #[verifier::loop_isolation(false)]
    pub fn get(&self, name: &String) -> (r: Option<&Tool<E, P>>)
        ensures
            match r {
                Some(t) => spec_get_tool(self.tools@, name@) == Some(*t),
                None => spec_get_tool(self.tools@, name@) is None,
            },
    {
        let mut i: usize = self.tools.len();
        proof {
            assert(self.tools@.take(self.tools@.len() as int) =~= self.tools@);
        }
        while i > 0
            invariant
                i <= self.tools.len(),
                spec_get_tool(self.tools@, name@) == spec_get_tool(
                    self.tools@.take(i as int),
                    name@,
                ),
            decreases i,
        {
            i = i - 1;
            proof {
                assert(self.tools@.take(i as int + 1).last() == self.tools@[i as int]);
                assert(self.tools@.take(i as int + 1).drop_last() =~= self.tools@.take(i as int));
            }
            if self.tools[i].0 == *name {
                return Some(&self.tools[i].1);
            }
        }
        None
    }
}

} // verus!
