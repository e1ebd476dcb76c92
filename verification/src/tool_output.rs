//! The envelope a finished tool execution hands back: a result record or an
//! error record, both transcript-appendable.

use vstd::prelude::*;
use crate::tool_error::{TypedToolError, TypedToolErrorView};
use crate::tool_result::{TypedToolResult, TypedToolResultView};

verus! {

/// The outcome envelope of one tool execution.
#[derive(Debug)]
pub enum ToolOutput {
    Result(TypedToolResult),
    Error(TypedToolError),
}

/// The mathematical shape of a [`ToolOutput`].
#[verifier::ext_equal]
pub enum ToolOutputView {
    Result(TypedToolResultView),
    Error(TypedToolErrorView),
}

impl DeepView for ToolOutput {
    type V = ToolOutputView;

    open spec fn deep_view(&self) -> ToolOutputView {
        match self {
            ToolOutput::Result(r) => ToolOutputView::Result(r.deep_view()),
            ToolOutput::Error(e) => ToolOutputView::Error(e.deep_view()),
        }
    }
}

} // verus!
