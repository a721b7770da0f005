//! The ways in which a run of the tool chain fails.

use crate::text::joined;
use crate::tool::{ToolResult, ToolResultView};
use vstd::prelude::*;

verus! {

/// Why a run failed. Each of these ends the run: nothing is tried again.
#[derive(Debug, PartialEq, Eq)]
pub enum DevtoolError {
    /// No executable of the name of `tool` was found.
    ToolNotFound { tool: String },
    /// `tool` could not be run to its end or reported a failure; `output` is
    /// what was captured of it, where anything was.
    ToolReportedFailure { tool: String, output: Option<String> },
    /// The version-control query failed; `stderr` is what it wrote to
    /// standard error, word for word.
    VcsQueryFailed { stderr: String },
    /// A condition that must hold before any tool is run did not hold.
    PreconditionFailed { message: String },
}

/// A `DevtoolError` as plain mathematical data.
pub enum DevtoolErrorView {
    ToolNotFound { tool: Seq<char> },
    ToolReportedFailure { tool: Seq<char>, output: Option<Seq<char>> },
    VcsQueryFailed { stderr: Seq<char> },
    PreconditionFailed { message: Seq<char> },
}

impl View for DevtoolError {
    type V = DevtoolErrorView;

    open spec fn view(&self) -> DevtoolErrorView {
        match self {
            DevtoolError::ToolNotFound { tool } => DevtoolErrorView::ToolNotFound { tool: tool@ },
            DevtoolError::ToolReportedFailure { tool, output } => {
                DevtoolErrorView::ToolReportedFailure { tool: tool@, output: output.deep_view() }
            },
            DevtoolError::VcsQueryFailed { stderr } => DevtoolErrorView::VcsQueryFailed {
                stderr: stderr@,
            },
            DevtoolError::PreconditionFailed { message } => DevtoolErrorView::PreconditionFailed {
                message: message@,
            },
        }
    }
}

impl DeepView for DevtoolError {
    type V = DevtoolErrorView;

    open spec fn deep_view(&self) -> DevtoolErrorView {
        self@
    }
}

impl Clone for DevtoolError {
    fn clone(&self) -> (r: Self)
        ensures
            r@ == self@,
    {
        match self {
            DevtoolError::ToolNotFound { tool } => DevtoolError::ToolNotFound {
                tool: tool.clone(),
            },
            DevtoolError::ToolReportedFailure { tool, output } => {
                DevtoolError::ToolReportedFailure { tool: tool.clone(), output: output.clone() }
            },
            DevtoolError::VcsQueryFailed { stderr } => DevtoolError::VcsQueryFailed {
                stderr: stderr.clone(),
            },
            DevtoolError::PreconditionFailed { message } => DevtoolError::PreconditionFailed {
                message: message.clone(),
            },
        }
    }
}

/// The one line that tells the user of the error.
pub open spec fn message_of(error: DevtoolErrorView) -> Seq<char> {
    match error {
        DevtoolErrorView::ToolNotFound { tool } => tool + " not found"@,
        DevtoolErrorView::ToolReportedFailure { tool, output } => tool + " failed"@,
        DevtoolErrorView::VcsQueryFailed { stderr } => "git ls-files -m failed"@,
        DevtoolErrorView::PreconditionFailed { message } => message,
    }
}

/// The error that a result of the tool named `tool` stands for, if any.
pub open spec fn error_of(tool: Seq<char>, result: ToolResultView) -> Option<DevtoolErrorView> {
    match result {
        ToolResultView::Success => None,
        ToolResultView::Failure { captured_output } => Some(
            DevtoolErrorView::ToolReportedFailure { tool, output: captured_output },
        ),
        ToolResultView::ExecutableNotFound => Some(DevtoolErrorView::ToolNotFound { tool }),
    }
}

impl DevtoolError {
    /// The one line that tells the user of this error.
    pub fn message(&self) -> (r: String)
        ensures
            r@ == message_of(self@),
    {
        match self {
            DevtoolError::ToolNotFound { tool } => joined(tool.as_str(), " not found"),
            DevtoolError::ToolReportedFailure { tool, output } => joined(tool.as_str(), " failed"),
            DevtoolError::VcsQueryFailed { stderr } => "git ls-files -m failed".to_owned(),
            DevtoolError::PreconditionFailed { message } => message.clone(),
        }
    }

    /// The error that `result` stands for when it is the result of the tool
    /// named `tool`: none for a success.
    pub fn from_result(tool: &str, result: ToolResult) -> (r: Option<DevtoolError>)
        ensures
            r.deep_view() == error_of(tool@, result@),
    {
        match result {
            ToolResult::Success => None,
            ToolResult::Failure { captured_output } => Some(
                DevtoolError::ToolReportedFailure { tool: tool.to_owned(), output: captured_output },
            ),
            ToolResult::ExecutableNotFound => Some(
                DevtoolError::ToolNotFound { tool: tool.to_owned() },
            ),
        }
    }
}

} // verus!
