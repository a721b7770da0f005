//! What is asked of an external tool, and what came of it.

use vstd::prelude::*;

verus! {

/// How one standard stream of a child process is connected.
#[derive(Clone, Copy, Debug, PartialEq, Eq, Structural)]
pub enum StdioMode {
    /// The child writes to the stream of this process: the user sees it live.
    Inherit,
    /// The stream is captured for later inspection.
    Piped,
}

/// The connection of one stream under the given verbosity.
pub open spec fn stdio_mode(verbose: bool) -> StdioMode {
    if verbose {
        StdioMode::Inherit
    } else {
        StdioMode::Piped
    }
}

/// The connections of standard output and standard error, in this order:
/// both inherited when `verbose`, both captured otherwise.
pub fn create_stdio(verbose: bool) -> (r: (StdioMode, StdioMode))
    ensures
        r == (stdio_mode(verbose), stdio_mode(verbose)),
{
    if verbose {
        (StdioMode::Inherit, StdioMode::Inherit)
    } else {
        (StdioMode::Piped, StdioMode::Piped)
    }
}

/// Which captured stream accompanies a failure of a tool.
#[derive(Clone, Copy, Debug, PartialEq, Eq, Structural)]
pub enum CaptureStream {
    /// What the tool wrote to standard output.
    Stdout,
    /// What the tool wrote to standard error.
    Stderr,
    /// Nothing: the tool's failure is reported by name alone.
    Neither,
}

/// One call of an external tool.
#[derive(Debug, PartialEq, Eq)]
pub struct ToolInvocation {
    /// Name of the executable, looked up as the system does.
    pub executable: String,
    /// The arguments, in order.
    pub args: Vec<String>,
    /// `true`: the child inherits standard output and standard error of this
    /// process; `false`: both are captured.
    pub stream_output: bool,
    /// Directory in which the child runs, where it is not the current one.
    pub working_directory: Option<String>,
}

/// A `ToolInvocation` as plain mathematical data.
pub struct ToolInvocationView {
    pub executable: Seq<char>,
    pub args: Seq<Seq<char>>,
    pub stream_output: bool,
    pub working_directory: Option<Seq<char>>,
}

impl View for ToolInvocation {
    type V = ToolInvocationView;

    open spec fn view(&self) -> ToolInvocationView {
        ToolInvocationView {
            executable: self.executable@,
            args: self.args.deep_view(),
            stream_output: self.stream_output,
            working_directory: self.working_directory.deep_view(),
        }
    }
}

impl DeepView for ToolInvocation {
    type V = ToolInvocationView;

    open spec fn deep_view(&self) -> ToolInvocationView {
        self@
    }
}

impl Clone for ToolInvocation {
    fn clone(&self) -> (r: Self)
        ensures
            r@ == self@,
    {
        let args = self.args.clone();
        ToolInvocation {
            executable: self.executable.clone(),
            args,
            stream_output: self.stream_output,
            working_directory: self.working_directory.clone(),
        }
    }
}

/// What came of one attempt to run a tool, as the operating system reports it.
#[derive(Debug, PartialEq, Eq)]
pub enum ProcessOutcome {
    /// No executable of that name was found.
    NotFound,
    /// The child could not be started, or waited for, for another reason.
    LaunchFailed,
    /// The child ran and exited. The two texts are what was captured of its
    /// streams; both are empty where the streams were inherited.
    Exited { success: bool, stdout: String, stderr: String },
}

/// A `ProcessOutcome` as plain mathematical data.
pub enum ProcessOutcomeView {
    NotFound,
    LaunchFailed,
    Exited { success: bool, stdout: Seq<char>, stderr: Seq<char> },
}

impl View for ProcessOutcome {
    type V = ProcessOutcomeView;

    open spec fn view(&self) -> ProcessOutcomeView {
        match self {
            ProcessOutcome::NotFound => ProcessOutcomeView::NotFound,
            ProcessOutcome::LaunchFailed => ProcessOutcomeView::LaunchFailed,
            ProcessOutcome::Exited { success, stdout, stderr } => ProcessOutcomeView::Exited {
                success: *success,
                stdout: stdout@,
                stderr: stderr@,
            },
        }
    }
}

impl DeepView for ProcessOutcome {
    type V = ProcessOutcomeView;

    open spec fn deep_view(&self) -> ProcessOutcomeView {
        self@
    }
}

impl Clone for ProcessOutcome {
    fn clone(&self) -> (r: Self)
        ensures
            r@ == self@,
    {
        match self {
            ProcessOutcome::NotFound => ProcessOutcome::NotFound,
            ProcessOutcome::LaunchFailed => ProcessOutcome::LaunchFailed,
            ProcessOutcome::Exited { success, stdout, stderr } => ProcessOutcome::Exited {
                success: *success,
                stdout: stdout.clone(),
                stderr: stderr.clone(),
            },
        }
    }
}

/// The outcome of one invocation, as the orchestrators see it.
#[derive(Debug, PartialEq, Eq)]
pub enum ToolResult {
    /// The tool ran and reported success.
    Success,
    /// The tool could not be run to the end, or reported a failure.
    Failure { captured_output: Option<String> },
    /// No executable of that name was found.
    ExecutableNotFound,
}

/// A `ToolResult` as plain mathematical data.
pub enum ToolResultView {
    Success,
    Failure { captured_output: Option<Seq<char>> },
    ExecutableNotFound,
}

impl View for ToolResult {
    type V = ToolResultView;

    open spec fn view(&self) -> ToolResultView {
        match self {
            ToolResult::Success => ToolResultView::Success,
            ToolResult::Failure { captured_output } => ToolResultView::Failure {
                captured_output: captured_output.deep_view(),
            },
            ToolResult::ExecutableNotFound => ToolResultView::ExecutableNotFound,
        }
    }
}

impl DeepView for ToolResult {
    type V = ToolResultView;

    open spec fn deep_view(&self) -> ToolResultView {
        self@
    }
}

impl Clone for ToolResult {
    fn clone(&self) -> (r: Self)
        ensures
            r@ == self@,
    {
        match self {
            ToolResult::Success => ToolResult::Success,
            ToolResult::Failure { captured_output } => ToolResult::Failure {
                captured_output: captured_output.clone(),
            },
            ToolResult::ExecutableNotFound => ToolResult::ExecutableNotFound,
        }
    }
}

/// One invocation as an orchestrator schedules it: the call itself, the name
/// under which the tool is reported to the user, and the stream that is kept
/// of a failure.
#[derive(Debug, PartialEq, Eq)]
pub struct Step {
    /// Name of the tool in messages to the user.
    pub label: String,
    /// The call.
    pub tool: ToolInvocation,
    /// The captured stream that accompanies a failure.
    pub inspect: CaptureStream,
}

/// A `Step` as plain mathematical data.
pub struct StepView {
    pub label: Seq<char>,
    pub tool: ToolInvocationView,
    pub inspect: CaptureStream,
}

impl View for Step {
    type V = StepView;

    open spec fn view(&self) -> StepView {
        StepView { label: self.label@, tool: self.tool@, inspect: self.inspect }
    }
}

impl DeepView for Step {
    type V = StepView;

    open spec fn deep_view(&self) -> StepView {
        self@
    }
}

impl Clone for Step {
    fn clone(&self) -> (r: Self)
        ensures
            r@ == self@,
    {
        Step { label: self.label.clone(), tool: self.tool.clone(), inspect: self.inspect }
    }
}

/// What is attached to a failure: nothing where the streams were inherited,
/// else the stream that `inspect` names.
pub open spec fn captured(
    stream_output: bool,
    inspect: CaptureStream,
    stdout: Seq<char>,
    stderr: Seq<char>,
) -> Option<Seq<char>> {
    if stream_output {
        None
    } else {
        match inspect {
            CaptureStream::Stdout => Some(stdout),
            CaptureStream::Stderr => Some(stderr),
            CaptureStream::Neither => None,
        }
    }
}

/// The result that an outcome stands for. A missing executable is told apart
/// from every other failure, and its captured output is never looked at.
pub open spec fn result_of(
    stream_output: bool,
    inspect: CaptureStream,
    outcome: ProcessOutcomeView,
) -> ToolResultView {
    match outcome {
        ProcessOutcomeView::NotFound => ToolResultView::ExecutableNotFound,
        ProcessOutcomeView::LaunchFailed => ToolResultView::Failure { captured_output: None },
        ProcessOutcomeView::Exited { success, stdout, stderr } => if success {
            ToolResultView::Success
        } else {
            ToolResultView::Failure {
                captured_output: captured(stream_output, inspect, stdout, stderr),
            }
        },
    }
}

/// Classifies the outcome of one invocation that was made with the given
/// `stream_output`.
pub fn tool_result(stream_output: bool, inspect: CaptureStream, outcome: ProcessOutcome) -> (r:
    ToolResult)
    ensures
        r@ == result_of(stream_output, inspect, outcome@),
        r is ExecutableNotFound <==> outcome is NotFound,
        r is Success <==> (outcome matches ProcessOutcome::Exited { success, .. } && success),
        stream_output ==> !(r matches ToolResult::Failure { captured_output: Some(_) }),
{
    match outcome {
        ProcessOutcome::NotFound => ToolResult::ExecutableNotFound,
        ProcessOutcome::LaunchFailed => ToolResult::Failure { captured_output: None },
        ProcessOutcome::Exited { success, stdout, stderr } => {
            if success {
                ToolResult::Success
            } else if stream_output {
                ToolResult::Failure { captured_output: None }
            } else {
                match inspect {
                    CaptureStream::Stdout => ToolResult::Failure { captured_output: Some(stdout) },
                    CaptureStream::Stderr => ToolResult::Failure { captured_output: Some(stderr) },
                    CaptureStream::Neither => ToolResult::Failure { captured_output: None },
                }
            }
        },
    }
}

} // verus!
