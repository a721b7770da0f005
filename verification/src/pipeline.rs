//! The shape that the tasks share: select the files, leave out what is
//! excluded, run the tools one after the other, and stop at the first that
//! fails. The pipeline decides; whoever drives it runs the tools and reports
//! back what came of each.

use crate::args::{Cmd, CmdView};
use crate::commands::configure::{
    configure_step, list_presets_step, validation_of, version_query_step, ConfigureCommand,
    ConfigureCommandView,
};
use crate::commands::format::{format_chain, format_selector, FormatCommand, FormatCommandView};
use crate::commands::tidy::{tidy_chain, tidy_selector, TidyCommand, TidyCommandView};
use crate::error::{error_of, DevtoolError, DevtoolErrorView};
use crate::selection::{
    enumerate_invocation, enumeration, select_files, selection_of, FileSelector, FileSelectorView,
};
use crate::tool::{
    result_of, tool_result, ProcessOutcome, ProcessOutcomeView, Step, StepView, ToolInvocation,
    ToolInvocationView,
};
use vstd::prelude::*;

verus! {

/// A task that works on selected files.
#[derive(Debug, PartialEq, Eq)]
pub enum FileTask {
    Format(FormatCommand),
    Tidy(TidyCommand),
}

/// A `FileTask` as plain mathematical data.
pub enum FileTaskView {
    Format(FormatCommandView),
    Tidy(TidyCommandView),
}

impl View for FileTask {
    type V = FileTaskView;

    open spec fn view(&self) -> FileTaskView {
        match self {
            FileTask::Format(command) => FileTaskView::Format(command@),
            FileTask::Tidy(command) => FileTaskView::Tidy(command@),
        }
    }
}

impl Clone for FileTask {
    fn clone(&self) -> (r: Self)
        ensures
            r@ == self@,
    {
        match self {
            FileTask::Format(command) => FileTask::Format(command.clone()),
            FileTask::Tidy(command) => FileTask::Tidy(command.clone()),
        }
    }
}

/// The selector of the files of `task`.
pub open spec fn task_selector(task: FileTaskView) -> FileSelectorView {
    match task {
        FileTaskView::Format(command) => format_selector(command),
        FileTaskView::Tidy(command) => tidy_selector(command),
    }
}

/// The invocations of `task` once `files` are selected, in their order.
pub open spec fn task_chain(task: FileTaskView, files: Seq<Seq<char>>) -> Seq<StepView> {
    match task {
        FileTaskView::Format(command) => format_chain(command, files),
        FileTaskView::Tidy(command) => tidy_chain(command, files),
    }
}

impl FileTask {
    /// The selector of the files of this command.
    pub fn selector(&self) -> (r: FileSelector)
        ensures
            r@ == task_selector(self@),
    {
        match self {
            FileTask::Format(command) => command.selector(),
            FileTask::Tidy(command) => command.selector(),
        }
    }

    /// The invocations of this command once `files` are selected.
    pub fn chain(&self, files: &Vec<String>) -> (r: Vec<Step>)
        ensures
            r.deep_view() == task_chain(self@, files.deep_view()),
    {
        match self {
            FileTask::Format(command) => command.chain(files),
            FileTask::Tidy(command) => command.chain(files),
        }
    }
}

/// How a run ended well.
#[derive(Debug, PartialEq, Eq)]
pub enum Completion {
    /// No file was selected and no invocation was due.
    NothingToDo,
    /// Every invocation that was due succeeded.
    AllSucceeded,
    /// The build tool listed its presets. `output` is the listing: what the
    /// tool wrote to standard output.
    PresetsListed { output: String },
}

/// A `Completion` as plain mathematical data.
pub enum CompletionView {
    NothingToDo,
    AllSucceeded,
    PresetsListed { output: Seq<char> },
}

impl View for Completion {
    type V = CompletionView;

    open spec fn view(&self) -> CompletionView {
        match self {
            Completion::NothingToDo => CompletionView::NothingToDo,
            Completion::AllSucceeded => CompletionView::AllSucceeded,
            Completion::PresetsListed { output } => CompletionView::PresetsListed {
                output: output@,
            },
        }
    }
}

impl Clone for Completion {
    fn clone(&self) -> (r: Self)
        ensures
            r@ == self@,
    {
        match self {
            Completion::NothingToDo => Completion::NothingToDo,
            Completion::AllSucceeded => Completion::AllSucceeded,
            Completion::PresetsListed { output } => Completion::PresetsListed {
                output: output.clone(),
            },
        }
    }
}

/// How a run ended, as plain mathematical data.
pub open spec fn verdict_view(verdict: Result<Completion, DevtoolError>) -> Result<
    CompletionView,
    DevtoolErrorView,
> {
    match verdict {
        Ok(completion) => Ok(completion@),
        Err(error) => Err(error@),
    }
}

/// The exit status of the process for a run that ended with `verdict`: 0 for
/// a run that ended well, 1 for a failure.
pub fn exit_code(verdict: &Result<Completion, DevtoolError>) -> (r: u8)
    ensures
        r == (if verdict is Ok {
            0u8
        } else {
            1u8
        }),
{
    match verdict {
        Ok(_) => 0,
        Err(_) => 1,
    }
}

/// What the pipeline asks of the driver.
#[derive(Debug, PartialEq, Eq)]
pub enum Action {
    /// Run this tool once, wait for it, and report what came of it.
    Run(ToolInvocation),
    /// Stop: the run has ended in this way.
    Exit(Result<Completion, DevtoolError>),
}

/// An `Action` as plain mathematical data.
pub enum ActionView {
    Run(ToolInvocationView),
    Exit(Result<CompletionView, DevtoolErrorView>),
}

impl View for Action {
    type V = ActionView;

    open spec fn view(&self) -> ActionView {
        match self {
            Action::Run(tool) => ActionView::Run(tool@),
            Action::Exit(verdict) => ActionView::Exit(verdict_view(*verdict)),
        }
    }
}

/// The state of one run that has started. Before the start there is only the
/// command; `Pipeline::start` makes the first move.
#[derive(Debug, PartialEq, Eq)]
pub enum Pipeline {
    /// The files of the task were asked of version control.
    SelectingFiles(FileTask),
    /// The build tool was asked for its version.
    Validating(ConfigureCommand),
    /// The build tool was asked for its presets.
    ListingPresets(ConfigureCommand),
    /// `current` was handed out to be run; `rest` waits for it to succeed.
    Invoking { current: Step, rest: Vec<Step> },
    /// The run ended well.
    Done(Completion),
    /// The run ended with the first failure that was met.
    Failed(DevtoolError),
}

/// A `Pipeline` as plain mathematical data.
pub enum PipelineView {
    SelectingFiles(FileTaskView),
    Validating(ConfigureCommandView),
    ListingPresets(ConfigureCommandView),
    Invoking { current: StepView, rest: Seq<StepView> },
    Done(CompletionView),
    Failed(DevtoolErrorView),
}

impl View for Pipeline {
    type V = PipelineView;

    open spec fn view(&self) -> PipelineView {
        match self {
            Pipeline::SelectingFiles(task) => PipelineView::SelectingFiles(task@),
            Pipeline::Validating(command) => PipelineView::Validating(command@),
            Pipeline::ListingPresets(command) => PipelineView::ListingPresets(command@),
            Pipeline::Invoking { current, rest } => PipelineView::Invoking {
                current: current@,
                rest: rest.deep_view(),
            },
            Pipeline::Done(completion) => PipelineView::Done(completion@),
            Pipeline::Failed(error) => PipelineView::Failed(error@),
        }
    }
}

/// The run ends well.
pub open spec fn finish(completion: CompletionView) -> (PipelineView, ActionView) {
    (PipelineView::Done(completion), ActionView::Exit(Ok(completion)))
}

/// The run ends with `error`.
pub open spec fn fail(error: DevtoolErrorView) -> (PipelineView, ActionView) {
    (PipelineView::Failed(error), ActionView::Exit(Err(error)))
}

/// The first of `chain` is handed out and the others wait; with nothing in
/// `chain` the run ends well, as `otherwise`.
pub open spec fn invoke_chain(chain: Seq<StepView>, otherwise: CompletionView) -> (
    PipelineView,
    ActionView,
) {
    if chain.len() == 0 {
        finish(otherwise)
    } else {
        (
            PipelineView::Invoking { current: chain[0], rest: chain.drop_first() },
            ActionView::Run(chain[0].tool),
        )
    }
}

/// The first move of the task `cmd`: the files are asked of version control,
/// or, where the task works on no files, the build tool is asked for its
/// version.
pub open spec fn begin(cmd: CmdView) -> (PipelineView, ActionView) {
    match cmd {
        CmdView::Format(command) => (
            PipelineView::SelectingFiles(FileTaskView::Format(command)),
            ActionView::Run(enumeration(format_selector(command))),
        ),
        CmdView::Tidy(command) => (
            PipelineView::SelectingFiles(FileTaskView::Tidy(command)),
            ActionView::Run(enumeration(tidy_selector(command))),
        ),
        CmdView::Configure(command) => (
            PipelineView::Validating(command),
            ActionView::Run(version_query_step().tool),
        ),
    }
}

/// The move after the file query of `task` came out as `outcome`.
pub open spec fn after_selection(task: FileTaskView, outcome: ProcessOutcomeView) -> (
    PipelineView,
    ActionView,
) {
    match selection_of(task_selector(task), outcome) {
        Ok(files) => invoke_chain(task_chain(task, files), CompletionView::NothingToDo),
        Err(error) => fail(error),
    }
}

/// The move after the version query came out as `outcome`.
pub open spec fn after_validation(command: ConfigureCommandView, outcome: ProcessOutcomeView) -> (
    PipelineView,
    ActionView,
) {
    match validation_of(outcome) {
        Some(error) => fail(error),
        None => match command.preset {
            Some(preset) => (
                PipelineView::Invoking {
                    current: configure_step(command, preset),
                    rest: Seq::empty(),
                },
                ActionView::Run(configure_step(command, preset).tool),
            ),
            None => (
                PipelineView::ListingPresets(command),
                ActionView::Run(list_presets_step().tool),
            ),
        },
    }
}

/// The move after the listing of the presets came out as `outcome`. Only a
/// listing that reported success ends the run well, with what it wrote to
/// standard output. A listing that could not run or that reported a failure
/// ends the run as the failure of any other invocation does; the failure
/// carries what the build tool wrote to standard output.
pub open spec fn after_listing(outcome: ProcessOutcomeView) -> (PipelineView, ActionView) {
    match outcome {
        ProcessOutcomeView::NotFound => fail(DevtoolErrorView::ToolNotFound { tool: "cmake"@ }),
        ProcessOutcomeView::LaunchFailed => fail(
            DevtoolErrorView::ToolReportedFailure { tool: "cmake"@, output: None },
        ),
        ProcessOutcomeView::Exited { success, stdout, stderr } => if success {
            finish(CompletionView::PresetsListed { output: stdout })
        } else {
            fail(DevtoolErrorView::ToolReportedFailure { tool: "cmake"@, output: Some(stdout) })
        },
    }
}

/// The move after `current` came out as `outcome`: its failure ends the run
/// and nothing of `rest` is started; after its success the next of `rest` is
/// due.
pub open spec fn after_invocation(
    current: StepView,
    rest: Seq<StepView>,
    outcome: ProcessOutcomeView,
) -> (PipelineView, ActionView) {
    match error_of(
        current.label,
        result_of(current.tool.stream_output, current.inspect, outcome),
    ) {
        Some(error) => fail(error),
        None => invoke_chain(rest, CompletionView::AllSucceeded),
    }
}

/// The transition: from a state and the outcome of the tool that was asked
/// for last, to the next state and to what the driver is to do. A run that
/// has ended stays as it is and names its end again; the outcome is not
/// looked at then, for no tool was awaited.
pub open spec fn next(pipeline: PipelineView, outcome: ProcessOutcomeView) -> (
    PipelineView,
    ActionView,
) {
    match pipeline {
        PipelineView::SelectingFiles(task) => after_selection(task, outcome),
        PipelineView::Validating(command) => after_validation(command, outcome),
        PipelineView::ListingPresets(command) => after_listing(outcome),
        PipelineView::Invoking { current, rest } => after_invocation(current, rest, outcome),
        PipelineView::Done(completion) => (pipeline, ActionView::Exit(Ok(completion))),
        PipelineView::Failed(error) => (pipeline, ActionView::Exit(Err(error))),
    }
}

/// Ends the run well.
fn finished(completion: Completion) -> (r: (Pipeline, Action))
    ensures
        (r.0@, r.1@) == finish(completion@),
{
    let kept = completion.clone();
    (Pipeline::Done(kept), Action::Exit(Ok(completion)))
}

/// Ends the run with `error`.
fn failed(error: DevtoolError) -> (r: (Pipeline, Action))
    ensures
        (r.0@, r.1@) == fail(error@),
{
    let kept = error.clone();
    (Pipeline::Failed(kept), Action::Exit(Err(error)))
}

/// Hands out the first of `chain`, or ends the run where there is none.
fn invoking(chain: Vec<Step>, otherwise: Completion) -> (r: (Pipeline, Action))
    ensures
        (r.0@, r.1@) == invoke_chain(chain.deep_view(), otherwise@),
{
    let mut rest = chain;
    if rest.len() == 0 {
        finished(otherwise)
    } else {
        let current = rest.remove(0);
        let tool = current.tool.clone();
        proof {
            assert(rest.deep_view() =~= chain.deep_view().drop_first());
        }
        (Pipeline::Invoking { current, rest }, Action::Run(tool))
    }
}

impl Pipeline {
    /// Tells whether the run has ended.
    pub fn is_finished(&self) -> (r: bool)
        ensures
            r == (self is Done || self is Failed),
    {
        match self {
            Pipeline::Done(_) => true,
            Pipeline::Failed(_) => true,
            _ => false,
        }
    }

    /// Starts the run of the task `cmd`: the result is the first state and
    /// the first tool to run.
    pub fn start(cmd: Cmd) -> (r: (Pipeline, Action))
        ensures
            (r.0@, r.1@) == begin(cmd@),
    {
        match cmd {
            Cmd::Format(command) => {
                let query = enumerate_invocation(&command.selector());
                (Pipeline::SelectingFiles(FileTask::Format(command)), Action::Run(query))
            },
            Cmd::Tidy(command) => {
                let query = enumerate_invocation(&command.selector());
                (Pipeline::SelectingFiles(FileTask::Tidy(command)), Action::Run(query))
            },
            Cmd::Configure(command) => {
                let query = ConfigureCommand::version_query();
                (Pipeline::Validating(command), Action::Run(query.tool))
            },
        }
    }

    /// Takes the outcome of the tool that was asked for last and moves on:
    /// the result is the next state and what the driver is to do now.
    pub fn step(self, outcome: ProcessOutcome) -> (r: (Pipeline, Action))
        ensures
            (r.0@, r.1@) == next(self@, outcome@),
    {
        match self {
            Pipeline::SelectingFiles(task) => match select_files(&task.selector(), &outcome) {
                Ok(files) => invoking(task.chain(&files), Completion::NothingToDo),
                Err(error) => failed(error),
            },
            Pipeline::Validating(command) => match ConfigureCommand::validate(&outcome) {
                Err(error) => failed(error),
                Ok(_) => match &command.preset {
                    Some(preset) => {
                        let current = command.configure(preset.as_str());
                        let tool = current.tool.clone();
                        let rest: Vec<Step> = Vec::new();
                        proof {
                            assert(rest.deep_view() =~= Seq::<StepView>::empty());
                        }
                        (Pipeline::Invoking { current, rest }, Action::Run(tool))
                    },
                    None => {
                        let listing = command.list_presets();
                        (Pipeline::ListingPresets(command), Action::Run(listing.tool))
                    },
                },
            },
            Pipeline::ListingPresets(command) => match outcome {
                ProcessOutcome::NotFound => failed(
                    DevtoolError::ToolNotFound { tool: "cmake".to_owned() },
                ),
                ProcessOutcome::LaunchFailed => failed(
                    DevtoolError::ToolReportedFailure { tool: "cmake".to_owned(), output: None },
                ),
                ProcessOutcome::Exited { success, stdout, stderr } => {
                    if success {
                        finished(Completion::PresetsListed { output: stdout })
                    } else {
                        failed(
                            DevtoolError::ToolReportedFailure {
                                tool: "cmake".to_owned(),
                                output: Some(stdout),
                            },
                        )
                    }
                },
            },
            Pipeline::Invoking { current, rest } => {
                let result = tool_result(current.tool.stream_output, current.inspect, outcome);
                match DevtoolError::from_result(current.label.as_str(), result) {
                    Some(error) => failed(error),
                    None => invoking(rest, Completion::AllSucceeded),
                }
            },
            Pipeline::Done(completion) => {
                let verdict = completion.clone();
                (Pipeline::Done(completion), Action::Exit(Ok(verdict)))
            },
            Pipeline::Failed(error) => {
                let verdict = error.clone();
                (Pipeline::Failed(error), Action::Exit(Err(verdict)))
            },
        }
    }
}

} // verus!
