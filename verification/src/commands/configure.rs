//! The configure task: the build tool is asked for its version first, and
//! only a version that is new enough is asked to list its presets or to
//! configure one.

use crate::args::{Cmd, CmdView};
use crate::commands::utils::{check_version, cmake_version, version_in, version_refusal};
use crate::error::{DevtoolError, DevtoolErrorView};
use crate::pipeline::{begin, Action, Pipeline};
use crate::text::{joined, push_text};
use crate::tool::{
    CaptureStream, ProcessOutcome, ProcessOutcomeView, Step, StepView, ToolInvocation,
    ToolInvocationView,
};
use vstd::prelude::*;

verus! {

/// The options of the configure task.
#[derive(Debug, PartialEq, Eq)]
pub struct ConfigureCommand {
    /// The preset to configure. Without one the presets are listed.
    pub preset: Option<String>,
    /// Show what the build tool prints while it configures.
    pub verbose: bool,
}

/// A `ConfigureCommand` as plain mathematical data.
pub struct ConfigureCommandView {
    pub preset: Option<Seq<char>>,
    pub verbose: bool,
}

impl View for ConfigureCommand {
    type V = ConfigureCommandView;

    open spec fn view(&self) -> ConfigureCommandView {
        ConfigureCommandView { preset: self.preset.deep_view(), verbose: self.verbose }
    }
}

impl Clone for ConfigureCommand {
    fn clone(&self) -> (r: Self)
        ensures
            r@ == self@,
    {
        ConfigureCommand { preset: self.preset.clone(), verbose: self.verbose }
    }
}

impl Default for ConfigureCommand {
    /// No preset, and quiet.
    fn default() -> (r: Self)
        ensures
            r@ == (ConfigureCommandView { preset: None, verbose: false }),
    {
        ConfigureCommand { preset: None, verbose: false }
    }
}

/// A run of the build tool with the given arguments.
pub open spec fn cmake_step(args: Seq<Seq<char>>, stream_output: bool) -> StepView {
    StepView {
        label: "cmake"@,
        tool: ToolInvocationView {
            executable: "cmake"@,
            args,
            stream_output,
            working_directory: None,
        },
        inspect: CaptureStream::Stdout,
    }
}

/// The question for the version of the build tool; the answer is captured.
pub open spec fn version_query_step() -> StepView {
    cmake_step(seq!["--version"@], false)
}

/// The listing of the presets; it is captured, to be shown afterwards.
pub open spec fn list_presets_step() -> StepView {
    cmake_step(seq!["--list-presets"@], false)
}

/// The configuration of `preset`, from the current directory into the
/// directory of that name under `build`.
pub open spec fn configure_step(command: ConfigureCommandView, preset: Seq<char>) -> StepView {
    cmake_step(
        seq!["--preset"@, preset, "-S"@, "."@, "-B"@, "build/"@ + preset],
        command.verbose,
    )
}

/// Why the task may not go on after the version query came out as `outcome`:
/// the build tool could not be run, it named no version, or the version is
/// too old. Whether the tool reported success is not looked at.
pub open spec fn validation_of(outcome: ProcessOutcomeView) -> Option<DevtoolErrorView> {
    match outcome {
        ProcessOutcomeView::NotFound => Some(DevtoolErrorView::ToolNotFound { tool: "cmake"@ }),
        ProcessOutcomeView::LaunchFailed => Some(
            DevtoolErrorView::ToolReportedFailure { tool: "cmake"@, output: None },
        ),
        ProcessOutcomeView::Exited { success, stdout, stderr } => match version_in(stdout) {
            Ok(version) => version_refusal(version),
            Err(e) => Some(e),
        },
    }
}

/// Builds a run of the build tool.
fn cmake(args: Vec<String>, stream_output: bool) -> (r: Step)
    ensures
        r@ == cmake_step(args.deep_view(), stream_output),
{
    Step {
        label: "cmake".to_owned(),
        tool: ToolInvocation {
            executable: "cmake".to_owned(),
            args,
            stream_output,
            working_directory: None,
        },
        inspect: CaptureStream::Stdout,
    }
}

impl ConfigureCommand {
    /// The question for the version of the build tool.
    pub fn version_query() -> (r: Step)
        ensures
            r@ == version_query_step(),
    {
        let mut args: Vec<String> = Vec::new();
        push_text(&mut args, "--version");
        proof {
            assert(args.deep_view() =~= seq!["--version"@]);
        }
        cmake(args, false)
    }

    /// Decides from the outcome of the version query whether the task goes
    /// on.
    pub fn validate(outcome: &ProcessOutcome) -> (r: Result<(), DevtoolError>)
        ensures
            match r {
                Ok(_) => validation_of(outcome@) is None,
                Err(e) => validation_of(outcome@) == Some(e@),
            },
    {
        match outcome {
            ProcessOutcome::NotFound => Err(DevtoolError::ToolNotFound { tool: "cmake".to_owned() }),
            ProcessOutcome::LaunchFailed => Err(
                DevtoolError::ToolReportedFailure { tool: "cmake".to_owned(), output: None },
            ),
            ProcessOutcome::Exited { success, stdout, stderr } => {
                match cmake_version(stdout.as_str()) {
                    Ok(version) => check_version(version.as_str()),
                    Err(e) => Err(e),
                }
            },
        }
    }

    /// The listing of the presets.
    pub fn list_presets(&self) -> (r: Step)
        ensures
            r@ == list_presets_step(),
    {
        let mut args: Vec<String> = Vec::new();
        push_text(&mut args, "--list-presets");
        proof {
            assert(args.deep_view() =~= seq!["--list-presets"@]);
        }
        cmake(args, false)
    }

    /// The configuration of `preset`.
    pub fn configure(&self, preset: &str) -> (r: Step)
        ensures
            r@ == configure_step(self@, preset@),
    {
        let mut args: Vec<String> = Vec::new();
        let build_directory = joined("build/", preset);
        push_text(&mut args, "--preset");
        push_text(&mut args, preset);
        push_text(&mut args, "-S");
        push_text(&mut args, ".");
        push_text(&mut args, "-B");
        push_text(&mut args, build_directory.as_str());
        proof {
            assert(args.deep_view() =~= seq![
                "--preset"@,
                preset@,
                "-S"@,
                "."@,
                "-B"@,
                "build/"@ + preset@,
            ]);
        }
        cmake(args, self.verbose)
    }

    /// Starts the configure task: the result is the first state of its run and
    /// the first tool to run.
    pub fn run(self) -> (r: (Pipeline, Action))
        ensures
            (r.0@, r.1@) == begin(CmdView::Configure(self@)),
    {
        Pipeline::start(Cmd::Configure(self))
    }
}

} // verus!
