//! The command line as data: which task was asked for, with its options.

use crate::commands::configure::{ConfigureCommand, ConfigureCommandView};
use crate::commands::format::{FormatCommand, FormatCommandView};
use crate::commands::tidy::{TidyCommand, TidyCommandView};
use crate::pipeline::{begin, Action, Pipeline};
use vstd::prelude::*;

verus! {

/// The task that was asked for.
#[derive(Debug, PartialEq, Eq)]
pub enum Cmd {
    /// Configure the project with the build tool.
    Configure(ConfigureCommand),
    /// Format the source files.
    Format(FormatCommand),
    /// Lint the source files.
    Tidy(TidyCommand),
}

/// A `Cmd` as plain mathematical data.
pub enum CmdView {
    Configure(ConfigureCommandView),
    Format(FormatCommandView),
    Tidy(TidyCommandView),
}

impl View for Cmd {
    type V = CmdView;

    open spec fn view(&self) -> CmdView {
        match self {
            Cmd::Configure(command) => CmdView::Configure(command@),
            Cmd::Format(command) => CmdView::Format(command@),
            Cmd::Tidy(command) => CmdView::Tidy(command@),
        }
    }
}

impl Clone for Cmd {
    fn clone(&self) -> (r: Self)
        ensures
            r@ == self@,
    {
        match self {
            Cmd::Configure(command) => Cmd::Configure(command.clone()),
            Cmd::Format(command) => Cmd::Format(command.clone()),
            Cmd::Tidy(command) => Cmd::Tidy(command.clone()),
        }
    }
}

/// What the command line holds.
#[derive(Debug, PartialEq, Eq)]
pub struct DevtoolCliOptions {
    /// The task.
    pub cmd: Cmd,
}

impl DevtoolCliOptions {
    /// Hands the command line to the one orchestrator that its task names,
    /// and starts it: the result is the first state of the run and the first
    /// tool to run.
    pub fn execute(self) -> (r: (Pipeline, Action))
        ensures
            (r.0@, r.1@) == begin(self.cmd@),
    {
        Pipeline::start(self.cmd)
    }
}

} // verus!
