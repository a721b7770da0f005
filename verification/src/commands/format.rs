//! The format task: the native formatter over the selected source files,
//! and after it the toolchain's own formatter over the sources of this tool.

use crate::args::{Cmd, CmdView};
use crate::commands::utils::{source_globs, source_patterns, vendored, vendored_prefixes};
use crate::pipeline::{begin, Action, Pipeline};
use crate::selection::{mode_for, resolve_mode, FileSelector, FileSelectorView};
use crate::text::{push_text, push_texts};
use crate::tool::{
    create_stdio, stdio_mode, CaptureStream, StdioMode, Step, StepView, ToolInvocation,
    ToolInvocationView,
};
use vstd::prelude::*;

verus! {

/// The options of the format task.
#[derive(Debug, PartialEq, Eq)]
pub struct FormatCommand {
    /// Show what the tools print while they run.
    pub verbose: bool,
    /// Accepted for the command line's sake; no invocation depends on it.
    pub print_files: bool,
    /// Take every tracked file, not only the modified ones.
    pub all_files: bool,
    /// Only report the files that need changes, and change none.
    pub check: bool,
    /// Take the files that differ from this branch. It wins over
    /// `all_files`.
    pub diff_branch: Option<String>,
}

/// A `FormatCommand` as plain mathematical data.
pub struct FormatCommandView {
    pub verbose: bool,
    pub print_files: bool,
    pub all_files: bool,
    pub check: bool,
    pub diff_branch: Option<Seq<char>>,
}

impl View for FormatCommand {
    type V = FormatCommandView;

    open spec fn view(&self) -> FormatCommandView {
        FormatCommandView {
            verbose: self.verbose,
            print_files: self.print_files,
            all_files: self.all_files,
            check: self.check,
            diff_branch: self.diff_branch.deep_view(),
        }
    }
}

impl Clone for FormatCommand {
    fn clone(&self) -> (r: Self)
        ensures
            r@ == self@,
    {
        FormatCommand {
            verbose: self.verbose,
            print_files: self.print_files,
            all_files: self.all_files,
            check: self.check,
            diff_branch: self.diff_branch.clone(),
        }
    }
}

impl Default for FormatCommand {
    /// No flag set and no branch: the modified files are formatted in place.
    fn default() -> (r: Self)
        ensures
            r@ == (FormatCommandView {
                verbose: false,
                print_files: false,
                all_files: false,
                check: false,
                diff_branch: None,
            }),
    {
        FormatCommand {
            verbose: false,
            print_files: false,
            all_files: false,
            check: false,
            diff_branch: None,
        }
    }
}

/// The files that the format task looks at: the native sources outside the
/// vendored tree, in the mode that the two selection flags resolve to.
pub open spec fn format_selector(command: FormatCommandView) -> FileSelectorView {
    FileSelectorView {
        extensions: source_patterns(),
        mode: mode_for(command.all_files, command.diff_branch),
        exclude_prefixes: vendored_prefixes(),
    }
}

/// The flags that make the native formatter report instead of rewrite.
pub open spec fn check_flags(check: bool) -> Seq<Seq<char>> {
    if check {
        seq!["--dry-run"@, "--Werror"@]
    } else {
        Seq::empty()
    }
}

/// The run of the native formatter over `files`: none where there is no
/// file. A failure carries what the formatter wrote to standard error.
pub open spec fn clang_format_step(command: FormatCommandView, files: Seq<Seq<char>>) -> Option<
    StepView,
> {
    if files.len() == 0 {
        None
    } else {
        Some(
            StepView {
                label: "clang-format"@,
                tool: ToolInvocationView {
                    executable: "clang-format"@,
                    args: seq!["-i"@] + files + check_flags(command.check),
                    stream_output: command.verbose,
                    working_directory: None,
                },
                inspect: CaptureStream::Stderr,
            },
        )
    }
}

/// The run of the toolchain's own formatter, in the source tree of this
/// tool. It names no file and is the same whatever was selected.
pub open spec fn rustfmt_step(command: FormatCommandView) -> StepView {
    StepView {
        label: "cargo fmt"@,
        tool: ToolInvocationView {
            executable: "cargo"@,
            args: seq!["fmt"@],
            stream_output: command.verbose,
            working_directory: Some("src/devtool"@),
        },
        inspect: CaptureStream::Neither,
    }
}

/// The invocations of the format task once `files` are selected, in the
/// order in which they run.
pub open spec fn format_chain(command: FormatCommandView, files: Seq<Seq<char>>) -> Seq<StepView> {
    match clang_format_step(command, files) {
        Some(step) => seq![step, rustfmt_step(command)],
        None => seq![rustfmt_step(command)],
    }
}

impl FormatCommand {
    /// The connections of the two output streams of the tools of this command.
    pub fn create_stdio(&self) -> (r: (StdioMode, StdioMode))
        ensures
            r == (stdio_mode(self.verbose), stdio_mode(self.verbose)),
    {
        create_stdio(self.verbose)
    }

    /// The selector of the files to format.
    pub fn selector(&self) -> (r: FileSelector)
        ensures
            r@ == format_selector(self@),
    {
        FileSelector {
            extensions: source_globs(),
            mode: resolve_mode(self.all_files, self.diff_branch.clone()),
            exclude_prefixes: vendored(),
        }
    }

    /// The run of the native formatter over `files`. There is none where
    /// `files` is empty: nothing is to be done then.
    pub fn clang_format(&self, files: &Vec<String>) -> (r: Option<Step>)
        ensures
            r.deep_view() == clang_format_step(self@, files.deep_view()),
            r is None <==> files.len() == 0,
    {
        if files.len() == 0 {
            return None;
        }
        let mut args: Vec<String> = Vec::new();
        push_text(&mut args, "-i");
        push_texts(&mut args, files);
        if self.check {
            push_text(&mut args, "--dry-run");
            push_text(&mut args, "--Werror");
        }
        proof {
            assert(args.deep_view() =~= seq!["-i"@] + files.deep_view() + check_flags(self.check));
        }
        Some(
            Step {
                label: "clang-format".to_owned(),
                tool: ToolInvocation {
                    executable: "clang-format".to_owned(),
                    args,
                    stream_output: self.verbose,
                    working_directory: None,
                },
                inspect: CaptureStream::Stderr,
            },
        )
    }

    /// The run of the toolchain's own formatter.
    pub fn rustfmt(&self) -> (r: Step)
        ensures
            r@ == rustfmt_step(self@),
    {
        let mut args: Vec<String> = Vec::new();
        push_text(&mut args, "fmt");
        proof {
            assert(args.deep_view() =~= seq!["fmt"@]);
        }
        Step {
            label: "cargo fmt".to_owned(),
            tool: ToolInvocation {
                executable: "cargo".to_owned(),
                args,
                stream_output: self.verbose,
                working_directory: Some("src/devtool".to_owned()),
            },
            inspect: CaptureStream::Neither,
        }
    }

    /// The invocations of this command once `files` are selected.
    pub fn chain(&self, files: &Vec<String>) -> (r: Vec<Step>)
        ensures
            r.deep_view() == format_chain(self@, files.deep_view()),
    {
        let mut steps: Vec<Step> = Vec::new();
        match self.clang_format(files) {
            Some(step) => {
                steps.push(step);
            },
            None => {},
        }
        steps.push(self.rustfmt());
        steps
    }

    /// Starts the format task: the result is the first state of its run and
    /// the first tool to run.
    pub fn run(self) -> (r: (Pipeline, Action))
        ensures
            (r.0@, r.1@) == begin(CmdView::Format(self@)),
    {
        Pipeline::start(Cmd::Format(self))
    }
}

} // verus!
