//! The tidy task: the linter over the selected source files.

use crate::args::{Cmd, CmdView};
use crate::commands::utils::{source_globs, source_patterns, vendored, vendored_prefixes};
use crate::pipeline::{begin, Action, Pipeline};
use crate::selection::{mode_for, resolve_mode, FileSelector, FileSelectorView};
use crate::text::{push_text, push_texts};
use crate::tool::{CaptureStream, Step, StepView, ToolInvocation, ToolInvocationView};
use vstd::prelude::*;

verus! {

/// The options of the tidy task.
#[derive(Debug, PartialEq, Eq)]
pub struct TidyCommand {
    /// Show what the linter prints while it runs.
    pub verbose: bool,
    /// Take every tracked file, not only the modified ones.
    pub all_files: bool,
    /// Let the linter mend what it finds.
    pub fix: bool,
    /// The directory that holds the build files. It is taken as given.
    pub build_folder: String,
}

/// A `TidyCommand` as plain mathematical data.
pub struct TidyCommandView {
    pub verbose: bool,
    pub all_files: bool,
    pub fix: bool,
    pub build_folder: Seq<char>,
}

impl View for TidyCommand {
    type V = TidyCommandView;

    open spec fn view(&self) -> TidyCommandView {
        TidyCommandView {
            verbose: self.verbose,
            all_files: self.all_files,
            fix: self.fix,
            build_folder: self.build_folder@,
        }
    }
}

impl Clone for TidyCommand {
    fn clone(&self) -> (r: Self)
        ensures
            r@ == self@,
    {
        TidyCommand {
            verbose: self.verbose,
            all_files: self.all_files,
            fix: self.fix,
            build_folder: self.build_folder.clone(),
        }
    }
}

impl Default for TidyCommand {
    /// No flag set, and the build files in `build`.
    fn default() -> (r: Self)
        ensures
            r@ == (TidyCommandView {
                verbose: false,
                all_files: false,
                fix: false,
                build_folder: "build"@,
            }),
    {
        TidyCommand { verbose: false, all_files: false, fix: false, build_folder: "build".to_owned() }
    }
}

/// The files that the tidy task looks at: the native sources outside the
/// vendored tree, all of them or the modified ones.
pub open spec fn tidy_selector(command: TidyCommandView) -> FileSelectorView {
    FileSelectorView {
        extensions: source_patterns(),
        mode: mode_for(command.all_files, None),
        exclude_prefixes: vendored_prefixes(),
    }
}

/// The flag that lets the linter mend what it finds: it stands first among
/// the arguments where `fix` is set, and nothing stands in its place where
/// it is not.
pub open spec fn fix_flags(fix: bool) -> Seq<Seq<char>> {
    if fix {
        seq!["-fix"@]
    } else {
        Seq::empty()
    }
}

/// The run of the linter over `files`: none where there is no file. A failure
/// carries what the linter wrote to standard output.
pub open spec fn clang_tidy_step(command: TidyCommandView, files: Seq<Seq<char>>) -> Option<
    StepView,
> {
    if files.len() == 0 {
        None
    } else {
        Some(
            StepView {
                label: "clang-tidy"@,
                tool: ToolInvocationView {
                    executable: "clang-tidy"@,
                    args: fix_flags(command.fix) + seq![
                        "-p"@,
                        command.build_folder,
                        "-header-filter=src/*"@,
                        "-quiet"@,
                    ] + files,
                    stream_output: command.verbose,
                    working_directory: None,
                },
                inspect: CaptureStream::Stdout,
            },
        )
    }
}

/// The invocations of the tidy task once `files` are selected.
pub open spec fn tidy_chain(command: TidyCommandView, files: Seq<Seq<char>>) -> Seq<StepView> {
    match clang_tidy_step(command, files) {
        Some(step) => seq![step],
        None => Seq::empty(),
    }
}

impl TidyCommand {
    /// The selector of the files to lint.
    pub fn selector(&self) -> (r: FileSelector)
        ensures
            r@ == tidy_selector(self@),
    {
        FileSelector {
            extensions: source_globs(),
            mode: resolve_mode(self.all_files, None),
            exclude_prefixes: vendored(),
        }
    }

    /// The run of the linter over `files`. There is none where `files` is
    /// empty: nothing is to be done then.
    pub fn clang_tidy(&self, files: &Vec<String>) -> (r: Option<Step>)
        ensures
            r.deep_view() == clang_tidy_step(self@, files.deep_view()),
            r is None <==> files.len() == 0,
    {
        if files.len() == 0 {
            return None;
        }
        let mut args: Vec<String> = Vec::new();
        if self.fix {
            push_text(&mut args, "-fix");
        }
        push_text(&mut args, "-p");
        push_text(&mut args, self.build_folder.as_str());
        push_text(&mut args, "-header-filter=src/*");
        push_text(&mut args, "-quiet");
        push_texts(&mut args, files);
        proof {
            assert(args.deep_view() =~= fix_flags(self.fix) + seq![
                "-p"@,
                self.build_folder@,
                "-header-filter=src/*"@,
                "-quiet"@,
            ] + files.deep_view());
        }
        Some(
            Step {
                label: "clang-tidy".to_owned(),
                tool: ToolInvocation {
                    executable: "clang-tidy".to_owned(),
                    args,
                    stream_output: self.verbose,
                    working_directory: None,
                },
                inspect: CaptureStream::Stdout,
            },
        )
    }

    /// The invocations of this command once `files` are selected.
    pub fn chain(&self, files: &Vec<String>) -> (r: Vec<Step>)
        ensures
            r.deep_view() == tidy_chain(self@, files.deep_view()),
    {
        let mut steps: Vec<Step> = Vec::new();
        match self.clang_tidy(files) {
            Some(step) => {
                steps.push(step);
            },
            None => {},
        }
        steps
    }

    /// Starts the tidy task: the result is the first state of its run and
    /// the first tool to run.
    pub fn run(self) -> (r: (Pipeline, Action))
        ensures
            (r.0@, r.1@) == begin(CmdView::Tidy(self@)),
    {
        Pipeline::start(Cmd::Tidy(self))
    }
}

} // verus!
