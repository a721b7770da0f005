use devtool::args::{Cmd, DevtoolCliOptions};
use devtool::commands::configure::ConfigureCommand;
use devtool::commands::format::FormatCommand;
use devtool::commands::tidy::TidyCommand;
use devtool::error::DevtoolError;
use devtool::pipeline::{exit_code, Action, Completion, FileTask, Pipeline};
use devtool::tool::{CaptureStream, ProcessOutcome, Step, ToolInvocation};

fn args(items: &[&str]) -> Vec<String> {
    items.iter().map(|s| s.to_string()).collect()
}

fn ran(success: bool, stdout: &str, stderr: &str) -> ProcessOutcome {
    ProcessOutcome::Exited { success, stdout: stdout.to_string(), stderr: stderr.to_string() }
}

fn call(executable: &str, arguments: &[&str], stream_output: bool) -> ToolInvocation {
    ToolInvocation {
        executable: executable.to_string(),
        args: args(arguments),
        stream_output,
        working_directory: None,
    }
}

fn step_named(name: &str) -> Step {
    Step { label: name.to_string(), tool: call(name, &[], false), inspect: CaptureStream::Stderr }
}

/// Reports the outcomes to a pipeline that awaits one, and collects what it
/// asks for.
fn resume(pipeline: Pipeline, outcomes: Vec<ProcessOutcome>) -> (Pipeline, Vec<Action>) {
    let mut state = pipeline;
    let mut actions = Vec::new();
    for outcome in outcomes {
        let (next, action) = state.step(outcome);
        state = next;
        actions.push(action);
    }
    (state, actions)
}

/// Reports the outcomes to a run that has just started, and collects what it
/// asks for, the first move included.
fn drive(started: (Pipeline, Action), outcomes: Vec<ProcessOutcome>) -> (Pipeline, Vec<Action>) {
    let (state, first) = started;
    let (state, mut actions) = resume(state, outcomes);
    actions.insert(0, first);
    (state, actions)
}

fn cargo_fmt(stream_output: bool) -> ToolInvocation {
    ToolInvocation {
        executable: "cargo".to_string(),
        args: args(&["fmt"]),
        stream_output,
        working_directory: Some("src/devtool".to_string()),
    }
}

fn list_all_sources() -> ToolInvocation {
    call("git", &["ls-files", "*.c", "*.cpp", "*.h", "*.hpp"], false)
}

fn list_modified_sources() -> ToolInvocation {
    call("git", &["ls-files", "*.c", "*.cpp", "*.h", "*.hpp", "-m"], false)
}

#[test]
fn execute_starts_the_pipeline_of_the_task() {
    let options = DevtoolCliOptions { cmd: Cmd::Tidy(TidyCommand::default()) };
    assert_eq!(
        options.execute(),
        (
            Pipeline::SelectingFiles(FileTask::Tidy(TidyCommand::default())),
            Action::Run(list_modified_sources())
        )
    );
    let options = DevtoolCliOptions { cmd: Cmd::Format(FormatCommand::default()) };
    assert_eq!(
        options.execute(),
        (
            Pipeline::SelectingFiles(FileTask::Format(FormatCommand::default())),
            Action::Run(list_modified_sources())
        )
    );
    let options = DevtoolCliOptions { cmd: Cmd::Configure(ConfigureCommand::default()) };
    assert_eq!(
        options.execute(),
        (
            Pipeline::Validating(ConfigureCommand::default()),
            Action::Run(call("cmake", &["--version"], false))
        )
    );
}

#[test]
fn run_is_the_start_of_the_pipeline() {
    let format = FormatCommand { all_files: true, ..FormatCommand::default() };
    assert_eq!(format.clone().run(), Pipeline::start(Cmd::Format(format)));
    let tidy = TidyCommand { fix: true, ..TidyCommand::default() };
    assert_eq!(tidy.clone().run(), Pipeline::start(Cmd::Tidy(tidy)));
    let configure = ConfigureCommand { preset: Some("p".to_string()), verbose: true };
    assert_eq!(configure.clone().run(), Pipeline::start(Cmd::Configure(configure)));
}

#[test]
fn exit_code_is_zero_for_a_good_end_and_one_for_a_failure() {
    assert_eq!(exit_code(&Ok(Completion::AllSucceeded)), 0);
    assert_eq!(exit_code(&Ok(Completion::NothingToDo)), 0);
    assert_eq!(exit_code(&Ok(Completion::PresetsListed { output: String::new() })), 0);
    assert_eq!(
        exit_code(&Err(DevtoolError::ToolReportedFailure { tool: "cmake".to_string(), output: None })),
        1
    );
    assert_eq!(exit_code(&Err(DevtoolError::VcsQueryFailed { stderr: String::new() })), 1);
    assert_eq!(exit_code(&Err(DevtoolError::ToolNotFound { tool: "x".to_string() })), 1);
}

#[test]
fn configure_with_an_old_build_tool_fails_before_any_configuration() {
    let command = ConfigureCommand { preset: Some("foo".to_string()), verbose: false };
    let (state, actions) = drive(
        command.run(),
        vec![
            ran(true, "cmake version 3.25.1\n\nCMake suite maintained by Kitware\n", ""),
            ran(true, "", ""),
        ],
    );
    let error = DevtoolError::PreconditionFailed {
        message: "CMake must be version 3.26 or newer".to_string(),
    };
    assert_eq!(
        actions,
        vec![
            Action::Run(call("cmake", &["--version"], false)),
            Action::Exit(Err(error.clone())),
            Action::Exit(Err(error.clone())),
        ]
    );
    assert_eq!(state, Pipeline::Failed(error));
    assert!(state.is_finished());
}

#[test]
fn configure_with_a_preset_runs_the_build_tool_once() {
    let command = ConfigureCommand { preset: Some("foo".to_string()), verbose: true };
    let (state, actions) =
        drive(command.run(), vec![ran(true, "cmake version 3.28.3\n", ""), ran(true, "", "")]);
    assert_eq!(
        actions,
        vec![
            Action::Run(call("cmake", &["--version"], false)),
            Action::Run(call("cmake", &["--preset", "foo", "-S", ".", "-B", "build/foo"], true)),
            Action::Exit(Ok(Completion::AllSucceeded)),
        ]
    );
    assert_eq!(state, Pipeline::Done(Completion::AllSucceeded));
}

#[test]
fn configure_reflects_the_failure_of_the_build_tool() {
    let command = ConfigureCommand { preset: Some("foo".to_string()), verbose: false };
    let (state, actions) = drive(
        command.run(),
        vec![
            ran(true, "cmake version 3.28.3\n", ""),
            ran(false, "CMake Error: no such preset", "details"),
        ],
    );
    let error = DevtoolError::ToolReportedFailure {
        tool: "cmake".to_string(),
        output: Some("CMake Error: no such preset".to_string()),
    };
    assert_eq!(actions[2], Action::Exit(Err(error.clone())));
    assert_eq!(state, Pipeline::Failed(error));
}

#[test]
fn configure_without_a_preset_lists_the_presets() {
    let command = ConfigureCommand { preset: None, verbose: true };
    let (state, actions) = drive(
        command.run(),
        vec![
            ran(true, "cmake version 3.26.4\n", ""),
            ran(true, "Available configure presets:\n  \"debug\"\n", ""),
        ],
    );
    let listed = Completion::PresetsListed {
        output: "Available configure presets:\n  \"debug\"\n".to_string(),
    };
    assert_eq!(
        actions,
        vec![
            Action::Run(call("cmake", &["--version"], false)),
            Action::Run(call("cmake", &["--list-presets"], false)),
            Action::Exit(Ok(listed.clone())),
        ]
    );
    assert_eq!(state, Pipeline::Done(listed));
}

#[test]
fn a_listing_that_reports_a_failure_fails_the_run() {
    let (state, actions) = drive(
        ConfigureCommand::default().run(),
        vec![ran(true, "cmake version 3.26.4\n", ""), ran(false, "no presets", "e")],
    );
    let error = DevtoolError::ToolReportedFailure {
        tool: "cmake".to_string(),
        output: Some("no presets".to_string()),
    };
    assert_eq!(exit_code(&Err(error.clone())), 1);
    assert_eq!(error.message(), "cmake failed");
    assert_eq!(
        actions,
        vec![
            Action::Run(call("cmake", &["--version"], false)),
            Action::Run(call("cmake", &["--list-presets"], false)),
            Action::Exit(Err(error.clone())),
        ]
    );
    assert_eq!(state, Pipeline::Failed(error));
}

#[test]
fn a_listing_fails_on_every_outcome_but_a_success() {
    let outcomes = vec![
        ProcessOutcome::NotFound,
        ProcessOutcome::LaunchFailed,
        ran(false, "", ""),
        ran(false, "out", "err"),
    ];
    for outcome in outcomes {
        let listing = Pipeline::ListingPresets(ConfigureCommand::default());
        let (state, action) = listing.step(outcome);
        assert!(matches!(state, Pipeline::Failed(_)));
        assert!(matches!(action, Action::Exit(Err(_))));
    }
    let listing = Pipeline::ListingPresets(ConfigureCommand { preset: None, verbose: true });
    let (state, action) = listing.step(ran(true, "presets", "noise"));
    assert_eq!(state, Pipeline::Done(Completion::PresetsListed { output: "presets".to_string() }));
    assert_eq!(
        action,
        Action::Exit(Ok(Completion::PresetsListed { output: "presets".to_string() }))
    );
}

#[test]
fn a_listing_that_cannot_run_fails() {
    let listing = Pipeline::ListingPresets(ConfigureCommand::default());
    let (state, action) = listing.step(ProcessOutcome::NotFound);
    let error = DevtoolError::ToolNotFound { tool: "cmake".to_string() };
    assert_eq!(action, Action::Exit(Err(error.clone())));
    assert_eq!(state, Pipeline::Failed(error));
    let listing = Pipeline::ListingPresets(ConfigureCommand::default());
    let (_, action) = listing.step(ProcessOutcome::LaunchFailed);
    assert_eq!(
        action,
        Action::Exit(Err(DevtoolError::ToolReportedFailure {
            tool: "cmake".to_string(),
            output: None
        }))
    );
}

#[test]
fn configure_without_the_build_tool_fails() {
    let (state, actions) =
        drive(ConfigureCommand::default().run(), vec![ProcessOutcome::NotFound]);
    let error = DevtoolError::ToolNotFound { tool: "cmake".to_string() };
    assert_eq!(actions[1], Action::Exit(Err(error.clone())));
    assert_eq!(state, Pipeline::Failed(error));
}

#[test]
fn format_check_of_all_files_fails_when_the_dry_run_reports_differences() {
    let command = FormatCommand { check: true, all_files: true, ..FormatCommand::default() };
    let (state, actions) = drive(
        command.run(),
        vec![
            ran(true, "src/a.cpp\nthird_party/lib.c\nsrc/b.h\n", ""),
            ran(false, "", "src/a.cpp:1:1: error: code should be clang-formatted"),
        ],
    );
    let error = DevtoolError::ToolReportedFailure {
        tool: "clang-format".to_string(),
        output: Some("src/a.cpp:1:1: error: code should be clang-formatted".to_string()),
    };
    assert_eq!(
        actions,
        vec![
            Action::Run(list_all_sources()),
            Action::Run(call(
                "clang-format",
                &["-i", "src/a.cpp", "src/b.h", "--dry-run", "--Werror"],
                false
            )),
            Action::Exit(Err(error.clone())),
        ]
    );
    assert_eq!(exit_code(&Err(error.clone())), 1);
    assert_eq!(error.message(), "clang-format failed");
    assert_eq!(state, Pipeline::Failed(error));
}

#[test]
fn format_runs_both_formatters_in_order() {
    let command = FormatCommand { verbose: true, ..FormatCommand::default() };
    let (state, actions) = drive(
        command.run(),
        vec![ran(true, "src/a.cpp\n", ""), ran(true, "", ""), ran(true, "", "")],
    );
    assert_eq!(
        actions,
        vec![
            Action::Run(list_modified_sources()),
            Action::Run(call("clang-format", &["-i", "src/a.cpp"], true)),
            Action::Run(cargo_fmt(true)),
            Action::Exit(Ok(Completion::AllSucceeded)),
        ]
    );
    assert_eq!(state, Pipeline::Done(Completion::AllSucceeded));
}

#[test]
fn format_prefers_the_branch_over_all_files() {
    let command = FormatCommand {
        all_files: true,
        diff_branch: Some("main".to_string()),
        ..FormatCommand::default()
    };
    let (_, action) = command.run();
    assert_eq!(
        action,
        Action::Run(call(
            "git",
            &["diff", "--name-only", "main", "--", "*.c", "*.cpp", "*.h", "*.hpp"],
            false
        ))
    );
}

#[test]
fn format_without_files_skips_the_native_formatter() {
    let (state, actions) = drive(
        FormatCommand::default().run(),
        vec![ran(true, "third_party/a.c\n", ""), ran(true, "", "")],
    );
    assert_eq!(
        actions,
        vec![
            Action::Run(list_modified_sources()),
            Action::Run(cargo_fmt(false)),
            Action::Exit(Ok(Completion::AllSucceeded)),
        ]
    );
    assert_eq!(state, Pipeline::Done(Completion::AllSucceeded));
}

#[test]
fn format_does_not_start_rustfmt_after_a_missing_formatter() {
    let (state, actions) = drive(
        FormatCommand::default().run(),
        vec![ran(true, "a.c\n", ""), ProcessOutcome::NotFound, ran(true, "", ""), ran(true, "", "")],
    );
    let error = DevtoolError::ToolNotFound { tool: "clang-format".to_string() };
    assert_eq!(error.message(), "clang-format not found");
    assert_eq!(actions.len(), 5);
    assert_eq!(actions[1], Action::Run(call("clang-format", &["-i", "a.c"], false)));
    for action in &actions[2..] {
        assert_eq!(action, &Action::Exit(Err(error.clone())));
    }
    assert_eq!(state, Pipeline::Failed(error));
}

#[test]
fn format_reports_the_failure_of_rustfmt_by_name() {
    let (_, actions) = drive(
        FormatCommand::default().run(),
        vec![ran(true, "a.c\n", ""), ran(true, "", ""), ran(false, "o", "e")],
    );
    let error = DevtoolError::ToolReportedFailure { tool: "cargo fmt".to_string(), output: None };
    assert_eq!(error.message(), "cargo fmt failed");
    assert_eq!(actions[3], Action::Exit(Err(error)));
}

#[test]
fn format_fails_when_the_file_query_fails() {
    let (state, actions) = drive(
        FormatCommand::default().run(),
        vec![ran(false, "", "fatal: not a git repository")],
    );
    let error = DevtoolError::VcsQueryFailed { stderr: "fatal: not a git repository".to_string() };
    assert_eq!(actions[1], Action::Exit(Err(error.clone())));
    assert_eq!(state, Pipeline::Failed(error));
}

#[test]
fn tidy_without_files_succeeds_without_any_invocation_of_the_linter() {
    let command = TidyCommand { build_folder: "out".to_string(), ..TidyCommand::default() };
    let (state, actions) = drive(
        command.run(),
        vec![ran(true, "third_party/a.c\nthird_party/b.h\n", ""), ran(true, "", "")],
    );
    assert_eq!(
        actions,
        vec![
            Action::Run(list_modified_sources()),
            Action::Exit(Ok(Completion::NothingToDo)),
            Action::Exit(Ok(Completion::NothingToDo)),
        ]
    );
    assert_eq!(exit_code(&Ok(Completion::NothingToDo)), 0);
    assert_eq!(state, Pipeline::Done(Completion::NothingToDo));
}

#[test]
fn tidy_with_an_empty_listing_has_nothing_to_do() {
    let (state, actions) = drive(TidyCommand::default().run(), vec![ran(true, "", "")]);
    assert_eq!(actions[1], Action::Exit(Ok(Completion::NothingToDo)));
    assert_eq!(state, Pipeline::Done(Completion::NothingToDo));
}

#[test]
fn tidy_runs_the_linter_over_the_selected_files() {
    let command =
        TidyCommand { all_files: true, fix: true, build_folder: "out".to_string(), verbose: false };
    let (state, actions) = drive(
        command.run(),
        vec![ran(true, "src/a.cpp\nthird_party/b.c\n", ""), ran(true, "", "")],
    );
    assert_eq!(
        actions,
        vec![
            Action::Run(list_all_sources()),
            Action::Run(call(
                "clang-tidy",
                &["-fix", "-p", "out", "-header-filter=src/*", "-quiet", "src/a.cpp"],
                false
            )),
            Action::Exit(Ok(Completion::AllSucceeded)),
        ]
    );
    assert_eq!(state, Pipeline::Done(Completion::AllSucceeded));
}

#[test]
fn tidy_without_fix_hands_over_options_and_files_only() {
    let command = TidyCommand {
        verbose: false,
        all_files: false,
        fix: false,
        build_folder: "out".to_string(),
    };
    let (state, actions) =
        drive(command.run(), vec![ran(true, "src/a.cpp\n", ""), ran(true, "", "")]);
    assert_eq!(
        actions,
        vec![
            Action::Run(list_modified_sources()),
            Action::Run(call(
                "clang-tidy",
                &["-p", "out", "-header-filter=src/*", "-quiet", "src/a.cpp"],
                false
            )),
            Action::Exit(Ok(Completion::AllSucceeded)),
        ]
    );
    let linter_calls = actions
        .iter()
        .filter(|a| matches!(a, Action::Run(tool) if tool.executable == "clang-tidy"))
        .count();
    assert_eq!(linter_calls, 1);
    if let Action::Run(tool) = &actions[1] {
        assert!(!tool.args.iter().any(|a| a.is_empty()));
        assert!(!tool.args.iter().any(|a| a == "-fix"));
        let at = tool.args.iter().position(|a| a == "-p").unwrap();
        assert_eq!(tool.args[at + 1], "out");
        assert_eq!(tool.args.last().unwrap(), "src/a.cpp");
    } else {
        panic!("the linter was not asked for");
    }
    assert_eq!(state, Pipeline::Done(Completion::AllSucceeded));
}

#[test]
fn tidy_attaches_the_standard_output_of_the_linter_to_its_failure() {
    let (_, actions) = drive(
        TidyCommand::default().run(),
        vec![ran(true, "a.c\n", ""), ran(false, "a.c:3: warning", "2 warnings")],
    );
    assert_eq!(
        actions[2],
        Action::Exit(Err(DevtoolError::ToolReportedFailure {
            tool: "clang-tidy".to_string(),
            output: Some("a.c:3: warning".to_string()),
        }))
    );
}

#[test]
fn tidy_reports_a_missing_linter() {
    let (_, actions) =
        drive(TidyCommand::default().run(), vec![ran(true, "a.c\n", ""), ProcessOutcome::NotFound]);
    assert_eq!(
        actions[2],
        Action::Exit(Err(DevtoolError::ToolNotFound { tool: "clang-tidy".to_string() }))
    );
}

#[test]
fn a_verbose_failure_carries_no_output() {
    let command = TidyCommand { verbose: true, ..TidyCommand::default() };
    let (_, actions) = drive(command.run(), vec![ran(true, "a.c\n", ""), ran(false, "", "")]);
    assert_eq!(
        actions[2],
        Action::Exit(Err(DevtoolError::ToolReportedFailure {
            tool: "clang-tidy".to_string(),
            output: None,
        }))
    );
}

#[test]
fn the_second_invocation_is_never_started_after_the_first_failed() {
    let pipeline =
        Pipeline::Invoking { current: step_named("first"), rest: vec![step_named("second")] };
    let (state, actions) =
        resume(pipeline, vec![ran(false, "", "broken"), ran(true, "", ""), ran(true, "", "")]);
    let error = DevtoolError::ToolReportedFailure {
        tool: "first".to_string(),
        output: Some("broken".to_string()),
    };
    assert_eq!(actions.len(), 3);
    for action in &actions {
        assert_eq!(action, &Action::Exit(Err(error.clone())));
    }
    assert_eq!(state, Pipeline::Failed(error));
}

#[test]
fn the_second_invocation_starts_after_the_first_succeeded() {
    let pipeline =
        Pipeline::Invoking { current: step_named("first"), rest: vec![step_named("second")] };
    let (state, actions) = resume(pipeline, vec![ran(true, "", ""), ran(true, "", "")]);
    assert_eq!(
        actions,
        vec![
            Action::Run(call("second", &[], false)),
            Action::Exit(Ok(Completion::AllSucceeded)),
        ]
    );
    assert_eq!(state, Pipeline::Done(Completion::AllSucceeded));
}

#[test]
fn a_chain_is_run_in_its_order() {
    let pipeline = Pipeline::Invoking {
        current: step_named("a"),
        rest: vec![step_named("b"), step_named("c"), step_named("d")],
    };
    let (state, actions) = resume(
        pipeline,
        vec![ran(true, "", ""), ran(true, "", ""), ran(false, "", "stop"), ran(true, "", "")],
    );
    let error =
        DevtoolError::ToolReportedFailure { tool: "c".to_string(), output: Some("stop".to_string()) };
    assert_eq!(
        actions,
        vec![
            Action::Run(call("b", &[], false)),
            Action::Run(call("c", &[], false)),
            Action::Exit(Err(error.clone())),
            Action::Exit(Err(error.clone())),
        ]
    );
    assert_eq!(state, Pipeline::Failed(error));
}

#[test]
fn a_run_that_ended_well_stays_as_it_is() {
    let done = Pipeline::Done(Completion::AllSucceeded);
    let (state, actions) = resume(done, vec![ran(false, "", ""), ProcessOutcome::NotFound]);
    assert_eq!(
        actions,
        vec![
            Action::Exit(Ok(Completion::AllSucceeded)),
            Action::Exit(Ok(Completion::AllSucceeded)),
        ]
    );
    assert_eq!(state, Pipeline::Done(Completion::AllSucceeded));
    assert!(state.is_finished());
}

#[test]
fn a_run_is_not_finished_while_a_tool_is_awaited() {
    assert!(!TidyCommand::default().run().0.is_finished());
    assert!(!ConfigureCommand::default().run().0.is_finished());
    assert!(!Pipeline::ListingPresets(ConfigureCommand::default()).is_finished());
    assert!(!Pipeline::Invoking { current: step_named("a"), rest: Vec::new() }.is_finished());
    assert!(Pipeline::Failed(DevtoolError::VcsQueryFailed { stderr: String::new() }).is_finished());
}

#[test]
fn pipeline_types_can_be_cloned() {
    let task = FileTask::Format(FormatCommand::default());
    assert_eq!(task.clone(), task);
    let completion = Completion::PresetsListed { output: "x".to_string() };
    assert_eq!(completion.clone(), completion);
    let cmd = Cmd::Configure(ConfigureCommand::default());
    assert_eq!(cmd.clone(), cmd);
}
