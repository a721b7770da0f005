use devtool::error::DevtoolError;
use devtool::tool::{
    create_stdio, tool_result, CaptureStream, ProcessOutcome, StdioMode, Step, ToolInvocation,
    ToolResult,
};

fn failed_run() -> ProcessOutcome {
    ProcessOutcome::Exited { success: false, stdout: "out".to_string(), stderr: "err".to_string() }
}

#[test]
fn create_stdio_inherits_both_streams_when_verbose() {
    assert_eq!(create_stdio(true), (StdioMode::Inherit, StdioMode::Inherit));
}

#[test]
fn create_stdio_captures_both_streams_when_quiet() {
    assert_eq!(create_stdio(false), (StdioMode::Piped, StdioMode::Piped));
}

#[test]
fn tool_result_of_a_success_is_success() {
    let outcome =
        ProcessOutcome::Exited { success: true, stdout: "x".to_string(), stderr: "y".to_string() };
    assert_eq!(tool_result(false, CaptureStream::Stdout, outcome.clone()), ToolResult::Success);
    assert_eq!(tool_result(true, CaptureStream::Stderr, outcome), ToolResult::Success);
}

#[test]
fn tool_result_of_a_missing_executable_is_never_a_failure() {
    for stream_output in [false, true] {
        for inspect in [CaptureStream::Stdout, CaptureStream::Stderr, CaptureStream::Neither] {
            assert_eq!(
                tool_result(stream_output, inspect, ProcessOutcome::NotFound),
                ToolResult::ExecutableNotFound
            );
        }
    }
}

#[test]
fn tool_result_of_a_failed_launch_is_a_failure_without_output() {
    assert_eq!(
        tool_result(false, CaptureStream::Stdout, ProcessOutcome::LaunchFailed),
        ToolResult::Failure { captured_output: None }
    );
}

#[test]
fn tool_result_attaches_the_stream_that_is_inspected() {
    assert_eq!(
        tool_result(false, CaptureStream::Stdout, failed_run()),
        ToolResult::Failure { captured_output: Some("out".to_string()) }
    );
    assert_eq!(
        tool_result(false, CaptureStream::Stderr, failed_run()),
        ToolResult::Failure { captured_output: Some("err".to_string()) }
    );
    assert_eq!(
        tool_result(false, CaptureStream::Neither, failed_run()),
        ToolResult::Failure { captured_output: None }
    );
}

#[test]
fn tool_result_attaches_nothing_when_the_output_was_streamed() {
    for inspect in [CaptureStream::Stdout, CaptureStream::Stderr, CaptureStream::Neither] {
        assert_eq!(
            tool_result(true, inspect, failed_run()),
            ToolResult::Failure { captured_output: None }
        );
    }
}

#[test]
fn from_result_names_the_tool() {
    assert_eq!(DevtoolError::from_result("clang-tidy", ToolResult::Success), None);
    assert_eq!(
        DevtoolError::from_result("clang-tidy", ToolResult::ExecutableNotFound),
        Some(DevtoolError::ToolNotFound { tool: "clang-tidy".to_string() })
    );
    assert_eq!(
        DevtoolError::from_result(
            "clang-tidy",
            ToolResult::Failure { captured_output: Some("x".to_string()) }
        ),
        Some(DevtoolError::ToolReportedFailure {
            tool: "clang-tidy".to_string(),
            output: Some("x".to_string())
        })
    );
}

#[test]
fn messages_name_the_tool_or_the_condition() {
    assert_eq!(
        DevtoolError::ToolNotFound { tool: "clang-format".to_string() }.message(),
        "clang-format not found"
    );
    assert_eq!(
        DevtoolError::ToolReportedFailure { tool: "cargo fmt".to_string(), output: None }.message(),
        "cargo fmt failed"
    );
    assert_eq!(
        DevtoolError::VcsQueryFailed { stderr: "fatal".to_string() }.message(),
        "git ls-files -m failed"
    );
    assert_eq!(
        DevtoolError::PreconditionFailed { message: "too old".to_string() }.message(),
        "too old"
    );
}

#[test]
fn tool_types_can_be_cloned() {
    let step = Step {
        label: "x".to_string(),
        tool: ToolInvocation {
            executable: "x".to_string(),
            args: vec!["a".to_string(), "b".to_string()],
            stream_output: true,
            working_directory: Some("d".to_string()),
        },
        inspect: CaptureStream::Stderr,
    };
    assert_eq!(step.clone(), step);
    assert_eq!(failed_run().clone(), failed_run());
    let result = ToolResult::Failure { captured_output: Some("x".to_string()) };
    assert_eq!(result.clone(), result);
    let error = DevtoolError::ToolReportedFailure { tool: "t".to_string(), output: None };
    assert_eq!(error.clone(), error);
}
