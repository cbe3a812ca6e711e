use agent::executor::{SPAWN_ERROR_PREFIX, TIMEOUT_MESSAGE};
use agent::{CommandExecutor, ExecutionResult, Platform, ProcessOutcome};

#[test]
fn test_executor_default() {
    let _executor = CommandExecutor;
}

#[test]
fn test_executor_new() {
    let executor = CommandExecutor::new();
    let _ = executor;
}

#[test]
fn test_execution_result_struct() {
    let result = ExecutionResult {
        success: true,
        output: "test output".to_string(),
        exit_code: Some(0),
    };
    assert!(result.success);
    assert_eq!(result.output, "test output");
    assert_eq!(result.exit_code, Some(0));
}

#[test]
fn test_execution_result_failure() {
    let result = ExecutionResult {
        success: false,
        output: "error message".to_string(),
        exit_code: Some(1),
    };
    assert!(!result.success);
    assert_eq!(result.exit_code, Some(1));
}

#[test]
fn test_execution_result_no_exit_code() {
    let result = ExecutionResult {
        success: false,
        output: "timed out".to_string(),
        exit_code: None,
    };
    assert!(!result.success);
    assert!(result.exit_code.is_none());
}

fn completed(code: Option<i32>, stdout: &[u8], stderr: &[u8]) -> ProcessOutcome {
    ProcessOutcome::Completed {
        exit_code: code,
        stdout: stdout.to_vec(),
        stderr: stderr.to_vec(),
    }
}

#[test]
fn default_executor_is_usable() {
    let executor = CommandExecutor::default();
    let result = executor.conclude(ProcessOutcome::TimedOut);
    assert!(!result.success);
}

#[test]
fn hello_with_status_zero_succeeds() {
    let result = CommandExecutor::new().conclude(completed(Some(0), b"hello\n", b""));
    assert!(result.success);
    assert!(result.output.contains("hello"));
    assert_eq!(result.output, "hello");
    assert_eq!(result.exit_code, Some(0));
}

#[test]
fn status_one_fails_with_code() {
    let result = CommandExecutor::new().conclude(completed(Some(1), b"", b""));
    assert!(!result.success);
    assert_eq!(result.exit_code, Some(1));
    assert_eq!(result.output, "");
}

#[test]
fn timeout_reports_sentinel() {
    let result = CommandExecutor::new().conclude(ProcessOutcome::TimedOut);
    assert!(!result.success);
    assert_eq!(result.output, "Command timed out");
    assert_eq!(result.output, TIMEOUT_MESSAGE);
    assert!(result.exit_code.is_none());
}

#[test]
fn spawn_failure_reports_diagnostic() {
    let outcome = ProcessOutcome::SpawnFailed {
        diagnostic: "No such file or directory (os error 2)".to_string(),
    };
    let result = CommandExecutor::new().conclude(outcome);
    assert!(!result.success);
    assert_eq!(
        result.output,
        "Execution error: No such file or directory (os error 2)"
    );
    assert!(result.output.starts_with(SPAWN_ERROR_PREFIX));
    assert!(result.exit_code.is_none());
}

#[test]
fn killed_by_signal_has_no_code() {
    let result = CommandExecutor::new().conclude(completed(None, b"partial", b""));
    assert!(!result.success);
    assert!(result.exit_code.is_none());
    assert_eq!(result.output, "partial");
}

#[test]
fn stdout_precedes_stderr() {
    let result = CommandExecutor::new().conclude(completed(Some(0), b"out\n", b"error\n"));
    assert_eq!(result.output, "out\nerror");
    let out_at = result.output.find("out").unwrap();
    let err_at = result.output.find("error").unwrap();
    assert!(out_at < err_at);
}

#[test]
fn stderr_alone_is_reported() {
    let result = CommandExecutor::new().conclude(completed(Some(0), b"", b"error\n"));
    assert!(result.output.contains("error"));
}

#[test]
fn multiline_output_is_kept() {
    let result = CommandExecutor::new().conclude(completed(Some(0), b"line1\nline2\n", b""));
    assert!(result.success);
    assert_eq!(result.output, "line1\nline2");
}

#[test]
fn repeated_outcomes_give_equal_results() {
    let executor = CommandExecutor::new();
    let a = executor.conclude(completed(Some(3), b"same", b"text"));
    let b = executor.conclude(completed(Some(3), b"same", b"text"));
    assert_eq!(a.success, b.success);
    assert_eq!(a.exit_code, b.exit_code);
    assert_eq!(a.output, b.output);
    let c = executor.conclude(completed(Some(3), b"other", b""));
    assert_eq!(a.success, c.success);
    assert_eq!(a.exit_code, c.exit_code);
}

#[test]
fn oversized_output_is_truncated() {
    let mut stdout = vec![b'x'];
    for _ in 0..600_000 {
        stdout.extend_from_slice("é".as_bytes());
    }
    let result = CommandExecutor::new().conclude(completed(Some(0), &stdout, b""));
    let marker = "\n... [output truncated]";
    assert!(result.success);
    assert!(result.output.ends_with(marker));
    assert!(result.output.len() <= agent::MAX_OUTPUT_SIZE + marker.len());
    assert_eq!(result.output.len(), agent::MAX_OUTPUT_SIZE - 1 + marker.len());
}

#[test]
fn build_command_resolves_platform_shells() {
    let executor = CommandExecutor::new();
    let inv = executor.build_command(Platform::Posix, "bash", "echo $SHELL");
    assert_eq!(inv.program, "/bin/bash");
    assert_eq!(inv.args, vec!["-c".to_string(), "echo $SHELL".to_string()]);
    let inv = executor.build_command(Platform::Windows, "cmd", "echo hello");
    assert_eq!(inv.program, "cmd.exe");
    assert_eq!(inv.args, vec!["/C".to_string(), "echo hello".to_string()]);
}
