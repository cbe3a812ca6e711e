//! The executor: from a finished, timed-out or failed process to its reported result.

use vstd::prelude::*;

use crate::output::{captured_text, process_output, MAX_OUTPUT_SIZE};
use crate::shell::{args_of, invocation_for, program_of, resolve_shell, shell_for, texts};
use crate::shell::{Invocation, Platform};

verus! {

/// Reported when the deadline passes before the process finishes.
pub const TIMEOUT_MESSAGE: &'static str = "Command timed out";

/// Begins the report of a process that could not be started.
pub const SPAWN_ERROR_PREFIX: &'static str = "Execution error: ";

/// Result of a command execution.
pub struct ExecutionResult {
    /// Whether the command ran to completion with exit status zero.
    pub success: bool,
    /// Combined standard output and standard error, trimmed and bounded.
    pub output: String,
    /// Process exit code, when the process completed and the platform reports one.
    pub exit_code: Option<i32>,
}

/// How one run of a command ended.
pub enum ProcessOutcome {
    /// The process exited before the deadline, with everything it wrote.
    Completed { exit_code: Option<i32>, stdout: Vec<u8>, stderr: Vec<u8> },
    /// The deadline passed first.
    TimedOut,
    /// The process could not be started; `diagnostic` says why.
    SpawnFailed { diagnostic: String },
}

/// Whether a run that ended as `o` counts as a success.
pub open spec fn outcome_success(o: ProcessOutcome) -> bool {
    match o {
        ProcessOutcome::Completed { exit_code, .. } => exit_code == Some(0i32),
        _ => false,
    }
}

/// The exit code reported for a run that ended as `o`.
pub open spec fn outcome_exit_code(o: ProcessOutcome) -> Option<i32> {
    match o {
        ProcessOutcome::Completed { exit_code, .. } => exit_code,
        _ => None,
    }
}

/// The output reported for a run that ended as `o`, with output bounded to `cap` bytes.
pub open spec fn outcome_text(o: ProcessOutcome, cap: nat) -> Seq<char> {
    match o {
        ProcessOutcome::Completed { stdout, stderr, .. } => captured_text(stdout@, stderr@, cap),
        ProcessOutcome::TimedOut => TIMEOUT_MESSAGE@,
        ProcessOutcome::SpawnFailed { diagnostic } => SPAWN_ERROR_PREFIX@ + diagnostic@,
    }
}

/// Whether two runs ended the same way: both timed out, both failed to start, or both
/// completed with the same exit code.
pub open spec fn ends_alike(a: ProcessOutcome, b: ProcessOutcome) -> bool {
    match (a, b) {
        (
            ProcessOutcome::Completed { exit_code: x, .. },
            ProcessOutcome::Completed { exit_code: y, .. },
        ) => x == y,
        (ProcessOutcome::TimedOut, ProcessOutcome::TimedOut) => true,
        (ProcessOutcome::SpawnFailed { .. }, ProcessOutcome::SpawnFailed { .. }) => true,
        _ => false,
    }
}

/// Whether two runs produced the same text: the same streams, or the same diagnostic.
pub open spec fn wrote_alike(a: ProcessOutcome, b: ProcessOutcome) -> bool {
    match (a, b) {
        (
            ProcessOutcome::Completed { stdout: o1, stderr: e1, .. },
            ProcessOutcome::Completed { stdout: o2, stderr: e2, .. },
        ) => o1@ == o2@ && e1@ == e2@,
        (ProcessOutcome::TimedOut, ProcessOutcome::TimedOut) => true,
        (
            ProcessOutcome::SpawnFailed { diagnostic: d1 },
            ProcessOutcome::SpawnFailed { diagnostic: d2 },
        ) => d1@ == d2@,
        _ => false,
    }
}

/// Running the same command twice gives the same success and exit code whenever the two
/// runs end the same way, and the same output unless the command wrote differently.
pub proof fn lemma_repeat_runs_agree(a: ProcessOutcome, b: ProcessOutcome, cap: nat)
    requires
        ends_alike(a, b),
    ensures
        outcome_success(a) == outcome_success(b),
        outcome_exit_code(a) == outcome_exit_code(b),
        wrote_alike(a, b) ==> outcome_text(a, cap) == outcome_text(b, cap),
{
}

/// Executes commands using platform-specific shells.
pub struct CommandExecutor;

impl CommandExecutor {
    /// Creates a new command executor instance.
    pub fn new() -> (r: Self)
        ensures
            r == CommandExecutor,
    {
        CommandExecutor
    }

    /// The invocation that runs `command` in the shell that `executor_type` selects on
    /// `platform`.
    pub fn build_command(&self, platform: Platform, executor_type: &str, command: &str) -> (r:
        Invocation)
        ensures
            r.program@ == program_of(shell_for(platform, executor_type@)),
            texts(r.args@) == args_of(shell_for(platform, executor_type@), command@),
    {
        let shell = resolve_shell(platform, executor_type);
        invocation_for(shell, command)
    }

    /// The result reported for a run that ended as `outcome`.
    pub fn conclude(&self, outcome: ProcessOutcome) -> (r: ExecutionResult)
        ensures
            r.success == outcome_success(outcome),
            r.exit_code == outcome_exit_code(outcome),
            r.output@ == outcome_text(outcome, MAX_OUTPUT_SIZE as nat),
    {
        match outcome {
            ProcessOutcome::Completed { exit_code, stdout, stderr } => {
                let success = match exit_code {
                    Some(code) => code == 0,
                    None => false,
                };
                let output = process_output(stdout.as_slice(), stderr.as_slice(), MAX_OUTPUT_SIZE);
                ExecutionResult { success, output, exit_code }
            },
            ProcessOutcome::TimedOut => ExecutionResult {
                success: false,
                output: String::from_str(TIMEOUT_MESSAGE),
                exit_code: None,
            },
            ProcessOutcome::SpawnFailed { diagnostic } => ExecutionResult {
                success: false,
                output: String::from_str(SPAWN_ERROR_PREFIX).concat(diagnostic.as_str()),
                exit_code: None,
            },
        }
    }
}

impl Default for CommandExecutor {
    fn default() -> (r: Self)
        ensures
            r == CommandExecutor,
    {
        CommandExecutor::new()
    }
}

} // verus!
