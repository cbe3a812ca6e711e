//! Running shell commands under a deadline, with bounded, UTF-8-safe output.

pub mod executor;
pub mod output;
pub mod shell;

pub use executor::{CommandExecutor, ExecutionResult, ProcessOutcome};
pub use output::{find_char_boundary, MAX_OUTPUT_SIZE};
pub use shell::{Invocation, Platform, Shell};
