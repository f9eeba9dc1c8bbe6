//! The operating systems the manager knows how to drive, and the outcome of
//! running an external command, as plain values.

use vstd::prelude::*;

verus! {

/// The operating system the program runs on.
#[derive(Debug, Clone, Copy, PartialEq, Eq, Structural)]
pub enum Platform {
    Windows,
    MacOs,
    Linux,
}

/// What happened when an external command was started.
#[derive(Debug, Clone, PartialEq, Eq)]
pub enum CommandOutcome {
    /// The command ran; `success` is its exit status, `stderr` its error output.
    Ran { success: bool, stderr: String },
    /// The command could not be started; `error` describes why.
    NotRun { error: String },
}

impl CommandOutcome {
    pub open spec fn succeeded(&self) -> bool {
        match *self {
            CommandOutcome::Ran { success, .. } => success,
            CommandOutcome::NotRun { .. } => false,
        }
    }

    pub fn is_success(&self) -> (b: bool)
        ensures
            b == self.succeeded(),
    {
        match self {
            CommandOutcome::Ran { success, .. } => *success,
            CommandOutcome::NotRun { .. } => false,
        }
    }
}

/// A command line to run: program name and arguments.
#[derive(Debug, Clone, PartialEq, Eq)]
pub struct CommandLine {
    pub program: &'static str,
    pub args: Vec<String>,
}

} // verus!
