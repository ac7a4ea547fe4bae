//! The classified outcome of one bounded external command, as the engine
//! sees it: a closed result type, never a hang.

use vstd::prelude::*;

verus! {

/// What running a command with a timeout produced.  The caller decodes
/// the two byte streams to text before handing them to the engine.
#[derive(Debug, Clone)]
pub enum CommandResult {
    /// Completed with a zero exit status.
    Success { stdout: String, stderr: String },
    /// Completed with a non-zero exit status.
    Failed { stdout: String, stderr: String },
    /// Killed and reaped on expiry of the timeout.
    TimedOut,
    /// Could not be started.
    SpawnError(String),
}

impl CommandResult {
    /// The command completed with a zero exit status.
    pub fn is_success(&self) -> (r: bool)
        ensures
            r == (self is Success),
    {
        match self {
            CommandResult::Success { .. } => true,
            _ => false,
        }
    }

    /// The captured output stream, when the command completed at all.
    pub fn stdout_string(&self) -> (r: Option<String>)
        ensures
            match self {
                CommandResult::Success { stdout, .. } => r == Some(*stdout),
                CommandResult::Failed { stdout, .. } => r == Some(*stdout),
                _ => r is None,
            },
    {
        match self {
            CommandResult::Success { stdout, .. } => Some(stdout.clone()),
            CommandResult::Failed { stdout, .. } => Some(stdout.clone()),
            _ => None,
        }
    }

    /// The captured diagnostic stream, when the command completed at all.
    pub fn stderr_string(&self) -> (r: Option<String>)
        ensures
            match self {
                CommandResult::Success { stderr, .. } => r == Some(*stderr),
                CommandResult::Failed { stderr, .. } => r == Some(*stderr),
                _ => r is None,
            },
    {
        match self {
            CommandResult::Success { stderr, .. } => Some(stderr.clone()),
            CommandResult::Failed { stderr, .. } => Some(stderr.clone()),
            _ => None,
        }
    }
}

} // verus!
