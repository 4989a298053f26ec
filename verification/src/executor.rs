//! The structured outcome of one command execution. Running the command is
//! the caller's side of the boundary; shaping what came back is this
//! module's.

use vstd::prelude::*;

verus! {

/// What one invocation of the command executor produced: the full standard
/// output and error streams and the exit code when a shell process ran, or
/// the error text alone when none could be started.
#[derive(Debug, Clone, PartialEq, Eq)]
pub struct ExecutionResult {
    /// Everything the command wrote to standard output.
    pub stdout: String,
    /// Everything the command wrote to standard error.
    pub stderr: String,
    /// The exit code, when the process ran and reported one.
    pub exit_code: Option<i32>,
    /// The error text, present only when no shell process could be started.
    pub error: Option<String>,
}

impl ExecutionResult {
    /// A result is well-formed when a start failure carries only the error
    /// text: no streams, no exit code.
    pub open spec fn wf(self) -> bool {
        self.error is Some ==> self.stdout@ == Seq::<char>::empty() && self.stderr@
            == Seq::<char>::empty() && self.exit_code is None
    }

    /// Whether a shell process ran at all.
    pub open spec fn completed(self) -> bool {
        self.error is None
    }

    /// The outcome of a completed run: the captured streams and the exit
    /// code, no error.
    pub fn from_output(stdout: String, stderr: String, exit_code: Option<i32>) -> (r:
        ExecutionResult)
        ensures
            r.wf(),
            r.completed(),
            r.stdout@ == stdout@,
            r.stderr@ == stderr@,
            r.exit_code == exit_code,
            r.error is None,
    {
        ExecutionResult { stdout, stderr, exit_code, error: None }
    }

    /// The outcome when no shell process could be started: the error text
    /// alone.
    pub fn from_spawn_error(error: String) -> (r: ExecutionResult)
        ensures
            r.wf(),
            !r.completed(),
            r.stdout@ == Seq::<char>::empty(),
            r.stderr@ == Seq::<char>::empty(),
            r.exit_code is None,
            r.error matches Some(e) && e@ == error@,
    {
        ExecutionResult { stdout: String::new(), stderr: String::new(), exit_code: None, error: Some(
            error,
        ) }
    }
}

} // verus!
