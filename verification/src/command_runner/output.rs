//! The observed result of one command.
use vstd::prelude::*;

verus! {

/// Exit status and captured streams.
pub struct OutputView {
    pub status: i32,
    pub stdout: Seq<char>,
    pub stderr: Seq<char>,
}

/// Output of an Android command.
#[derive(Debug, Clone, PartialEq, Eq)]
pub struct CommandOutput {
    status: i32,
    stdout: String,
    stderr: String,
}

impl View for CommandOutput {
    type V = OutputView;

    closed spec fn view(&self) -> OutputView {
        OutputView { status: self.status, stdout: self.stdout@, stderr: self.stderr@ }
    }
}

impl CommandOutput {
    /// A successful output (status 0).
    pub fn success(stdout: String, stderr: String) -> (r: Self)
        ensures
            r@ == (OutputView { status: 0, stdout: stdout@, stderr: stderr@ }),
    {
        CommandOutput { status: 0, stdout, stderr }
    }

    /// A failed output with the given status.
    pub fn failure(status: i32, stdout: String, stderr: String) -> (r: Self)
        ensures
            r@ == (OutputView { status, stdout: stdout@, stderr: stderr@ }),
    {
        CommandOutput { status, stdout, stderr }
    }

    /// An output built from a real process exit status.
    pub fn from_status(status: i32, stdout: String, stderr: String) -> (r: Self)
        ensures
            r@ == (OutputView { status, stdout: stdout@, stderr: stderr@ }),
    {
        CommandOutput { status, stdout, stderr }
    }

    /// The exit status.
    pub fn status(&self) -> (r: i32)
        ensures
            r == self@.status,
    {
        self.status
    }

    /// Standard output.
    pub fn stdout(&self) -> (r: &str)
        ensures
            r@ == self@.stdout,
    {
        self.stdout.as_str()
    }

    /// Standard error.
    pub fn stderr(&self) -> (r: &str)
        ensures
            r@ == self@.stderr,
    {
        self.stderr.as_str()
    }

    /// The command exited with status 0.
    pub fn is_success(&self) -> (r: bool)
        ensures
            r == (self@.status == 0),
    {
        self.status == 0
    }

    /// A copy of this output.
    pub fn duplicate(&self) -> (r: Self)
        ensures
            r@ == self@,
    {
        CommandOutput { status: self.status, stdout: self.stdout.clone(), stderr: self.stderr.clone() }
    }
}

} // verus!
