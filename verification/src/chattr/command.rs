//! The command boundary of the immutable-attribute path.
use vstd::prelude::*;

use crate::chattr::error::{ImmutableError, ImmutableErrorView};
use crate::command_runner::invocation::{
    invocation, owned_strings, strs_view, InvocationView,
};
use crate::command_runner::output::OutputView;
use crate::text;

verus! {

pub const FAILURE_MARKERS_LEN: usize = 4;

/// Output text that betrays a failure even with exit status 0.
pub open spec fn is_failure_marker(m: Seq<char>) -> bool {
    m == "not permitted"@ || m == "permission denied"@ || m == "operation failed"@ || m
        == "error"@
}

/// Lowercased stdout, a newline, lowercased stderr, holds a failure marker.
pub open spec fn has_failure_marker(stdout: Seq<char>, stderr: Seq<char>) -> bool {
    let combined = text::lower_seq(stdout) + seq!['\n'] + text::lower_seq(stderr);
    exists|m: Seq<char>| is_failure_marker(m) && #[trigger] text::contains_seq(combined, m)
}

/// The command succeeded: status 0 and no failure marker.
pub open spec fn clean_success(o: OutputView) -> bool {
    o.status == 0 && !has_failure_marker(o.stdout, o.stderr)
}

/// Whether the output holds a failure marker.
pub fn contains_failure_marker(stdout: &str, stderr: &str) -> (r: bool)
    ensures
        r == has_failure_marker(stdout@, stderr@),
{
    let out = text::chars_of(stdout);
    let err = text::chars_of(stderr);
    let mut combined = text::lower_chars(out.as_slice());
    combined.push('\n');
    let mut lower_err = text::lower_chars(err.as_slice());
    combined.append(&mut lower_err);
    let ghost c = text::lower_seq(stdout@) + seq!['\n'] + text::lower_seq(stderr@);
    assert(combined@ =~= c);
    let m1 = text::chars_of("not permitted");
    let m2 = text::chars_of("permission denied");
    let m3 = text::chars_of("operation failed");
    let m4 = text::chars_of("error");
    let r = text::contains_chars(combined.as_slice(), m1.as_slice()) || text::contains_chars(
        combined.as_slice(),
        m2.as_slice(),
    ) || text::contains_chars(combined.as_slice(), m3.as_slice()) || text::contains_chars(
        combined.as_slice(),
        m4.as_slice(),
    );
    proof {
        if !r {
            assert forall|m: Seq<char>| is_failure_marker(m) implies !text::contains_seq(c, m) by {
                if m == "not permitted"@ {
                } else if m == "permission denied"@ {
                } else if m == "operation failed"@ {
                } else {
                }
            }
        } else {
            if text::contains_seq(c, m1@) {
                assert(is_failure_marker(m1@));
            } else if text::contains_seq(c, m2@) {
                assert(is_failure_marker(m2@));
            } else if text::contains_seq(c, m3@) {
                assert(is_failure_marker(m3@));
            } else {
                assert(is_failure_marker(m4@));
            }
        }
    }
    r
}

/// An observable command call.
#[derive(Debug, Clone, PartialEq, Eq)]
pub struct CommandInvocation {
    program: String,
    args: Vec<String>,
}

impl View for CommandInvocation {
    type V = InvocationView;

    closed spec fn view(&self) -> InvocationView {
        InvocationView { program: self.program@, args: self.args.deep_view() }
    }
}

impl CommandInvocation {
    /// A call of `program` with `args`.
    pub fn new(program: &str, args: &[&str]) -> (r: Self)
        ensures
            r@ == invocation(program@, strs_view(args@)),
    {
        CommandInvocation { program: program.to_owned(), args: owned_strings(args) }
    }

    /// The command name.
    pub fn program(&self) -> (r: &str)
        ensures
            r@ == self@.program,
    {
        self.program.as_str()
    }

    /// The arguments.
    pub fn args(&self) -> (r: &[String])
        ensures
            r@.map_values(|a: String| a@) == self@.args,
    {
        self.args.as_slice()
    }

    /// A copy of the arguments.
    pub fn args_vec(&self) -> (r: Vec<String>)
        ensures
            r.deep_view() == self@.args,
    {
        crate::command_runner::invocation::copy_strings(&self.args)
    }
}

/// The output of a command.
#[derive(Debug, Clone, PartialEq, Eq)]
pub struct CommandOutput {
    status: i32,
    stdout: String,
    stderr: String,
}

impl View for CommandOutput {
    type V = OutputView;

    closed spec fn view(&self) -> OutputView {
        OutputView { status: self.status, stdout: self.stdout@, stderr: self.stderr@ }
    }
}

impl CommandOutput {
    /// A successful output.
    pub fn success(stdout: String, stderr: String) -> (r: Self)
        ensures
            r@ == (OutputView { status: 0, stdout: stdout@, stderr: stderr@ }),
    {
        CommandOutput { status: 0, stdout, stderr }
    }

    /// A failed output; note that standard error comes first.
    pub fn failure(status: i32, stderr: String, stdout: String) -> (r: Self)
        ensures
            r@ == (OutputView { status, stdout: stdout@, stderr: stderr@ }),
    {
        CommandOutput { status, stdout, stderr }
    }

    /// An output with the given status and streams.
    pub fn from_parts(status: i32, stdout: String, stderr: String) -> (r: Self)
        ensures
            r@ == (OutputView { status, stdout: stdout@, stderr: stderr@ }),
    {
        CommandOutput { status, stdout, stderr }
    }

    /// The exit status.
    pub fn status(&self) -> (r: i32)
        ensures
            r == self@.status,
    {
        self.status
    }

    /// Standard output.
    pub fn stdout(&self) -> (r: &str)
        ensures
            r@ == self@.stdout,
    {
        self.stdout.as_str()
    }

    /// Standard error.
    pub fn stderr(&self) -> (r: &str)
        ensures
            r@ == self@.stderr,
    {
        self.stderr.as_str()
    }

    /// Status 0 and no failure marker in the output.
    pub fn is_success_without_failure_marker(&self) -> (r: bool)
        ensures
            r == clean_success(self@),
    {
        self.status == 0 && !contains_failure_marker(self.stdout.as_str(), self.stderr.as_str())
    }
}

/// A runner's answer, taken by contents.
pub open spec fn reply_view(r: Result<CommandOutput, ImmutableError>) -> Result<OutputView, ImmutableErrorView> {
    match r {
        Ok(o) => Ok(o@),
        Err(e) => Err(e@),
    }
}

/// Runs one command. Implementations are the process boundary: what they
/// return is not known here, and every caller is specified for any answer.
pub trait CommandRunner {
    /// Runs `invocation`.
    fn run(&self, invocation: &CommandInvocation) -> Result<CommandOutput, ImmutableError>;
}

/// One run of a tool and what the runner answered.
pub type ToolRun = (InvocationView, Result<OutputView, ImmutableErrorView>);

/// A runner with the log of every call made through it, in order. The
/// runner is reached in no other way.
pub struct Tools<'a, R: CommandRunner> {
    runner: &'a R,
    log: Ghost<Seq<ToolRun>>,
}

impl<'a, R: CommandRunner> Tools<'a, R> {
    /// Every call made so far, in order, with its answer.
    pub closed spec fn log(&self) -> Seq<ToolRun> {
        self.log@
    }

    /// Tools over `runner`, with nothing run yet.
    pub fn new(runner: &'a R) -> (r: Self)
        ensures
            r.log() == Seq::<ToolRun>::empty(),
    {
        Tools { runner, log: Ghost(Seq::empty()) }
    }

    /// Runs `invocation` once.
    pub fn run(&mut self, invocation: &CommandInvocation) -> (r: Result<CommandOutput, ImmutableError>)
        ensures
            final(self).log() == old(self).log().push((invocation@, reply_view(r))),
    {
        let r = self.runner.run(invocation);
        proof {
            self.log@ = self.log@.push((invocation@, reply_view(r)));
        }
        r
    }
}

} // verus!
