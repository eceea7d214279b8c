//! The boundary at which commands are run.
use vstd::prelude::*;

use crate::command_runner::invocation::{CommandInvocation, InvocationView};
use crate::command_runner::output::{CommandOutput, OutputView};

verus! {

/// Why a command could not be started, taken by its contents.
pub enum RunnerErrorView {
    NotFound { detail: Seq<char> },
    Unavailable { detail: Seq<char> },
}

/// A command could not be started.
#[derive(Debug, Clone, PartialEq, Eq)]
#[non_exhaustive]
pub enum CommandRunnerError {
    /// The command path does not exist.
    NotFound {
        /// What went wrong.
        detail: String,
    },
    /// The command exists but could not be started.
    Unavailable {
        /// What went wrong.
        detail: String,
    },
}

impl View for CommandRunnerError {
    type V = RunnerErrorView;

    open spec fn view(&self) -> RunnerErrorView {
        match self {
            CommandRunnerError::NotFound { detail } => RunnerErrorView::NotFound { detail: detail@ },
            CommandRunnerError::Unavailable { detail } => RunnerErrorView::Unavailable {
                detail: detail@,
            },
        }
    }
}

/// The detail carried by either kind of start failure.
pub open spec fn runner_error_detail(e: RunnerErrorView) -> Seq<char> {
    match e {
        RunnerErrorView::NotFound { detail } => detail,
        RunnerErrorView::Unavailable { detail } => detail,
    }
}

/// Runs one argv invocation. Implementations are the process boundary: what
/// they return is not known here, and every caller is specified for any
/// returned value.
/// A runner's answer, taken by contents.
pub open spec fn answer_view(r: Result<CommandOutput, CommandRunnerError>) -> Result<
    OutputView,
    RunnerErrorView,
> {
    match r {
        Ok(o) => Ok(o@),
        Err(e) => Err(e@),
    }
}

pub trait AndroidCommandRunner {
    /// That this runner answered `invocation` with `answer` on some call.
    /// An implementation may narrow it to what its calls do; the default
    /// claims nothing. Code written for every runner knows it of an
    /// invocation only by running that invocation.
    open spec fn answered(&self, invocation: InvocationView, answer: Result<OutputView, RunnerErrorView>) -> bool {
        true
    }

    /// Runs `invocation` and returns its output.
    fn run(&self, invocation: &CommandInvocation) -> (r: Result<CommandOutput, CommandRunnerError>)
        ensures
            self.answered(invocation@, answer_view(r)),
    ;
}

/// One run of a command and what the runner answered.
pub type CommandRun = (InvocationView, Result<OutputView, RunnerErrorView>);

/// A runner with the log of every call made through it, in order. The
/// runner is reached in no other way.
pub struct Runs<'a, R: AndroidCommandRunner> {
    runner: &'a R,
    log: Ghost<Seq<CommandRun>>,
}

impl<'a, R: AndroidCommandRunner> Runs<'a, R> {
    /// Every call made so far, in order, with its answer.
    pub closed spec fn log(&self) -> Seq<CommandRun> {
        self.log@
    }

    /// A log over `runner`, with nothing run yet.
    pub fn new(runner: &'a R) -> (r: Self)
        ensures
            r.log() == Seq::<CommandRun>::empty(),
    {
        Runs { runner, log: Ghost(Seq::empty()) }
    }

    /// Runs `invocation` once.
    pub fn run(&mut self, invocation: &CommandInvocation) -> (r: Result<CommandOutput, CommandRunnerError>)
        ensures
            final(self).log() == old(self).log().push((invocation@, answer_view(r))),
    {
        let r = self.runner.run(invocation);
        proof {
            self.log@ = self.log@.push((invocation@, answer_view(r)));
        }
        r
    }
}

} // verus!
