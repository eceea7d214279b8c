//! The profile executor's access to the device and the ledger: every
//! command and every ledger append goes through here, and is written, in
//! order and with what came back, to a call log. The runner and the ledger
//! are reached in no other way.
use vstd::prelude::*;

use crate::command_runner::adapter::{
    outcome_from_answer, outcome_of_run, outcome_result_view, run_view, AndroidCommandAdapter, CommandOutcome,
    CommandPhase,
};
use crate::command_runner::error::CommandError;
use crate::command_runner::invocation::{CommandInvocation, InvocationView};
use crate::command_runner::output::{CommandOutput, OutputView};
use crate::command_runner::runner::{AndroidCommandRunner, CommandRunnerError, RunnerErrorView};
use crate::profiles::error::{ProfileError, ProfileErrorView};
use crate::profiles::executor::{unit_view, ProfileLedgerSink};

verus! {

/// One call made on the device or the ledger, with what came back.
pub enum CallView {
    /// The runner ran the invocation and answered this.
    Run(InvocationView, Result<OutputView, RunnerErrorView>),
    /// The ledger was asked to append this line and answered this.
    Append(Seq<char>, Result<(), ProfileErrorView>),
}

/// The runner's answer of a run.
pub open spec fn answer_of(c: CallView) -> Result<OutputView, RunnerErrorView> {
    match c {
        CallView::Run(_, a) => a,
        CallView::Append(_, _) => Err(RunnerErrorView::NotFound { detail: Seq::empty() }),
    }
}

/// The ledger's answer of an append.
pub open spec fn ledger_answer_of(c: CallView) -> Result<(), ProfileErrorView> {
    match c {
        CallView::Append(_, a) => a,
        CallView::Run(_, _) => Ok(()),
    }
}

/// A runner and a ledger, with the log of every call made on them.
pub struct Device<'a, R: AndroidCommandRunner, L: ProfileLedgerSink> {
    runner: &'a R,
    ledger: &'a L,
    log: Ghost<Seq<CallView>>,
}

impl<'a, R: AndroidCommandRunner, L: ProfileLedgerSink> Device<'a, R, L> {
    /// Every call made so far, in order.
    pub closed spec fn log(&self) -> Seq<CallView> {
        self.log@
    }

    /// A device over `runner` and `ledger`, with nothing called yet.
    pub fn new(runner: &'a R, ledger: &'a L) -> (r: Self)
        ensures
            r.log() == Seq::<CallView>::empty(),
    {
        Device { runner, ledger, log: Ghost(Seq::empty()) }
    }

    /// Runs `invocation` once.
    pub fn run(&mut self, invocation: &CommandInvocation) -> (r: Result<CommandOutput, CommandRunnerError>)
        ensures
            final(self).log() == old(self).log().push(CallView::Run(invocation@, run_view(r))),
    {
        let r = self.runner.run(invocation);
        proof {
            self.log@ = self.log@.push(CallView::Run(invocation@, run_view(r)));
        }
        r
    }

    /// Runs the command of an adapter's phase once and maps the answer.
    pub fn run_phase<A: AndroidCommandAdapter>(&mut self, adapter: &A, phase: CommandPhase) -> (r: Result<
        CommandOutcome,
        CommandError,
    >)
        ensures
            final(self).log() == old(self).log().push(
                CallView::Run(adapter.spec_command(phase), answer_of(final(self).log().last())),
            ),
            outcome_result_view(r) == outcome_of_run(
                phase,
                adapter.spec_intent(phase),
                adapter.spec_command(phase),
                answer_of(final(self).log().last()),
            ),
    {
        let invocation = adapter.command(phase);
        let answer = self.run(&invocation);
        outcome_from_answer(phase, adapter.intent(phase), invocation, answer)
    }

    /// Appends `line` to the ledger once.
    pub fn append(&mut self, line: String) -> (r: Result<(), ProfileError>)
        ensures
            final(self).log() == old(self).log().push(CallView::Append(line@, unit_view(r))),
    {
        let ghost l = line@;
        let r = self.ledger.append(line);
        proof {
            self.log@ = self.log@.push(CallView::Append(l, unit_view(r)));
        }
        r
    }
}

} // verus!
