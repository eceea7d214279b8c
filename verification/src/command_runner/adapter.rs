//! The probe/apply/restore life cycle shared by every command adapter.
use vstd::prelude::*;

use crate::command_runner::error::{CommandError, CommandErrorView};
use crate::command_runner::invocation::{CommandInvocation, InvocationView};
use crate::command_runner::output::{CommandOutput, OutputView};
use crate::command_runner::runner::{
    runner_error_detail, AndroidCommandRunner, CommandRunnerError, RunnerErrorView,
};

verus! {

/// A phase of an Android command's life cycle.
#[derive(Debug, Clone, Copy, PartialEq, Eq, Structural)]
#[non_exhaustive]
pub enum CommandPhase {
    /// Probe a capability or the current state.
    Probe,
    /// Apply the wanted state.
    Apply,
    /// Restore the original state.
    Restore,
}

/// The name of a phase as it appears in intents.
pub open spec fn phase_name(phase: CommandPhase) -> Seq<char> {
    match phase {
        CommandPhase::Probe => "probe"@,
        CommandPhase::Apply => "apply"@,
        CommandPhase::Restore => "restore"@,
    }
}

impl CommandPhase {
    /// The name of this phase.
    pub fn as_str(self) -> (r: &'static str)
        ensures
            r@ == phase_name(self),
    {
        match self {
            CommandPhase::Probe => "probe",
            CommandPhase::Apply => "apply",
            CommandPhase::Restore => "restore",
        }
    }
}

/// What an outcome records.
pub struct OutcomeView {
    pub phase: CommandPhase,
    pub intent: Seq<char>,
    pub invocation: InvocationView,
    pub dry_run: bool,
    pub output: Option<OutputView>,
}

/// The observable result of an adapter call.
#[derive(Debug, Clone, PartialEq, Eq)]
pub struct CommandOutcome {
    phase: CommandPhase,
    intent: String,
    invocation: CommandInvocation,
    dry_run: bool,
    output: Option<CommandOutput>,
}

impl View for CommandOutcome {
    type V = OutcomeView;

    closed spec fn view(&self) -> OutcomeView {
        OutcomeView {
            phase: self.phase,
            intent: self.intent@,
            invocation: self.invocation@,
            dry_run: self.dry_run,
            output: match self.output {
                Some(o) => Some(o@),
                None => None,
            },
        }
    }
}

/// The record of a planned call that was not run.
pub open spec fn planned_outcome(
    phase: CommandPhase,
    intent: Seq<char>,
    invocation: InvocationView,
) -> OutcomeView {
    OutcomeView { phase, intent, invocation, dry_run: true, output: None }
}

/// The record of a call that ran.
pub open spec fn executed_outcome(
    phase: CommandPhase,
    intent: Seq<char>,
    invocation: InvocationView,
    output: OutputView,
) -> OutcomeView {
    OutcomeView { phase, intent, invocation, dry_run: false, output: Some(output) }
}

/// An outcome or an error, taken by contents.
pub open spec fn outcome_result_view(r: Result<CommandOutcome, CommandError>) -> Result<
    OutcomeView,
    CommandErrorView,
> {
    match r {
        Ok(o) => Ok(o@),
        Err(e) => Err(e@),
    }
}

/// A runner's answer, taken by contents.
pub open spec fn run_view(r: Result<CommandOutput, CommandRunnerError>) -> Result<
    OutputView,
    RunnerErrorView,
> {
    match r {
        Ok(o) => Ok(o@),
        Err(e) => Err(e@),
    }
}

/// What an adapter call returns once the runner has answered: success only
/// for exit status 0; a non-zero status is `CommandFailed`; a start failure
/// is `CommandUnavailable`.
pub open spec fn outcome_of_run(
    phase: CommandPhase,
    intent: Seq<char>,
    invocation: InvocationView,
    answer: Result<OutputView, RunnerErrorView>,
) -> Result<OutcomeView, CommandErrorView> {
    match answer {
        Ok(o) => if o.status == 0 {
            Ok(executed_outcome(phase, intent, invocation, o))
        } else {
            Err(
                CommandErrorView::CommandFailed {
                    invocation,
                    status: o.status,
                    stdout: o.stdout,
                    stderr: o.stderr,
                },
            )
        },
        Err(e) => Err(CommandErrorView::CommandUnavailable { invocation, detail: runner_error_detail(e) }),
    }
}

/// The call ran `invocation` once and mapped whatever the runner answered.
pub open spec fn ran<R: AndroidCommandRunner>(
    runner: &R,
    r: Result<CommandOutcome, CommandError>,
    phase: CommandPhase,
    intent: Seq<char>,
    invocation: InvocationView,
) -> bool {
    exists|answer: Result<OutputView, RunnerErrorView>|
        runner.answered(invocation, answer) && outcome_result_view(r) == #[trigger] outcome_of_run(
            phase,
            intent,
            invocation,
            answer,
        )
}

/// The refusal of a read-only adapter to mutate.
pub open spec fn read_only_refusal(phase: CommandPhase, intent: Seq<char>) -> Result<
    OutcomeView,
    CommandErrorView,
> {
    Err(CommandErrorView::UnsupportedReadOnlyPhase { phase: phase_name(phase), intent })
}

impl CommandOutcome {
    /// A planned call that was not run.
    pub fn dry_run(phase: CommandPhase, intent: String, invocation: CommandInvocation) -> (r: Self)
        ensures
            r@ == planned_outcome(phase, intent@, invocation@),
    {
        CommandOutcome { phase, intent, invocation, dry_run: true, output: None }
    }

    /// A call that ran with `output`.
    pub fn executed(
        phase: CommandPhase,
        intent: String,
        invocation: CommandInvocation,
        output: CommandOutput,
    ) -> (r: Self)
        ensures
            r@ == executed_outcome(phase, intent@, invocation@, output@),
    {
        CommandOutcome { phase, intent, invocation, dry_run: false, output: Some(output) }
    }

    /// The life-cycle phase.
    pub fn phase(&self) -> (r: CommandPhase)
        ensures
            r == self@.phase,
    {
        self.phase
    }

    /// The human readable intent.
    pub fn intent(&self) -> (r: &str)
        ensures
            r@ == self@.intent,
    {
        self.intent.as_str()
    }

    /// The invocation.
    pub fn invocation(&self) -> (r: &CommandInvocation)
        ensures
            r@ == self@.invocation,
    {
        &self.invocation
    }

    /// Whether the call was only planned.
    pub fn is_dry_run(&self) -> (r: bool)
        ensures
            r == self@.dry_run,
    {
        self.dry_run
    }

    /// The command output, when the command ran.
    pub fn output(&self) -> (r: Option<&CommandOutput>)
        ensures
            match (r, self@.output) {
                (Some(o), Some(v)) => o@ == v,
                (None, None) => true,
                _ => false,
            },
    {
        match &self.output {
            Some(o) => Some(o),
            None => None,
        }
    }
}

/// Maps a runner's answer to the adapter's result.
pub fn outcome_from_answer(
    phase: CommandPhase,
    intent: String,
    invocation: CommandInvocation,
    answer: Result<CommandOutput, CommandRunnerError>,
) -> (r: Result<CommandOutcome, CommandError>)
    ensures
        outcome_result_view(r) == outcome_of_run(phase, intent@, invocation@, run_view(answer)),
{
    match answer {
        Ok(output) => {
            if output.is_success() {
                Ok(CommandOutcome::executed(phase, intent, invocation, output))
            } else {
                let status = output.status();
                let stdout = output.stdout().to_owned();
                let stderr = output.stderr().to_owned();
                Err(CommandError::CommandFailed { invocation, status, stdout, stderr })
            }
        },
        Err(CommandRunnerError::NotFound { detail }) => Err(
            CommandError::CommandUnavailable { invocation, detail },
        ),
        Err(CommandRunnerError::Unavailable { detail }) => Err(
            CommandError::CommandUnavailable { invocation, detail },
        ),
    }
}

/// Runs `invocation` once and maps the answer.
pub fn run_command<R: AndroidCommandRunner>(
    runner: &R,
    phase: CommandPhase,
    intent: String,
    invocation: CommandInvocation,
) -> (r: Result<CommandOutcome, CommandError>)
    ensures
        ran(runner, r, phase, intent@, invocation@),
{
    let answer = runner.run(&invocation);
    let r = outcome_from_answer(phase, intent, invocation, answer);
    assert(outcome_result_view(r) == outcome_of_run(phase, intent@, invocation@, run_view(answer)));
    r
}

/// An adapter that supports probe/apply/restore and dry runs.
pub trait AndroidCommandAdapter {
    /// The argv of a phase.
    spec fn spec_command(&self, phase: CommandPhase) -> InvocationView;

    /// The intent of a phase.
    spec fn spec_intent(&self, phase: CommandPhase) -> Seq<char>;

    /// The argv of a phase.
    fn command(&self, phase: CommandPhase) -> (r: CommandInvocation)
        ensures
            r@ == self.spec_command(phase),
    ;

    /// The human readable intent of a phase.
    fn intent(&self, phase: CommandPhase) -> (r: String)
        ensures
            r@ == self.spec_intent(phase),
    ;

    /// Probes a capability or the current state.
    fn probe<R: AndroidCommandRunner>(&self, runner: &R) -> (r: Result<CommandOutcome, CommandError>)
        ensures
            r matches Ok(o) ==> o@.phase == CommandPhase::Probe && !o@.dry_run && (o@.output matches Some(x) && x.status
                == 0),
        default_ensures
            ran(runner, r, CommandPhase::Probe, self.spec_intent(CommandPhase::Probe), self.spec_command(CommandPhase::Probe)),
    {
        self.run(runner, CommandPhase::Probe)
    }

    /// Applies the wanted state.
    fn apply<R: AndroidCommandRunner>(&self, runner: &R) -> (r: Result<CommandOutcome, CommandError>)
        ensures
            r matches Ok(o) ==> o@.phase == CommandPhase::Apply && !o@.dry_run && (o@.output matches Some(x) && x.status
                == 0),
        default_ensures
            ran(runner, r, CommandPhase::Apply, self.spec_intent(CommandPhase::Apply), self.spec_command(CommandPhase::Apply)),
    {
        self.run(runner, CommandPhase::Apply)
    }

    /// Restores the original state.
    fn restore<R: AndroidCommandRunner>(&self, runner: &R) -> (r: Result<CommandOutcome, CommandError>)
        ensures
            r matches Ok(o) ==> o@.phase == CommandPhase::Restore && !o@.dry_run && (o@.output matches Some(x) && x.status
                == 0),
        default_ensures
            ran(runner, r, CommandPhase::Restore, self.spec_intent(CommandPhase::Restore), self.spec_command(CommandPhase::Restore)),
    {
        self.run(runner, CommandPhase::Restore)
    }

    /// Only builds the argv and intent of a phase; the runner is not called.
    fn dry_run(&self, phase: CommandPhase) -> (r: CommandOutcome)
        ensures
            r@ == planned_outcome(phase, self.spec_intent(phase), self.spec_command(phase)),
    {
        CommandOutcome::dry_run(phase, self.intent(phase), self.command(phase))
    }

    /// Runs the command of a phase and records its output.
    fn run<R: AndroidCommandRunner>(&self, runner: &R, phase: CommandPhase) -> (r: Result<CommandOutcome, CommandError>)
        ensures
            ran(runner, r, phase, self.spec_intent(phase), self.spec_command(phase)),
    {
        run_command(runner, phase, self.intent(phase), self.command(phase))
    }
}

} // verus!
