//! Metadata steps after a file action: the owner, and the `SELinux`
//! context set through a trusted `chcon`.
use vstd::prelude::*;

use crate::command_runner::adapter::run_view;
use crate::command_runner::invocation::{invocation, strs_view, CommandInvocation, InvocationView};
use crate::command_runner::output::{CommandOutput, OutputView};
use crate::command_runner::runner::{AndroidCommandRunner, CommandRun, CommandRunnerError, Runs, RunnerErrorView};
use crate::file_actions::error::{action_check, FileActionError, FileActionErrorView};
use crate::file_actions::metadata::{
    MetadataChange, MetadataChangeView, MetadataOperation, MetadataOperationView,
};
use crate::file_actions::snapshot::TargetSnapshot;
use crate::model::RiskLevel;
use crate::restore_ledger::opt_string;

verus! {

/// The trusted `chcon` binaries, tried in order.
pub const CHCON_CANDIDATES: [&'static str; 3] = [
    "/system/bin/chcon",
    "/system/xbin/chcon",
    "/vendor/bin/chcon",
];

/// What a metadata change does.
#[derive(Debug, Clone, PartialEq, Eq)]
pub enum MetadataStep {
    SetOwner { uid: u32, gid: u32 },
    Chcon { context: String },
    /// The context to set is unknown: `chcon` is skipped.
    SkipChcon,
}

pub enum MetadataStepView {
    SetOwner { uid: u32, gid: u32 },
    Chcon { context: Seq<char> },
    SkipChcon,
}

impl View for MetadataStep {
    type V = MetadataStepView;

    open spec fn view(&self) -> MetadataStepView {
        match self {
            MetadataStep::SetOwner { uid, gid } => MetadataStepView::SetOwner { uid: *uid, gid: *gid },
            MetadataStep::Chcon { context } => MetadataStepView::Chcon { context: context@ },
            MetadataStep::SkipChcon => MetadataStepView::SkipChcon,
        }
    }
}

/// What a change does: an explicit context is skipped for a high-risk rule
/// whose original context is unknown; restoring the context needs it known.
pub open spec fn step_spec(change: MetadataChangeView, risk: RiskLevel, known: Option<Seq<char>>) -> MetadataStepView {
    match change {
        MetadataChangeView::SetOwner { uid, gid } => MetadataStepView::SetOwner { uid, gid },
        MetadataChangeView::SetSelinuxContext { context } => if risk == RiskLevel::High && known is None {
            MetadataStepView::SkipChcon
        } else {
            MetadataStepView::Chcon { context }
        },
        MetadataChangeView::RestoreSelinuxContext => match known {
            Some(c) => MetadataStepView::Chcon { context: c },
            None => MetadataStepView::SkipChcon,
        },
    }
}

/// What a change does for a plan of risk `risk` and the snapshot taken.
pub fn metadata_step(change: &MetadataChange, risk: RiskLevel, snapshot: &TargetSnapshot) -> (r: MetadataStep)
    ensures
        r@ == step_spec(change@, risk, opt_string(snapshot.selinux_context)),
{
    match change {
        MetadataChange::SetOwner { uid, gid } => MetadataStep::SetOwner { uid: *uid, gid: *gid },
        MetadataChange::SetSelinuxContext { context } => {
            if risk == RiskLevel::High && snapshot.selinux_context.is_none() {
                MetadataStep::SkipChcon
            } else {
                MetadataStep::Chcon { context: context.clone() }
            }
        },
        MetadataChange::RestoreSelinuxContext => match &snapshot.selinux_context {
            Some(c) => MetadataStep::Chcon { context: c.clone() },
            None => MetadataStep::SkipChcon,
        },
    }
}

/// What a step that ran reports.
pub open spec fn operation_of(step: MetadataStepView) -> MetadataOperationView {
    match step {
        MetadataStepView::SetOwner { uid, gid } => MetadataOperationView::SetOwner { uid, gid },
        MetadataStepView::Chcon { context } => MetadataOperationView::Chcon { context },
        MetadataStepView::SkipChcon => MetadataOperationView::SkippedChconUnknownContext,
    }
}

/// What a step that ran reports.
pub fn operation_for(step: &MetadataStep) -> (r: MetadataOperation)
    ensures
        r@ == operation_of(step@),
{
    match step {
        MetadataStep::SetOwner { uid, gid } => MetadataOperation::SetOwner { uid: *uid, gid: *gid },
        MetadataStep::Chcon { context } => MetadataOperation::Chcon { context: context.clone() },
        MetadataStep::SkipChcon => MetadataOperation::SkippedChconUnknownContext,
    }
}

/// The text of a failed command: its stderr, or its stdout when stderr is empty.
pub open spec fn failure_detail(o: OutputView) -> Seq<char> {
    if o.stderr.len() == 0 {
        o.stdout
    } else {
        o.stderr
    }
}

/// The text of a failed command.
pub fn command_failure_detail(output: &CommandOutput) -> (r: String)
    ensures
        r@ == failure_detail(output@),
{
    if output.stderr().unicode_len() == 0 {
        return output.stdout().to_owned();
    }
    output.stderr().to_owned()
}

/// `<candidate> <context> <path>`.
pub open spec fn chcon_call(candidate: Seq<char>, context: Seq<char>, path: Seq<char>) -> InvocationView {
    invocation(candidate, seq![context, path])
}

/// The `chcon` call of one candidate.
pub fn chcon_invocation(candidate: &str, context: &str, path: &str) -> (r: CommandInvocation)
    ensures
        r@ == chcon_call(candidate@, context@, path@),
{
    let args = [context, path];
    assert(strs_view(args@) =~= seq![context@, path@]);
    CommandInvocation::new(candidate, args.as_slice())
}

pub open spec fn chcon_error(path: Seq<char>, detail: Seq<char>) -> FileActionErrorView {
    FileActionErrorView::Metadata { operation: "chcon"@, path, detail }
}

/// Trying the candidates from index `i`, given the runner's answer for each:
/// a missing binary is skipped, the first one that starts decides; when
/// none is there, `chcon` is unavailable.
pub open spec fn chcon_from(
    n: int,
    i: int,
    path: Seq<char>,
    answers: Seq<Result<OutputView, RunnerErrorView>>,
) -> Result<(), FileActionErrorView>
    decreases n - i,
{
    if i < 0 || i >= n || i >= answers.len() {
        Err(chcon_error(path, "trusted chcon command unavailable"@))
    } else {
        match answers[i] {
            Err(RunnerErrorView::NotFound { .. }) => chcon_from(n, i + 1, path, answers),
            Err(RunnerErrorView::Unavailable { detail }) => Err(chcon_error(path, detail)),
            Ok(o) => if o.status == 0 {
                Ok(())
            } else {
                Err(chcon_error(path, failure_detail(o)))
            },
        }
    }
}

pub open spec fn not_found(a: Result<OutputView, RunnerErrorView>) -> bool {
    a matches Err(RunnerErrorView::NotFound { .. })
}

proof fn lemma_skip_missing(n: int, k: int, path: Seq<char>, s: Seq<Result<OutputView, RunnerErrorView>>)
    requires
        0 <= k <= s.len(),
        forall|j: int| 0 <= j < k ==> not_found(#[trigger] s[j]),
    ensures
        chcon_from(n, 0, path, s) == chcon_from(n, k, path, s),
    decreases k,
{
    if k > 0 {
        lemma_skip_missing(n, k - 1, path, s);
        assert(not_found(s[k - 1]));
    }
}

/// What one candidate's answer settles: `None` when its binary is missing
/// and the next candidate is tried, else the result of the step.
pub open spec fn chcon_step_spec(path: Seq<char>, answer: Result<OutputView, RunnerErrorView>) -> Option<
    Result<(), FileActionErrorView>,
> {
    match answer {
        Err(RunnerErrorView::NotFound { .. }) => None,
        Err(RunnerErrorView::Unavailable { detail }) => Some(Err(chcon_error(path, detail))),
        Ok(o) => if o.status == 0 {
            Some(Ok(()))
        } else {
            Some(Err(chcon_error(path, failure_detail(o))))
        },
    }
}

pub open spec fn step_view(r: Option<Result<(), FileActionError>>) -> Option<Result<(), FileActionErrorView>> {
    match r {
        None => None,
        Some(x) => Some(action_check(x)),
    }
}

/// Reads one candidate's answer: a missing binary gives `None` (try the
/// next), a start failure the error with its detail, an exit status 0
/// success, another status the error with stderr, or stdout when stderr is
/// empty.
pub fn chcon_step(path: &str, answer: Result<CommandOutput, CommandRunnerError>) -> (r: Option<
    Result<(), FileActionError>,
>)
    ensures
        step_view(r) == chcon_step_spec(path@, run_view(answer)),
{
    match answer {
        Ok(output) => {
            if output.status() == 0 {
                Some(Ok(()))
            } else {
                Some(
                    Err(
                        FileActionError::Metadata {
                            operation: "chcon",
                            path: path.to_owned(),
                            detail: command_failure_detail(&output),
                        },
                    ),
                )
            }
        },
        Err(CommandRunnerError::NotFound { .. }) => None,
        Err(CommandRunnerError::Unavailable { detail }) => Some(
            Err(FileActionError::Metadata { operation: "chcon", path: path.to_owned(), detail }),
        ),
    }
}

/// The calls of a `chcon` step: `<candidates[j]> <context> <path>` for each
/// `j` below `answers.len()`, in order, with `answers[j]` as the runner's
/// answer.
pub open spec fn chcon_runs(
    candidates: Seq<Seq<char>>,
    context: Seq<char>,
    path: Seq<char>,
    answers: Seq<Result<OutputView, RunnerErrorView>>,
) -> Seq<CommandRun> {
    Seq::new(answers.len(), |j: int| (chcon_call(candidates[j], context, path), answers[j]))
}

/// Which candidates a `chcon` step tries: every one before the last one
/// tried was missing, and the last one tried is the last candidate or one
/// that is there.
pub open spec fn chcon_tried(candidates: Seq<Seq<char>>, answers: Seq<Result<OutputView, RunnerErrorView>>) -> bool {
    &&& answers.len() <= candidates.len()
    &&& forall|j: int| 0 <= j < answers.len() - 1 ==> not_found(#[trigger] answers[j])
    &&& (answers.len() == candidates.len() || (answers.len() > 0 && !not_found(answers.last())))
}

pub open spec fn strs_of(v: Seq<&str>) -> Seq<Seq<char>> {
    v.map_values(|s: &str| s@)
}

/// Sets the `SELinux` context of `path` with the first trusted `chcon` among
/// `candidates` that exists, run as `<candidate> <context> <path>`: the
/// candidates are run in order until one is there, no other command is run,
/// and what that one answers decides.
pub fn run_trusted_chcon_with<R: AndroidCommandRunner>(
    runs: &mut Runs<'_, R>,
    candidates: &[&str],
    context: &str,
    path: &str,
) -> (r: Result<(), FileActionError>)
    ensures
        exists|answers: Seq<Result<OutputView, RunnerErrorView>>|
            #[trigger] chcon_tried(strs_of(candidates@), answers) && final(runs).log() == old(runs).log()
                + chcon_runs(strs_of(candidates@), context@, path@, answers) && action_check(r) == chcon_from(
                candidates@.len() as int,
                0,
                path@,
                answers,
            ),
{
    let ghost start = runs.log();
    let ghost mut answers: Seq<Result<OutputView, RunnerErrorView>> = Seq::empty();
    let ghost n = candidates@.len() as int;
    let ghost cs = strs_of(candidates@);
    let mut i: usize = 0;
    while i < candidates.len()
        invariant
            start == old(runs).log(),
            n == candidates@.len(),
            cs == strs_of(candidates@),
            i <= n,
            answers.len() == i,
            forall|j: int| 0 <= j < i ==> not_found(#[trigger] answers[j]),
            runs.log() == start + chcon_runs(cs, context@, path@, answers),
        decreases candidates.len() - i,
    {
        let invocation = chcon_invocation(candidates[i], context, path);
        let answer = runs.run(&invocation);
        let ghost a = run_view(answer);
        let ghost done = answers.push(a);
        proof {
            lemma_skip_missing(n, i as int, path@, done);
            assert(done[i as int] == a);
            assert(cs[i as int] == candidates@[i as int]@);
            assert(runs.log() =~= start + chcon_runs(cs, context@, path@, done));
        }
        let step = chcon_step(path, answer);
        match step {
            Some(r) => {
                assert(action_check(r) == chcon_from(n, 0, path@, done));
                assert(chcon_tried(cs, done));
                return r;
            },
            None => {},
        }
        proof {
            answers = done;
        }
        i += 1;
    }
    let r = Err(
        FileActionError::Metadata {
            operation: "chcon",
            path: path.to_owned(),
            detail: "trusted chcon command unavailable".to_owned(),
        },
    );
    proof {
        lemma_skip_missing(n, n, path@, answers);
    }
    assert(action_check(r) == chcon_from(n, 0, path@, answers));
    assert(chcon_tried(cs, answers));
    r
}

} // verus!
