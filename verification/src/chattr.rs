//! `chattr +i` under the strong profile.
//!
//! Only the strong profile may set the immutable attribute. The trusted
//! absolute paths of `lsattr` and `chattr` are probed in order, the original
//! attributes are read before any change, and every missing capability or
//! failed command degrades to an observable outcome instead of an error.
pub mod command;
pub mod error;
pub mod outcome;
pub mod profile;
pub mod laws;

use vstd::prelude::*;

use crate::chattr::command::{clean_success, reply_view, CommandInvocation, CommandOutput, CommandRunner, ToolRun, Tools};
use crate::chattr::error::{ImmutableError, ImmutableErrorView};
use crate::chattr::outcome::{ImmutableOutcome, ImmutableOutcomeView, ObservedCommand, ObservedView};
use crate::chattr::profile::ImmutableProfile;
use crate::command_runner::invocation::{invocation, strs_view};
use crate::command_runner::output::OutputView;
use crate::text;

verus! {

pub const NOT_STRONG_REASON: &'static str = "immutable mode requires strong profile";

pub const NO_COMMAND_DETAIL: &'static str = "no trusted absolute command path was executable";

/// The program named when there is no candidate at all.
pub const FALLBACK_PROGRAM: &'static str = "chattr-tools";

/// The trusted `lsattr` paths, in probing order.
pub open spec fn lsattr_candidates() -> Seq<Seq<char>> {
    seq!["/system/bin/lsattr"@, "/system/xbin/lsattr"@, "/vendor/bin/lsattr"@]
}

/// The trusted `chattr` paths, in probing order.
pub open spec fn chattr_candidates() -> Seq<Seq<char>> {
    seq!["/system/bin/chattr"@, "/system/xbin/chattr"@, "/vendor/bin/chattr"@]
}

/// The first line with a non-whitespace character.
pub open spec fn first_nonblank(ls: Seq<Seq<char>>) -> Option<Seq<char>>
    decreases ls.len(),
{
    if ls.len() == 0 {
        None
    } else if text::trimmed(ls[0]).len() > 0 {
        Some(ls[0])
    } else {
        first_nonblank(ls.drop_first())
    }
}

/// The attribute field of `lsattr` output: the text before the first
/// whitespace of the first non-blank line, which must be non-empty.
pub open spec fn parse_lsattr_spec(stdout: Seq<char>) -> Result<Seq<char>, ImmutableErrorView> {
    let malformed = Err(ImmutableErrorView::MalformedLsattr { stdout });
    match first_nonblank(text::lines_of(stdout)) {
        None => malformed,
        Some(line) => match text::split_once_ws(line) {
            None => malformed,
            Some((attrs, _)) => if attrs.len() == 0 {
                malformed
            } else {
                Ok(attrs)
            },
        },
    }
}

/// The failure of a command whose output was not a clean success.
pub open spec fn failed(program: Seq<char>, args: Seq<Seq<char>>, o: OutputView) -> ImmutableErrorView {
    ImmutableErrorView::CommandFailed {
        program,
        args,
        status: o.status,
        stdout: o.stdout,
        stderr: o.stderr,
    }
}

/// Reading the attributes of `target` with `lsattr` at `program`, given the runner's answer.
pub open spec fn read_attrs_spec(
    program: Seq<char>,
    target: Seq<char>,
    answer: Result<OutputView, ImmutableErrorView>,
) -> Result<Seq<char>, ImmutableErrorView> {
    match answer {
        Err(e) => Err(e),
        Ok(o) => if !clean_success(o) {
            Err(failed(program, seq![target], o))
        } else {
            parse_lsattr_spec(o.stdout)
        },
    }
}

/// `chattr +i target` at `program`, given the runner's answer.
pub open spec fn run_chattr_spec(
    program: Seq<char>,
    target: Seq<char>,
    answer: Result<OutputView, ImmutableErrorView>,
) -> Result<ObservedView, ImmutableErrorView> {
    match answer {
        Err(e) => Err(e),
        Ok(o) => if clean_success(o) {
            Ok(ObservedView { program, args: seq!["+i"@, target], status: o.status })
        } else {
            Err(failed(program, seq!["+i"@, target], o))
        },
    }
}

/// Index of the first `true`, or -1.
pub open spec fn first_true(oks: Seq<bool>) -> int
    decreases oks.len(),
{
    if oks.len() == 0 {
        -1
    } else if oks[0] {
        0
    } else {
        let r = first_true(oks.drop_first());
        if r < 0 {
            -1
        } else {
            r + 1
        }
    }
}

/// The first candidate that could be run (`oks[i]`: the probe of candidate
/// `i` returned an output), else unavailable under the first candidate's name.
pub open spec fn resolve_spec(candidates: Seq<Seq<char>>, oks: Seq<bool>) -> Result<
    Seq<char>,
    ImmutableErrorView,
> {
    let k = first_true(oks);
    if 0 <= k < candidates.len() {
        Ok(candidates[k])
    } else {
        Err(
            ImmutableErrorView::CommandUnavailable {
                program: if candidates.len() > 0 {
                    candidates[0]
                } else {
                    FALLBACK_PROGRAM@
                },
                detail: NO_COMMAND_DETAIL@,
            },
        )
    }
}

/// How many candidates were probed: up to the first that ran, or all.
pub open spec fn probed(oks: Seq<bool>) -> int {
    if first_true(oks) >= 0 {
        first_true(oks) + 1
    } else {
        oks.len() as int
    }
}

/// Whether each probe gave an output.
pub open spec fn oks_of(answers: Seq<Result<OutputView, ImmutableErrorView>>) -> Seq<bool> {
    answers.map_values(|a: Result<OutputView, ImmutableErrorView>| a is Ok)
}

/// The probes of a resolution: each candidate up to the first that ran,
/// run without arguments, with its answer.
pub open spec fn probe_runs(candidates: Seq<Seq<char>>, answers: Seq<Result<OutputView, ImmutableErrorView>>) -> Seq<
    ToolRun,
> {
    Seq::new(probed(oks_of(answers)) as nat, |j: int| (invocation(candidates[j], seq![]), answers[j]))
}

/// The runs of an immutable attempt: none outside the strong profile;
/// under it, the `lsattr` probes; once one ran, the `chattr` probes; once
/// one ran, `<lsattr> <target>`; and only once that read the attributes,
/// `<chattr> +i <target>`.
pub open spec fn immutable_runs(
    target: Seq<char>,
    strong: bool,
    lsattr_probes: Seq<Result<OutputView, ImmutableErrorView>>,
    chattr_probes: Seq<Result<OutputView, ImmutableErrorView>>,
    read_answer: Result<OutputView, ImmutableErrorView>,
    chattr_answer: Result<OutputView, ImmutableErrorView>,
) -> Seq<ToolRun> {
    if !strong {
        seq![]
    } else {
        let p1 = probe_runs(lsattr_candidates(), lsattr_probes);
        match resolve_spec(lsattr_candidates(), oks_of(lsattr_probes)) {
            Err(_) => p1,
            Ok(lsattr) => {
                let p2 = p1 + probe_runs(chattr_candidates(), chattr_probes);
                match resolve_spec(chattr_candidates(), oks_of(chattr_probes)) {
                    Err(_) => p2,
                    Ok(chattr) => {
                        let p3 = p2.push((invocation(lsattr, seq![target]), read_answer));
                        if read_attrs_spec(lsattr, target, read_answer) is Ok {
                            p3.push((invocation(chattr, seq!["+i"@, target]), chattr_answer))
                        } else {
                            p3
                        }
                    },
                }
            },
        }
    }
}

/// The whole immutable attempt, given every answer of the runner.
pub open spec fn apply_immutable_spec(
    target: Seq<char>,
    strong: bool,
    lsattr_oks: Seq<bool>,
    chattr_oks: Seq<bool>,
    read_answer: Result<OutputView, ImmutableErrorView>,
    chattr_answer: Result<OutputView, ImmutableErrorView>,
) -> ImmutableOutcomeView {
    if !strong {
        ImmutableOutcomeView::Skipped { target, reason: NOT_STRONG_REASON@ }
    } else {
        match resolve_spec(lsattr_candidates(), lsattr_oks) {
            Err(e) => ImmutableOutcomeView::Degraded {
                target,
                original_attrs: None,
                reason: "lsattr command unavailable"@,
                error: e,
            },
            Ok(lsattr) => match resolve_spec(chattr_candidates(), chattr_oks) {
                Err(e) => ImmutableOutcomeView::Degraded {
                    target,
                    original_attrs: None,
                    reason: "chattr command unavailable"@,
                    error: e,
                },
                Ok(chattr) => match read_attrs_spec(lsattr, target, read_answer) {
                    Err(e) => ImmutableOutcomeView::Degraded {
                        target,
                        original_attrs: None,
                        reason: "lsattr failed before mutation"@,
                        error: e,
                    },
                    Ok(attrs) => match run_chattr_spec(chattr, target, chattr_answer) {
                        Ok(command) => ImmutableOutcomeView::Applied {
                            target,
                            original_attrs: Some(attrs),
                            command,
                        },
                        Err(e) => ImmutableOutcomeView::Degraded {
                            target,
                            original_attrs: Some(attrs),
                            reason: "chattr failed"@,
                            error: e,
                        },
                    },
                },
            },
        }
    }
}

/// One immutable request: a target path and its profile.
#[derive(Debug, Clone, PartialEq, Eq)]
pub struct ImmutableRequest {
    target: String,
    profile: ImmutableProfile,
}

impl ImmutableRequest {
    pub closed spec fn target_view(&self) -> Seq<char> {
        self.target@
    }

    pub closed spec fn profile_view(&self) -> ImmutableProfile {
        self.profile
    }

    /// A request for `target` under `profile`.
    pub fn new(target: &str, profile: ImmutableProfile) -> (r: Self)
        ensures
            r.target_view() == target@,
            r.profile_view() == profile,
    {
        ImmutableRequest { target: target.to_owned(), profile }
    }

    /// The target path.
    pub fn target(&self) -> (r: &str)
        ensures
            r@ == self.target_view(),
    {
        self.target.as_str()
    }

    /// The profile.
    pub fn profile(&self) -> (r: ImmutableProfile)
        ensures
            r == self.profile_view(),
    {
        self.profile
    }
}

proof fn lemma_first_nonblank_skip(ls: Seq<Seq<char>>, i: int)
    requires
        0 <= i <= ls.len(),
        forall|j: int| 0 <= j < i ==> text::trimmed(#[trigger] ls[j]).len() == 0,
    ensures
        first_nonblank(ls) == first_nonblank(ls.subrange(i, ls.len() as int)),
    decreases i,
{
    if i > 0 {
        assert(ls.drop_first().subrange(i - 1, ls.len() - 1) =~= ls.subrange(i, ls.len() as int));
        assert forall|j: int| 0 <= j < i - 1 implies text::trimmed(
            #[trigger] ls.drop_first()[j],
        ).len() == 0 by {
            assert(ls.drop_first()[j] == ls[j + 1]);
        }
        assert(text::trimmed(ls[0]).len() == 0);
        lemma_first_nonblank_skip(ls.drop_first(), i - 1);
    } else {
        assert(ls.subrange(0, ls.len() as int) =~= ls);
    }
}

/// The attribute field of `lsattr` output.
pub fn parse_lsattr(stdout: &str) -> (r: Result<String, ImmutableError>)
    ensures
        match (r, parse_lsattr_spec(stdout@)) {
            (Ok(a), Ok(b)) => a@ == b,
            (Err(e), Err(f)) => e@ == f,
            _ => false,
        },
{
    let ls = text::lines(stdout);
    let ghost lv = ls.deep_view();
    let mut i: usize = 0;
    while i < ls.len()
        invariant
            lv == ls.deep_view(),
            lv == text::lines_of(stdout@),
            i <= lv.len(),
            forall|j: int| 0 <= j < i ==> text::trimmed(#[trigger] lv[j]).len() == 0,
        decreases lv.len() - i,
    {
        if !text::is_blank(ls[i].as_str()) {
            proof {
                lemma_first_nonblank_skip(lv, i as int);
                assert(lv.subrange(i as int, lv.len() as int)[0] == lv[i as int]);
            }
            let line = ls[i].as_str();
            match text::split_once_whitespace(line) {
                Some((attrs, _path)) => {
                    if attrs.as_str().unicode_len() == 0 {
                        return Err(ImmutableError::MalformedLsattr { stdout: stdout.to_owned() });
                    }
                    return Ok(attrs);
                },
                None => {
                    return Err(ImmutableError::MalformedLsattr { stdout: stdout.to_owned() });
                },
            }
        }
        i = i + 1;
    }
    proof {
        lemma_first_nonblank_skip(lv, lv.len() as int);
        assert(lv.subrange(lv.len() as int, lv.len() as int).len() == 0);
    }
    Err(ImmutableError::MalformedLsattr { stdout: stdout.to_owned() })
}

/// Reads the attributes of `target` with the `lsattr` at `program`.
pub fn read_attrs<R: CommandRunner>(tools: &mut Tools<'_, R>, program: &str, target: &str) -> (r: Result<
    String,
    ImmutableError,
>)
    ensures
        exists|answer: Result<OutputView, ImmutableErrorView>|
            final(tools).log() == old(tools).log().push((invocation(program@, seq![target@]), answer)) && match (
                r,
                #[trigger] read_attrs_spec(program@, target@, answer),
            ) {
                (Ok(a), Ok(b)) => a@ == b,
                (Err(e), Err(f)) => e@ == f,
                _ => false,
            },
{
    let args = [target];
    assert(strs_view(args@) =~= seq![target@]);
    let invocation = CommandInvocation::new(program, args.as_slice());
    let answer = tools.run(&invocation);
    read_attrs_from(program, target, answer)
}

/// What `lsattr` answered comes to: the attribute field of a clean
/// success, else the failure.
pub fn read_attrs_from(program: &str, target: &str, answer: Result<CommandOutput, ImmutableError>) -> (r: Result<
    String,
    ImmutableError,
>)
    ensures
        match (r, read_attrs_spec(program@, target@, reply_view(answer))) {
            (Ok(a), Ok(b)) => a@ == b,
            (Err(e), Err(f)) => e@ == f,
            _ => false,
        },
{
    let ghost av = reply_view(answer);
    let r = match answer {
        Err(e) => Err(e),
        Ok(output) => {
            if !output.is_success_without_failure_marker() {
                let mut args: Vec<String> = Vec::new();
                args.push(target.to_owned());
                assert(args.deep_view() =~= seq![target@]);
                Err(
                    ImmutableError::CommandFailed {
                        program: program.to_owned(),
                        args,
                        status: output.status(),
                        stdout: output.stdout().to_owned(),
                        stderr: output.stderr().to_owned(),
                    },
                )
            } else {
                parse_lsattr(output.stdout())
            }
        },
    };
    r
}

/// Runs `chattr +i target` with the `chattr` at `program`.
pub fn run_chattr<R: CommandRunner>(tools: &mut Tools<'_, R>, program: &str, target: &str) -> (r: Result<
    ObservedCommand,
    ImmutableError,
>)
    ensures
        exists|answer: Result<OutputView, ImmutableErrorView>|
            final(tools).log() == old(tools).log().push((invocation(program@, seq!["+i"@, target@]), answer)) && match (
                r,
                #[trigger] run_chattr_spec(program@, target@, answer),
            ) {
                (Ok(a), Ok(b)) => a@ == b,
                (Err(e), Err(f)) => e@ == f,
                _ => false,
            },
{
    let args = ["+i", target];
    assert(strs_view(args@) =~= seq!["+i"@, target@]);
    let invocation = CommandInvocation::new(program, args.as_slice());
    let answer = tools.run(&invocation);
    run_chattr_from(program, target, answer)
}

/// What `chattr +i` answered comes to: the observed command for a clean
/// success, else the failure.
pub fn run_chattr_from(program: &str, target: &str, answer: Result<CommandOutput, ImmutableError>) -> (r: Result<
    ObservedCommand,
    ImmutableError,
>)
    ensures
        match (r, run_chattr_spec(program@, target@, reply_view(answer))) {
            (Ok(a), Ok(b)) => a@ == b,
            (Err(e), Err(f)) => e@ == f,
            _ => false,
        },
{
    let args = ["+i", target];
    assert(strs_view(args@) =~= seq!["+i"@, target@]);
    let invocation = CommandInvocation::new(program, args.as_slice());
    match answer {
        Err(e) => Err(e),
        Ok(output) => {
            if output.is_success_without_failure_marker() {
                Ok(ObservedCommand::from_invocation(&invocation, output.status()))
            } else {
                Err(
                    ImmutableError::CommandFailed {
                        program: program.to_owned(),
                        args: invocation.args_vec(),
                        status: output.status(),
                        stdout: output.stdout().to_owned(),
                        stderr: output.stderr().to_owned(),
                    },
                )
            }
        },
    }
}

proof fn lemma_first_true(oks: Seq<bool>, i: int)
    requires
        0 <= i < oks.len(),
        oks[i],
        forall|j: int| 0 <= j < i ==> !oks[j],
    ensures
        first_true(oks) == i,
    decreases i,
{
    if i > 0 {
        lemma_first_true(oks.drop_first(), i - 1);
    }
}

proof fn lemma_no_true(oks: Seq<bool>)
    requires
        forall|j: int| 0 <= j < oks.len() ==> !oks[j],
    ensures
        first_true(oks) == -1,
    decreases oks.len(),
{
    if oks.len() > 0 {
        lemma_no_true(oks.drop_first());
    }
}

/// The first candidate whose probe runs at all: the candidates are run
/// without arguments, in order, up to the first that gives an output.
pub fn resolve_command<'a, R: CommandRunner>(tools: &mut Tools<'_, R>, candidates: &'a [&'static str]) -> (r:
    Result<&'a str, ImmutableError>)
    ensures
        exists|answers: Seq<Result<OutputView, ImmutableErrorView>>|
            answers.len() == candidates@.len() && final(tools).log() == old(tools).log() + probe_runs(
                strs_view(candidates@),
                answers,
            ) && match (r, #[trigger] resolve_spec(strs_view(candidates@), oks_of(answers))) {
                (Ok(a), Ok(b)) => a@ == b,
                (Err(e), Err(f)) => e@ == f,
                _ => false,
            },
{
    let ghost start = tools.log();
    let ghost cv = strs_view(candidates@);
    let ghost mut answers: Seq<Result<OutputView, ImmutableErrorView>> = Seq::empty();
    let mut i: usize = 0;
    while i < candidates.len()
        invariant
            start == old(tools).log(),
            cv == strs_view(candidates@),
            i <= candidates@.len(),
            answers.len() == i,
            forall|j: int| 0 <= j < i ==> !(#[trigger] answers[j] is Ok),
            tools.log() == start + Seq::new(i as nat, |j: int| (invocation(cv[j], seq![]), answers[j])),
        decreases candidates@.len() - i,
    {
        let candidate = candidates[i];
        let empty: [&str; 0] = [];
        assert(strs_view(empty@) =~= Seq::<Seq<char>>::empty());
        let probe = CommandInvocation::new(candidate, empty.as_slice());
        let ghost before = tools.log();
        let answer = tools.run(&probe);
        let ghost a = reply_view(answer);
        assert(cv[i as int] == candidate@);
        let ghost full = answers.push(a) + Seq::new((candidates@.len() - i - 1) as nat, |k: int| a);
        proof {
            assert(full[i as int] == a);
            assert forall|j: int| 0 <= j < i implies full[j] == answers[j] by {}
        }
        match answer {
            Ok(_output) => {
                proof {
                    let oks = oks_of(full);
                    assert(oks[i as int]);
                    assert forall|j: int| 0 <= j < i implies !oks[j] by {
                        assert(full[j] == answers[j]);
                    }
                    lemma_first_true(oks, i as int);
                    assert(probed(oks) == i + 1);
                    assert(tools.log() =~= start + probe_runs(cv, full));
                }
                assert(resolve_spec(cv, oks_of(full)) == Ok::<Seq<char>, ImmutableErrorView>(cv[i as int]));
                assert(full.len() == candidates@.len());
                assert(tools.log() == start + probe_runs(cv, full));
                return Ok(candidate);
            },
            Err(_error) => {
                proof {
                    let next = answers.push(a);
                    assert(tools.log() =~= start + Seq::new((i + 1) as nat, |j: int| (invocation(cv[j], seq![]), next[j])));
                    answers = next;
                }
            },
        }
        i = i + 1;
    }
    proof {
        assert forall|j: int| 0 <= j < answers.len() implies !oks_of(answers)[j] by {}
        lemma_no_true(oks_of(answers));
        assert(tools.log() =~= start + probe_runs(cv, answers));
    }
    let program = if candidates.len() > 0 {
        candidates[0]
    } else {
        FALLBACK_PROGRAM
    };
    let e = ImmutableError::CommandUnavailable {
        program: program.to_owned(),
        detail: NO_COMMAND_DETAIL.to_owned(),
    };
    assert(resolve_spec(cv, oks_of(answers)) is Err);
    Err(e)
}

fn degraded(
    target: &str,
    original_attrs: Option<String>,
    reason: &'static str,
    error: ImmutableError,
) -> (r: ImmutableOutcome)
    ensures
        r@ == (ImmutableOutcomeView::Degraded {
            target: target@,
            original_attrs: crate::chattr::outcome::opt_seq(original_attrs),
            reason: reason@,
            error: error@,
        }),
{
    ImmutableOutcome::Degraded { target: target.to_owned(), original_attrs, reason, error }
}

/// Tries `chattr +i` on the request's target under the strong profile:
/// the `lsattr` probes, the `chattr` probes, `<lsattr> <target>`, and
/// `<chattr> +i <target>` only once the attributes were read; outside the
/// strong profile nothing is run.
pub fn apply_immutable<R: CommandRunner>(tools: &mut Tools<'_, R>, request: &ImmutableRequest) -> (r:
    ImmutableOutcome)
    ensures
        exists|
            lsattr_probes: Seq<Result<OutputView, ImmutableErrorView>>,
            chattr_probes: Seq<Result<OutputView, ImmutableErrorView>>,
            read_answer: Result<OutputView, ImmutableErrorView>,
            chattr_answer: Result<OutputView, ImmutableErrorView>,
        |
            lsattr_probes.len() == 3 && chattr_probes.len() == 3 && final(tools).log() == old(tools).log()
                + immutable_runs(
                request.target_view(),
                request.profile_view() is Strong,
                lsattr_probes,
                chattr_probes,
                read_answer,
                chattr_answer,
            ) && r@ == #[trigger] apply_immutable_spec(
                request.target_view(),
                request.profile_view() is Strong,
                oks_of(lsattr_probes),
                oks_of(chattr_probes),
                read_answer,
                chattr_answer,
            ),
{
    let ghost start = tools.log();
    let target = request.target();
    let ghost any: Result<OutputView, ImmutableErrorView> = Err(
        ImmutableErrorView::MalformedLsattr { stdout: Seq::empty() },
    );
    let ghost any_probes = seq![any, any, any];
    if !request.profile().is_strong() {
        let r = ImmutableOutcome::Skipped {
            target: target.to_owned(),
            reason: NOT_STRONG_REASON.to_owned(),
        };
        assert(r@ == apply_immutable_spec(target@, false, oks_of(any_probes), oks_of(any_probes), any, any));
        assert(tools.log() =~= start + immutable_runs(target@, false, any_probes, any_probes, any, any));
        return r;
    }
    let lsattr_list = ["/system/bin/lsattr", "/system/xbin/lsattr", "/vendor/bin/lsattr"];
    assert(strs_view(lsattr_list@) =~= lsattr_candidates());
    let chattr_list = ["/system/bin/chattr", "/system/xbin/chattr", "/vendor/bin/chattr"];
    assert(strs_view(chattr_list@) =~= chattr_candidates());
    let lsattr_r = resolve_command(tools, lsattr_list.as_slice());
    let ghost l = choose|answers: Seq<Result<OutputView, ImmutableErrorView>>|
        answers.len() == 3 && tools.log() == start + probe_runs(lsattr_candidates(), answers) && match (
            lsattr_r,
            #[trigger] resolve_spec(lsattr_candidates(), oks_of(answers)),
        ) {
            (Ok(a), Ok(b)) => a@ == b,
            (Err(e), Err(f)) => e@ == f,
            _ => false,
        };
    let lsattr = match lsattr_r {
        Ok(command) => command,
        Err(error) => {
            let r = degraded(target, None, "lsattr command unavailable", error);
            assert(r@ == apply_immutable_spec(target@, true, oks_of(l), oks_of(l), any, any));
            assert(tools.log() =~= start + immutable_runs(target@, true, l, l, any, any));
            return r;
        },
    };
    let ghost after_l = tools.log();
    let chattr_r = resolve_command(tools, chattr_list.as_slice());
    let ghost c = choose|answers: Seq<Result<OutputView, ImmutableErrorView>>|
        answers.len() == 3 && tools.log() == after_l + probe_runs(chattr_candidates(), answers) && match (
            chattr_r,
            #[trigger] resolve_spec(chattr_candidates(), oks_of(answers)),
        ) {
            (Ok(a), Ok(b)) => a@ == b,
            (Err(e), Err(f)) => e@ == f,
            _ => false,
        };
    let chattr = match chattr_r {
        Ok(command) => command,
        Err(error) => {
            let r = degraded(target, None, "chattr command unavailable", error);
            assert(r@ == apply_immutable_spec(target@, true, oks_of(l), oks_of(c), any, any));
            assert(tools.log() =~= start + immutable_runs(target@, true, l, c, any, any));
            return r;
        },
    };
    let ghost after_c = tools.log();
    let read_r = read_attrs(tools, lsattr, target);
    let ghost ra = choose|answer: Result<OutputView, ImmutableErrorView>|
        tools.log() == after_c.push((invocation(lsattr@, seq![target@]), answer)) && match (
            read_r,
            #[trigger] read_attrs_spec(lsattr@, target@, answer),
        ) {
            (Ok(a), Ok(b)) => a@ == b,
            (Err(e), Err(f)) => e@ == f,
            _ => false,
        };
    let original_attrs = match read_r {
        Ok(attrs) => attrs,
        Err(error) => {
            let r = degraded(target, None, "lsattr failed before mutation", error);
            assert(r@ == apply_immutable_spec(target@, true, oks_of(l), oks_of(c), ra, any));
            assert(tools.log() =~= start + immutable_runs(target@, true, l, c, ra, any));
            return r;
        },
    };
    let ghost after_r = tools.log();
    let chattr_r2 = run_chattr(tools, chattr, target);
    let ghost ca = choose|answer: Result<OutputView, ImmutableErrorView>|
        tools.log() == after_r.push((invocation(chattr@, seq!["+i"@, target@]), answer)) && match (
            chattr_r2,
            #[trigger] run_chattr_spec(chattr@, target@, answer),
        ) {
            (Ok(a), Ok(b)) => a@ == b,
            (Err(e), Err(f)) => e@ == f,
            _ => false,
        };
    let r = match chattr_r2 {
        Ok(command) => ImmutableOutcome::Applied {
            target: target.to_owned(),
            original_attrs: Some(original_attrs),
            command,
        },
        Err(error) => degraded(target, Some(original_attrs), "chattr failed", error),
    };
    assert(r@ == apply_immutable_spec(target@, true, oks_of(l), oks_of(c), ra, ca));
    assert(tools.log() =~= start + immutable_runs(target@, true, l, c, ra, ca));
    r
}

} // verus!
