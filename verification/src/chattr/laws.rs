//! What every immutable attempt guarantees.
use vstd::prelude::*;

use crate::chattr::error::ImmutableErrorView;
use crate::chattr::outcome::ImmutableOutcomeView;
use crate::chattr::command::ToolRun;
use crate::chattr::{
    apply_immutable_spec, chattr_candidates, immutable_runs, lsattr_candidates, oks_of, probe_runs, read_attrs_spec,
    resolve_spec, NOT_STRONG_REASON,
};
use crate::command_runner::invocation::invocation;
use crate::command_runner::output::OutputView;

verus! {

/// Only the strong profile touches the device: under any other profile the
/// attempt runs no command at all and is skipped.
pub proof fn law_only_strong_profile_mutates(
    target: Seq<char>,
    lsattr_probes: Seq<Result<OutputView, ImmutableErrorView>>,
    chattr_probes: Seq<Result<OutputView, ImmutableErrorView>>,
    read_answer: Result<OutputView, ImmutableErrorView>,
    chattr_answer: Result<OutputView, ImmutableErrorView>,
)
    ensures
        immutable_runs(target, false, lsattr_probes, chattr_probes, read_answer, chattr_answer)
            == Seq::<ToolRun>::empty(),
        apply_immutable_spec(target, false, oks_of(lsattr_probes), oks_of(chattr_probes), read_answer, chattr_answer)
            == (ImmutableOutcomeView::Skipped { target, reason: NOT_STRONG_REASON@ }),
{
    assert(immutable_runs(target, false, lsattr_probes, chattr_probes, read_answer, chattr_answer)
        =~= Seq::<ToolRun>::empty());
}

/// `chattr +i` runs only after `lsattr` read the original attributes, and
/// it is the last command run: when the attempt's last run is
/// `<chattr> +i <target>`, the run before it was the read of `<target>`,
/// and that read succeeded.
pub proof fn law_chattr_only_after_read(
    target: Seq<char>,
    lsattr_probes: Seq<Result<OutputView, ImmutableErrorView>>,
    chattr_probes: Seq<Result<OutputView, ImmutableErrorView>>,
    read_answer: Result<OutputView, ImmutableErrorView>,
    chattr_answer: Result<OutputView, ImmutableErrorView>,
)
    requires
        lsattr_probes.len() == 3,
        chattr_probes.len() == 3,
    ensures
        ({
            let runs = immutable_runs(target, true, lsattr_probes, chattr_probes, read_answer, chattr_answer);
            runs.len() > 0 && runs.last().1 == chattr_answer && runs.last().0.args == seq!["+i"@, target] ==> {
                &&& runs.len() >= 2
                &&& runs[runs.len() - 2].0.args == seq![target]
                &&& runs[runs.len() - 2].1 == read_answer
                &&& resolve_spec(lsattr_candidates(), oks_of(lsattr_probes)) matches Ok(lsattr) && read_attrs_spec(
                    lsattr,
                    target,
                    read_answer,
                ) is Ok
            }
        }),
{
    let runs = immutable_runs(target, true, lsattr_probes, chattr_probes, read_answer, chattr_answer);
    reveal_strlit("+i");
    if runs.len() > 0 && runs.last().1 == chattr_answer && runs.last().0.args == seq!["+i"@, target] {
        let p1 = probe_runs(lsattr_candidates(), lsattr_probes);
        if p1.len() > 0 {
            assert(p1.last().0.args.len() == 0);
        }
        match resolve_spec(lsattr_candidates(), oks_of(lsattr_probes)) {
            Err(_) => {
                assert(runs == p1);
                assert(runs.last().0.args.len() == 0);
            },
            Ok(lsattr) => {
                let p2 = p1 + probe_runs(chattr_candidates(), chattr_probes);
                let p2b = probe_runs(chattr_candidates(), chattr_probes);
                if p2b.len() > 0 {
                    assert(p2b.last().0.args.len() == 0);
                    assert(p2.last() == p2b.last());
                }
                match resolve_spec(chattr_candidates(), oks_of(chattr_probes)) {
                    Err(_) => {
                        assert(runs == p2);
                    },
                    Ok(chattr) => {
                        let p3 = p2.push((invocation(lsattr, seq![target]), read_answer));
                        if !(read_attrs_spec(lsattr, target, read_answer) is Ok) {
                            assert(runs == p3);
                            assert(runs.last().0.args.len() == 1);
                        }
                    },
                }
            },
        }
    }
}

/// The attribute is only ever set after the original attributes were read:
/// an applied outcome always carries them.
pub proof fn law_applied_records_original_attrs(
    target: Seq<char>,
    strong: bool,
    lsattr_oks: Seq<bool>,
    chattr_oks: Seq<bool>,
    read_answer: Result<OutputView, ImmutableErrorView>,
    chattr_answer: Result<OutputView, ImmutableErrorView>,
)
    ensures
        apply_immutable_spec(target, strong, lsattr_oks, chattr_oks, read_answer, chattr_answer) is Applied
            ==> apply_immutable_spec(target, strong, lsattr_oks, chattr_oks, read_answer, chattr_answer)->Applied_original_attrs is Some,
{
}

} // verus!
