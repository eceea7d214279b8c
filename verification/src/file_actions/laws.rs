//! What every file action guarantees.
use vstd::prelude::*;

use crate::file_actions::backup::sanitized;
use crate::file_actions::error::FileActionErrorView;
use crate::file_actions::executor::{content_path_spec, existing_backup_spec, first_content, start_spec, withdraws_record};
use crate::file_actions::transaction::{
    record_key, step_spec as exec_step_spec, ExecActionView, ExecEventView, ExecStateView, KeyView,
};
use crate::file_actions::guards::guard_path_spec;
use crate::file_actions::ledger::{creates_placeholder, restore_steps_spec};
use crate::file_actions::metadata::MetadataChangeView;
use crate::file_actions::metadata_ops::{chcon_error, chcon_from, not_found, step_spec, MetadataStepView};
use crate::file_actions::outcome::skipped_view;
use crate::file_actions::plan::FileActionPlan;
use crate::file_actions::primary::{route_spec, PrimaryRouteView};
use crate::file_actions::request::FileActionKind;
use crate::file_actions::snapshot::{has_identity, FileFacts, PathObservationView, SnapshotView};
use crate::file_actions::target::{
    android_check, is_absolute, is_protected_root, is_protected_subtree, path_starts_with,
    target_check, traverses, HostFactsView,
};
use crate::command_runner::output::OutputView;
use crate::command_runner::runner::RunnerErrorView;
use crate::model::RiskLevel;
use crate::restore_ledger::{AppendOutcome, LedgerRecordView, OriginalFileType, RestoreStepView};

verus! {

/// A target is refused unless it is an absolute Android path, without `..`,
/// outside the protected roots and their protected subtrees.
pub proof fn law_protected_targets_refused(p: Seq<char>)
    ensures
        !is_absolute(p) ==> android_check(p) is Err,
        traverses(p) ==> android_check(p) is Err,
        is_protected_root(p) ==> android_check(p) is Err,
        is_protected_subtree(p) ==> android_check(p) is Err,
{
}

/// An accepted target's host path lies inside the host root, both
/// lexically and once canonicalized, and is no symlink.
pub proof fn law_target_stays_inside_root(
    android: Seq<char>,
    host: Seq<char>,
    root: Seq<char>,
    facts: HostFactsView,
)
    requires
        target_check(android, host, root, facts) is Ok,
    ensures
        is_absolute(host) && is_absolute(root),
        !traverses(host) && !traverses(root),
        path_starts_with(host, root),
        !facts.host_is_symlink,
        facts.canonical_root matches Ok(r) && facts.canonical_existing matches Ok(x) && path_starts_with(x, r),
{
}

/// The restore steps undo the action: the backup comes back first (or the
/// created placeholder goes), mode and owner are set again for a target
/// that existed and never for one that did not, and a known context last.
pub proof fn law_restore_steps_undo_the_action(
    action: FileActionKind,
    snapshot: SnapshotView,
    backup: Option<Seq<char>>,
)
    ensures
        backup matches Some(p) ==> restore_steps_spec(action, snapshot, backup)[0]
            == (RestoreStepView::RestoreContent { backup_path: p }),
        backup is None && creates_placeholder(action) ==> restore_steps_spec(action, snapshot, backup)[0]
            == RestoreStepView::RemovePlaceholder,
        snapshot.original_type != OriginalFileType::Missing ==> restore_steps_spec(action, snapshot, backup).contains(
            RestoreStepView::SetMode { mode: snapshot.mode },
        ) && restore_steps_spec(action, snapshot, backup).contains(
            RestoreStepView::SetOwner { uid: snapshot.uid, gid: snapshot.gid },
        ),
        snapshot.original_type == OriginalFileType::Missing ==> forall|i: int|
            0 <= i < restore_steps_spec(action, snapshot, backup).len() ==> !(
            #[trigger] restore_steps_spec(action, snapshot, backup)[i] is SetMode)
                && !(restore_steps_spec(action, snapshot, backup)[i] is SetOwner),
        snapshot.selinux_context matches Some(c) ==> restore_steps_spec(action, snapshot, backup).last()
            == (RestoreStepView::SetSelinuxContext { context: c }),
{
    let steps = restore_steps_spec(action, snapshot, backup);
    if snapshot.original_type != OriginalFileType::Missing {
        let k = if backup is Some || creates_placeholder(action) { 1int } else { 0int };
        assert(steps[k] == RestoreStepView::SetMode { mode: snapshot.mode });
        assert(steps[k + 1] == RestoreStepView::SetOwner { uid: snapshot.uid, gid: snapshot.gid });
    }
}

/// Deletes and mode changes of a missing target are skipped without any
/// change; the file and directory actions go on and create it.
pub proof fn law_missing_target(plan: FileActionPlan, snapshot: SnapshotView)
    requires
        snapshot.original_type == OriginalFileType::Missing,
    ensures
        plan.action_view() == FileActionKind::Delete || plan.action_view() == FileActionKind::Chmod000
            ==> start_spec(plan, snapshot) == Ok::<Option<crate::file_actions::outcome::OutcomeView>, FileActionErrorView>(Some(skipped_view())),
        skipped_view().will_mutate == false,
        plan.action_view() == FileActionKind::EmptyFile || plan.action_view() == FileActionKind::EmptyDir
            ==> start_spec(plan, snapshot) == Ok::<Option<crate::file_actions::outcome::OutcomeView>, FileActionErrorView>(None),
{
}

/// A failed execution withdraws its pending ledger record only when it
/// appended it; after a failed rollback the record always stays.
pub proof fn law_failed_run_keeps_rollback_record(append: AppendOutcome, error: FileActionErrorView)
    ensures
        withdraws_record(append, error) ==> append == AppendOutcome::Appended,
        error is RollbackFailed ==> !withdraws_record(append, error),
{
}

/// A guard refuses a path whose object was replaced: a known identity that
/// differs, or a different type, is never accepted for a target that existed.
pub proof fn law_guard_refuses_replaced_target(
    path: Seq<char>,
    snapshot: SnapshotView,
    allowed: Seq<OriginalFileType>,
    current: FileFacts,
)
    requires
        snapshot.original_type != OriginalFileType::Missing,
        has_identity(snapshot.identity),
        current.identity != snapshot.identity,
    ensures
        guard_path_spec(path, snapshot, allowed, PathObservationView::Found(current)) is Err,
{
}

/// `chcon` runs only from the trusted candidates: when none of them exists
/// the step fails as unavailable, it never falls back to another binary.
pub proof fn law_chcon_trusted_only(n: int, path: Seq<char>, answers: Seq<Result<OutputView, RunnerErrorView>>)
    requires
        0 <= n <= answers.len(),
        forall|i: int| 0 <= i < n ==> not_found(#[trigger] answers[i]),
    ensures
        chcon_from(n, 0, path, answers) == Err::<(), FileActionErrorView>(
            chcon_error(path, "trusted chcon command unavailable"@),
        ),
{
    lemma_unavailable(n, 0, path, answers);
}

proof fn lemma_unavailable(n: int, i: int, path: Seq<char>, answers: Seq<Result<OutputView, RunnerErrorView>>)
    requires
        0 <= i <= n <= answers.len(),
        forall|j: int| 0 <= j < n ==> not_found(#[trigger] answers[j]),
    ensures
        chcon_from(n, i, path, answers) == Err::<(), FileActionErrorView>(
            chcon_error(path, "trusted chcon command unavailable"@),
        ),
    decreases n - i,
{
    if i < n {
        assert(not_found(answers[i]));
        lemma_unavailable(n, i + 1, path, answers);
    }
}

/// A high-risk rule never sets an explicit `SELinux` context over an
/// unknown original one, and restoring an unknown context is skipped.
pub proof fn law_unknown_context_not_overwritten(context: Seq<char>)
    ensures
        step_spec(MetadataChangeView::SetSelinuxContext { context }, RiskLevel::High, None)
            == MetadataStepView::SkipChcon,
        step_spec(MetadataChangeView::RestoreSelinuxContext, RiskLevel::Low, None) == MetadataStepView::SkipChcon,
        step_spec(MetadataChangeView::RestoreSelinuxContext, RiskLevel::Medium, None) == MetadataStepView::SkipChcon,
        step_spec(MetadataChangeView::RestoreSelinuxContext, RiskLevel::High, None) == MetadataStepView::SkipChcon,
{
}

/// A sanitized path holds no `/`: a backup name stays one file name.
pub proof fn law_sanitized_path_is_flat(p: Seq<char>)
    ensures
        !sanitized(p).contains('/'),
{
    if sanitized(p).contains('/') {
        let i = choose|i: int| 0 <= i < sanitized(p).len() && sanitized(p)[i] == '/';
        assert(sanitized(p)[i] == (if crate::text::is_ascii_alnum(p[i]) { p[i] } else { '_' }));
    }
}

/// An execution changes the target only once its restore record stands:
/// right after the ledger took the new record, or after the stored backup
/// of a record already there was checked. A record is appended only after
/// the original was backed up.
pub proof fn law_change_only_after_record(
    plan: FileActionPlan,
    snapshot: SnapshotView,
    state: ExecStateView,
    event: ExecEventView,
    next: ExecStateView,
    action: ExecActionView,
)
    requires
        exec_step_spec(plan, snapshot, state, event, next, action),
    ensures
        action is Change ==> ((state is Recording && (event matches ExecEventView::Appended(Ok(_)))) || (
        state is CheckingBackup && (event matches ExecEventView::BackupSeen(seen) && existing_backup_spec(
            state->CheckingBackup_backup_path,
            seen,
        ) is Ok))),
        action is Append ==> (state is BackingUp && (event matches ExecEventView::BackedUp(Ok(_)))),
{
}

/// After a failed change the pending record is withdrawn exactly when this
/// run appended it and the rollback did not fail; the run then reports the
/// change's error, or the ledger's when the withdrawal failed.
pub proof fn law_failed_change_withdraws_exactly(
    plan: FileActionPlan,
    snapshot: SnapshotView,
    key: KeyView,
    append: AppendOutcome,
    backup_path: Option<Seq<char>>,
    reused: bool,
    error: FileActionErrorView,
    next: ExecStateView,
    action: ExecActionView,
)
    requires
        exec_step_spec(
            plan,
            snapshot,
            ExecStateView::Changing { key, append, backup_path, reused },
            ExecEventView::Changed(Err(error)),
            next,
            action,
        ),
    ensures
        (action == ExecActionView::Withdraw(key)) == withdraws_record(append, error),
        !withdraws_record(append, error) ==> action == ExecActionView::Done(Err(error)),
        withdraws_record(append, error) ==> forall|n: ExecStateView, a: ExecActionView|
            exec_step_spec(plan, snapshot, next, ExecEventView::Withdrawn(Ok(())), n, a) ==> a
                == ExecActionView::Done(Err(error)),
{
}

/// A repeated run reuses the record it finds: it neither backs the target up
/// again nor appends another record, and goes on with that record's backup.
pub proof fn law_rerun_reuses_record(
    plan: FileActionPlan,
    snapshot: SnapshotView,
    record: LedgerRecordView,
    next: ExecStateView,
    action: ExecActionView,
)
    requires
        exec_step_spec(plan, snapshot, ExecStateView::Lookup, ExecEventView::Found(Ok(Some(record))), next, action),
    ensures
        !(action is BackUp),
        !(action is Append),
        content_path_spec(record.restore_steps) matches Ok(b) ==> (next == (ExecStateView::CheckingBackup {
            key: record_key(record),
            backup_path: b,
        }) && action == ExecActionView::ObserveBackup(b)),
{
}

proof fn lemma_no_content(steps: Seq<RestoreStepView>, i: int)
    requires
        0 <= i,
        forall|j: int| i <= j < steps.len() ==> !(#[trigger] steps[j] is RestoreContent),
    ensures
        first_content(steps, i) == None::<Seq<char>>,
    decreases steps.len() - i,
{
    if i < steps.len() {
        lemma_no_content(steps, i + 1);
    }
}

/// A repeated execution goes on with the backup of the first: when one run
/// backed the target up to `backup` and appended its record, a later run
/// that finds that record checks that same backup, and neither backs up
/// again nor appends another record.
pub proof fn law_rerun_uses_first_backup(
    plan: FileActionPlan,
    snapshot: SnapshotView,
    backup: Option<Seq<char>>,
    first_next: ExecStateView,
    record: LedgerRecordView,
    later_plan: FileActionPlan,
    later_snapshot: SnapshotView,
    next: ExecStateView,
    action: ExecActionView,
)
    requires
        exec_step_spec(
            plan,
            snapshot,
            ExecStateView::BackingUp,
            ExecEventView::BackedUp(Ok(backup)),
            first_next,
            ExecActionView::Append(record),
        ),
        backup matches Some(p) ==> p.len() > 0,
        exec_step_spec(
            later_plan,
            later_snapshot,
            ExecStateView::Lookup,
            ExecEventView::Found(Ok(Some(record))),
            next,
            action,
        ),
    ensures
        action == ExecActionView::ObserveBackup(backup),
        next == (ExecStateView::CheckingBackup { key: record_key(record), backup_path: backup }),
{
    let steps = record.restore_steps;
    assert(steps == restore_steps_spec(plan.action_view(), snapshot, backup));
    match backup {
        Some(p) => {
            assert(steps[0] == RestoreStepView::RestoreContent { backup_path: p });
            assert(first_content(steps, 0) == Some(p));
        },
        None => {
            assert forall|j: int| 0 <= j < steps.len() implies !(#[trigger] steps[j] is RestoreContent) by {}
            lemma_no_content(steps, 0);
        },
    }
}

/// Whether the primary action leaves a directory at the target.
pub open spec fn leaves_directory(r: PrimaryRouteView) -> bool {
    match r {
        PrimaryRouteView::Move { recreate_dir, .. } => recreate_dir,
        PrimaryRouteView::CreateDir { .. } => true,
        _ => false,
    }
}

/// Emptying a directory leaves an empty directory at the target: an
/// existing one is moved to its backup and created again, a missing one is
/// created. A delete never leaves a directory behind: an existing target is
/// moved to its backup and nothing takes its place.
pub proof fn law_empty_dir_leaves_a_directory(
    path: Seq<char>,
    original: OriginalFileType,
    backup: Option<Seq<char>>,
    reused: bool,
)
    ensures
        (original == OriginalFileType::Missing || (original == OriginalFileType::Directory && backup is Some))
            ==> (route_spec(FileActionKind::EmptyDir, path, original, backup, reused) matches Ok(r) && leaves_directory(r)),
        route_spec(FileActionKind::Delete, path, original, backup, reused) matches Ok(r) ==> !leaves_directory(r),
        (original == OriginalFileType::Directory && backup is Some) ==> {
            &&& route_spec(FileActionKind::EmptyDir, path, original, backup, reused) == Ok::<
                PrimaryRouteView,
                FileActionErrorView,
            >(PrimaryRouteView::Move { backup_path: backup->0, reused, recreate_dir: true })
            &&& route_spec(FileActionKind::Delete, path, original, backup, reused) == Ok::<
                PrimaryRouteView,
                FileActionErrorView,
            >(PrimaryRouteView::Move { backup_path: backup->0, reused, recreate_dir: false })
        },
{
}

} // verus!
