//! The decisions of a file action's execution: when it is skipped or
//! refused, which backup a repeated run reuses, and when the pending ledger
//! record of a failed run is withdrawn.
use vstd::prelude::*;

use crate::file_actions::error::{action_check, rejected, FileActionError, FileActionErrorView};
use crate::file_actions::outcome::{planned_view, skipped_view, FileActionOutcome, OutcomeView};
use crate::file_actions::plan::FileActionPlan;
use crate::file_actions::request::FileActionKind;
use crate::file_actions::snapshot::{
    identity_changed, identity_moved, ObservedType, PathObservation, PathObservationView,
    SnapshotView, TargetSnapshot,
};
use crate::restore_ledger::{AppendOutcome, LedgerRecord, OriginalFileType, RestoreStep, RestoreStepView};

verus! {

/// The backup directory must be named.
pub open spec fn backup_dir_check(dir: Seq<char>) -> Result<(), FileActionErrorView> {
    if dir.len() == 0 {
        Err(rejected(dir, "backup dir must not be empty"@))
    } else {
        Ok(())
    }
}

/// Refuses an empty backup directory.
pub fn validate_backup_dir(dir: &str) -> (r: Result<(), FileActionError>)
    ensures
        action_check(r) == backup_dir_check(dir@),
{
    if dir.unicode_len() == 0 {
        return Err(FileActionError::rejected_target(dir, "backup dir must not be empty"));
    }
    Ok(())
}

/// A missing target is skipped by deletes and mode changes.
pub open spec fn skips_missing(action: FileActionKind, original: OriginalFileType) -> bool {
    original == OriginalFileType::Missing && (action == FileActionKind::Delete || action
        == FileActionKind::Chmod000)
}

/// Whether the action has nothing to do on the target found.
pub fn should_skip_missing(action: FileActionKind, original: OriginalFileType) -> (r: bool)
    ensures
        r == skips_missing(action, original),
{
    original == OriginalFileType::Missing && (action == FileActionKind::Delete || action
        == FileActionKind::Chmod000)
}

/// A regular file with another hard link cannot be backed up by moving it.
pub open spec fn hardlink_check(android: Seq<char>, snapshot: SnapshotView) -> Result<(), FileActionErrorView> {
    if snapshot.original_type == OriginalFileType::File && snapshot.nlink > 1 {
        Err(rejected(android, "hardlinked file target rejected"@))
    } else {
        Ok(())
    }
}

/// Refuses a hard-linked regular file.
pub fn reject_hardlinked_regular_file(plan: &FileActionPlan, snapshot: &TargetSnapshot) -> (r: Result<
    (),
    FileActionError,
>)
    ensures
        action_check(r) == hardlink_check(plan.target_view().android_view(), snapshot@),
{
    if snapshot.original_type == OriginalFileType::File && snapshot.nlink > 1 {
        return Err(FileActionError::rejected_target(plan.target().android_path(), "hardlinked file target rejected"));
    }
    Ok(())
}

/// The first backup path among the restore steps.
pub open spec fn first_content(steps: Seq<RestoreStepView>, i: int) -> Option<Seq<char>>
    decreases steps.len() - i,
{
    if i < 0 || i >= steps.len() {
        None
    } else {
        match steps[i] {
            RestoreStepView::RestoreContent { backup_path } => Some(backup_path),
            _ => first_content(steps, i + 1),
        }
    }
}

/// The backup a stored record points to; an empty stored path is refused.
pub open spec fn content_path_spec(steps: Seq<RestoreStepView>) -> Result<Option<Seq<char>>, FileActionErrorView> {
    match first_content(steps, 0) {
        None => Ok(None),
        Some(p) => if p.len() == 0 {
            Err(rejected(p, "stored backup path is empty"@))
        } else {
            Ok(Some(p))
        },
    }
}

pub open spec fn opt_path_result_view(r: Result<Option<String>, FileActionError>) -> Result<
    Option<Seq<char>>,
    FileActionErrorView,
> {
    match r {
        Ok(Some(s)) => Ok(Some(s@)),
        Ok(None) => Ok(None),
        Err(e) => Err(e@),
    }
}

/// The backup that a stored record points to.
pub fn restore_content_path(record: &LedgerRecord) -> (r: Result<Option<String>, FileActionError>)
    ensures
        opt_path_result_view(r) == content_path_spec(record@.restore_steps),
{
    let ghost steps = record@.restore_steps;
    let mut i: usize = 0;
    while i < record.restore_steps.len()
        invariant
            i <= record.restore_steps@.len(),
            steps == record@.restore_steps,
            first_content(steps, 0) == first_content(steps, i as int),
        decreases record.restore_steps.len() - i,
    {
        assert(steps[i as int] == record.restore_steps@[i as int]@);
        match &record.restore_steps[i] {
            RestoreStep::RestoreContent { backup_path } => {
                if backup_path.as_str().unicode_len() == 0 {
                    return Err(FileActionError::rejected_target(backup_path.as_str(), "stored backup path is empty"));
                }
                return Ok(Some(backup_path.clone()));
            },
            _ => {},
        }
        i += 1;
    }
    Ok(None)
}

/// Before a repeated run mutates again, the stored backup must be there and
/// must not be a symlink.
pub open spec fn existing_backup_spec(backup: Option<Seq<char>>, obs: PathObservationView) -> Result<
    (),
    FileActionErrorView,
> {
    match backup {
        None => Ok(()),
        Some(p) => match obs {
            PathObservationView::Found(f) => if f.file_type == ObservedType::Symlink {
                Err(rejected(p, "stored backup path is symlink"@))
            } else {
                Ok(())
            },
            PathObservationView::Missing(_) => Err(rejected(p, "stored backup missing before repeated mutation"@)),
            PathObservationView::Failed(d) => Err(FileActionErrorView::Io { path: p, detail: d }),
        },
    }
}

pub open spec fn opt_view(o: Option<&str>) -> Option<Seq<char>> {
    match o {
        Some(s) => Some(s@),
        None => None,
    }
}

/// Checks the stored backup of a repeated run, given what
/// `symlink_metadata` said of it.
pub fn validate_existing_backup(backup: Option<&str>, obs: &PathObservation) -> (r: Result<(), FileActionError>)
    ensures
        action_check(r) == existing_backup_spec(opt_view(backup), obs@),
{
    match backup {
        None => Ok(()),
        Some(p) => match obs {
            PathObservation::Found(f) => {
                if f.file_type == ObservedType::Symlink {
                    Err(FileActionError::rejected_target(p, "stored backup path is symlink"))
                } else {
                    Ok(())
                }
            },
            PathObservation::Missing(_) => Err(
                FileActionError::rejected_target(p, "stored backup missing before repeated mutation"),
            ),
            PathObservation::Failed(d) => Err(FileActionError::io(p, d.clone())),
        },
    }
}

/// Right before the mutation the target must still be the snapshot's.
pub open spec fn unchanged_spec(android: Seq<char>, snapshot: SnapshotView, current: SnapshotView) -> Result<
    (),
    FileActionErrorView,
> {
    if current.original_type != snapshot.original_type {
        Err(rejected(android, "target changed before mutation"@))
    } else if identity_moved(snapshot.identity, current.identity) {
        Err(rejected(android, "target identity changed before mutation"@))
    } else {
        Ok(())
    }
}

/// Checks that the target is still the snapshot's, given a new snapshot.
pub fn guard_target_unchanged(plan: &FileActionPlan, snapshot: &TargetSnapshot, current: &TargetSnapshot) -> (r:
    Result<(), FileActionError>)
    ensures
        action_check(r) == unchanged_spec(plan.target_view().android_view(), snapshot@, current@),
{
    if current.original_type != snapshot.original_type {
        return Err(FileActionError::rejected_target(plan.target().android_path(), "target changed before mutation"));
    }
    if identity_changed(snapshot.identity, current.identity) {
        return Err(
            FileActionError::rejected_target(plan.target().android_path(), "target identity changed before mutation"),
        );
    }
    Ok(())
}

/// A failed run withdraws the record it appended, unless the target was
/// left at its backup path by a failed rollback.
pub open spec fn withdraws_record(append: AppendOutcome, error: FileActionErrorView) -> bool {
    append == AppendOutcome::Appended && !(error is RollbackFailed)
}

/// Whether a failed run withdraws its pending ledger record.
pub fn removes_pending_record(append: AppendOutcome, error: &FileActionError) -> (r: bool)
    ensures
        r == withdraws_record(append, error@),
{
    append == AppendOutcome::Appended && !error.preserves_pending_ledger()
}

/// The outcome of the checks that follow the snapshot: skipped, refused,
/// or go on.
pub open spec fn start_spec(plan: FileActionPlan, snapshot: SnapshotView) -> Result<Option<OutcomeView>, FileActionErrorView> {
    if skips_missing(plan.action_view(), snapshot.original_type) {
        Ok(Some(skipped_view()))
    } else {
        match hardlink_check(plan.target_view().android_view(), snapshot) {
            Err(e) => Err(e),
            Ok(()) => Ok(None),
        }
    }
}

pub open spec fn start_view(r: Result<Option<FileActionOutcome>, FileActionError>) -> Result<Option<OutcomeView>, FileActionErrorView> {
    match r {
        Ok(Some(o)) => Ok(Some(o@)),
        Ok(None) => Ok(None),
        Err(e) => Err(e@),
    }
}

/// Executes recoverable file actions; the restore ledger and the file
/// system are driven by the caller, step by step, through these decisions.
#[derive(Debug, Clone, PartialEq, Eq)]
pub struct FileActionExecutor {
    backup_dir: String,
}

impl FileActionExecutor {
    pub closed spec fn backup_dir_view(&self) -> Seq<char> {
        self.backup_dir@
    }

    /// An executor that keeps backups in `backup_dir`.
    pub fn new(backup_dir: &str) -> (r: Self)
        ensures
            r.backup_dir_view() == backup_dir@,
    {
        FileActionExecutor { backup_dir: backup_dir.to_owned() }
    }

    /// The backup directory.
    pub fn backup_dir(&self) -> (r: &str)
        ensures
            r@ == self.backup_dir_view(),
    {
        self.backup_dir.as_str()
    }

    /// Only checks that the plan can run: neither the ledger nor the target
    /// is touched.
    pub fn dry_run(&self, plan: &FileActionPlan) -> (r: Result<FileActionOutcome, FileActionError>)
        ensures
            match (r, backup_dir_check(self.backup_dir_view())) {
                (Ok(o), Ok(())) => o@ == planned_view(),
                (Err(e), Err(f)) => e@ == f,
                _ => false,
            },
    {
        validate_backup_dir(self.backup_dir.as_str())?;
        Ok(FileActionOutcome::planned())
    }

    /// The checks that open an execution.
    pub fn check_backup_dir(&self) -> (r: Result<(), FileActionError>)
        ensures
            action_check(r) == backup_dir_check(self.backup_dir_view()),
    {
        validate_backup_dir(self.backup_dir.as_str())
    }

    /// What follows the snapshot: a missing target is skipped by deletes and
    /// mode changes; a hard-linked file is refused; otherwise the action goes on.
    pub fn start(&self, plan: &FileActionPlan, snapshot: &TargetSnapshot) -> (r: Result<
        Option<FileActionOutcome>,
        FileActionError,
    >)
        ensures
            start_view(r) == start_spec(*plan, snapshot@),
    {
        if should_skip_missing(plan.action(), snapshot.original_type) {
            return Ok(Some(FileActionOutcome::skipped()));
        }
        reject_hardlinked_regular_file(plan, snapshot)?;
        Ok(None)
    }
}

} // verus!
