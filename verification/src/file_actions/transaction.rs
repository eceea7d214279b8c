//! The step order of one execution, once the target was observed and the
//! action goes on: look the target up in the restore ledger; reuse a record
//! that is there (after checking its backup) or back the original up and
//! append a new record; only then make the change; withdraw a pending
//! record after a failed change; apply the metadata last. The caller does
//! each step on the file system or the ledger and hands back what came of
//! it.
use vstd::prelude::*;

use crate::file_actions::error::{action_check, FileActionError, FileActionErrorView};
use crate::file_actions::executor::{
    content_path_spec, existing_backup_spec, removes_pending_record, restore_content_path,
    validate_existing_backup, withdraws_record, FileActionExecutor,
};
use crate::file_actions::ledger::{record_for, record_spec};
use crate::file_actions::metadata::{MetadataOperation, MetadataOperationView};
use crate::file_actions::outcome::{applied_view, operations_view, FileActionOutcome, OutcomeView};
use crate::file_actions::plan::FileActionPlan;
use crate::file_actions::request::kind_ledger_action;
use crate::file_actions::snapshot::{PathObservation, PathObservationView, SnapshotView, TargetSnapshot};
use crate::restore_ledger::{AppendOutcome, LedgerAction, LedgerKey, LedgerRecord, LedgerRecordView};

verus! {

/// Where an execution stands.
#[derive(Debug)]
pub enum ExecState {
    /// The ledger is searched for a record of the target.
    Lookup,
    /// There is none: the original is being backed up.
    BackingUp,
    /// The new record is being appended.
    Recording { key: LedgerKey, backup_path: Option<String> },
    /// A record was there: its stored backup is being checked.
    CheckingBackup { key: LedgerKey, backup_path: Option<String> },
    /// The record stands: the change is being made.
    Changing { key: LedgerKey, append: AppendOutcome, backup_path: Option<String>, reused: bool },
    /// The change failed: the pending record is being withdrawn.
    Withdrawing { error: FileActionError },
    /// The change was made: the metadata is being applied.
    Finishing,
    /// Nothing more to do.
    Finished,
}

/// What came of the step the caller made.
#[derive(Debug)]
pub enum ExecEvent {
    /// The ledger's record of the target, if any.
    Found(Result<Option<LedgerRecord>, FileActionError>),
    /// The backup of the original, where one was made.
    BackedUp(Result<Option<String>, FileActionError>),
    /// The ledger's answer to the append.
    Appended(Result<AppendOutcome, FileActionError>),
    /// What is at the stored backup path.
    BackupSeen(PathObservation),
    /// The change.
    Changed(Result<(), FileActionError>),
    /// The withdrawal of the pending record.
    Withdrawn(Result<(), FileActionError>),
    /// The metadata changes.
    MetadataApplied(Result<Vec<MetadataOperation>, FileActionError>),
}

/// The next step for the caller.
#[derive(Debug)]
pub enum ExecAction {
    /// Read the ledger's record under this key.
    ReadLedger(LedgerKey),
    /// Back the original up.
    BackUp,
    /// Append this record to the ledger.
    Append(LedgerRecord),
    /// Observe the stored backup path (nothing is there to see when `None`).
    ObserveBackup(Option<String>),
    /// Make the change, with this backup path; `reused` on a repeated run.
    Change { backup_path: Option<String>, reused: bool },
    /// Remove the ledger record under this key.
    Withdraw(LedgerKey),
    /// Apply the metadata changes.
    ApplyMetadata,
    /// The execution is over with this result.
    Done(Result<FileActionOutcome, FileActionError>),
}

pub type KeyView = (Seq<char>, LedgerAction);

pub enum ExecStateView {
    Lookup,
    BackingUp,
    Recording { key: KeyView, backup_path: Option<Seq<char>> },
    CheckingBackup { key: KeyView, backup_path: Option<Seq<char>> },
    Changing { key: KeyView, append: AppendOutcome, backup_path: Option<Seq<char>>, reused: bool },
    Withdrawing { error: FileActionErrorView },
    Finishing,
    Finished,
}

pub enum ExecEventView {
    Found(Result<Option<LedgerRecordView>, FileActionErrorView>),
    BackedUp(Result<Option<Seq<char>>, FileActionErrorView>),
    Appended(Result<AppendOutcome, FileActionErrorView>),
    BackupSeen(PathObservationView),
    Changed(Result<(), FileActionErrorView>),
    Withdrawn(Result<(), FileActionErrorView>),
    MetadataApplied(Result<Seq<MetadataOperationView>, FileActionErrorView>),
}

pub enum ExecActionView {
    ReadLedger(KeyView),
    BackUp,
    Append(LedgerRecordView),
    ObserveBackup(Option<Seq<char>>),
    Change { backup_path: Option<Seq<char>>, reused: bool },
    Withdraw(KeyView),
    ApplyMetadata,
    Done(Result<OutcomeView, FileActionErrorView>),
}

pub open spec fn key_view(k: LedgerKey) -> KeyView {
    (k.original_path@, k.action)
}

pub open spec fn record_key(r: LedgerRecordView) -> KeyView {
    (r.original_path, r.action)
}

pub open spec fn opt_view(o: Option<String>) -> Option<Seq<char>> {
    match o {
        Some(s) => Some(s@),
        None => None,
    }
}

impl View for ExecState {
    type V = ExecStateView;

    open spec fn view(&self) -> ExecStateView {
        match self {
            ExecState::Lookup => ExecStateView::Lookup,
            ExecState::BackingUp => ExecStateView::BackingUp,
            ExecState::Recording { key, backup_path } => ExecStateView::Recording {
                key: key_view(*key),
                backup_path: opt_view(*backup_path),
            },
            ExecState::CheckingBackup { key, backup_path } => ExecStateView::CheckingBackup {
                key: key_view(*key),
                backup_path: opt_view(*backup_path),
            },
            ExecState::Changing { key, append, backup_path, reused } => ExecStateView::Changing {
                key: key_view(*key),
                append: *append,
                backup_path: opt_view(*backup_path),
                reused: *reused,
            },
            ExecState::Withdrawing { error } => ExecStateView::Withdrawing { error: error@ },
            ExecState::Finishing => ExecStateView::Finishing,
            ExecState::Finished => ExecStateView::Finished,
        }
    }
}

impl View for ExecEvent {
    type V = ExecEventView;

    open spec fn view(&self) -> ExecEventView {
        match self {
            ExecEvent::Found(r) => ExecEventView::Found(
                match r {
                    Ok(Some(rec)) => Ok(Some(rec@)),
                    Ok(None) => Ok(None),
                    Err(e) => Err(e@),
                },
            ),
            ExecEvent::BackedUp(r) => ExecEventView::BackedUp(
                match r {
                    Ok(p) => Ok(opt_view(*p)),
                    Err(e) => Err(e@),
                },
            ),
            ExecEvent::Appended(r) => ExecEventView::Appended(
                match r {
                    Ok(a) => Ok(*a),
                    Err(e) => Err(e@),
                },
            ),
            ExecEvent::BackupSeen(o) => ExecEventView::BackupSeen(o@),
            ExecEvent::Changed(r) => ExecEventView::Changed(action_check(*r)),
            ExecEvent::Withdrawn(r) => ExecEventView::Withdrawn(action_check(*r)),
            ExecEvent::MetadataApplied(r) => ExecEventView::MetadataApplied(
                match r {
                    Ok(ops) => Ok(operations_view(ops@)),
                    Err(e) => Err(e@),
                },
            ),
        }
    }
}

impl View for ExecAction {
    type V = ExecActionView;

    open spec fn view(&self) -> ExecActionView {
        match self {
            ExecAction::ReadLedger(k) => ExecActionView::ReadLedger(key_view(*k)),
            ExecAction::BackUp => ExecActionView::BackUp,
            ExecAction::Append(r) => ExecActionView::Append(r@),
            ExecAction::ObserveBackup(p) => ExecActionView::ObserveBackup(opt_view(*p)),
            ExecAction::Change { backup_path, reused } => ExecActionView::Change {
                backup_path: opt_view(*backup_path),
                reused: *reused,
            },
            ExecAction::Withdraw(k) => ExecActionView::Withdraw(key_view(*k)),
            ExecAction::ApplyMetadata => ExecActionView::ApplyMetadata,
            ExecAction::Done(r) => ExecActionView::Done(
                match r {
                    Ok(o) => Ok(o@),
                    Err(e) => Err(e@),
                },
            ),
        }
    }
}

/// Whether `event` answers the step that `state` waits for.
pub open spec fn fits(state: ExecStateView, event: ExecEventView) -> bool {
    match (state, event) {
        (ExecStateView::Lookup, ExecEventView::Found(_)) => true,
        (ExecStateView::BackingUp, ExecEventView::BackedUp(_)) => true,
        (ExecStateView::Recording { .. }, ExecEventView::Appended(_)) => true,
        (ExecStateView::CheckingBackup { .. }, ExecEventView::BackupSeen(_)) => true,
        (ExecStateView::Changing { .. }, ExecEventView::Changed(_)) => true,
        (ExecStateView::Withdrawing { .. }, ExecEventView::Withdrawn(_)) => true,
        (ExecStateView::Finishing, ExecEventView::MetadataApplied(_)) => true,
        _ => false,
    }
}

pub open spec fn finished_with(
    next: ExecStateView,
    action: ExecActionView,
    result: Result<OutcomeView, FileActionErrorView>,
) -> bool {
    next == ExecStateView::Finished && action == ExecActionView::Done(result)
}

/// One step of an execution of `plan` on the target observed as `snapshot`.
pub open spec fn step_spec(
    plan: FileActionPlan,
    snapshot: SnapshotView,
    state: ExecStateView,
    event: ExecEventView,
    next: ExecStateView,
    action: ExecActionView,
) -> bool {
    match (state, event) {
        (ExecStateView::Lookup, ExecEventView::Found(found)) => match found {
            Err(e) => finished_with(next, action, Err(e)),
            Ok(None) => next == ExecStateView::BackingUp && action == ExecActionView::BackUp,
            Ok(Some(record)) => match content_path_spec(record.restore_steps) {
                Err(e) => finished_with(next, action, Err(e)),
                Ok(backup_path) => next == (ExecStateView::CheckingBackup {
                    key: record_key(record),
                    backup_path,
                }) && action == ExecActionView::ObserveBackup(backup_path),
            },
        },
        (ExecStateView::BackingUp, ExecEventView::BackedUp(backed)) => match backed {
            Err(e) => finished_with(next, action, Err(e)),
            Ok(backup_path) => match action {
                ExecActionView::Append(record) => record == record_spec(
                    plan,
                    snapshot,
                    backup_path,
                    record.timestamp,
                ) && next == (ExecStateView::Recording { key: record_key(record), backup_path }),
                _ => false,
            },
        },
        (ExecStateView::Recording { key, backup_path }, ExecEventView::Appended(appended)) => match appended {
            Err(e) => finished_with(next, action, Err(e)),
            Ok(append) => next == (ExecStateView::Changing { key, append, backup_path, reused: false })
                && action == (ExecActionView::Change { backup_path, reused: false }),
        },
        (ExecStateView::CheckingBackup { key, backup_path }, ExecEventView::BackupSeen(seen)) => match existing_backup_spec(
            backup_path,
            seen,
        ) {
            Err(e) => finished_with(next, action, Err(e)),
            Ok(()) => next == (ExecStateView::Changing {
                key,
                append: AppendOutcome::AlreadyPresent,
                backup_path,
                reused: true,
            }) && action == (ExecActionView::Change { backup_path, reused: true }),
        },
        (ExecStateView::Changing { key, append, .. }, ExecEventView::Changed(changed)) => match changed {
            Ok(()) => next == ExecStateView::Finishing && action == ExecActionView::ApplyMetadata,
            Err(e) => if withdraws_record(append, e) {
                next == (ExecStateView::Withdrawing { error: e }) && action == ExecActionView::Withdraw(key)
            } else {
                finished_with(next, action, Err(e))
            },
        },
        (ExecStateView::Withdrawing { error }, ExecEventView::Withdrawn(withdrawn)) => match withdrawn {
            Err(e) => finished_with(next, action, Err(e)),
            Ok(()) => finished_with(next, action, Err(error)),
        },
        (ExecStateView::Finishing, ExecEventView::MetadataApplied(applied)) => match applied {
            Err(e) => finished_with(next, action, Err(e)),
            Ok(ops) => finished_with(next, action, Ok(applied_view(ops))),
        },
        _ => false,
    }
}

fn copy_opt(o: &Option<String>) -> (r: Option<String>)
    ensures
        opt_view(r) == opt_view(*o),
{
    match o {
        Some(s) => Some(s.clone()),
        None => None,
    }
}

fn done(r: Result<FileActionOutcome, FileActionError>) -> (out: (ExecState, ExecAction))
    ensures
        out.0@ == ExecStateView::Finished,
        out.1@ == ExecActionView::Done(
            match r {
                Ok(o) => Ok(o@),
                Err(e) => Err(e@),
            },
        ),
{
    (ExecState::Finished, ExecAction::Done(r))
}

impl FileActionExecutor {
    /// The first step of an execution that goes on after `start`: look the
    /// target's record up in the ledger.
    pub fn begin(&self, plan: &FileActionPlan, snapshot: &TargetSnapshot) -> (r: (ExecState, ExecAction))
        ensures
            r.0@ == ExecStateView::Lookup,
            r.1@ == ExecActionView::ReadLedger(
                (plan.target_view().android_view(), kind_ledger_action(plan.action_view())),
            ),
    {
        let probe = record_for(plan, snapshot, None);
        (ExecState::Lookup, ExecAction::ReadLedger(probe.key()))
    }

    /// The next step of an execution, given what came of the last one.
    pub fn execute_step(
        &self,
        plan: &FileActionPlan,
        snapshot: &TargetSnapshot,
        state: ExecState,
        event: ExecEvent,
    ) -> (r: (ExecState, ExecAction))
        requires
            fits(state@, event@),
        ensures
            step_spec(*plan, snapshot@, state@, event@, r.0@, r.1@),
    {
        match (state, event) {
            (ExecState::Lookup, ExecEvent::Found(found)) => match found {
                Err(e) => done(Err(e)),
                Ok(None) => (ExecState::BackingUp, ExecAction::BackUp),
                Ok(Some(record)) => match restore_content_path(&record) {
                    Err(e) => done(Err(e)),
                    Ok(backup_path) => {
                        let shown = copy_opt(&backup_path);
                        (
                            ExecState::CheckingBackup { key: record.key(), backup_path },
                            ExecAction::ObserveBackup(shown),
                        )
                    },
                },
            },
            (ExecState::BackingUp, ExecEvent::BackedUp(backed)) => match backed {
                Err(e) => done(Err(e)),
                Ok(backup_path) => {
                    let record = match &backup_path {
                        Some(p) => record_for(plan, snapshot, Some(p.as_str())),
                        None => record_for(plan, snapshot, None),
                    };
                    let key = record.key();
                    (ExecState::Recording { key, backup_path }, ExecAction::Append(record))
                },
            },
            (ExecState::Recording { key, backup_path }, ExecEvent::Appended(appended)) => match appended {
                Err(e) => done(Err(e)),
                Ok(append) => {
                    let shown = copy_opt(&backup_path);
                    (
                        ExecState::Changing { key, append, backup_path, reused: false },
                        ExecAction::Change { backup_path: shown, reused: false },
                    )
                },
            },
            (ExecState::CheckingBackup { key, backup_path }, ExecEvent::BackupSeen(seen)) => {
                let checked = match &backup_path {
                    Some(p) => validate_existing_backup(Some(p.as_str()), &seen),
                    None => validate_existing_backup(None, &seen),
                };
                match checked {
                    Err(e) => done(Err(e)),
                    Ok(()) => {
                        let shown = copy_opt(&backup_path);
                        (
                            ExecState::Changing {
                                key,
                                append: AppendOutcome::AlreadyPresent,
                                backup_path,
                                reused: true,
                            },
                            ExecAction::Change { backup_path: shown, reused: true },
                        )
                    },
                }
            },
            (ExecState::Changing { key, append, .. }, ExecEvent::Changed(changed)) => match changed {
                Ok(()) => (ExecState::Finishing, ExecAction::ApplyMetadata),
                Err(e) => {
                    if removes_pending_record(append, &e) {
                        (ExecState::Withdrawing { error: e }, ExecAction::Withdraw(key))
                    } else {
                        done(Err(e))
                    }
                },
            },
            (ExecState::Withdrawing { error }, ExecEvent::Withdrawn(withdrawn)) => match withdrawn {
                Err(e) => done(Err(e)),
                Ok(()) => done(Err(error)),
            },
            (ExecState::Finishing, ExecEvent::MetadataApplied(applied)) => match applied {
                Err(e) => done(Err(e)),
                Ok(ops) => done(Ok(FileActionOutcome::applied(ops))),
            },
            (state, _) => {
                proof {
                    assert(false);
                }
                (state, ExecAction::BackUp)
            },
        }
    }
}

} // verus!
