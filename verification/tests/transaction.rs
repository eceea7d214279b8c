use puread_android::file_actions::error::FileActionError;
use puread_android::file_actions::executor::FileActionExecutor;
use puread_android::file_actions::metadata::MetadataOperation;
use puread_android::file_actions::outcome::FileActionStatus;
use puread_android::file_actions::plan::{FileActionPlan, FileActionPlanner};
use puread_android::file_actions::primary::{move_step, MoveStep};
use puread_android::file_actions::request::{FileActionKind, FileActionRequest};
use puread_android::file_actions::snapshot::{FileFacts, FileIdentity, ObservedType, PathObservation, TargetSnapshot};
use puread_android::file_actions::target::{FileActionTarget, HostFacts};
use puread_android::file_actions::transaction::{ExecAction, ExecEvent, ExecState};
use puread_android::model::{ProfileKind, RiskLevel, RuleId};
use puread_android::restore_ledger::{AppendOutcome, LedgerAction, RestoreStep};

fn delete_plan() -> FileActionPlan {
    let android = "/data/data/com.x/cache/ad.bin";
    let host = format!("/tmp/root{android}");
    let facts = HostFacts { host_is_symlink: false, canonical_root: Ok("/tmp/root".to_owned()), canonical_existing: Ok(host.clone()) };
    let target = FileActionTarget::new(android, &host, "/tmp/root", facts).unwrap();
    let request = FileActionRequest::new(RuleId::parse("sdk-cache-1").unwrap(), FileActionKind::Delete, target, ProfileKind::SdkCache, RiskLevel::Low);
    FileActionPlanner::new().plan(&request).unwrap()
}

fn snapshot() -> TargetSnapshot {
    TargetSnapshot::from_facts(&FileFacts {
        file_type: ObservedType::File,
        mode: 0o100644,
        uid: 10100,
        gid: 10100,
        nlink: 1,
        identity: FileIdentity { device: 7, inode: 42 },
    })
}

fn ledger_error() -> FileActionError {
    FileActionError::Ledger { detail: "ledger down".to_owned() }
}

#[test]
fn a_first_run_backs_up_records_then_changes() {
    let executor = FileActionExecutor::new("/tmp/backups");
    let plan = delete_plan();
    let snap = snapshot();
    let (state, action) = executor.begin(&plan, &snap);
    let key = match action {
        ExecAction::ReadLedger(key) => key,
        other => panic!("unexpected {other:?}"),
    };
    assert_eq!(key.original_path, "/data/data/com.x/cache/ad.bin");
    assert_eq!(key.action, LedgerAction::Delete);
    let (state, action) = executor.execute_step(&plan, &snap, state, ExecEvent::Found(Ok(None)));
    assert!(matches!(action, ExecAction::BackUp));
    let (state, action) = executor.execute_step(&plan, &snap, state, ExecEvent::BackedUp(Ok(Some("/tmp/backups/x.bak".to_owned()))));
    let record = match action {
        ExecAction::Append(record) => record,
        other => panic!("unexpected {other:?}"),
    };
    assert_eq!(record.restore_steps[0], RestoreStep::RestoreContent { backup_path: "/tmp/backups/x.bak".to_owned() });
    let (state, action) = executor.execute_step(&plan, &snap, state, ExecEvent::Appended(Ok(AppendOutcome::Appended)));
    match action {
        ExecAction::Change { backup_path, reused } => {
            assert_eq!(backup_path.as_deref(), Some("/tmp/backups/x.bak"));
            assert!(!reused);
        },
        other => panic!("unexpected {other:?}"),
    }
    let (state, action) = executor.execute_step(&plan, &snap, state, ExecEvent::Changed(Ok(())));
    assert!(matches!(action, ExecAction::ApplyMetadata));
    let ops = vec![MetadataOperation::SetOwner { uid: 1, gid: 2 }];
    let (state, action) = executor.execute_step(&plan, &snap, state, ExecEvent::MetadataApplied(Ok(ops)));
    assert!(matches!(state, ExecState::Finished));
    match action {
        ExecAction::Done(Ok(outcome)) => assert_eq!(outcome.status(), FileActionStatus::Applied),
        other => panic!("unexpected {other:?}"),
    }
}

#[test]
fn a_failed_append_changes_nothing() {
    let executor = FileActionExecutor::new("/tmp/backups");
    let plan = delete_plan();
    let snap = snapshot();
    let (state, _) = executor.begin(&plan, &snap);
    let (state, _) = executor.execute_step(&plan, &snap, state, ExecEvent::Found(Ok(None)));
    let (state, _) = executor.execute_step(&plan, &snap, state, ExecEvent::BackedUp(Ok(None)));
    let (_, action) = executor.execute_step(&plan, &snap, state, ExecEvent::Appended(Err(ledger_error())));
    assert!(matches!(action, ExecAction::Done(Err(FileActionError::Ledger { .. }))));
}

#[test]
fn a_failed_change_withdraws_the_record_it_appended() {
    let executor = FileActionExecutor::new("/tmp/backups");
    let plan = delete_plan();
    let snap = snapshot();
    let (state, _) = executor.begin(&plan, &snap);
    let (state, _) = executor.execute_step(&plan, &snap, state, ExecEvent::Found(Ok(None)));
    let (state, _) = executor.execute_step(&plan, &snap, state, ExecEvent::BackedUp(Ok(None)));
    let (state, _) = executor.execute_step(&plan, &snap, state, ExecEvent::Appended(Ok(AppendOutcome::Appended)));
    let failure = FileActionError::RejectedTarget { path: "/x".to_owned(), reason: "target changed before mutation" };
    let (state, action) = executor.execute_step(&plan, &snap, state, ExecEvent::Changed(Err(failure)));
    match action {
        ExecAction::Withdraw(key) => assert_eq!(key.original_path, "/data/data/com.x/cache/ad.bin"),
        other => panic!("unexpected {other:?}"),
    }
    let (_, action) = executor.execute_step(&plan, &snap, state, ExecEvent::Withdrawn(Ok(())));
    assert!(matches!(action, ExecAction::Done(Err(FileActionError::RejectedTarget { reason: "target changed before mutation", .. }))));
}

#[test]
fn a_failed_rollback_keeps_the_record() {
    let executor = FileActionExecutor::new("/tmp/backups");
    let plan = delete_plan();
    let snap = snapshot();
    let (state, _) = executor.begin(&plan, &snap);
    let (state, _) = executor.execute_step(&plan, &snap, state, ExecEvent::Found(Ok(None)));
    let (state, _) = executor.execute_step(&plan, &snap, state, ExecEvent::BackedUp(Ok(None)));
    let (state, _) = executor.execute_step(&plan, &snap, state, ExecEvent::Appended(Ok(AppendOutcome::Appended)));
    let failure = FileActionError::RollbackFailed { path: "/x".to_owned(), detail: "stuck".to_owned() };
    let (_, action) = executor.execute_step(&plan, &snap, state, ExecEvent::Changed(Err(failure)));
    assert!(matches!(action, ExecAction::Done(Err(FileActionError::RollbackFailed { .. }))));
}

#[test]
fn a_repeated_run_reuses_the_record_and_checks_its_backup() {
    let executor = FileActionExecutor::new("/tmp/backups");
    let plan = delete_plan();
    let snap = snapshot();
    let (state, _) = executor.begin(&plan, &snap);
    let stored = puread_android::file_actions::ledger::record_at(&plan, &snap, Some("/tmp/backups/first.bak"), time::OffsetDateTime::UNIX_EPOCH);
    let (state, action) = executor.execute_step(&plan, &snap, state, ExecEvent::Found(Ok(Some(stored))));
    match &action {
        ExecAction::ObserveBackup(path) => assert_eq!(path.as_deref(), Some("/tmp/backups/first.bak")),
        other => panic!("unexpected {other:?}"),
    }
    let seen = PathObservation::Found(FileFacts {
        file_type: ObservedType::File,
        mode: 0o100644,
        uid: 0,
        gid: 0,
        nlink: 1,
        identity: FileIdentity { device: 1, inode: 2 },
    });
    let (_, action) = executor.execute_step(&plan, &snap, state, ExecEvent::BackupSeen(seen));
    match action {
        ExecAction::Change { backup_path, reused } => {
            assert_eq!(backup_path.as_deref(), Some("/tmp/backups/first.bak"));
            assert!(reused);
        },
        other => panic!("unexpected {other:?}"),
    }
}

#[test]
fn a_repeated_run_without_its_backup_is_refused() {
    let executor = FileActionExecutor::new("/tmp/backups");
    let plan = delete_plan();
    let snap = snapshot();
    let (state, _) = executor.begin(&plan, &snap);
    let stored = puread_android::file_actions::ledger::record_at(&plan, &snap, Some("/tmp/backups/first.bak"), time::OffsetDateTime::UNIX_EPOCH);
    let (state, _) = executor.execute_step(&plan, &snap, state, ExecEvent::Found(Ok(Some(stored))));
    let (_, action) = executor.execute_step(&plan, &snap, state, ExecEvent::BackupSeen(PathObservation::Missing("gone".to_owned())));
    assert!(matches!(
        action,
        ExecAction::Done(Err(FileActionError::RejectedTarget { reason: "stored backup missing before repeated mutation", .. }))
    ));
}

#[test]
fn a_repeated_emptying_of_an_empty_directory_is_left_alone() {
    assert_eq!(move_step(true, true, true, true), MoveStep::KeepEmptyDir);
    assert_eq!(move_step(true, true, true, false), MoveStep::Discard);
    assert_eq!(move_step(true, false, true, true), MoveStep::Discard);
    assert_eq!(move_step(true, true, false, true), MoveStep::Move);
    assert_eq!(move_step(false, true, true, true), MoveStep::Move);
}
