use std::cell::RefCell;

use puread_android::command_runner::invocation::CommandInvocation;
use puread_android::command_runner::output::CommandOutput;
use puread_android::command_runner::runner::{AndroidCommandRunner, CommandRunnerError, Runs};
use puread_android::file_actions::backup::{backup_copy, backup_name, backup_target, sanitize_path, BackupCopy};
use puread_android::file_actions::error::FileActionError;
use puread_android::file_actions::executor::{removes_pending_record, restore_content_path, validate_existing_backup, FileActionExecutor};
use puread_android::file_actions::guards::{allowed_after_missing, guard_open_file, guard_path, rollback_error};
use puread_android::file_actions::ledger::{record_at, restore_steps};
use puread_android::file_actions::metadata::{MetadataChange, MetadataOperation};
use puread_android::file_actions::metadata_ops::{
    chcon_step, command_failure_detail, metadata_step, operation_for, run_trusted_chcon_with, MetadataStep,
};
use puread_android::file_actions::outcome::{ExecutionMode, FileActionOutcome, FileActionStatus};
use puread_android::file_actions::plan::{FileActionPlan, FileActionPlanner};
use puread_android::file_actions::primary::{precheck, primary_route, PrimaryRoute};
use puread_android::file_actions::request::{FileActionKind, FileActionRequest};
use puread_android::file_actions::snapshot::{FileFacts, FileIdentity, ObservedType, PathObservation, TargetSnapshot};
use puread_android::file_actions::target::{FileActionTarget, HostFacts};
use puread_android::model::{ProfileKind, RiskLevel, RuleId};
use puread_android::restore_ledger::{AppendOutcome, LedgerAction, OriginalFileType, RestoreStep};
use puread_android::secure_path::{beneath_root_components, check_child, split_final, walk_components, ChildKind};

fn clean_facts(root: &str, host: &str) -> HostFacts {
    HostFacts { host_is_symlink: false, canonical_root: Ok(root.to_owned()), canonical_existing: Ok(host.to_owned()) }
}

fn target(android: &str) -> FileActionTarget {
    let host = format!("/tmp/root{android}");
    FileActionTarget::new(android, &host, "/tmp/root", clean_facts("/tmp/root", &host)).unwrap()
}

fn reason(error: FileActionError) -> &'static str {
    match error {
        FileActionError::RejectedTarget { reason, .. } => reason,
        other => panic!("unexpected error {other:?}"),
    }
}

fn plan(action: FileActionKind, risk: RiskLevel) -> FileActionPlan {
    let request = FileActionRequest::new(
        RuleId::parse("sdk-cache-1").unwrap(),
        action,
        target("/data/data/com.x/cache/ad.bin"),
        ProfileKind::SdkCache,
        risk,
    );
    FileActionPlanner::new().plan(&request).unwrap()
}

fn file_facts(device: u64, inode: u64) -> FileFacts {
    FileFacts { file_type: ObservedType::File, mode: 0o100644, uid: 10100, gid: 10100, nlink: 1, identity: FileIdentity { device, inode } }
}

fn file_snapshot() -> TargetSnapshot {
    TargetSnapshot::from_facts(&file_facts(7, 42))
}

#[test]
fn target_keeps_the_three_paths() {
    let t = target("/data/data/com.x/cache/ad.bin");
    assert_eq!(t.android_path(), "/data/data/com.x/cache/ad.bin");
    assert_eq!(t.host_path(), "/tmp/root/data/data/com.x/cache/ad.bin");
    assert_eq!(t.filesystem_root(), "/tmp/root");
}

#[test]
fn protected_roots_relative_and_traversing_paths_are_rejected() {
    let check = |android: &str| {
        reason(FileActionTarget::new(android, "/tmp/root/x", "/tmp/root", clean_facts("/tmp/root", "/tmp/root/x")).unwrap_err())
    };
    for root in ["/", "/data", "/data/", "/sdcard", "/storage", "/system", "/vendor", "/data/adb", "/data/adb/modules", "/data/local/tmp/x"] {
        assert_eq!(check(root), "protected root rejected", "{root}");
    }
    assert_eq!(check("data/x"), "android path must be absolute");
    assert_eq!(check("/data/x/../adb"), "android path must not traverse");
}

#[test]
fn host_path_must_stay_inside_the_root() {
    let android = "/data/data/com.x/cache";
    let new = |host: &str, root: &str, facts: HostFacts| FileActionTarget::new(android, host, root, facts);
    assert_eq!(reason(new("rel", "/tmp/root", clean_facts("/tmp/root", "/x")).unwrap_err()), "host paths must be absolute");
    assert_eq!(reason(new("/tmp/root/../x", "/tmp/root", clean_facts("/tmp/root", "/x")).unwrap_err()), "host path must not traverse");
    assert_eq!(reason(new("/tmp/rootx/a", "/tmp/root", clean_facts("/tmp/root", "/x")).unwrap_err()), "host path escapes filesystem root");
    let symlink = HostFacts { host_is_symlink: true, ..clean_facts("/tmp/root", "/tmp/root/a") };
    assert_eq!(reason(new("/tmp/root/a", "/tmp/root", symlink).unwrap_err()), "symlink targets are rejected");
    assert_eq!(
        reason(new("/tmp/root/a", "/tmp/root", clean_facts("/tmp/root", "/etc")).unwrap_err()),
        "canonical host path escapes filesystem root"
    );
    let io = HostFacts {
        host_is_symlink: false,
        canonical_root: Err(FileActionError::Io { path: "/tmp/root".to_owned(), detail: "gone".to_owned() }),
        canonical_existing: Ok("/tmp/root/a".to_owned()),
    };
    assert!(matches!(new("/tmp/root/a", "/tmp/root", io).unwrap_err(), FileActionError::Io { .. }));
}

#[test]
fn plan_and_request_keep_metadata_changes_in_order() {
    let mut request = FileActionRequest::new(
        RuleId::parse("r").unwrap(),
        FileActionKind::EmptyFile,
        target("/data/data/com.x/f"),
        ProfileKind::Conservative,
        RiskLevel::High,
    );
    request.push_metadata_change(MetadataChange::set_owner(1000, 1000));
    request.push_metadata_change(MetadataChange::restore_selinux_context());
    let plan = FileActionPlanner::new().plan(&request).unwrap();
    assert_eq!(plan.metadata_changes(), [MetadataChange::set_owner(1000, 1000), MetadataChange::RestoreSelinuxContext].as_slice());
    assert_eq!(plan.risk_level(), RiskLevel::High);
    assert_eq!(plan.action(), FileActionKind::EmptyFile);
}

#[test]
fn backup_names_are_flat_and_name_rule_action_and_path() {
    assert_eq!(sanitize_path("/data/data/com.x/cache/ad.bin"), "_data_data_com_x_cache_ad_bin");
    let p = plan(FileActionKind::Delete, RiskLevel::Low);
    assert_eq!(backup_name(&p), "sdk-cache-1-delete-_data_data_com_x_cache_ad_bin.bak");
    assert_eq!(
        backup_target("/b", &p, &file_snapshot()).as_deref(),
        Some("/b/sdk-cache-1-delete-_data_data_com_x_cache_ad_bin.bak")
    );
    assert_eq!(backup_target("/b", &p, &TargetSnapshot::missing()), None);
    assert_eq!(FileActionKind::Chmod000.as_str(), "chmod_000");
    assert_eq!(FileActionKind::EmptyDir.ledger_action(), LedgerAction::EmptyDir);
}

#[test]
fn backups_move_or_copy_by_action_and_type() {
    assert_eq!(backup_copy(OriginalFileType::File, FileActionKind::Delete, "/a").unwrap(), BackupCopy::Moved);
    assert_eq!(backup_copy(OriginalFileType::File, FileActionKind::EmptyFile, "/a").unwrap(), BackupCopy::CopyFile);
    assert_eq!(backup_copy(OriginalFileType::Directory, FileActionKind::EmptyDir, "/a").unwrap(), BackupCopy::Moved);
    assert_eq!(
        reason(backup_copy(OriginalFileType::Directory, FileActionKind::Chmod000, "/a").unwrap_err()),
        "directory backup requires move-based mutation"
    );
    assert_eq!(reason(backup_copy(OriginalFileType::Other, FileActionKind::Delete, "/a").unwrap_err()), "unsupported file type");
}

#[test]
fn restore_steps_put_back_content_then_attributes_then_context() {
    let mut snapshot = file_snapshot();
    snapshot.selinux_context = Some("u:object_r:app_data_file:s0".to_owned());
    let steps = restore_steps(FileActionKind::Delete, &snapshot, Some("/b/x.bak"));
    assert_eq!(
        steps,
        vec![
            RestoreStep::RestoreContent { backup_path: "/b/x.bak".to_owned() },
            RestoreStep::SetMode { mode: 0o100644 },
            RestoreStep::SetOwner { uid: 10100, gid: 10100 },
            RestoreStep::SetSelinuxContext { context: "u:object_r:app_data_file:s0".to_owned() },
        ]
    );
    let placeholder = restore_steps(FileActionKind::EmptyFile, &TargetSnapshot::missing(), None);
    assert_eq!(placeholder, vec![RestoreStep::RemovePlaceholder]);
    assert!(restore_steps(FileActionKind::Chmod000, &TargetSnapshot::missing(), None).is_empty());
}

#[test]
fn records_name_the_android_path_and_profile() {
    let p = plan(FileActionKind::EmptyFile, RiskLevel::Low);
    let record = record_at(&p, &file_snapshot(), Some("/b/x.bak"), time::OffsetDateTime::UNIX_EPOCH);
    assert_eq!(record.original_path, "/data/data/com.x/cache/ad.bin");
    assert_eq!(record.action, LedgerAction::EmptyFile);
    assert_eq!(record.profile, "sdk_cache");
    assert!(!record.immutable);
    assert_eq!(record.timestamp, time::OffsetDateTime::UNIX_EPOCH);
    assert_eq!(restore_content_path(&record).unwrap().as_deref(), Some("/b/x.bak"));
    let key = record.key();
    assert_eq!(key.original_path, "/data/data/com.x/cache/ad.bin");
}

#[test]
fn an_empty_stored_backup_path_is_refused() {
    let p = plan(FileActionKind::EmptyFile, RiskLevel::Low);
    let record = record_at(&p, &file_snapshot(), Some(""), time::OffsetDateTime::UNIX_EPOCH);
    assert_eq!(reason(restore_content_path(&record).unwrap_err()), "stored backup path is empty");
}

#[test]
fn executor_dry_run_touches_nothing_and_needs_a_backup_dir() {
    let p = plan(FileActionKind::Delete, RiskLevel::Low);
    let outcome = FileActionExecutor::new("/b").dry_run(&p).unwrap();
    assert_eq!(outcome.mode(), ExecutionMode::DryRun);
    assert_eq!(outcome.status(), FileActionStatus::Planned);
    assert!(!outcome.will_mutate());
    assert!(outcome.metadata_operations().is_empty());
    assert_eq!(reason(FileActionExecutor::new("").dry_run(&p).unwrap_err()), "backup dir must not be empty");
}

#[test]
fn missing_targets_are_skipped_by_delete_and_chmod_only() {
    let executor = FileActionExecutor::new("/b");
    let skipped = executor.start(&plan(FileActionKind::Delete, RiskLevel::Low), &TargetSnapshot::missing()).unwrap().unwrap();
    assert_eq!(skipped, FileActionOutcome::skipped());
    assert!(!skipped.will_mutate());
    assert!(executor.start(&plan(FileActionKind::Chmod000, RiskLevel::Low), &TargetSnapshot::missing()).unwrap().is_some());
    assert!(executor.start(&plan(FileActionKind::EmptyFile, RiskLevel::Low), &TargetSnapshot::missing()).unwrap().is_none());
}

#[test]
fn hardlinked_files_are_rejected() {
    let mut facts = file_facts(7, 42);
    facts.nlink = 2;
    let error = FileActionExecutor::new("/b").start(&plan(FileActionKind::EmptyFile, RiskLevel::Low), &TargetSnapshot::from_facts(&facts)).unwrap_err();
    assert_eq!(reason(error), "hardlinked file target rejected");
}

#[test]
fn guard_rejects_replaced_symlinked_or_retyped_targets() {
    let snapshot = file_snapshot();
    let path = "/tmp/root/a";
    assert!(guard_path(path, &snapshot, &[], &PathObservation::Found(file_facts(7, 42))).is_ok());
    assert_eq!(
        reason(guard_path(path, &snapshot, &[], &PathObservation::Found(file_facts(7, 43))).unwrap_err()),
        "target identity changed before mutation"
    );
    let mut link = file_facts(7, 42);
    link.file_type = ObservedType::Symlink;
    assert_eq!(reason(guard_path(path, &snapshot, &[], &PathObservation::Found(link)).unwrap_err()), "symlink target rejected");
    let mut dir = file_facts(7, 42);
    dir.file_type = ObservedType::Directory;
    assert_eq!(reason(guard_path(path, &snapshot, &[], &PathObservation::Found(dir)).unwrap_err()), "target type changed before mutation");
    assert!(matches!(guard_path(path, &snapshot, &[], &PathObservation::Missing("gone".to_owned())).unwrap_err(), FileActionError::Io { .. }));
}

#[test]
fn guard_lets_an_action_create_a_missing_target() {
    let missing = TargetSnapshot::missing();
    let allowed = allowed_after_missing(FileActionKind::EmptyFile);
    assert!(guard_path("/p", &missing, &allowed, &PathObservation::Missing("gone".to_owned())).is_ok());
    assert!(guard_path("/p", &missing, &allowed, &PathObservation::Found(file_facts(1, 1))).is_ok());
    assert!(guard_path("/p", &missing, &[], &PathObservation::Missing("gone".to_owned())).is_err());
    assert!(guard_open_file("/p", &missing, &Err("closed".to_owned())).is_ok());
    assert_eq!(
        reason(guard_open_file("/p", &file_snapshot(), &Ok(file_facts(8, 42))).unwrap_err()),
        "target identity changed during mutation"
    );
}

#[test]
fn primary_routes_follow_the_action_and_the_target() {
    assert_eq!(
        reason(precheck(FileActionKind::EmptyFile, "/p", OriginalFileType::Directory).unwrap_err()),
        "directory cannot be emptied as file"
    );
    assert_eq!(
        reason(precheck(FileActionKind::EmptyDir, "/p", OriginalFileType::File).unwrap_err()),
        "file cannot be emptied as directory"
    );
    assert_eq!(
        reason(primary_route(FileActionKind::Delete, "/p", OriginalFileType::File, None, false).unwrap_err()),
        "backup path is required"
    );
    assert_eq!(
        primary_route(FileActionKind::Delete, "/p", OriginalFileType::File, Some("/b/x"), true).unwrap(),
        PrimaryRoute::Move { backup_path: "/b/x".to_owned(), reused: true, recreate_dir: false }
    );
    assert_eq!(primary_route(FileActionKind::Delete, "/p", OriginalFileType::Missing, None, false).unwrap(), PrimaryRoute::Nothing);
    assert_eq!(primary_route(FileActionKind::EmptyFile, "/p", OriginalFileType::Missing, None, false).unwrap(), PrimaryRoute::Truncate { create: true });
    assert_eq!(primary_route(FileActionKind::EmptyDir, "/p", OriginalFileType::Missing, None, false).unwrap(), PrimaryRoute::CreateDir { inside_root: true });
    assert_eq!(primary_route(FileActionKind::Chmod000, "/p", OriginalFileType::File, None, false).unwrap(), PrimaryRoute::Chmod);
}

#[test]
fn failed_runs_keep_their_record_only_after_a_failed_rollback() {
    let rollback = rollback_error("/p", FileActionError::rejected_target("/b", "moved target identity does not match snapshot"), Err("busy".to_owned()));
    assert!(matches!(rollback, FileActionError::RollbackFailed { ref path, ref detail } if path == "/p" && detail == "busy"));
    assert!(!removes_pending_record(AppendOutcome::Appended, &rollback));
    let plain = FileActionError::rejected_target("/p", "target changed before mutation");
    assert!(removes_pending_record(AppendOutcome::Appended, &plain));
    assert!(!removes_pending_record(AppendOutcome::AlreadyPresent, &plain));
}

#[test]
fn a_repeated_run_needs_its_stored_backup() {
    assert!(validate_existing_backup(None, &PathObservation::Missing("gone".to_owned())).is_ok());
    assert!(validate_existing_backup(Some("/b/x"), &PathObservation::Found(file_facts(1, 1))).is_ok());
    assert_eq!(
        reason(validate_existing_backup(Some("/b/x"), &PathObservation::Missing("gone".to_owned())).unwrap_err()),
        "stored backup missing before repeated mutation"
    );
    let mut link = file_facts(1, 1);
    link.file_type = ObservedType::Symlink;
    assert_eq!(reason(validate_existing_backup(Some("/b/x"), &PathObservation::Found(link)).unwrap_err()), "stored backup path is symlink");
}

#[test]
fn metadata_steps_skip_chcon_over_an_unknown_context_for_high_risk() {
    let snapshot = file_snapshot();
    let change = MetadataChange::set_selinux_context("u:object_r:cache_file:s0");
    assert_eq!(metadata_step(&change, RiskLevel::High, &snapshot), MetadataStep::SkipChcon);
    assert_eq!(
        metadata_step(&change, RiskLevel::Low, &snapshot),
        MetadataStep::Chcon { context: "u:object_r:cache_file:s0".to_owned() }
    );
    assert_eq!(metadata_step(&MetadataChange::restore_selinux_context(), RiskLevel::Low, &snapshot), MetadataStep::SkipChcon);
    assert_eq!(operation_for(&MetadataStep::SkipChcon), MetadataOperation::SkippedChconUnknownContext);
    assert_eq!(operation_for(&MetadataStep::SetOwner { uid: 1, gid: 2 }), MetadataOperation::SetOwner { uid: 1, gid: 2 });
}

struct ChconRunner {
    answers: RefCell<Vec<Result<CommandOutput, CommandRunnerError>>>,
    calls: RefCell<Vec<Vec<String>>>,
}

impl AndroidCommandRunner for ChconRunner {
    fn run(&self, invocation: &CommandInvocation) -> Result<CommandOutput, CommandRunnerError> {
        self.calls.borrow_mut().push(invocation.argv());
        self.answers.borrow_mut().remove(0)
    }
}

fn not_found() -> Result<CommandOutput, CommandRunnerError> {
    Err(CommandRunnerError::NotFound { detail: "missing".to_owned() })
}

#[test]
fn chcon_executes_first_trusted_absolute_candidate() {
    let runner = ChconRunner {
        answers: RefCell::new(vec![not_found(), Ok(CommandOutput::success(String::new(), String::new()))]),
        calls: RefCell::new(Vec::new()),
    };
    run_trusted_chcon_with(&mut Runs::new(&runner), &["/system/bin/chcon", "/system/xbin/chcon"], "u:object_r:cache_file:s0", "/proc/self/fd/0").unwrap();
    assert_eq!(runner.calls.borrow()[1], vec!["/system/xbin/chcon", "u:object_r:cache_file:s0", "/proc/self/fd/0"]);
}

#[test]
fn chcon_reports_unavailable_after_all_trusted_candidates_are_missing() {
    let runner = ChconRunner { answers: RefCell::new(vec![not_found()]), calls: RefCell::new(Vec::new()) };
    let error = run_trusted_chcon_with(&mut Runs::new(&runner), &["/puread-test-missing/chcon"], "u:object_r:cache_file:s0", "/proc/self/fd/0")
        .expect_err("missing trusted chcon should fail");
    assert!(matches!(
        error,
        FileActionError::Metadata { operation: "chcon", detail, .. } if detail == "trusted chcon command unavailable"
    ));
}

#[test]
fn chcon_failure_reports_stderr_or_else_stdout() {
    let runner = ChconRunner {
        answers: RefCell::new(vec![Ok(CommandOutput::failure(1, "out".to_owned(), String::new()))]),
        calls: RefCell::new(Vec::new()),
    };
    let error = run_trusted_chcon_with(&mut Runs::new(&runner), &["/system/bin/chcon"], "ctx", "/proc/self/fd/3").unwrap_err();
    assert!(matches!(error, FileActionError::Metadata { ref detail, ref path, .. } if detail == "out" && path == "/proc/self/fd/3"));
    assert_eq!(command_failure_detail(&CommandOutput::failure(1, "out".to_owned(), "err".to_owned())), "err");
}

#[test]
fn secure_walks_use_normal_components_only() {
    assert_eq!(walk_components("/a/./b//c/").unwrap(), vec!["a", "b", "c"]);
    assert_eq!(walk_components("a/b").unwrap_err(), "path must be absolute");
    assert_eq!(walk_components("/a/../b").unwrap_err(), "path must not traverse");
    assert_eq!(split_final("/a/b/c").unwrap(), (vec!["a".to_owned(), "b".to_owned()], "c".to_owned()));
    assert_eq!(split_final("/").unwrap_err(), "path has no final component");
    assert_eq!(beneath_root_components("/root/x/y/file", "/root").unwrap(), vec!["x", "y"]);
    assert_eq!(beneath_root_components("/other/file", "/root").unwrap_err(), "parent directory escaped filesystem root");
    assert_eq!(check_child(ChildKind::Symlink).unwrap_err(), "parent directory contains symlink");
    assert!(check_child(ChildKind::Directory).is_ok());
}

#[test]
fn one_chcon_answer_decides_or_passes_to_the_next_candidate() {
    assert!(chcon_step("/proc/self/fd/3", Err(CommandRunnerError::NotFound { detail: "missing".to_owned() })).is_none());
    assert!(matches!(chcon_step("/proc/self/fd/3", Ok(CommandOutput::success(String::new(), String::new()))), Some(Ok(()))));
    match chcon_step("/proc/self/fd/3", Ok(CommandOutput::failure(1, "out".to_owned(), "err".to_owned()))) {
        Some(Err(FileActionError::Metadata { detail, .. })) => assert_eq!(detail, "err"),
        other => panic!("unexpected {other:?}"),
    }
    match chcon_step("/proc/self/fd/3", Err(CommandRunnerError::Unavailable { detail: "busy".to_owned() })) {
        Some(Err(FileActionError::Metadata { operation, detail, .. })) => {
            assert_eq!(operation, "chcon");
            assert_eq!(detail, "busy");
        },
        other => panic!("unexpected {other:?}"),
    }
}
