//! The backup copy of a target, taken before the action.
use vstd::prelude::*;

use crate::file_actions::error::{action_check, rejected, FileActionError, FileActionErrorView};
use crate::file_actions::plan::FileActionPlan;
use crate::file_actions::request::{kind_name, FileActionKind};
use crate::file_actions::snapshot::{
    identity_changed, identity_moved, type_of, FileFacts, PathObservation, PathObservationView,
    SnapshotView, TargetSnapshot,
};
use crate::profiles::xml::{join_path, path_join};
use crate::restore_ledger::OriginalFileType;
use crate::text;

verus! {

/// A path made into a file-name piece: ASCII letters and digits stay, every
/// other character becomes `_`.
pub open spec fn sanitized(p: Seq<char>) -> Seq<char> {
    Seq::new(p.len(), |i: int| if text::is_ascii_alnum(p[i]) { p[i] } else { '_' })
}

/// `<rule>-<action>-<sanitized android path>.bak`.
pub open spec fn backup_name_of(rule_id: Seq<char>, action: FileActionKind, android: Seq<char>) -> Seq<char> {
    rule_id + "-"@ + kind_name(action) + "-"@ + sanitized(android) + ".bak"@
}

/// A path made into a file-name piece.
pub fn sanitize_path(p: &str) -> (r: String)
    ensures
        r@ == sanitized(p@),
{
    let chars = text::chars_of(p);
    let mut out = String::new();
    let mut i: usize = 0;
    proof {
        reveal_strlit("_");
        assert("_"@ =~= seq!['_']);
    }
    while i < chars.len()
        invariant
            chars@ == p@,
            i <= chars@.len(),
            "_"@ == seq!['_'],
            out@ == sanitized(p@.subrange(0, i as int)),
        decreases chars.len() - i,
    {
        if text::is_ascii_alphanumeric(chars[i]) {
            let piece = p.substring_char(i, i + 1);
            assert(piece@ =~= seq![chars@[i as int]]);
            out.append(piece);
        } else {
            out.append("_");
        }
        assert(sanitized(p@.subrange(0, i + 1)) =~= sanitized(p@.subrange(0, i as int)).push(
            if text::is_ascii_alnum(p@[i as int]) { p@[i as int] } else { '_' },
        ));
        i += 1;
    }
    assert(p@.subrange(0, p@.len() as int) =~= p@);
    out
}

/// The backup file name of a plan.
pub fn backup_name(plan: &FileActionPlan) -> (r: String)
    ensures
        r@ == backup_name_of(plan.rule_id_view(), plan.action_view(), plan.target_view().android_view()),
{
    let mut s = plan.rule_id().as_str().to_owned();
    s.append("-");
    s.append(plan.action().as_str());
    s.append("-");
    let sanitized = sanitize_path(plan.target().android_path());
    s.append(sanitized.as_str());
    s.append(".bak");
    s
}

/// Where a plan's backup goes: nowhere for a missing target, else the
/// backup name inside the backup directory.
pub open spec fn backup_path_spec(backup_dir: Seq<char>, plan: FileActionPlan, snapshot: SnapshotView) -> Option<
    Seq<char>,
> {
    if snapshot.original_type == OriginalFileType::Missing {
        None
    } else {
        Some(
            path_join(
                backup_dir,
                backup_name_of(plan.rule_id_view(), plan.action_view(), plan.target_view().android_view()),
            ),
        )
    }
}

/// Where a plan's backup goes.
pub fn backup_target(backup_dir: &str, plan: &FileActionPlan, snapshot: &TargetSnapshot) -> (r: Option<String>)
    ensures
        match (r, backup_path_spec(backup_dir@, *plan, snapshot@)) {
            (Some(a), Some(b)) => a@ == b,
            (None, None) => true,
            _ => false,
        },
{
    if snapshot.original_type == OriginalFileType::Missing {
        return None;
    }
    let name = backup_name(plan);
    Some(join_path(backup_dir, name.as_str()))
}

/// Refuses a backup path that is already taken.
pub open spec fn occupied_spec(backup_path: Seq<char>, obs: PathObservationView) -> Result<(), FileActionErrorView> {
    match obs {
        PathObservationView::Found(_) => Err(rejected(backup_path, "backup path already exists before backup"@)),
        PathObservationView::Missing(_) => Ok(()),
        PathObservationView::Failed(d) => Err(FileActionErrorView::Io { path: backup_path, detail: d }),
    }
}

/// Refuses a backup path that is already taken, given what
/// `symlink_metadata` said of it.
pub fn check_backup_free(backup_path: &str, obs: &PathObservation) -> (r: Result<(), FileActionError>)
    ensures
        action_check(r) == occupied_spec(backup_path@, obs@),
{
    match obs {
        PathObservation::Found(_) => Err(
            FileActionError::rejected_target(backup_path, "backup path already exists before backup"),
        ),
        PathObservation::Missing(_) => Ok(()),
        PathObservation::Failed(d) => Err(FileActionError::io(backup_path, d.clone())),
    }
}

/// What the backup of an existing target needs.
#[derive(Debug, Clone, Copy, PartialEq, Eq, Structural)]
pub enum BackupCopy {
    /// Nothing now: the action moves the target itself to the backup path.
    Moved,
    /// The file is copied to the backup path.
    CopyFile,
}

pub open spec fn backup_copy_spec(
    original: OriginalFileType,
    action: FileActionKind,
    android: Seq<char>,
) -> Result<BackupCopy, FileActionErrorView> {
    match original {
        OriginalFileType::File => if action == FileActionKind::Delete {
            Ok(BackupCopy::Moved)
        } else {
            Ok(BackupCopy::CopyFile)
        },
        OriginalFileType::Directory => if action == FileActionKind::Delete || action
            == FileActionKind::EmptyDir {
            Ok(BackupCopy::Moved)
        } else {
            Err(rejected(android, "directory backup requires move-based mutation"@))
        },
        OriginalFileType::Missing => Ok(BackupCopy::Moved),
        _ => Err(rejected(android, "unsupported file type"@)),
    }
}

pub open spec fn copy_result_view(r: Result<BackupCopy, FileActionError>) -> Result<BackupCopy, FileActionErrorView> {
    match r {
        Ok(c) => Ok(c),
        Err(e) => Err(e@),
    }
}

/// How an existing target is backed up: deletes and directory emptying
/// move it, other file actions copy the file; a directory cannot be
/// copied, a symlink or special file not at all.
pub fn backup_copy(original: OriginalFileType, action: FileActionKind, android: &str) -> (r: Result<
    BackupCopy,
    FileActionError,
>)
    ensures
        copy_result_view(r) == backup_copy_spec(original, action, android@),
{
    match original {
        OriginalFileType::File => {
            if action == FileActionKind::Delete {
                Ok(BackupCopy::Moved)
            } else {
                Ok(BackupCopy::CopyFile)
            }
        },
        OriginalFileType::Directory => {
            if action == FileActionKind::Delete || action == FileActionKind::EmptyDir {
                Ok(BackupCopy::Moved)
            } else {
                Err(FileActionError::rejected_target(android, "directory backup requires move-based mutation"))
            }
        },
        OriginalFileType::Missing => Ok(BackupCopy::Moved),
        _ => Err(FileActionError::rejected_target(android, "unsupported file type")),
    }
}

/// The file opened for the backup copy must still be the snapshot's.
pub open spec fn backup_file_spec(path: Seq<char>, snapshot: SnapshotView, current: FileFacts) -> Result<
    (),
    FileActionErrorView,
> {
    if type_of(current.file_type) != snapshot.original_type || identity_moved(snapshot.identity, current.identity) {
        Err(rejected(path, "target changed before backup"@))
    } else {
        Ok(())
    }
}

/// Checks that the file opened for the backup copy is the snapshot's.
pub fn guard_backup_file(path: &str, snapshot: &TargetSnapshot, current: &FileFacts) -> (r: Result<
    (),
    FileActionError,
>)
    ensures
        action_check(r) == backup_file_spec(path@, snapshot@, *current),
{
    let now = TargetSnapshot::from_facts(current);
    if now.original_type != snapshot.original_type || identity_changed(snapshot.identity, current.identity) {
        return Err(FileActionError::rejected_target(path, "target changed before backup"));
    }
    Ok(())
}

} // verus!
