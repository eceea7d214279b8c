//! The checks around each file-system step: the object at a path must still
//! be the one of the snapshot.
use vstd::prelude::*;

use crate::file_actions::error::{action_check, rejected, FileActionError, FileActionErrorView};
use crate::file_actions::request::FileActionKind;
use crate::file_actions::snapshot::{
    collect_path_spec, identity_changed, identity_moved, type_of, FileFacts,
    ObservedType, PathObservation, PathObservationView, SnapshotView, TargetSnapshot,
};
use crate::file_actions::target::{components, is_absolute, path_components};
use crate::restore_ledger::OriginalFileType;
use crate::text;

verus! {

/// What may stand at a target that was missing: the file or directory that
/// the action itself creates.
pub open spec fn allowed_after_missing_spec(action: FileActionKind) -> Seq<OriginalFileType> {
    match action {
        FileActionKind::EmptyFile => seq![OriginalFileType::File],
        FileActionKind::EmptyDir => seq![OriginalFileType::Directory],
        _ => Seq::empty(),
    }
}

/// What may stand at a target that was missing.
pub fn allowed_after_missing(action: FileActionKind) -> (r: Vec<OriginalFileType>)
    ensures
        r@ == allowed_after_missing_spec(action),
{
    let mut v: Vec<OriginalFileType> = Vec::new();
    match action {
        FileActionKind::EmptyFile => v.push(OriginalFileType::File),
        FileActionKind::EmptyDir => v.push(OriginalFileType::Directory),
        _ => {},
    }
    assert(v@ =~= allowed_after_missing_spec(action));
    v
}

/// The type a guard sees: symlinks are refused before, anything neither
/// file nor directory is `Other`.
pub open spec fn guard_type(t: ObservedType) -> OriginalFileType {
    match t {
        ObservedType::File => OriginalFileType::File,
        ObservedType::Directory => OriginalFileType::Directory,
        _ => OriginalFileType::Other,
    }
}

/// The guard of a path before a step, given what `symlink_metadata` said of
/// it: a missing path is fine only where the target was missing and the
/// action may create it; a symlink is refused; otherwise type and identity
/// must be the snapshot's, unless the target was missing and what stands
/// there now is what the action creates.
pub open spec fn guard_path_spec(
    path: Seq<char>,
    snapshot: SnapshotView,
    allowed: Seq<OriginalFileType>,
    obs: PathObservationView,
) -> Result<(), FileActionErrorView> {
    match obs {
        PathObservationView::Failed(d) => Err(FileActionErrorView::Io { path, detail: d }),
        PathObservationView::Missing(d) => if snapshot.original_type == OriginalFileType::Missing
            && allowed.len() > 0 {
            Ok(())
        } else {
            Err(FileActionErrorView::Io { path, detail: d })
        },
        PathObservationView::Found(f) => if f.file_type == ObservedType::Symlink {
            Err(rejected(path, "symlink target rejected"@))
        } else if snapshot.original_type == OriginalFileType::Missing && allowed.contains(
            guard_type(f.file_type),
        ) {
            Ok(())
        } else if guard_type(f.file_type) != snapshot.original_type {
            Err(rejected(path, "target type changed before mutation"@))
        } else if identity_moved(snapshot.identity, f.identity) {
            Err(rejected(path, "target identity changed before mutation"@))
        } else {
            Ok(())
        },
    }
}

fn contains_type(v: &[OriginalFileType], t: OriginalFileType) -> (r: bool)
    ensures
        r == v@.contains(t),
{
    let mut i: usize = 0;
    while i < v.len()
        invariant
            i <= v@.len(),
            forall|j: int| 0 <= j < i ==> v@[j] != t,
        decreases v.len() - i,
    {
        if v[i] == t {
            return true;
        }
        i += 1;
    }
    false
}

/// The guard of a path before a step.
pub fn guard_path(path: &str, snapshot: &TargetSnapshot, allowed: &[OriginalFileType], obs: &PathObservation) -> (r:
    Result<(), FileActionError>)
    ensures
        action_check(r) == guard_path_spec(path@, snapshot@, allowed@, obs@),
{
    match obs {
        PathObservation::Failed(d) => Err(FileActionError::io(path, d.clone())),
        PathObservation::Missing(d) => {
            if snapshot.original_type == OriginalFileType::Missing && allowed.len() > 0 {
                Ok(())
            } else {
                Err(FileActionError::io(path, d.clone()))
            }
        },
        PathObservation::Found(f) => {
            if f.file_type == ObservedType::Symlink {
                return Err(FileActionError::rejected_target(path, "symlink target rejected"));
            }
            let current = match f.file_type {
                ObservedType::File => OriginalFileType::File,
                ObservedType::Directory => OriginalFileType::Directory,
                _ => OriginalFileType::Other,
            };
            if snapshot.original_type == OriginalFileType::Missing && contains_type(allowed, current) {
                return Ok(());
            }
            if current != snapshot.original_type {
                return Err(FileActionError::rejected_target(path, "target type changed before mutation"));
            }
            if identity_changed(snapshot.identity, f.identity) {
                return Err(FileActionError::rejected_target(path, "target identity changed before mutation"));
            }
            Ok(())
        },
    }
}

/// The guard of a file opened for a step, given its metadata: nothing to
/// check where the target was missing; otherwise type and identity must be
/// the snapshot's.
pub open spec fn open_file_spec(path: Seq<char>, snapshot: SnapshotView, current: Result<FileFacts, Seq<char>>) -> Result<
    (),
    FileActionErrorView,
> {
    if snapshot.original_type == OriginalFileType::Missing {
        Ok(())
    } else {
        match current {
            Err(d) => Err(FileActionErrorView::Io { path, detail: d }),
            Ok(f) => if type_of(f.file_type) != snapshot.original_type {
                Err(rejected(path, "target type changed during mutation"@))
            } else if identity_moved(snapshot.identity, f.identity) {
                Err(rejected(path, "target identity changed during mutation"@))
            } else {
                Ok(())
            },
        }
    }
}

pub open spec fn facts_result_view(r: Result<FileFacts, String>) -> Result<FileFacts, Seq<char>> {
    match r {
        Ok(f) => Ok(f),
        Err(d) => Err(d@),
    }
}

/// The guard of a file opened for a step.
pub fn guard_open_file(path: &str, snapshot: &TargetSnapshot, current: &Result<FileFacts, String>) -> (r:
    Result<(), FileActionError>)
    ensures
        action_check(r) == open_file_spec(path@, snapshot@, facts_result_view(*current)),
{
    if snapshot.original_type == OriginalFileType::Missing {
        return Ok(());
    }
    match current {
        Err(d) => Err(FileActionError::io(path, d.clone())),
        Ok(f) => {
            let now = TargetSnapshot::from_facts(f);
            if now.original_type != snapshot.original_type {
                return Err(FileActionError::rejected_target(path, "target type changed during mutation"));
            }
            if identity_changed(snapshot.identity, f.identity) {
                return Err(FileActionError::rejected_target(path, "target identity changed during mutation"));
            }
            Ok(())
        },
    }
}

/// The check after a move: what now stands at `moved` must be the
/// snapshot's object, same type and same identity.
pub open spec fn moved_spec(moved: Seq<char>, snapshot: SnapshotView, obs: PathObservationView) -> Result<
    (),
    FileActionErrorView,
> {
    match collect_path_spec(moved, obs) {
        Err(e) => Err(e),
        Ok(now) => if now.original_type != snapshot.original_type || now.identity != snapshot.identity {
            Err(rejected(moved, "moved target identity does not match snapshot"@))
        } else {
            Ok(())
        },
    }
}

/// The check after a move, given what `symlink_metadata` said of `moved`.
pub fn guard_moved(moved: &str, snapshot: &TargetSnapshot, obs: &PathObservation) -> (r: Result<
    (),
    FileActionError,
>)
    ensures
        action_check(r) == moved_spec(moved@, snapshot@, obs@),
{
    let now = TargetSnapshot::collect_host_path(moved, obs)?;
    if now.original_type != snapshot.original_type || now.identity.device != snapshot.identity.device
        || now.identity.inode != snapshot.identity.inode {
        return Err(FileActionError::rejected_target(moved, "moved target identity does not match snapshot"));
    }
    Ok(())
}

/// The error of a move whose check failed, given whether moving back
/// worked: a failed move back keeps the target at the backup path, which
/// `RollbackFailed` reports against the original path.
pub fn rollback_error(path: &str, check: FileActionError, rollback: Result<(), String>) -> (r: FileActionError)
    ensures
        match rollback {
            Ok(()) => r@ == check@,
            Err(d) => r@ == (FileActionErrorView::RollbackFailed { path: path@, detail: d@ }),
        },
{
    match rollback {
        Ok(()) => check,
        Err(d) => FileActionError::rollback_failed(path, d),
    }
}

/// Whether `Path::parent` has an answer: only the empty path and the root
/// have none.
pub open spec fn has_parent(p: Seq<char>) -> bool {
    p.len() > 0 && !(is_absolute(p) && components(p).len() == 0)
}

/// Refuses a path without a parent directory.
pub fn check_has_parent(path: &str) -> (r: Result<(), FileActionError>)
    ensures
        action_check(r) == (if has_parent(path@) {
            Ok(())
        } else {
            Err(rejected(path@, "path has no parent"@))
        }),
{
    let empty = path.unicode_len() == 0;
    let root_only = text::starts_with(path, '/') && path_components(path).len() == 0;
    if empty || root_only {
        return Err(FileActionError::rejected_target(path, "path has no parent"));
    }
    Ok(())
}

/// The backup path a step needs.
pub fn required_backup_path(path: &str, backup_path: Option<&str>) -> (r: Result<String, FileActionError>)
    ensures
        match (backup_path, r) {
            (Some(b), Ok(s)) => s@ == b@,
            (None, Err(e)) => e@ == rejected(path@, "backup path is required"@),
            _ => false,
        },
{
    match backup_path {
        Some(b) => Ok(b.to_owned()),
        None => Err(FileActionError::rejected_target(path, "backup path is required")),
    }
}

} // verus!
