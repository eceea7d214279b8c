//! The decisions of the primary file action: what each kind does to the
//! target it found.
use vstd::prelude::*;

use crate::file_actions::error::{action_check, rejected, FileActionError, FileActionErrorView};
use crate::file_actions::request::FileActionKind;
use crate::restore_ledger::OriginalFileType;

verus! {

/// Refusals of a kind for the target it found, before any step.
pub open spec fn precheck_spec(action: FileActionKind, path: Seq<char>, original: OriginalFileType) -> Result<
    (),
    FileActionErrorView,
> {
    if action == FileActionKind::EmptyFile && original == OriginalFileType::Directory {
        Err(rejected(path, "directory cannot be emptied as file"@))
    } else if action == FileActionKind::EmptyDir && original == OriginalFileType::File {
        Err(rejected(path, "file cannot be emptied as directory"@))
    } else {
        Ok(())
    }
}

/// Refuses emptying a directory as a file and a file as a directory.
pub fn precheck(action: FileActionKind, path: &str, original: OriginalFileType) -> (r: Result<
    (),
    FileActionError,
>)
    ensures
        action_check(r) == precheck_spec(action, path@, original),
{
    if action == FileActionKind::EmptyFile && original == OriginalFileType::Directory {
        return Err(FileActionError::rejected_target(path, "directory cannot be emptied as file"));
    }
    if action == FileActionKind::EmptyDir && original == OriginalFileType::File {
        return Err(FileActionError::rejected_target(path, "file cannot be emptied as directory"));
    }
    Ok(())
}

/// What the primary action does once the guard passed.
#[derive(Debug, Clone, PartialEq, Eq)]
pub enum PrimaryRoute {
    /// Nothing: the target is already gone.
    Nothing,
    /// Move the target to its backup path; on a repeated run (`reused`) whose
    /// backup already exists, the target is discarded instead; with
    /// `recreate_dir` an empty directory takes its place (and an already
    /// empty directory is left as it is on a repeated run).
    Move { backup_path: String, reused: bool, recreate_dir: bool },
    /// Truncate the file, creating it when it was missing.
    Truncate { create: bool },
    /// Create the directory; `inside_root` checks first that its parent lies
    /// inside the host root.
    CreateDir { inside_root: bool },
    /// Set the mode to 000.
    Chmod,
}

pub enum PrimaryRouteView {
    Nothing,
    Move { backup_path: Seq<char>, reused: bool, recreate_dir: bool },
    Truncate { create: bool },
    CreateDir { inside_root: bool },
    Chmod,
}

impl View for PrimaryRoute {
    type V = PrimaryRouteView;

    open spec fn view(&self) -> PrimaryRouteView {
        match self {
            PrimaryRoute::Nothing => PrimaryRouteView::Nothing,
            PrimaryRoute::Move { backup_path, reused, recreate_dir } => PrimaryRouteView::Move {
                backup_path: backup_path@,
                reused: *reused,
                recreate_dir: *recreate_dir,
            },
            PrimaryRoute::Truncate { create } => PrimaryRouteView::Truncate { create: *create },
            PrimaryRoute::CreateDir { inside_root } => PrimaryRouteView::CreateDir { inside_root: *inside_root },
            PrimaryRoute::Chmod => PrimaryRouteView::Chmod,
        }
    }
}

pub open spec fn moved_route(path: Seq<char>, backup: Option<Seq<char>>, reused: bool, recreate_dir: bool) -> Result<
    PrimaryRouteView,
    FileActionErrorView,
> {
    match backup {
        None => Err(rejected(path, "backup path is required"@)),
        Some(b) => Ok(PrimaryRouteView::Move { backup_path: b, reused, recreate_dir }),
    }
}

/// The primary action for the target found: deletes and directory emptying
/// move an existing target to its backup (a backup path is then required);
/// a missing target needs nothing to delete and a created directory must
/// stay inside the root; symlinks and special files cannot be deleted.
pub open spec fn route_spec(
    action: FileActionKind,
    path: Seq<char>,
    original: OriginalFileType,
    backup: Option<Seq<char>>,
    reused: bool,
) -> Result<PrimaryRouteView, FileActionErrorView> {
    match action {
        FileActionKind::Delete => match original {
            OriginalFileType::File | OriginalFileType::Directory => moved_route(path, backup, reused, false),
            OriginalFileType::Missing => Ok(PrimaryRouteView::Nothing),
            _ => Err(rejected(path, "unsupported file type"@)),
        },
        FileActionKind::EmptyFile => Ok(PrimaryRouteView::Truncate { create: original == OriginalFileType::Missing }),
        FileActionKind::EmptyDir => match original {
            OriginalFileType::Directory => moved_route(path, backup, reused, true),
            OriginalFileType::Missing => Ok(PrimaryRouteView::CreateDir { inside_root: true }),
            _ => Ok(PrimaryRouteView::CreateDir { inside_root: false }),
        },
        FileActionKind::Chmod000 => Ok(PrimaryRouteView::Chmod),
    }
}

pub open spec fn route_view(r: Result<PrimaryRoute, FileActionError>) -> Result<PrimaryRouteView, FileActionErrorView> {
    match r {
        Ok(x) => Ok(x@),
        Err(e) => Err(e@),
    }
}

pub open spec fn opt_view(o: Option<&str>) -> Option<Seq<char>> {
    match o {
        Some(s) => Some(s@),
        None => None,
    }
}

fn moved(path: &str, backup: Option<&str>, reused: bool, recreate_dir: bool) -> (r: Result<
    PrimaryRoute,
    FileActionError,
>)
    ensures
        route_view(r) == moved_route(path@, opt_view(backup), reused, recreate_dir),
{
    match backup {
        None => Err(FileActionError::rejected_target(path, "backup path is required")),
        Some(b) => Ok(PrimaryRoute::Move { backup_path: b.to_owned(), reused, recreate_dir }),
    }
}

/// The primary action for the target found, once the guard passed.
pub fn primary_route(
    action: FileActionKind,
    path: &str,
    original: OriginalFileType,
    backup: Option<&str>,
    reused: bool,
) -> (r: Result<PrimaryRoute, FileActionError>)
    ensures
        route_view(r) == route_spec(action, path@, original, opt_view(backup), reused),
{
    match action {
        FileActionKind::Delete => match original {
            OriginalFileType::File | OriginalFileType::Directory => moved(path, backup, reused, false),
            OriginalFileType::Missing => Ok(PrimaryRoute::Nothing),
            _ => Err(FileActionError::rejected_target(path, "unsupported file type")),
        },
        FileActionKind::EmptyFile => Ok(PrimaryRoute::Truncate { create: original == OriginalFileType::Missing }),
        FileActionKind::EmptyDir => match original {
            OriginalFileType::Directory => moved(path, backup, reused, true),
            OriginalFileType::Missing => Ok(PrimaryRoute::CreateDir { inside_root: true }),
            _ => Ok(PrimaryRoute::CreateDir { inside_root: false }),
        },
        FileActionKind::Chmod000 => Ok(PrimaryRoute::Chmod),
    }
}

/// A repeated run discards the target only when it is not a directory.
pub open spec fn discard_spec(path: Seq<char>, original: OriginalFileType) -> Result<(), FileActionErrorView> {
    if original == OriginalFileType::Directory {
        Err(rejected(path, "directory discard cleanup is not supported"@))
    } else {
        Ok(())
    }
}

/// Refuses discarding a directory.
pub fn check_discard(path: &str, original: OriginalFileType) -> (r: Result<(), FileActionError>)
    ensures
        action_check(r) == discard_spec(path@, original),
{
    if original == OriginalFileType::Directory {
        return Err(FileActionError::rejected_target(path, "directory discard cleanup is not supported"));
    }
    Ok(())
}

/// Whether the discarded object is a file that must be removed.
pub fn removes_discarded_file(original: OriginalFileType) -> (r: bool)
    ensures
        r == (original == OriginalFileType::File),
{
    original == OriginalFileType::File
}

/// How a `Move` route treats the target.
#[derive(Debug, Clone, Copy, PartialEq, Eq, Structural)]
pub enum MoveStep {
    /// A repeated emptying of a directory that is already empty: nothing
    /// to do.
    KeepEmptyDir,
    /// A repeated run whose backup is already there: the target is
    /// discarded, the first backup stays.
    Discard,
    /// The target is moved to its backup path.
    Move,
}

/// The treatment of a `Move` route: on a repeated run (`reused`) whose backup
/// exists, an already empty directory that is to be recreated is left
/// alone and anything else is discarded; otherwise the target is moved.
pub open spec fn move_step_spec(reused: bool, recreate_dir: bool, backup_exists: bool, dir_empty: bool) -> MoveStep {
    if reused && backup_exists {
        if recreate_dir && dir_empty {
            MoveStep::KeepEmptyDir
        } else {
            MoveStep::Discard
        }
    } else {
        MoveStep::Move
    }
}

/// Decides the treatment of a `Move` route from what the file system says:
/// whether the backup path holds an entry, and (read only for a repeated
/// run whose backup exists and whose directory is recreated) whether the
/// target directory is empty.
pub fn move_step(reused: bool, recreate_dir: bool, backup_exists: bool, dir_empty: bool) -> (r: MoveStep)
    ensures
        r == move_step_spec(reused, recreate_dir, backup_exists, dir_empty),
{
    if reused && backup_exists {
        if recreate_dir && dir_empty {
            MoveStep::KeepEmptyDir
        } else {
            MoveStep::Discard
        }
    } else {
        MoveStep::Move
    }
}

/// What must stand before the guard of the primary action: an emptied file
/// needs its parent directory (`needs_parent`), and a missing one needs that
/// parent inside the host root (`inside_root`).
pub fn parent_steps(action: FileActionKind, original: OriginalFileType) -> (r: (bool, bool))
    ensures
        r.0 == (action == FileActionKind::EmptyFile),
        r.1 == (action == FileActionKind::EmptyFile && original == OriginalFileType::Missing),
{
    let empty_file = action == FileActionKind::EmptyFile;
    (empty_file, empty_file && original == OriginalFileType::Missing)
}

} // verus!
