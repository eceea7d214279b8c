//! What a target was when the action started, and the checks that it is
//! still the same object later.
use vstd::prelude::*;

use crate::file_actions::error::{rejected, FileActionError, FileActionErrorView};
use crate::file_actions::target::FileActionTarget;
use crate::restore_ledger::{opt_string, OriginalFileType};

verus! {

/// A file's device and inode.
#[derive(Debug, Clone, Copy, PartialEq, Eq, Structural)]
pub struct FileIdentity {
    pub device: u64,
    pub inode: u64,
}

/// The file type `symlink_metadata` reports.
#[derive(Debug, Clone, Copy, PartialEq, Eq, Structural)]
pub enum ObservedType {
    File,
    Directory,
    Symlink,
    Other,
}

/// What `symlink_metadata` (or an open file's `metadata`) reports.
#[derive(Debug, Clone, Copy, PartialEq, Eq, Structural)]
pub struct FileFacts {
    pub file_type: ObservedType,
    pub mode: u32,
    pub uid: u32,
    pub gid: u32,
    pub nlink: u64,
    pub identity: FileIdentity,
}

/// The answer of `symlink_metadata` for a path.
#[derive(Debug, Clone, PartialEq, Eq)]
pub enum PathObservation {
    /// Nothing is there (`NotFound`), with the error's text.
    Missing(String),
    /// Something is there.
    Found(FileFacts),
    /// Another error, with its text.
    Failed(String),
}

pub enum PathObservationView {
    Missing(Seq<char>),
    Found(FileFacts),
    Failed(Seq<char>),
}

impl View for PathObservation {
    type V = PathObservationView;

    open spec fn view(&self) -> PathObservationView {
        match self {
            PathObservation::Missing(d) => PathObservationView::Missing(d@),
            PathObservation::Found(f) => PathObservationView::Found(*f),
            PathObservation::Failed(d) => PathObservationView::Failed(d@),
        }
    }
}

/// A target's state before the action.
#[derive(Debug, Clone, PartialEq, Eq)]
pub struct TargetSnapshot {
    pub original_type: OriginalFileType,
    pub mode: u32,
    pub uid: u32,
    pub gid: u32,
    pub nlink: u64,
    pub selinux_context: Option<String>,
    pub identity: FileIdentity,
}

pub struct SnapshotView {
    pub original_type: OriginalFileType,
    pub mode: u32,
    pub uid: u32,
    pub gid: u32,
    pub nlink: u64,
    pub selinux_context: Option<Seq<char>>,
    pub identity: FileIdentity,
}

impl View for TargetSnapshot {
    type V = SnapshotView;

    open spec fn view(&self) -> SnapshotView {
        SnapshotView {
            original_type: self.original_type,
            mode: self.mode,
            uid: self.uid,
            gid: self.gid,
            nlink: self.nlink,
            selinux_context: opt_string(self.selinux_context),
            identity: self.identity,
        }
    }
}

/// The snapshot of a missing target.
pub open spec fn missing_view() -> SnapshotView {
    SnapshotView {
        original_type: OriginalFileType::Missing,
        mode: 0,
        uid: 0,
        gid: 0,
        nlink: 0,
        selinux_context: None,
        identity: FileIdentity { device: 0, inode: 0 },
    }
}

pub open spec fn type_of(t: ObservedType) -> OriginalFileType {
    match t {
        ObservedType::File => OriginalFileType::File,
        ObservedType::Directory => OriginalFileType::Directory,
        ObservedType::Symlink => OriginalFileType::Symlink,
        ObservedType::Other => OriginalFileType::Other,
    }
}

/// The snapshot of what metadata reported; the `SELinux` context is not read.
pub open spec fn facts_view(f: FileFacts) -> SnapshotView {
    SnapshotView {
        original_type: type_of(f.file_type),
        mode: f.mode,
        uid: f.uid,
        gid: f.gid,
        nlink: f.nlink,
        selinux_context: None,
        identity: f.identity,
    }
}

/// Whether an identity names a file: device and inode are not both zero.
pub open spec fn has_identity(i: FileIdentity) -> bool {
    i.device != 0 || i.inode != 0
}

/// A known identity that differs from the current one.
pub open spec fn identity_moved(original: FileIdentity, current: FileIdentity) -> bool {
    has_identity(original) && current != original
}

/// Whether the object at a path is no longer the one of the snapshot.
pub fn identity_changed(original: FileIdentity, current: FileIdentity) -> (r: bool)
    ensures
        r == identity_moved(original, current),
{
    (original.device != 0 || original.inode != 0) && (current.device != original.device
        || current.inode != original.inode)
}

pub open spec fn snapshot_result_view(r: Result<TargetSnapshot, FileActionError>) -> Result<
    SnapshotView,
    FileActionErrorView,
> {
    match r {
        Ok(s) => Ok(s@),
        Err(e) => Err(e@),
    }
}

/// The snapshot of a target from what `symlink_metadata` said of its host
/// path: a symlink target is refused by its Android path.
pub open spec fn collect_spec(android: Seq<char>, host: Seq<char>, obs: PathObservationView) -> Result<
    SnapshotView,
    FileActionErrorView,
> {
    match obs {
        PathObservationView::Found(f) => if f.file_type == ObservedType::Symlink {
            Err(rejected(android, "symlink targets are rejected"@))
        } else {
            Ok(facts_view(f))
        },
        PathObservationView::Missing(_) => Ok(missing_view()),
        PathObservationView::Failed(d) => Err(FileActionErrorView::Io { path: host, detail: d }),
    }
}

/// The snapshot of a plain host path (a moved target): a symlink is refused
/// by that path.
pub open spec fn collect_path_spec(path: Seq<char>, obs: PathObservationView) -> Result<
    SnapshotView,
    FileActionErrorView,
> {
    match obs {
        PathObservationView::Found(f) => if f.file_type == ObservedType::Symlink {
            Err(rejected(path, "symlink target rejected"@))
        } else {
            Ok(facts_view(f))
        },
        PathObservationView::Missing(_) => Ok(missing_view()),
        PathObservationView::Failed(d) => Err(FileActionErrorView::Io { path, detail: d }),
    }
}

impl TargetSnapshot {
    /// A missing target.
    pub fn missing() -> (r: Self)
        ensures
            r@ == missing_view(),
    {
        TargetSnapshot {
            original_type: OriginalFileType::Missing,
            mode: 0,
            uid: 0,
            gid: 0,
            nlink: 0,
            selinux_context: None,
            identity: FileIdentity { device: 0, inode: 0 },
        }
    }

    /// The snapshot of reported metadata.
    pub fn from_facts(f: &FileFacts) -> (r: Self)
        ensures
            r@ == facts_view(*f),
    {
        let original_type = match f.file_type {
            ObservedType::File => OriginalFileType::File,
            ObservedType::Directory => OriginalFileType::Directory,
            ObservedType::Symlink => OriginalFileType::Symlink,
            ObservedType::Other => OriginalFileType::Other,
        };
        TargetSnapshot {
            original_type,
            mode: f.mode,
            uid: f.uid,
            gid: f.gid,
            nlink: f.nlink,
            selinux_context: None,
            identity: f.identity,
        }
    }

    /// The snapshot of a target, given what `symlink_metadata` said of its
    /// host path.
    pub fn collect(target: &FileActionTarget, obs: &PathObservation) -> (r: Result<Self, FileActionError>)
        ensures
            snapshot_result_view(r) == collect_spec(target.android_view(), target.host_view(), obs@),
    {
        match obs {
            PathObservation::Found(f) => {
                if f.file_type == ObservedType::Symlink {
                    return Err(
                        FileActionError::rejected_target(target.android_path(), "symlink targets are rejected"),
                    );
                }
                Ok(TargetSnapshot::from_facts(f))
            },
            PathObservation::Missing(_) => Ok(TargetSnapshot::missing()),
            PathObservation::Failed(d) => Err(FileActionError::io(target.host_path(), d.clone())),
        }
    }

    /// The snapshot of a host path, given what `symlink_metadata` said of it.
    pub fn collect_host_path(path: &str, obs: &PathObservation) -> (r: Result<Self, FileActionError>)
        ensures
            snapshot_result_view(r) == collect_path_spec(path@, obs@),
    {
        match obs {
            PathObservation::Found(f) => {
                if f.file_type == ObservedType::Symlink {
                    return Err(FileActionError::rejected_target(path, "symlink target rejected"));
                }
                Ok(TargetSnapshot::from_facts(f))
            },
            PathObservation::Missing(_) => Ok(TargetSnapshot::missing()),
            PathObservation::Failed(d) => Err(FileActionError::io(path, d.clone())),
        }
    }

    /// Whether the object behind some metadata is not the snapshot's.
    pub fn identity_changed_from(&self, current: &FileFacts) -> (r: bool)
        ensures
            r == identity_moved(self.identity, current.identity),
    {
        identity_changed(self.identity, current.identity)
    }
}

} // verus!
