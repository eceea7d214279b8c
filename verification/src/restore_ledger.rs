//! The restore ledger's vocabulary: what a target was before a file action,
//! and the steps that put it back.
use vstd::prelude::*;

verus! {

/// What was at a target before the action.
#[derive(Debug, Clone, Copy, PartialEq, Eq, Structural)]
pub enum OriginalFileType {
    File,
    Directory,
    Symlink,
    Missing,
    Other,
}

/// The file action a record undoes.
#[derive(Debug, Clone, Copy, PartialEq, Eq, Structural)]
pub enum LedgerAction {
    Delete,
    EmptyFile,
    EmptyDir,
    Chmod000,
}

/// One step of a restore.
#[derive(Debug, Clone, PartialEq, Eq)]
pub enum RestoreStep {
    /// Put the backup copy back.
    RestoreContent { backup_path: String },
    RecreateDirectory,
    RecreateFile,
    /// Remove what the action created where nothing was.
    RemovePlaceholder,
    SetMode { mode: u32 },
    SetOwner { uid: u32, gid: u32 },
    SetSelinuxContext { context: String },
    SetImmutable { immutable: bool },
}

pub enum RestoreStepView {
    RestoreContent { backup_path: Seq<char> },
    RecreateDirectory,
    RecreateFile,
    RemovePlaceholder,
    SetMode { mode: u32 },
    SetOwner { uid: u32, gid: u32 },
    SetSelinuxContext { context: Seq<char> },
    SetImmutable { immutable: bool },
}

impl View for RestoreStep {
    type V = RestoreStepView;

    open spec fn view(&self) -> RestoreStepView {
        match self {
            RestoreStep::RestoreContent { backup_path } => RestoreStepView::RestoreContent {
                backup_path: backup_path@,
            },
            RestoreStep::RecreateDirectory => RestoreStepView::RecreateDirectory,
            RestoreStep::RecreateFile => RestoreStepView::RecreateFile,
            RestoreStep::RemovePlaceholder => RestoreStepView::RemovePlaceholder,
            RestoreStep::SetMode { mode } => RestoreStepView::SetMode { mode: *mode },
            RestoreStep::SetOwner { uid, gid } => RestoreStepView::SetOwner { uid: *uid, gid: *gid },
            RestoreStep::SetSelinuxContext { context } => RestoreStepView::SetSelinuxContext {
                context: context@,
            },
            RestoreStep::SetImmutable { immutable } => RestoreStepView::SetImmutable {
                immutable: *immutable,
            },
        }
    }
}

#[verifier::external_type_specification]
#[verifier::external_body]
pub struct ExOffsetDateTime(time::OffsetDateTime);

/// `time::OffsetDateTime::now_utc`: the current time, of which nothing is
/// claimed.
#[verifier::external_body]
pub(crate) fn now_utc() -> time::OffsetDateTime {
    time::OffsetDateTime::now_utc()
}

/// A restore record: the target's original state and the steps that put it back.
#[derive(Debug)]
pub struct LedgerRecord {
    pub original_path: String,
    pub action: LedgerAction,
    pub original_file_type: OriginalFileType,
    pub mode: u32,
    pub uid: u32,
    pub gid: u32,
    pub selinux_context: Option<String>,
    pub immutable: bool,
    pub timestamp: time::OffsetDateTime,
    pub profile: String,
    pub restore_steps: Vec<RestoreStep>,
}

/// A record, taken by contents.
pub struct LedgerRecordView {
    pub original_path: Seq<char>,
    pub action: LedgerAction,
    pub original_file_type: OriginalFileType,
    pub mode: u32,
    pub uid: u32,
    pub gid: u32,
    pub selinux_context: Option<Seq<char>>,
    pub immutable: bool,
    pub timestamp: time::OffsetDateTime,
    pub profile: Seq<char>,
    pub restore_steps: Seq<RestoreStepView>,
}

pub open spec fn opt_string(o: Option<String>) -> Option<Seq<char>> {
    match o {
        Some(s) => Some(s@),
        None => None,
    }
}

impl View for LedgerRecord {
    type V = LedgerRecordView;

    open spec fn view(&self) -> LedgerRecordView {
        LedgerRecordView {
            original_path: self.original_path@,
            action: self.action,
            original_file_type: self.original_file_type,
            mode: self.mode,
            uid: self.uid,
            gid: self.gid,
            selinux_context: opt_string(self.selinux_context),
            immutable: self.immutable,
            timestamp: self.timestamp,
            profile: self.profile@,
            restore_steps: self.restore_steps@.map_values(|s: RestoreStep| s@),
        }
    }
}

/// What identifies a record in the ledger: one record per target and action.
#[derive(Debug, Clone, PartialEq, Eq)]
pub struct LedgerKey {
    pub original_path: String,
    pub action: LedgerAction,
}

impl LedgerRecord {
    /// The record's key.
    pub fn key(&self) -> (r: LedgerKey)
        ensures
            r.original_path@ == self.original_path@,
            r.action == self.action,
    {
        LedgerKey { original_path: self.original_path.clone(), action: self.action }
    }
}

/// Whether appending wrote a new record.
#[derive(Debug, Clone, Copy, PartialEq, Eq, Structural)]
pub enum AppendOutcome {
    Appended,
    AlreadyPresent,
}

} // verus!
