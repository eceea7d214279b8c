//! Errors of file actions.
use vstd::prelude::*;

verus! {

/// A file-action error, taken by contents.
pub enum FileActionErrorView {
    RejectedTarget { path: Seq<char>, reason: Seq<char> },
    Io { path: Seq<char>, detail: Seq<char> },
    RollbackFailed { path: Seq<char>, detail: Seq<char> },
    Ledger { detail: Seq<char> },
    Metadata { operation: Seq<char>, path: Seq<char>, detail: Seq<char> },
}

/// An error of planning or executing a file action.
#[derive(Debug)]
#[non_exhaustive]
pub enum FileActionError {
    /// The target breaks the safety bounds.
    RejectedTarget {
        /// The refused path.
        path: String,
        /// Why.
        reason: &'static str,
    },
    /// A file-system call failed.
    Io {
        /// The path.
        path: String,
        /// What the system said.
        detail: String,
    },
    /// The target was moved to its backup and could not be moved back; the
    /// ledger record is kept so that it can be restored later.
    RollbackFailed {
        /// The original target path.
        path: String,
        /// What the system said.
        detail: String,
    },
    /// The restore ledger could not be read or written.
    Ledger {
        /// What went wrong.
        detail: String,
    },
    /// A metadata step failed.
    Metadata {
        /// The step's name.
        operation: &'static str,
        /// The path it ran on.
        path: String,
        /// What went wrong.
        detail: String,
    },
}

impl View for FileActionError {
    type V = FileActionErrorView;

    open spec fn view(&self) -> FileActionErrorView {
        match self {
            FileActionError::RejectedTarget { path, reason } => FileActionErrorView::RejectedTarget {
                path: path@,
                reason: reason@,
            },
            FileActionError::Io { path, detail } => FileActionErrorView::Io { path: path@, detail: detail@ },
            FileActionError::RollbackFailed { path, detail } => FileActionErrorView::RollbackFailed {
                path: path@,
                detail: detail@,
            },
            FileActionError::Ledger { detail } => FileActionErrorView::Ledger { detail: detail@ },
            FileActionError::Metadata { operation, path, detail } => FileActionErrorView::Metadata {
                operation: operation@,
                path: path@,
                detail: detail@,
            },
        }
    }
}

/// A refusal of `path`.
pub open spec fn rejected(path: Seq<char>, reason: Seq<char>) -> FileActionErrorView {
    FileActionErrorView::RejectedTarget { path, reason }
}

/// Whether a step succeeded, or its error by contents.
pub open spec fn action_check<T>(r: Result<T, FileActionError>) -> Result<(), FileActionErrorView> {
    match r {
        Ok(_) => Ok(()),
        Err(e) => Err(e@),
    }
}

impl FileActionError {
    /// A `RejectedTarget` error.
    pub fn rejected_target(path: &str, reason: &'static str) -> (r: Self)
        ensures
            r@ == rejected(path@, reason@),
    {
        FileActionError::RejectedTarget { path: path.to_owned(), reason }
    }

    /// An `Io` error.
    pub fn io(path: &str, detail: String) -> (r: Self)
        ensures
            r@ == (FileActionErrorView::Io { path: path@, detail: detail@ }),
    {
        FileActionError::Io { path: path.to_owned(), detail }
    }

    /// A `RollbackFailed` error.
    pub fn rollback_failed(path: &str, detail: String) -> (r: Self)
        ensures
            r@ == (FileActionErrorView::RollbackFailed { path: path@, detail: detail@ }),
    {
        FileActionError::RollbackFailed { path: path.to_owned(), detail }
    }

    /// Whether a failed execution must keep its pending ledger record: only
    /// after a failed rollback, when the target sits at its backup path.
    pub fn preserves_pending_ledger(&self) -> (r: bool)
        ensures
            r == (self@ is RollbackFailed),
    {
        match self {
            FileActionError::RollbackFailed { .. } => true,
            _ => false,
        }
    }
}

} // verus!
