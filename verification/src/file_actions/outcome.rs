//! The result of a file action.
use vstd::prelude::*;

use crate::file_actions::metadata::{MetadataOperation, MetadataOperationView};

verus! {

/// How a file action runs.
#[derive(Debug, Clone, Copy, PartialEq, Eq, Structural)]
pub enum ExecutionMode {
    /// Only planned: neither the file system nor the ledger is touched.
    DryRun,
    /// The ledger is written and the change is made.
    Apply,
}

/// What became of a file action.
#[derive(Debug, Clone, Copy, PartialEq, Eq, Structural)]
#[non_exhaustive]
pub enum FileActionStatus {
    Planned,
    Applied,
    /// The target was missing or needed nothing.
    Skipped,
}

/// The result of a file action.
#[derive(Debug, PartialEq, Eq)]
pub struct FileActionOutcome {
    mode: ExecutionMode,
    status: FileActionStatus,
    will_mutate: bool,
    metadata_operations: Vec<MetadataOperation>,
}

/// A result, taken by contents.
pub struct OutcomeView {
    pub mode: ExecutionMode,
    pub status: FileActionStatus,
    pub will_mutate: bool,
    pub metadata_operations: Seq<MetadataOperationView>,
}

pub open spec fn operations_view(v: Seq<MetadataOperation>) -> Seq<MetadataOperationView> {
    v.map_values(|o: MetadataOperation| o@)
}

impl View for FileActionOutcome {
    type V = OutcomeView;

    closed spec fn view(&self) -> OutcomeView {
        OutcomeView {
            mode: self.mode,
            status: self.status,
            will_mutate: self.will_mutate,
            metadata_operations: operations_view(self.metadata_operations@),
        }
    }
}

/// A dry run's result.
pub open spec fn planned_view() -> OutcomeView {
    OutcomeView {
        mode: ExecutionMode::DryRun,
        status: FileActionStatus::Planned,
        will_mutate: false,
        metadata_operations: Seq::empty(),
    }
}

/// An applied action's result.
pub open spec fn applied_view(ops: Seq<MetadataOperationView>) -> OutcomeView {
    OutcomeView {
        mode: ExecutionMode::Apply,
        status: FileActionStatus::Applied,
        will_mutate: true,
        metadata_operations: ops,
    }
}

/// A skipped action's result.
pub open spec fn skipped_view() -> OutcomeView {
    OutcomeView {
        mode: ExecutionMode::Apply,
        status: FileActionStatus::Skipped,
        will_mutate: false,
        metadata_operations: Seq::empty(),
    }
}

/// What every result holds: it changed the target exactly when it was
/// applied, and it is a dry run exactly when it was only planned.
pub open spec fn outcome_consistent(o: OutcomeView) -> bool {
    &&& o.will_mutate == (o.status == FileActionStatus::Applied)
    &&& (o.mode == ExecutionMode::DryRun) == (o.status == FileActionStatus::Planned)
}

impl FileActionOutcome {
    #[verifier::type_invariant]
    spec fn consistent(&self) -> bool {
        outcome_consistent(self@)
    }

    /// Planned, nothing changed.
    pub fn planned() -> (r: Self)
        ensures
            r@ == planned_view(),
    {
        let r = FileActionOutcome {
            mode: ExecutionMode::DryRun,
            status: FileActionStatus::Planned,
            will_mutate: false,
            metadata_operations: Vec::new(),
        };
        assert(r@.metadata_operations =~= Seq::empty());
        r
    }

    /// Applied, with the metadata steps that ran.
    pub fn applied(metadata_operations: Vec<MetadataOperation>) -> (r: Self)
        ensures
            r@ == applied_view(operations_view(metadata_operations@)),
    {
        FileActionOutcome {
            mode: ExecutionMode::Apply,
            status: FileActionStatus::Applied,
            will_mutate: true,
            metadata_operations,
        }
    }

    /// Skipped, nothing changed.
    pub fn skipped() -> (r: Self)
        ensures
            r@ == skipped_view(),
    {
        let r = FileActionOutcome {
            mode: ExecutionMode::Apply,
            status: FileActionStatus::Skipped,
            will_mutate: false,
            metadata_operations: Vec::new(),
        };
        assert(r@.metadata_operations =~= Seq::empty());
        r
    }

    /// The execution mode.
    pub fn mode(&self) -> (r: ExecutionMode)
        ensures
            r == self@.mode,
            (r == ExecutionMode::DryRun) == (self@.status == FileActionStatus::Planned),
    {
        proof {
            use_type_invariant(self);
        }
        self.mode
    }

    /// The status.
    pub fn status(&self) -> (r: FileActionStatus)
        ensures
            r == self@.status,
    {
        self.status
    }

    /// Whether the action changed the target.
    pub fn will_mutate(&self) -> (r: bool)
        ensures
            r == self@.will_mutate,
            r == (self@.status == FileActionStatus::Applied),
    {
        proof {
            use_type_invariant(self);
        }
        self.will_mutate
    }

    /// The metadata steps that ran.
    pub fn metadata_operations(&self) -> (r: &[MetadataOperation])
        ensures
            operations_view(r@) == self@.metadata_operations,
    {
        self.metadata_operations.as_slice()
    }
}

} // verus!
