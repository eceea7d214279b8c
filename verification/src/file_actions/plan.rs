//! File-action plans.
use vstd::prelude::*;

use crate::file_actions::error::FileActionError;
use crate::file_actions::metadata::{MetadataChange, MetadataChangeView};
use crate::file_actions::request::{changes_view, FileActionKind, FileActionRequest};
use crate::file_actions::target::FileActionTarget;
use crate::model::{ProfileKind, RiskLevel, RuleId};

verus! {

/// The file-action planner.
#[derive(Debug, Clone, Copy, Default)]
pub struct FileActionPlanner;

/// An immutable plan of a file action.
#[derive(Debug, Clone, PartialEq, Eq)]
pub struct FileActionPlan {
    rule_id: RuleId,
    action: FileActionKind,
    target: FileActionTarget,
    profile: ProfileKind,
    risk_level: RiskLevel,
    metadata_changes: Vec<MetadataChange>,
}

fn copy_changes(v: &[MetadataChange]) -> (r: Vec<MetadataChange>)
    ensures
        changes_view(r@) == changes_view(v@),
{
    let mut out: Vec<MetadataChange> = Vec::new();
    let mut i: usize = 0;
    while i < v.len()
        invariant
            i <= v@.len(),
            changes_view(out@) =~= changes_view(v@.subrange(0, i as int)),
        decreases v.len() - i,
    {
        out.push(v[i].duplicate());
        assert(changes_view(v@.subrange(0, i + 1)) =~= changes_view(v@.subrange(0, i as int)).push(v@[i as int]@));
        i += 1;
    }
    assert(v@.subrange(0, v@.len() as int) =~= v@);
    out
}

impl FileActionPlanner {
    /// A planner.
    pub fn new() -> (r: Self) {
        FileActionPlanner
    }

    /// The plan of a request: the request's fields, frozen.
    pub fn plan(&self, request: &FileActionRequest) -> (r: Result<FileActionPlan, FileActionError>)
        ensures
            r matches Ok(p) && p.rule_id_view() == request.rule_id_view() && p.action_view()
                == request.action_view() && p.target_view().android_view()
                == request.target_view().android_view() && p.target_view().host_view()
                == request.target_view().host_view() && p.target_view().root_view()
                == request.target_view().root_view() && p.profile_view() == request.profile_view()
                && p.risk_view() == request.risk_view() && p.changes() == request.changes(),
    {
        Ok(
            FileActionPlan {
                rule_id: request.rule_id().duplicate(),
                action: request.action(),
                target: request.target().duplicate(),
                profile: request.profile(),
                risk_level: request.risk_level(),
                metadata_changes: copy_changes(request.metadata_changes()),
            },
        )
    }
}

impl FileActionPlan {
    pub closed spec fn rule_id_view(&self) -> Seq<char> {
        self.rule_id@
    }

    pub closed spec fn action_view(&self) -> FileActionKind {
        self.action
    }

    pub closed spec fn target_view(&self) -> FileActionTarget {
        self.target
    }

    pub closed spec fn profile_view(&self) -> ProfileKind {
        self.profile
    }

    pub closed spec fn risk_view(&self) -> RiskLevel {
        self.risk_level
    }

    pub closed spec fn changes(&self) -> Seq<MetadataChangeView> {
        changes_view(self.metadata_changes@)
    }

    /// The rule.
    pub fn rule_id(&self) -> (r: &RuleId)
        ensures
            r@ == self.rule_id_view(),
    {
        &self.rule_id
    }

    /// The action.
    pub fn action(&self) -> (r: FileActionKind)
        ensures
            r == self.action_view(),
    {
        self.action
    }

    /// The target.
    pub fn target(&self) -> (r: &FileActionTarget)
        ensures
            *r == self.target_view(),
    {
        &self.target
    }

    /// The profile.
    pub fn profile(&self) -> (r: ProfileKind)
        ensures
            r == self.profile_view(),
    {
        self.profile
    }

    /// The rule's risk level.
    pub fn risk_level(&self) -> (r: RiskLevel)
        ensures
            r == self.risk_view(),
    {
        self.risk_level
    }

    /// The metadata changes, in order.
    pub fn metadata_changes(&self) -> (r: &[MetadataChange])
        ensures
            changes_view(r@) == self.changes(),
    {
        self.metadata_changes.as_slice()
    }
}

} // verus!
