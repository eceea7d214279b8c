//! Typed file-action requests.
use vstd::prelude::*;

use crate::file_actions::metadata::{MetadataChange, MetadataChangeView};
use crate::file_actions::target::FileActionTarget;
use crate::model::{ProfileKind, RiskLevel, RuleId};
use crate::restore_ledger::LedgerAction;

verus! {

/// What a file action does to its target.
#[derive(Debug, Clone, Copy, PartialEq, Eq, Hash, Structural)]
#[non_exhaustive]
pub enum FileActionKind {
    /// Remove the target.
    Delete,
    /// Empty the file, or create it empty.
    EmptyFile,
    /// Empty the directory, or create it empty.
    EmptyDir,
    /// Set the mode to 000.
    Chmod000,
}

pub open spec fn kind_name(k: FileActionKind) -> Seq<char> {
    match k {
        FileActionKind::Delete => "delete"@,
        FileActionKind::EmptyFile => "empty_file"@,
        FileActionKind::EmptyDir => "empty_dir"@,
        FileActionKind::Chmod000 => "chmod_000"@,
    }
}

pub open spec fn kind_ledger_action(k: FileActionKind) -> LedgerAction {
    match k {
        FileActionKind::Delete => LedgerAction::Delete,
        FileActionKind::EmptyFile => LedgerAction::EmptyFile,
        FileActionKind::EmptyDir => LedgerAction::EmptyDir,
        FileActionKind::Chmod000 => LedgerAction::Chmod000,
    }
}

impl FileActionKind {
    /// The ledger action that undoes this kind.
    pub fn ledger_action(self) -> (r: LedgerAction)
        ensures
            r == kind_ledger_action(self),
    {
        match self {
            FileActionKind::Delete => LedgerAction::Delete,
            FileActionKind::EmptyFile => LedgerAction::EmptyFile,
            FileActionKind::EmptyDir => LedgerAction::EmptyDir,
            FileActionKind::Chmod000 => LedgerAction::Chmod000,
        }
    }

    /// The kind's name.
    pub fn as_str(self) -> (r: &'static str)
        ensures
            r@ == kind_name(self),
    {
        match self {
            FileActionKind::Delete => "delete",
            FileActionKind::EmptyFile => "empty_file",
            FileActionKind::EmptyDir => "empty_dir",
            FileActionKind::Chmod000 => "chmod_000",
        }
    }
}

pub open spec fn changes_view(v: Seq<MetadataChange>) -> Seq<MetadataChangeView> {
    v.map_values(|c: MetadataChange| c@)
}

/// A typed file-action request.
#[derive(Debug, Clone, PartialEq, Eq)]
pub struct FileActionRequest {
    rule_id: RuleId,
    action: FileActionKind,
    target: FileActionTarget,
    profile: ProfileKind,
    risk_level: RiskLevel,
    metadata_changes: Vec<MetadataChange>,
}

impl FileActionRequest {
    pub closed spec fn rule_id_view(&self) -> Seq<char> {
        self.rule_id@
    }

    pub closed spec fn action_view(&self) -> FileActionKind {
        self.action
    }

    pub closed spec fn target_view(&self) -> FileActionTarget {
        self.target
    }

    pub closed spec fn profile_view(&self) -> ProfileKind {
        self.profile
    }

    pub closed spec fn risk_view(&self) -> RiskLevel {
        self.risk_level
    }

    pub closed spec fn changes(&self) -> Seq<MetadataChangeView> {
        changes_view(self.metadata_changes@)
    }

    /// A request without metadata changes.
    pub fn new(
        rule_id: RuleId,
        action: FileActionKind,
        target: FileActionTarget,
        profile: ProfileKind,
        risk_level: RiskLevel,
    ) -> (r: Self)
        ensures
            r.rule_id_view() == rule_id@,
            r.action_view() == action,
            r.target_view() == target,
            r.profile_view() == profile,
            r.risk_view() == risk_level,
            r.changes() == Seq::<MetadataChangeView>::empty(),
    {
        let r = FileActionRequest {
            rule_id,
            action,
            target,
            profile,
            risk_level,
            metadata_changes: Vec::new(),
        };
        assert(r.changes() =~= Seq::<MetadataChangeView>::empty());
        r
    }

    /// Appends a metadata change, run after the action.
    pub fn push_metadata_change(&mut self, change: MetadataChange)
        ensures
            final(self).changes() == old(self).changes().push(change@),
            final(self).rule_id_view() == old(self).rule_id_view(),
            final(self).action_view() == old(self).action_view(),
            final(self).target_view() == old(self).target_view(),
            final(self).profile_view() == old(self).profile_view(),
            final(self).risk_view() == old(self).risk_view(),
    {
        let ghost before = self.metadata_changes@;
        self.metadata_changes.push(change);
        assert(changes_view(self.metadata_changes@) =~= changes_view(before).push(change@));
    }

    /// The rule.
    pub fn rule_id(&self) -> (r: &RuleId)
        ensures
            r@ == self.rule_id_view(),
    {
        &self.rule_id
    }

    /// The action.
    pub fn action(&self) -> (r: FileActionKind)
        ensures
            r == self.action_view(),
    {
        self.action
    }

    /// The target.
    pub fn target(&self) -> (r: &FileActionTarget)
        ensures
            *r == self.target_view(),
    {
        &self.target
    }

    /// The profile.
    pub fn profile(&self) -> (r: ProfileKind)
        ensures
            r == self.profile_view(),
    {
        self.profile
    }

    /// The risk level.
    pub fn risk_level(&self) -> (r: RiskLevel)
        ensures
            r == self.risk_view(),
    {
        self.risk_level
    }

    /// The metadata changes, in order.
    pub fn metadata_changes(&self) -> (r: &[MetadataChange])
        ensures
            changes_view(r@) == self.changes(),
    {
        self.metadata_changes.as_slice()
    }
}

} // verus!
