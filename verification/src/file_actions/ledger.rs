//! The restore record of a planned action.
use vstd::prelude::*;

use crate::file_actions::plan::FileActionPlan;
use crate::file_actions::request::{kind_ledger_action, FileActionKind};
use crate::file_actions::snapshot::{SnapshotView, TargetSnapshot};
use crate::model::profile_name;
use crate::restore_ledger::{
    now_utc, LedgerRecord, LedgerRecordView, OriginalFileType, RestoreStep, RestoreStepView,
};

verus! {

/// Actions that create something where nothing was.
pub open spec fn creates_placeholder(action: FileActionKind) -> bool {
    action == FileActionKind::EmptyFile || action == FileActionKind::EmptyDir
}

/// The steps that undo an action: the backup copy is put back (or the
/// created placeholder removed), then mode and owner are set again when
/// the target existed, then the known `SELinux` context.
pub open spec fn restore_steps_spec(
    action: FileActionKind,
    snapshot: SnapshotView,
    backup_path: Option<Seq<char>>,
) -> Seq<RestoreStepView> {
    let content = match backup_path {
        Some(p) => seq![RestoreStepView::RestoreContent { backup_path: p }],
        None => if creates_placeholder(action) {
            seq![RestoreStepView::RemovePlaceholder]
        } else {
            Seq::empty()
        },
    };
    let attributes = if snapshot.original_type != OriginalFileType::Missing {
        seq![
            RestoreStepView::SetMode { mode: snapshot.mode },
            RestoreStepView::SetOwner { uid: snapshot.uid, gid: snapshot.gid },
        ]
    } else {
        Seq::empty()
    };
    let context = match snapshot.selinux_context {
        Some(c) => seq![RestoreStepView::SetSelinuxContext { context: c }],
        None => Seq::empty(),
    };
    content + attributes + context
}

pub open spec fn opt_str_view(o: Option<&str>) -> Option<Seq<char>> {
    match o {
        Some(s) => Some(s@),
        None => None,
    }
}

/// The record of a plan at a given time.
pub open spec fn record_spec(
    plan: FileActionPlan,
    snapshot: SnapshotView,
    backup_path: Option<Seq<char>>,
    timestamp: time::OffsetDateTime,
) -> LedgerRecordView {
    LedgerRecordView {
        original_path: plan.target_view().android_view(),
        action: kind_ledger_action(plan.action_view()),
        original_file_type: snapshot.original_type,
        mode: snapshot.mode,
        uid: snapshot.uid,
        gid: snapshot.gid,
        selinux_context: snapshot.selinux_context,
        immutable: false,
        timestamp,
        profile: profile_name(plan.profile_view()),
        restore_steps: restore_steps_spec(plan.action_view(), snapshot, backup_path),
    }
}

fn push_step(steps: &mut Vec<RestoreStep>, step: RestoreStep)
    ensures
        final(steps)@.map_values(|s: RestoreStep| s@) == old(steps)@.map_values(|s: RestoreStep| s@).push(step@),
{
    steps.push(step);
    assert(final(steps)@.map_values(|s: RestoreStep| s@) =~= old(steps)@.map_values(|s: RestoreStep| s@).push(step@));
}

/// The steps that undo an action.
pub fn restore_steps(action: FileActionKind, snapshot: &TargetSnapshot, backup_path: Option<&str>) -> (r: Vec<
    RestoreStep,
>)
    ensures
        r@.map_values(|s: RestoreStep| s@) == restore_steps_spec(action, snapshot@, opt_str_view(backup_path)),
{
    let mut steps: Vec<RestoreStep> = Vec::new();
    match backup_path {
        Some(path) => push_step(&mut steps, RestoreStep::RestoreContent { backup_path: path.to_owned() }),
        None => {
            if action == FileActionKind::EmptyFile || action == FileActionKind::EmptyDir {
                push_step(&mut steps, RestoreStep::RemovePlaceholder);
            }
        },
    }
    if snapshot.original_type != OriginalFileType::Missing {
        push_step(&mut steps, RestoreStep::SetMode { mode: snapshot.mode });
        push_step(&mut steps, RestoreStep::SetOwner { uid: snapshot.uid, gid: snapshot.gid });
    }
    match &snapshot.selinux_context {
        Some(context) => push_step(&mut steps, RestoreStep::SetSelinuxContext { context: context.clone() }),
        None => {},
    }
    assert(steps@.map_values(|s: RestoreStep| s@) =~= restore_steps_spec(action, snapshot@, opt_str_view(backup_path)));
    steps
}

/// The record of a plan, stamped `timestamp`.
pub fn record_at(
    plan: &FileActionPlan,
    snapshot: &TargetSnapshot,
    backup_path: Option<&str>,
    timestamp: time::OffsetDateTime,
) -> (r: LedgerRecord)
    ensures
        r@ == record_spec(*plan, snapshot@, opt_str_view(backup_path), timestamp),
{
    LedgerRecord {
        original_path: plan.target().android_path().to_owned(),
        action: plan.action().ledger_action(),
        original_file_type: snapshot.original_type,
        mode: snapshot.mode,
        uid: snapshot.uid,
        gid: snapshot.gid,
        selinux_context: match &snapshot.selinux_context {
            Some(c) => Some(c.clone()),
            None => None,
        },
        immutable: false,
        timestamp,
        profile: plan.profile().as_str().to_owned(),
        restore_steps: restore_steps(plan.action(), snapshot, backup_path),
    }
}

/// The record of a plan, stamped with the current time.
pub fn record_for(plan: &FileActionPlan, snapshot: &TargetSnapshot, backup_path: Option<&str>) -> (r:
    LedgerRecord)
    ensures
        r@ == record_spec(*plan, snapshot@, opt_str_view(backup_path), r@.timestamp),
{
    record_at(plan, snapshot, backup_path, now_utc())
}

} // verus!
