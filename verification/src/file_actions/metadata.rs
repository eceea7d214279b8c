//! Metadata steps that follow a file action.
use vstd::prelude::*;

verus! {

/// A metadata change requested after the action.
#[derive(Debug, Clone, PartialEq, Eq)]
#[non_exhaustive]
pub enum MetadataChange {
    /// Set the owner uid and gid.
    SetOwner { uid: u32, gid: u32 },
    /// Set an explicitly given `SELinux` context.
    SetSelinuxContext { context: String },
    /// Set again the `SELinux` context known from before the action.
    RestoreSelinuxContext,
}

pub enum MetadataChangeView {
    SetOwner { uid: u32, gid: u32 },
    SetSelinuxContext { context: Seq<char> },
    RestoreSelinuxContext,
}

impl View for MetadataChange {
    type V = MetadataChangeView;

    open spec fn view(&self) -> MetadataChangeView {
        match self {
            MetadataChange::SetOwner { uid, gid } => MetadataChangeView::SetOwner { uid: *uid, gid: *gid },
            MetadataChange::SetSelinuxContext { context } => MetadataChangeView::SetSelinuxContext {
                context: context@,
            },
            MetadataChange::RestoreSelinuxContext => MetadataChangeView::RestoreSelinuxContext,
        }
    }
}

impl MetadataChange {
    /// A `chown` request.
    pub fn set_owner(uid: u32, gid: u32) -> (r: Self)
        ensures
            r@ == (MetadataChangeView::SetOwner { uid, gid }),
    {
        MetadataChange::SetOwner { uid, gid }
    }

    /// An explicit `chcon` request.
    pub fn set_selinux_context(context: &str) -> (r: Self)
        ensures
            r@ == (MetadataChangeView::SetSelinuxContext { context: context@ }),
    {
        MetadataChange::SetSelinuxContext { context: context.to_owned() }
    }

    /// A `chcon` request for the context known before the action.
    pub fn restore_selinux_context() -> (r: Self)
        ensures
            r@ == MetadataChangeView::RestoreSelinuxContext,
    {
        MetadataChange::RestoreSelinuxContext
    }

    /// A copy of this change.
    pub fn duplicate(&self) -> (r: Self)
        ensures
            r@ == self@,
    {
        match self {
            MetadataChange::SetOwner { uid, gid } => MetadataChange::SetOwner { uid: *uid, gid: *gid },
            MetadataChange::SetSelinuxContext { context } => MetadataChange::SetSelinuxContext {
                context: context.clone(),
            },
            MetadataChange::RestoreSelinuxContext => MetadataChange::RestoreSelinuxContext,
        }
    }
}

/// What a metadata step did.
#[derive(Debug, Clone, PartialEq, Eq)]
#[non_exhaustive]
pub enum MetadataOperation {
    /// The owner was set.
    SetOwner { uid: u32, gid: u32 },
    /// The `SELinux` context was set.
    Chcon { context: String },
    /// The context before the action is unknown, so `chcon` was skipped.
    SkippedChconUnknownContext,
}

pub enum MetadataOperationView {
    SetOwner { uid: u32, gid: u32 },
    Chcon { context: Seq<char> },
    SkippedChconUnknownContext,
}

impl View for MetadataOperation {
    type V = MetadataOperationView;

    open spec fn view(&self) -> MetadataOperationView {
        match self {
            MetadataOperation::SetOwner { uid, gid } => MetadataOperationView::SetOwner { uid: *uid, gid: *gid },
            MetadataOperation::Chcon { context } => MetadataOperationView::Chcon { context: context@ },
            MetadataOperation::SkippedChconUnknownContext => MetadataOperationView::SkippedChconUnknownContext,
        }
    }
}

} // verus!
