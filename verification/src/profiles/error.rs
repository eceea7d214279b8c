//! Errors of profile execution.
use vstd::prelude::*;

use crate::command_runner::error::{CommandError, CommandErrorView};

verus! {

/// A profile error, taken by contents.
pub enum ProfileErrorView {
    Command(CommandErrorView),
    Runner { detail: Seq<char> },
    Io { path: Seq<char>, detail: Seq<char> },
    Xml { path: Seq<char>, reason: Seq<char> },
    Json { detail: Seq<char> },
    InvalidRule { field: Seq<char>, value: Seq<char>, reason: Seq<char> },
}

/// An error of Android profile execution.
#[derive(Debug)]
#[non_exhaustive]
pub enum ProfileError {
    /// A command adapter refused or failed.
    Command(CommandError),
    /// A command could not be started.
    Runner {
        /// What went wrong.
        detail: String,
    },
    /// A file could not be read or written.
    Io {
        /// The path.
        path: String,
        /// What went wrong.
        detail: String,
    },
    /// XML could not be parsed or rewritten.
    Xml {
        /// The path.
        path: String,
        /// Why.
        reason: String,
    },
    /// A record could not be encoded or decoded.
    Json {
        /// What went wrong.
        detail: String,
    },
    /// A rule field breaks the profile's bounds.
    InvalidRule {
        /// Field name.
        field: &'static str,
        /// The value.
        value: String,
        /// Why it was refused.
        reason: &'static str,
    },
}

impl View for ProfileError {
    type V = ProfileErrorView;

    open spec fn view(&self) -> ProfileErrorView {
        match self {
            ProfileError::Command(e) => ProfileErrorView::Command(e@),
            ProfileError::Runner { detail } => ProfileErrorView::Runner { detail: detail@ },
            ProfileError::Io { path, detail } => ProfileErrorView::Io { path: path@, detail: detail@ },
            ProfileError::Xml { path, reason } => ProfileErrorView::Xml { path: path@, reason: reason@ },
            ProfileError::Json { detail } => ProfileErrorView::Json { detail: detail@ },
            ProfileError::InvalidRule { field, value, reason } => ProfileErrorView::InvalidRule {
                field: field@,
                value: value@,
                reason: reason@,
            },
        }
    }
}

/// Whether a fallible step succeeded, or its error by contents.
pub open spec fn profile_check<T>(r: Result<T, ProfileError>) -> Result<(), ProfileErrorView> {
    match r {
        Ok(_) => Ok(()),
        Err(e) => Err(e@),
    }
}

/// A command-layer check lifted to the profile layer.
pub open spec fn lift(r: Result<(), CommandErrorView>) -> Result<(), ProfileErrorView> {
    match r {
        Ok(()) => Ok(()),
        Err(e) => Err(ProfileErrorView::Command(e)),
    }
}

pub open spec fn then_profile(
    first: Result<(), ProfileErrorView>,
    second: Result<(), ProfileErrorView>,
) -> Result<(), ProfileErrorView> {
    if first is Err {
        first
    } else {
        second
    }
}

pub open spec fn invalid_rule(field: Seq<char>, value: Seq<char>, reason: Seq<char>) -> Result<
    (),
    ProfileErrorView,
> {
    Err(ProfileErrorView::InvalidRule { field, value, reason })
}

impl ProfileError {
    /// An `InvalidRule` error.
    pub fn invalid_rule(field: &'static str, value: &str, reason: &'static str) -> (r: Self)
        ensures
            r@ == (ProfileErrorView::InvalidRule { field: field@, value: value@, reason: reason@ }),
    {
        ProfileError::InvalidRule { field, value: value.to_owned(), reason }
    }

    /// An `Xml` error.
    pub fn xml(path: &str, reason: String) -> (r: Self)
        ensures
            r@ == (ProfileErrorView::Xml { path: path@, reason: reason@ }),
    {
        ProfileError::Xml { path: path.to_owned(), reason }
    }
}

/// Converts command errors: `ProfileError::Command`.
pub fn from_command(e: CommandError) -> (r: ProfileError)
    ensures
        r@ == ProfileErrorView::Command(e@),
{
    ProfileError::Command(e)
}

} // verus!
