//! Errors of the command adapters.
use vstd::prelude::*;

use crate::command_runner::invocation::{CommandInvocation, InvocationView};

verus! {

/// Errors of the command adapters, taken by their contents.
pub enum CommandErrorView {
    InvalidArgument { field: Seq<char>, value: Seq<char>, reason: Seq<char> },
    DeniedSettingsKey { key: Seq<char>, reason: Seq<char> },
    UnsupportedReadOnlyPhase { phase: Seq<char>, intent: Seq<char> },
    CommandUnavailable { invocation: InvocationView, detail: Seq<char> },
    CommandFailed { invocation: InvocationView, status: i32, stdout: Seq<char>, stderr: Seq<char> },
}

/// An error of the Android command adapters.
#[derive(Debug, Clone, PartialEq, Eq)]
#[non_exhaustive]
pub enum CommandError {
    /// An argument breaks the adapter's constraints.
    InvalidArgument {
        /// The argument's field name.
        field: &'static str,
        /// The rejected value.
        value: String,
        /// Why it was rejected.
        reason: &'static str,
    },
    /// A settings key outside the allowlist, or in a refused category.
    DeniedSettingsKey {
        /// The settings key.
        key: String,
        /// Why it was refused.
        reason: &'static str,
    },
    /// A read-only adapter was asked to mutate.
    UnsupportedReadOnlyPhase {
        /// The refused phase.
        phase: &'static str,
        /// The observable intent.
        intent: String,
    },
    /// The command could not be started.
    CommandUnavailable {
        /// The attempted invocation.
        invocation: CommandInvocation,
        /// What went wrong.
        detail: String,
    },
    /// The command exited with a non-zero status.
    CommandFailed {
        /// The invocation.
        invocation: CommandInvocation,
        /// Exit status.
        status: i32,
        /// Standard output.
        stdout: String,
        /// Standard error.
        stderr: String,
    },
}

impl View for CommandError {
    type V = CommandErrorView;

    open spec fn view(&self) -> CommandErrorView {
        match self {
            CommandError::InvalidArgument { field, value, reason } => CommandErrorView::InvalidArgument {
                field: field@,
                value: value@,
                reason: reason@,
            },
            CommandError::DeniedSettingsKey { key, reason } => CommandErrorView::DeniedSettingsKey {
                key: key@,
                reason: reason@,
            },
            CommandError::UnsupportedReadOnlyPhase { phase, intent } => CommandErrorView::UnsupportedReadOnlyPhase {
                phase: phase@,
                intent: intent@,
            },
            CommandError::CommandUnavailable { invocation, detail } => CommandErrorView::CommandUnavailable {
                invocation: invocation@,
                detail: detail@,
            },
            CommandError::CommandFailed {
                invocation,
                status,
                stdout,
                stderr,
            } => CommandErrorView::CommandFailed {
                invocation: invocation@,
                status: *status,
                stdout: stdout@,
                stderr: stderr@,
            },
        }
    }
}

/// The outcome of a check, taken by its error's contents.
pub open spec fn check_view(r: Result<(), CommandError>) -> Result<(), CommandErrorView> {
    match r {
        Ok(()) => Ok(()),
        Err(e) => Err(e@),
    }
}

/// Whether a fallible construction succeeded, or its error by contents.
pub open spec fn result_check<T>(r: Result<T, CommandError>) -> Result<(), CommandErrorView> {
    match r {
        Ok(_) => Ok(()),
        Err(e) => Err(e@),
    }
}

/// The `InvalidArgument` error with these contents.
pub open spec fn invalid(field: Seq<char>, value: Seq<char>, reason: Seq<char>) -> Result<
    (),
    CommandErrorView,
> {
    Err(CommandErrorView::InvalidArgument { field, value, reason })
}

/// The `DeniedSettingsKey` error with these contents.
pub open spec fn denied(key: Seq<char>, reason: Seq<char>) -> Result<(), CommandErrorView> {
    Err(CommandErrorView::DeniedSettingsKey { key, reason })
}

/// Checks run in order: the first failure wins.
pub open spec fn then_check(
    first: Result<(), CommandErrorView>,
    second: Result<(), CommandErrorView>,
) -> Result<(), CommandErrorView> {
    if first is Err {
        first
    } else {
        second
    }
}

impl CommandError {
    /// An `InvalidArgument` error.
    pub fn invalid_argument(field: &'static str, value: &str, reason: &'static str) -> (r: Self)
        ensures
            r@ == (CommandErrorView::InvalidArgument { field: field@, value: value@, reason: reason@ }),
    {
        CommandError::InvalidArgument { field, value: value.to_owned(), reason }
    }

    /// A `DeniedSettingsKey` error.
    pub fn denied_settings_key(key: &str, reason: &'static str) -> (r: Self)
        ensures
            r@ == (CommandErrorView::DeniedSettingsKey { key: key@, reason: reason@ }),
    {
        CommandError::DeniedSettingsKey { key: key.to_owned(), reason }
    }

    /// An `UnsupportedReadOnlyPhase` error.
    pub fn unsupported_read_only_phase(phase: &'static str, intent: String) -> (r: Self)
        ensures
            r@ == (CommandErrorView::UnsupportedReadOnlyPhase { phase: phase@, intent: intent@ }),
    {
        CommandError::UnsupportedReadOnlyPhase { phase, intent }
    }
}

} // verus!
