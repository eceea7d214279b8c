//! Errors of the immutable-attribute path.
use vstd::prelude::*;

use crate::command_runner::runner::{runner_error_detail, CommandRunnerError};

verus! {

/// An immutable error, taken by contents.
pub enum ImmutableErrorView {
    CommandUnavailable { program: Seq<char>, detail: Seq<char> },
    CommandFailed {
        program: Seq<char>,
        args: Seq<Seq<char>>,
        status: i32,
        stdout: Seq<char>,
        stderr: Seq<char>,
    },
    MalformedLsattr { stdout: Seq<char> },
    UnscriptedCommand { program: Seq<char>, args: Seq<Seq<char>> },
}

/// An error of the immutable-attribute path.
#[derive(Debug, Clone, PartialEq, Eq)]
#[non_exhaustive]
pub enum ImmutableError {
    /// The command is missing or could not be started.
    CommandUnavailable {
        /// Command name.
        program: String,
        /// What went wrong.
        detail: String,
    },
    /// The command failed, or its output holds a failure marker.
    CommandFailed {
        /// Command name.
        program: String,
        /// Arguments.
        args: Vec<String>,
        /// Exit status.
        status: i32,
        /// Standard output.
        stdout: String,
        /// Standard error.
        stderr: String,
    },
    /// `lsattr` output that cannot be parsed.
    MalformedLsattr {
        /// The raw standard output.
        stdout: String,
    },
    /// A scripted runner got a command it had no answer for.
    UnscriptedCommand {
        /// Command name.
        program: String,
        /// Arguments.
        args: Vec<String>,
    },
}

impl View for ImmutableError {
    type V = ImmutableErrorView;

    open spec fn view(&self) -> ImmutableErrorView {
        match self {
            ImmutableError::CommandUnavailable { program, detail } => ImmutableErrorView::CommandUnavailable {
                program: program@,
                detail: detail@,
            },
            ImmutableError::CommandFailed { program, args, status, stdout, stderr } => ImmutableErrorView::CommandFailed {
                program: program@,
                args: args.deep_view(),
                status: *status,
                stdout: stdout@,
                stderr: stderr@,
            },
            ImmutableError::MalformedLsattr { stdout } => ImmutableErrorView::MalformedLsattr {
                stdout: stdout@,
            },
            ImmutableError::UnscriptedCommand { program, args } => ImmutableErrorView::UnscriptedCommand {
                program: program@,
                args: args.deep_view(),
            },
        }
    }
}

/// The error of a tool the runner could not start: `program`, with the
/// runner's detail.
pub fn unavailable_from_runner(program: &str, error: CommandRunnerError) -> (r: ImmutableError)
    ensures
        r@ == (ImmutableErrorView::CommandUnavailable { program: program@, detail: runner_error_detail(error@) }),
{
    let detail = match error {
        CommandRunnerError::NotFound { detail } => detail,
        CommandRunnerError::Unavailable { detail } => detail,
    };
    ImmutableError::CommandUnavailable { program: program.to_owned(), detail }
}

} // verus!
