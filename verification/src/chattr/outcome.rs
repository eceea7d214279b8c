//! Observable results of an immutable attempt.
use vstd::prelude::*;

use crate::chattr::command::CommandInvocation;
use crate::chattr::error::{ImmutableError, ImmutableErrorView};

verus! {

/// An executed command, taken by contents.
pub struct ObservedView {
    pub program: Seq<char>,
    pub args: Seq<Seq<char>>,
    pub status: i32,
}

/// Summary of an executed command.
#[derive(Debug, Clone, PartialEq, Eq)]
pub struct ObservedCommand {
    program: String,
    args: Vec<String>,
    status: i32,
}

impl View for ObservedCommand {
    type V = ObservedView;

    closed spec fn view(&self) -> ObservedView {
        ObservedView { program: self.program@, args: self.args.deep_view(), status: self.status }
    }
}

impl ObservedCommand {
    /// The summary of `invocation` that exited with `status`.
    pub fn from_invocation(invocation: &CommandInvocation, status: i32) -> (r: Self)
        ensures
            r@ == (ObservedView { program: invocation@.program, args: invocation@.args, status }),
    {
        ObservedCommand {
            program: invocation.program().to_owned(),
            args: invocation.args_vec(),
            status,
        }
    }

    /// The command name.
    pub fn program(&self) -> (r: &str)
        ensures
            r@ == self@.program,
    {
        self.program.as_str()
    }

    /// The arguments.
    pub fn args(&self) -> (r: &[String])
        ensures
            r@.map_values(|a: String| a@) == self@.args,
    {
        self.args.as_slice()
    }

    /// The exit status.
    pub fn status(&self) -> (r: i32)
        ensures
            r == self@.status,
    {
        self.status
    }
}

/// An immutable outcome, taken by contents.
pub enum ImmutableOutcomeView {
    Skipped { target: Seq<char>, reason: Seq<char> },
    Applied { target: Seq<char>, original_attrs: Option<Seq<char>>, command: ObservedView },
    Degraded {
        target: Seq<char>,
        original_attrs: Option<Seq<char>>,
        reason: Seq<char>,
        error: ImmutableErrorView,
    },
}

pub open spec fn opt_seq(o: Option<String>) -> Option<Seq<char>> {
    match o {
        Some(s) => Some(s@),
        None => None,
    }
}

/// The observable result of an immutable attempt.
#[derive(Debug, Clone, PartialEq, Eq)]
#[non_exhaustive]
pub enum ImmutableOutcome {
    /// A profile other than the strong one only plans.
    Skipped {
        /// Target path.
        target: String,
        /// Why nothing was done.
        reason: String,
    },
    /// The strong profile applied the immutable attribute.
    Applied {
        /// Target path.
        target: String,
        /// Attributes before the change.
        original_attrs: Option<String>,
        /// The command that ran.
        command: ObservedCommand,
    },
    /// A missing capability or failed command, degraded to an observable result.
    Degraded {
        /// Target path.
        target: String,
        /// Attributes before the change, when they were read.
        original_attrs: Option<String>,
        /// Why it degraded.
        reason: &'static str,
        /// The underlying error.
        error: ImmutableError,
    },
}

impl View for ImmutableOutcome {
    type V = ImmutableOutcomeView;

    open spec fn view(&self) -> ImmutableOutcomeView {
        match self {
            ImmutableOutcome::Skipped { target, reason } => ImmutableOutcomeView::Skipped {
                target: target@,
                reason: reason@,
            },
            ImmutableOutcome::Applied { target, original_attrs, command } => ImmutableOutcomeView::Applied {
                target: target@,
                original_attrs: opt_seq(*original_attrs),
                command: command@,
            },
            ImmutableOutcome::Degraded { target, original_attrs, reason, error } => ImmutableOutcomeView::Degraded {
                target: target@,
                original_attrs: opt_seq(*original_attrs),
                reason: reason@,
                error: error@,
            },
        }
    }
}

} // verus!
