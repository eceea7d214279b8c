//! `chcon`, `chattr` and `lsattr`.
use vstd::prelude::*;

use crate::command_runner::adapter::{
    phase_name, read_only_refusal, outcome_result_view, AndroidCommandAdapter, CommandOutcome,
    CommandPhase,
};
use crate::command_runner::error::{
    check_view, invalid, result_check, then_check, CommandError, CommandErrorView,
};
use crate::command_runner::invocation::{invocation, strs_view, CommandInvocation, InvocationView};
use crate::command_runner::runner::AndroidCommandRunner;
use crate::text;

verus! {

pub const CHCON: &'static str = "/system/bin/chcon";

pub const CHATTR: &'static str = "/system/bin/chattr";

pub const LSATTR: &'static str = "/system/bin/lsattr";

pub const PATH_REASON: &'static str =
    "path must be non-empty, contain no NUL, and not look like a command option";

pub const ARG_REASON: &'static str = "argument must be non-empty and contain no whitespace";

/// A target path: non-empty, without NUL, not option-like.
pub open spec fn path_check(path: Seq<char>) -> Result<(), CommandErrorView> {
    if path.len() == 0 || path.contains('\0') || text::starts_with_char(path, '-') {
        invalid("target"@, path, PATH_REASON@)
    } else {
        Ok(())
    }
}

/// A plain argument: non-empty, without whitespace or NUL.
pub open spec fn arg_check(field: Seq<char>, value: Seq<char>) -> Result<(), CommandErrorView> {
    if value.len() == 0 || text::has_ws(value) || value.contains('\0') {
        invalid(field, value, ARG_REASON@)
    } else {
        Ok(())
    }
}

/// A target path: non-empty, without NUL, not option-like.
pub fn validate_path(path: &str) -> (r: Result<(), CommandError>)
    ensures
        check_view(r) == path_check(path@),
{
    if path.unicode_len() == 0 || text::str_has_char(path, '\0') || text::starts_with(path, '-') {
        return Err(CommandError::invalid_argument("target", path, PATH_REASON));
    }
    Ok(())
}

/// A plain argument: non-empty, without whitespace or NUL.
pub fn validate_arg(field: &'static str, value: &str) -> (r: Result<(), CommandError>)
    ensures
        check_view(r) == arg_check(field@, value@),
{
    if value.unicode_len() == 0 || text::str_has_whitespace(value) || text::str_has_char(
        value,
        '\0',
    ) {
        return Err(CommandError::invalid_argument(field, value, ARG_REASON));
    }
    Ok(())
}

/// `program <a> <b>`.
fn two_arg(program: &'static str, a: &str, b: &str) -> (r: CommandInvocation)
    ensures
        r@ == invocation(program@, seq![a@, b@]),
{
    let args = [a, b];
    assert(strs_view(args@) =~= seq![a@, b@]);
    CommandInvocation::new(program, args.as_slice())
}

/// `program <a>`.
fn one_arg(program: &'static str, a: &str) -> (r: CommandInvocation)
    ensures
        r@ == invocation(program@, seq![a@]),
{
    let args = [a];
    assert(strs_view(args@) =~= seq![a@]);
    CommandInvocation::new(program, args.as_slice())
}

/// `<phase><middle><target>`.
fn phrase(phase: CommandPhase, middle: &str, target: &str) -> (r: String)
    ensures
        r@ == phase_name(phase) + middle@ + target@,
{
    let mut s = phase.as_str().to_owned();
    s.append(middle);
    s.append(target);
    s
}

/// The `chcon` adapter.
#[derive(Debug, Clone, PartialEq, Eq)]
pub struct ChconAdapter {
    target: String,
    apply_context: String,
    restore_context: String,
}

impl ChconAdapter {
    pub closed spec fn target_view(&self) -> Seq<char> {
        self.target@
    }

    pub closed spec fn apply_context_view(&self) -> Seq<char> {
        self.apply_context@
    }

    pub closed spec fn restore_context_view(&self) -> Seq<char> {
        self.restore_context@
    }

    /// A SELinux context adapter.
    pub fn new(target: &str, apply_context: &str, restore_context: &str) -> (r: Result<
        Self,
        CommandError,
    >)
        ensures
            result_check(r) == then_check(
                path_check(target@),
                then_check(
                    arg_check("selinux_context"@, apply_context@),
                    arg_check("selinux_restore_context"@, restore_context@),
                ),
            ),
            r matches Ok(a) ==> a.target_view() == target@ && a.apply_context_view()
                == apply_context@ && a.restore_context_view() == restore_context@,
    {
        validate_path(target)?;
        validate_arg("selinux_context", apply_context)?;
        validate_arg("selinux_restore_context", restore_context)?;
        Ok(
            ChconAdapter {
                target: target.to_owned(),
                apply_context: apply_context.to_owned(),
                restore_context: restore_context.to_owned(),
            },
        )
    }
}

impl AndroidCommandAdapter for ChconAdapter {
    open spec fn spec_command(&self, phase: CommandPhase) -> InvocationView {
        match phase {
            CommandPhase::Probe => invocation(CHCON@, seq!["--help"@]),
            CommandPhase::Apply => invocation(CHCON@, seq![self.apply_context_view(), self.target_view()]),
            CommandPhase::Restore => invocation(CHCON@, seq![self.restore_context_view(), self.target_view()]),
        }
    }

    open spec fn spec_intent(&self, phase: CommandPhase) -> Seq<char> {
        phase_name(phase) + " selinux context for "@ + self.target_view()
    }

    fn command(&self, phase: CommandPhase) -> (r: CommandInvocation) {
        match phase {
            CommandPhase::Probe => one_arg(CHCON, "--help"),
            CommandPhase::Apply => two_arg(CHCON, self.apply_context.as_str(), self.target.as_str()),
            CommandPhase::Restore => two_arg(CHCON, self.restore_context.as_str(), self.target.as_str()),
        }
    }

    fn intent(&self, phase: CommandPhase) -> (r: String) {
        phrase(phase, " selinux context for ", self.target.as_str())
    }
}

/// The `chattr` adapter.
#[derive(Debug, Clone, PartialEq, Eq)]
pub struct ChattrAdapter {
    target: String,
}

impl ChattrAdapter {
    pub closed spec fn target_view(&self) -> Seq<char> {
        self.target@
    }

    /// An immutable-attribute adapter.
    pub fn new(target: &str) -> (r: Result<Self, CommandError>)
        ensures
            result_check(r) == path_check(target@),
            r matches Ok(a) ==> a.target_view() == target@,
    {
        validate_path(target)?;
        Ok(ChattrAdapter { target: target.to_owned() })
    }
}

impl AndroidCommandAdapter for ChattrAdapter {
    open spec fn spec_command(&self, phase: CommandPhase) -> InvocationView {
        match phase {
            CommandPhase::Probe => invocation(CHATTR@, seq!["--help"@]),
            CommandPhase::Apply => invocation(CHATTR@, seq!["+i"@, self.target_view()]),
            CommandPhase::Restore => invocation(CHATTR@, seq!["-i"@, self.target_view()]),
        }
    }

    open spec fn spec_intent(&self, phase: CommandPhase) -> Seq<char> {
        phase_name(phase) + " immutable attribute for "@ + self.target_view()
    }

    fn command(&self, phase: CommandPhase) -> (r: CommandInvocation) {
        match phase {
            CommandPhase::Probe => one_arg(CHATTR, "--help"),
            CommandPhase::Apply => two_arg(CHATTR, "+i", self.target.as_str()),
            CommandPhase::Restore => two_arg(CHATTR, "-i", self.target.as_str()),
        }
    }

    fn intent(&self, phase: CommandPhase) -> (r: String) {
        phrase(phase, " immutable attribute for ", self.target.as_str())
    }
}

/// The `lsattr` adapter; it only reads.
#[derive(Debug, Clone, PartialEq, Eq)]
pub struct LsattrAdapter {
    target: String,
}

impl LsattrAdapter {
    pub closed spec fn target_view(&self) -> Seq<char> {
        self.target@
    }

    /// An attribute-reading adapter.
    pub fn new(target: &str) -> (r: Result<Self, CommandError>)
        ensures
            result_check(r) == path_check(target@),
            r matches Ok(a) ==> a.target_view() == target@,
    {
        validate_path(target)?;
        Ok(LsattrAdapter { target: target.to_owned() })
    }
}

impl AndroidCommandAdapter for LsattrAdapter {
    open spec fn spec_command(&self, phase: CommandPhase) -> InvocationView {
        invocation(LSATTR@, seq![self.target_view()])
    }

    open spec fn spec_intent(&self, phase: CommandPhase) -> Seq<char> {
        phase_name(phase) + " immutable attributes for "@ + self.target_view()
    }

    fn command(&self, phase: CommandPhase) -> (r: CommandInvocation) {
        one_arg(LSATTR, self.target.as_str())
    }

    fn intent(&self, phase: CommandPhase) -> (r: String) {
        phrase(phase, " immutable attributes for ", self.target.as_str())
    }

    fn apply<R: AndroidCommandRunner>(&self, runner: &R) -> (r: Result<CommandOutcome, CommandError>)
        ensures
            outcome_result_view(r) == read_only_refusal(CommandPhase::Apply, self.spec_intent(CommandPhase::Apply)),
    {
        Err(
            CommandError::unsupported_read_only_phase(
                CommandPhase::Apply.as_str(),
                self.intent(CommandPhase::Apply),
            ),
        )
    }

    fn restore<R: AndroidCommandRunner>(&self, runner: &R) -> (r: Result<CommandOutcome, CommandError>)
        ensures
            outcome_result_view(r) == read_only_refusal(CommandPhase::Restore, self.spec_intent(CommandPhase::Restore)),
    {
        Err(
            CommandError::unsupported_read_only_phase(
                CommandPhase::Restore.as_str(),
                self.intent(CommandPhase::Restore),
            ),
        )
    }
}

} // verus!
