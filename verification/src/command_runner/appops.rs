//! `cmd appops`.
use vstd::prelude::*;

use crate::command_runner::adapter::{phase_name, AndroidCommandAdapter, CommandPhase};
use crate::command_runner::error::{
    check_view, invalid, result_check, then_check, CommandError, CommandErrorView,
};
use crate::command_runner::invocation::{invocation, strs_view, CommandInvocation, InvocationView};
use crate::command_runner::validation::{
    appop_check, package_check, validate_appop, validate_package,
};
use crate::text;

verus! {

pub const CMD: &'static str = "/system/bin/cmd";

pub const APPOP_MODE_REASON: &'static str = "unsupported appop mode";

/// The modes that `cmd appops set` accepts here.
pub open spec fn is_appop_mode(mode: Seq<char>) -> bool {
    mode == "allow"@ || mode == "foreground"@ || mode == "ignore"@ || mode == "deny"@ || mode
        == "default"@
}

pub open spec fn appop_mode_check(mode: Seq<char>) -> Result<(), CommandErrorView> {
    if is_appop_mode(mode) {
        Ok(())
    } else {
        invalid("appop_mode"@, mode, APPOP_MODE_REASON@)
    }
}

/// The checks of `AppOpsAdapter::new`, in order.
pub open spec fn appops_check(
    package: Seq<char>,
    op: Seq<char>,
    apply_mode: Seq<char>,
    restore_mode: Seq<char>,
) -> Result<(), CommandErrorView> {
    then_check(
        package_check("package"@, package),
        then_check(
            appop_check(op),
            then_check(appop_mode_check(apply_mode), appop_mode_check(restore_mode)),
        ),
    )
}

/// `cmd appops set <package> <op> <mode>`.
pub open spec fn appops_set(package: Seq<char>, op: Seq<char>, mode: Seq<char>) -> InvocationView {
    invocation(CMD@, seq!["appops"@, "set"@, package, op, mode])
}

/// `cmd appops get <package> <op>`.
pub open spec fn appops_get(package: Seq<char>, op: Seq<char>) -> InvocationView {
    invocation(CMD@, seq!["appops"@, "get"@, package, op])
}

/// The intent of an AppOps call.
pub open spec fn appops_intent(phase: CommandPhase, package: Seq<char>, op: Seq<char>) -> Seq<char> {
    phase_name(phase) + " appop "@ + op + " for "@ + package
}

/// The `cmd appops` adapter.
#[derive(Debug, Clone, PartialEq, Eq)]
pub struct AppOpsAdapter {
    package: String,
    op: String,
    apply_mode: String,
    restore_mode: String,
}

/// A supported AppOps mode.
pub fn validate_appop_mode(mode: &str) -> (r: Result<(), CommandError>)
    ensures
        check_view(r) == appop_mode_check(mode@),
{
    if text::str_eq(mode, "allow") || text::str_eq(mode, "foreground") || text::str_eq(
        mode,
        "ignore",
    ) || text::str_eq(mode, "deny") || text::str_eq(mode, "default") {
        Ok(())
    } else {
        Err(CommandError::invalid_argument("appop_mode", mode, APPOP_MODE_REASON))
    }
}

impl AppOpsAdapter {
    pub closed spec fn package_view(&self) -> Seq<char> {
        self.package@
    }

    pub closed spec fn op_view(&self) -> Seq<char> {
        self.op@
    }

    pub closed spec fn apply_mode_view(&self) -> Seq<char> {
        self.apply_mode@
    }

    pub closed spec fn restore_mode_view(&self) -> Seq<char> {
        self.restore_mode@
    }

    /// An AppOps adapter; every argument is validated.
    pub fn new(package: &str, op: &str, apply_mode: &str, restore_mode: &str) -> (r: Result<
        Self,
        CommandError,
    >)
        ensures
            result_check(r) == appops_check(package@, op@, apply_mode@, restore_mode@),
            r matches Ok(a) ==> {
                &&& a.package_view() == package@
                &&& a.op_view() == op@
                &&& a.apply_mode_view() == apply_mode@
                &&& a.restore_mode_view() == restore_mode@
            },
    {
        validate_package("package", package)?;
        validate_appop(op)?;
        validate_appop_mode(apply_mode)?;
        validate_appop_mode(restore_mode)?;
        Ok(
            AppOpsAdapter {
                package: package.to_owned(),
                op: op.to_owned(),
                apply_mode: apply_mode.to_owned(),
                restore_mode: restore_mode.to_owned(),
            },
        )
    }

    fn set_command(&self, mode: &str) -> (r: CommandInvocation)
        ensures
            r@ == appops_set(self.package@, self.op@, mode@),
    {
        let args = ["appops", "set", self.package.as_str(), self.op.as_str(), mode];
        assert(strs_view(args@) =~= seq!["appops"@, "set"@, self.package@, self.op@, mode@]);
        CommandInvocation::new(CMD, args.as_slice())
    }
}

impl AndroidCommandAdapter for AppOpsAdapter {
    open spec fn spec_command(&self, phase: CommandPhase) -> InvocationView {
        match phase {
            CommandPhase::Probe => appops_get(self.package_view(), self.op_view()),
            CommandPhase::Apply => appops_set(self.package_view(), self.op_view(), self.apply_mode_view()),
            CommandPhase::Restore => appops_set(self.package_view(), self.op_view(), self.restore_mode_view()),
        }
    }

    open spec fn spec_intent(&self, phase: CommandPhase) -> Seq<char> {
        appops_intent(phase, self.package_view(), self.op_view())
    }

    fn command(&self, phase: CommandPhase) -> (r: CommandInvocation) {
        match phase {
            CommandPhase::Probe => {
                let args = ["appops", "get", self.package.as_str(), self.op.as_str()];
                assert(strs_view(args@) =~= seq!["appops"@, "get"@, self.package@, self.op@]);
                CommandInvocation::new(CMD, args.as_slice())
            },
            CommandPhase::Apply => self.set_command(self.apply_mode.as_str()),
            CommandPhase::Restore => self.set_command(self.restore_mode.as_str()),
        }
    }

    fn intent(&self, phase: CommandPhase) -> (r: String) {
        let mut s = phase.as_str().to_owned();
        s.append(" appop ");
        s.append(self.op.as_str());
        s.append(" for ");
        s.append(self.package.as_str());
        s
    }
}

} // verus!
