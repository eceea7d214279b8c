//! `pm`: component enable/disable and package probes.
use vstd::prelude::*;

use crate::command_runner::adapter::{phase_name, AndroidCommandAdapter, CommandPhase};
use crate::command_runner::error::{
    result_check, CommandError, CommandErrorView,
};
use crate::command_runner::invocation::{invocation, strs_view, CommandInvocation, InvocationView};
use crate::command_runner::validation::{
    component_check, package_check, validate_component, validate_package,
};
use crate::text;

verus! {

pub const PM: &'static str = "/system/bin/pm";

pub const COMPONENT_SPLIT_REASON: &'static str = "component must include package/name";

/// `pm <args>`.
pub open spec fn pm(args: Seq<Seq<char>>) -> InvocationView {
    invocation(PM@, args)
}

/// The package half of `package/ClassName`.
pub open spec fn component_package(component: Seq<char>) -> Seq<char> {
    match text::split_once(component, '/') {
        Some((package, _)) => package,
        None => Seq::empty(),
    }
}

/// The package half of a component.
pub fn package_from_component(component: &str) -> (r: Result<String, CommandError>)
    ensures
        match (r, text::split_once(component@, '/')) {
            (Ok(p), Some((package, _))) => p@ == package,
            (Err(e), None) => e@ == (CommandErrorView::InvalidArgument {
                field: "component"@,
                value: component@,
                reason: COMPONENT_SPLIT_REASON@,
            }),
            _ => false,
        },
{
    match text::split_once_char(component, '/') {
        Some((package, _name)) => Ok(package),
        None => Err(CommandError::invalid_argument("component", component, COMPONENT_SPLIT_REASON)),
    }
}

fn pm_call(args: &[&str]) -> (r: CommandInvocation)
    ensures
        r@ == pm(strs_view(args@)),
{
    CommandInvocation::new(PM, args)
}

/// The argv of a component adapter's phase.
pub open spec fn component_command(
    phase: CommandPhase,
    user_id: u32,
    package: Seq<char>,
    component: Seq<char>,
) -> InvocationView {
    let user = text::decimal(user_id as nat);
    match phase {
        CommandPhase::Probe => pm(seq!["path"@, package]),
        CommandPhase::Apply => pm(seq!["disable-user"@, "--user"@, user, component]),
        CommandPhase::Restore => pm(seq!["enable"@, "--user"@, user, component]),
    }
}

/// The intent of a component adapter's phase.
pub open spec fn component_intent(phase: CommandPhase, component: Seq<char>) -> Seq<char> {
    phase_name(phase) + " component "@ + component
}

/// The `pm` component adapter: disable on apply, enable on restore.
#[derive(Debug, Clone, PartialEq, Eq)]
pub struct PmComponentAdapter {
    user_id: u32,
    package: String,
    component: String,
}

impl PmComponentAdapter {
    pub closed spec fn user_id_view(&self) -> u32 {
        self.user_id
    }

    pub closed spec fn package_view(&self) -> Seq<char> {
        self.package@
    }

    pub closed spec fn component_view(&self) -> Seq<char> {
        self.component@
    }

    /// A component adapter for `user_id`.
    pub fn new(user_id: u32, component: &str) -> (r: Result<Self, CommandError>)
        ensures
            result_check(r) == component_check(component@),
            r matches Ok(a) ==> {
                &&& a.user_id_view() == user_id
                &&& a.component_view() == component@
                &&& a.package_view() == component_package(component@)
            },
    {
        validate_component(component)?;
        let package = package_from_component(component)?;
        Ok(PmComponentAdapter { user_id, package, component: component.to_owned() })
    }
}

impl AndroidCommandAdapter for PmComponentAdapter {
    open spec fn spec_command(&self, phase: CommandPhase) -> InvocationView {
        component_command(phase, self.user_id_view(), self.package_view(), self.component_view())
    }

    open spec fn spec_intent(&self, phase: CommandPhase) -> Seq<char> {
        component_intent(phase, self.component_view())
    }

    fn command(&self, phase: CommandPhase) -> (r: CommandInvocation) {
        let user = text::u32_to_decimal(self.user_id);
        match phase {
            CommandPhase::Probe => {
                let args = ["path", self.package.as_str()];
                assert(strs_view(args@) =~= seq!["path"@, self.package@]);
                pm_call(args.as_slice())
            },
            CommandPhase::Apply => {
                let args = ["disable-user", "--user", user.as_str(), self.component.as_str()];
                assert(strs_view(args@) =~= seq!["disable-user"@, "--user"@, user@, self.component@]);
                pm_call(args.as_slice())
            },
            CommandPhase::Restore => {
                let args = ["enable", "--user", user.as_str(), self.component.as_str()];
                assert(strs_view(args@) =~= seq!["enable"@, "--user"@, user@, self.component@]);
                pm_call(args.as_slice())
            },
        }
    }

    fn intent(&self, phase: CommandPhase) -> (r: String) {
        let mut s = phase.as_str().to_owned();
        s.append(" component ");
        s.append(self.component.as_str());
        s
    }
}

/// Package-level `pm` probes and `hide`/`unhide`.
#[derive(Debug, Clone, PartialEq, Eq)]
pub struct PmPackageAdapter {
    package: String,
}

impl PmPackageAdapter {
    pub closed spec fn package_view(&self) -> Seq<char> {
        self.package@
    }

    /// A package adapter.
    pub fn new(package: &str) -> (r: Result<Self, CommandError>)
        ensures
            result_check(r) == package_check("package"@, package@),
            r matches Ok(a) ==> a.package_view() == package@,
    {
        validate_package("package", package)?;
        Ok(PmPackageAdapter { package: package.to_owned() })
    }

    /// `pm path <package>`: whether the package is installed.
    pub fn path_probe(&self) -> (r: CommandInvocation)
        ensures
            r@ == pm(seq!["path"@, self.package_view()]),
    {
        let args = ["path", self.package.as_str()];
        assert(strs_view(args@) =~= seq!["path"@, self.package@]);
        pm_call(args.as_slice())
    }

    /// `pm list packages -d <package>`: whether the package is disabled.
    pub fn disabled_probe(&self) -> (r: CommandInvocation)
        ensures
            r@ == pm(seq!["list"@, "packages"@, "-d"@, self.package_view()]),
    {
        let args = ["list", "packages", "-d", self.package.as_str()];
        assert(strs_view(args@) =~= seq!["list"@, "packages"@, "-d"@, self.package@]);
        pm_call(args.as_slice())
    }

    /// `pm list packages --hidden <package>`: whether the package is hidden.
    pub fn hidden_probe(&self) -> (r: CommandInvocation)
        ensures
            r@ == pm(seq!["list"@, "packages"@, "--hidden"@, self.package_view()]),
    {
        let args = ["list", "packages", "--hidden", self.package.as_str()];
        assert(strs_view(args@) =~= seq!["list"@, "packages"@, "--hidden"@, self.package@]);
        pm_call(args.as_slice())
    }

    /// `pm hide <package>`.
    pub fn hide_command(&self) -> (r: CommandInvocation)
        ensures
            r@ == pm(seq!["hide"@, self.package_view()]),
    {
        let args = ["hide", self.package.as_str()];
        assert(strs_view(args@) =~= seq!["hide"@, self.package@]);
        pm_call(args.as_slice())
    }

    /// The capability attempt of `TryHide`: `pm hide <package>`.
    pub fn try_hide(&self) -> (r: CommandInvocation)
        ensures
            r@ == pm(seq!["hide"@, self.package_view()]),
    {
        self.hide_command()
    }

    /// `pm unhide <package>`.
    pub fn unhide(&self) -> (r: CommandInvocation)
        ensures
            r@ == pm(seq!["unhide"@, self.package_view()]),
    {
        let args = ["unhide", self.package.as_str()];
        assert(strs_view(args@) =~= seq!["unhide"@, self.package@]);
        pm_call(args.as_slice())
    }
}

} // verus!
