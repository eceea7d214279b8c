//! `settings`, restricted to an allowlist of ROM advertising keys.
use vstd::prelude::*;

use crate::command_runner::adapter::{phase_name, AndroidCommandAdapter, CommandPhase};
use crate::command_runner::error::{
    check_view, denied, invalid, result_check, then_check, CommandError, CommandErrorView,
};
use crate::command_runner::invocation::{invocation, strs_view, CommandInvocation, InvocationView};
use crate::command_runner::validation::{common_check, validate_simple_token};
use crate::text;

verus! {

pub const SETTINGS: &'static str = "/system/bin/settings";

pub const DNS_REASON: &'static str = "DNS settings are out of scope";

pub const HOST_REASON: &'static str = "hosts settings are out of scope";

pub const PROXY_REASON: &'static str = "proxy settings are out of scope";

pub const ALLOWLIST_REASON: &'static str = "settings key is not in the ROM profile allowlist";

pub const VALUE_REASON: &'static str = "value must not contain NUL or newline";

/// An Android settings namespace.
#[derive(Debug, Clone, Copy, PartialEq, Eq, Structural)]
#[non_exhaustive]
pub enum SettingsNamespace {
    /// `settings system`.
    System,
    /// `settings secure`.
    Secure,
    /// `settings global`.
    Global,
}

pub open spec fn namespace_name(ns: SettingsNamespace) -> Seq<char> {
    match ns {
        SettingsNamespace::System => "system"@,
        SettingsNamespace::Secure => "secure"@,
        SettingsNamespace::Global => "global"@,
    }
}

impl SettingsNamespace {
    /// The namespace's name.
    pub fn as_str(self) -> (r: &'static str)
        ensures
            r@ == namespace_name(self),
    {
        match self {
            SettingsNamespace::System => "system",
            SettingsNamespace::Secure => "secure",
            SettingsNamespace::Global => "global",
        }
    }
}

/// The ROM advertising keys that may be changed.
pub open spec fn is_allowed_rom_setting(key: Seq<char>) -> bool {
    key == "miui_home_show_recommend"@ || key == "miui_home_personalized"@ || key
        == "miui_personalized_ad_enabled"@ || key == "miui_system_ad_solution"@ || key
        == "com.miui.systemAdSolution.adSwitch"@
}

/// A settings key: a token; never DNS, hosts or proxy (in any letter case);
/// and in the allowlist.
pub open spec fn settings_key_check(key: Seq<char>) -> Result<(), CommandErrorView> {
    let lower = text::lower_seq(key);
    then_check(
        common_check("settings_key"@, key),
        if text::contains_seq(lower, "dns"@) {
            denied(key, DNS_REASON@)
        } else if text::contains_seq(lower, "host"@) {
            denied(key, HOST_REASON@)
        } else if text::contains_seq(lower, "proxy"@) {
            denied(key, PROXY_REASON@)
        } else if is_allowed_rom_setting(key) {
            Ok(())
        } else {
            denied(key, ALLOWLIST_REASON@)
        },
    )
}

/// A settings value: without NUL or newline.
pub open spec fn value_check(field: Seq<char>, value: Seq<char>) -> Result<(), CommandErrorView> {
    if value.contains('\0') || value.contains('\n') {
        invalid(field, value, VALUE_REASON@)
    } else {
        Ok(())
    }
}

/// The checks of `SettingsAdapter::new`, in order.
pub open spec fn settings_check(
    key: Seq<char>,
    apply_value: Seq<char>,
    restore_value: Option<Seq<char>>,
) -> Result<(), CommandErrorView> {
    then_check(
        settings_key_check(key),
        then_check(
            value_check("settings_value"@, apply_value),
            match restore_value {
                Some(v) => value_check("settings_restore_value"@, v),
                None => Ok(()),
            },
        ),
    )
}

/// `settings <args>`.
pub open spec fn settings_call(args: Seq<Seq<char>>) -> InvocationView {
    invocation(SETTINGS@, args)
}

/// How a setting is put back: its recorded value, or deleted when there was none.
pub open spec fn settings_restore(
    ns: SettingsNamespace,
    key: Seq<char>,
    restore_value: Option<Seq<char>>,
) -> InvocationView {
    match restore_value {
        Some(v) => settings_call(seq!["put"@, namespace_name(ns), key, v]),
        None => settings_call(seq!["delete"@, namespace_name(ns), key]),
    }
}

/// The argv of a settings adapter's phase.
pub open spec fn settings_command(
    phase: CommandPhase,
    ns: SettingsNamespace,
    key: Seq<char>,
    apply_value: Seq<char>,
    restore_value: Option<Seq<char>>,
) -> InvocationView {
    match phase {
        CommandPhase::Probe => settings_call(seq!["get"@, namespace_name(ns), key]),
        CommandPhase::Apply => settings_call(seq!["put"@, namespace_name(ns), key, apply_value]),
        CommandPhase::Restore => settings_restore(ns, key, restore_value),
    }
}

/// The intent of a settings adapter's phase.
pub open spec fn settings_intent(phase: CommandPhase, key: Seq<char>) -> Seq<char> {
    phase_name(phase) + " setting "@ + key
}

pub open spec fn opt_view(o: Option<&str>) -> Option<Seq<char>> {
    match o {
        Some(s) => Some(s@),
        None => None,
    }
}

pub open spec fn opt_string_view(o: Option<String>) -> Option<Seq<char>> {
    match o {
        Some(s) => Some(s@),
        None => None,
    }
}

/// A settings key check.
pub fn validate_settings_key(key: &str) -> (r: Result<(), CommandError>)
    ensures
        check_view(r) == settings_key_check(key@),
{
    validate_simple_token("settings_key", key)?;
    if text::lower_contains(key, "dns") {
        return Err(CommandError::denied_settings_key(key, DNS_REASON));
    }
    if text::lower_contains(key, "host") {
        return Err(CommandError::denied_settings_key(key, HOST_REASON));
    }
    if text::lower_contains(key, "proxy") {
        return Err(CommandError::denied_settings_key(key, PROXY_REASON));
    }
    if text::str_eq(key, "miui_home_show_recommend") || text::str_eq(key, "miui_home_personalized")
        || text::str_eq(key, "miui_personalized_ad_enabled") || text::str_eq(
        key,
        "miui_system_ad_solution",
    ) || text::str_eq(key, "com.miui.systemAdSolution.adSwitch") {
        return Ok(());
    }
    Err(CommandError::denied_settings_key(key, ALLOWLIST_REASON))
}

/// A settings value check.
pub fn validate_value(field: &'static str, value: &str) -> (r: Result<(), CommandError>)
    ensures
        check_view(r) == value_check(field@, value@),
{
    if text::str_has_char(value, '\0') || text::str_has_char(value, '\n') {
        return Err(CommandError::invalid_argument(field, value, VALUE_REASON));
    }
    Ok(())
}

/// The `settings` adapter for one allowlisted ROM key.
#[derive(Debug, Clone, PartialEq, Eq)]
pub struct SettingsAdapter {
    namespace: SettingsNamespace,
    key: String,
    apply_value: String,
    restore_value: Option<String>,
}

impl SettingsAdapter {
    pub closed spec fn namespace_view(&self) -> SettingsNamespace {
        self.namespace
    }

    pub closed spec fn key_view(&self) -> Seq<char> {
        self.key@
    }

    pub closed spec fn apply_value_view(&self) -> Seq<char> {
        self.apply_value@
    }

    pub closed spec fn restore_value_view(&self) -> Option<Seq<char>> {
        opt_string_view(self.restore_value)
    }

    /// A settings adapter; `restore_value` `None` means the key is deleted
    /// on restore.
    pub fn new(
        namespace: SettingsNamespace,
        key: &str,
        apply_value: &str,
        restore_value: Option<&str>,
    ) -> (r: Result<Self, CommandError>)
        ensures
            result_check(r) == settings_check(key@, apply_value@, opt_view(restore_value)),
            r matches Ok(a) ==> {
                &&& a.namespace_view() == namespace
                &&& a.key_view() == key@
                &&& a.apply_value_view() == apply_value@
                &&& a.restore_value_view() == opt_view(restore_value)
            },
    {
        validate_settings_key(key)?;
        validate_value("settings_value", apply_value)?;
        let restore = match restore_value {
            Some(value) => {
                validate_value("settings_restore_value", value)?;
                Some(value.to_owned())
            },
            None => None,
        };
        Ok(
            SettingsAdapter {
                namespace,
                key: key.to_owned(),
                apply_value: apply_value.to_owned(),
                restore_value: restore,
            },
        )
    }

    fn restore_command(&self, namespace: &str) -> (r: CommandInvocation)
        requires
            namespace@ == namespace_name(self.namespace),
        ensures
            r@ == settings_restore(self.namespace, self.key@, opt_string_view(self.restore_value)),
    {
        match &self.restore_value {
            Some(value) => {
                let args = ["put", namespace, self.key.as_str(), value.as_str()];
                assert(strs_view(args@) =~= seq!["put"@, namespace@, self.key@, value@]);
                CommandInvocation::new(SETTINGS, args.as_slice())
            },
            None => {
                let args = ["delete", namespace, self.key.as_str()];
                assert(strs_view(args@) =~= seq!["delete"@, namespace@, self.key@]);
                CommandInvocation::new(SETTINGS, args.as_slice())
            },
        }
    }
}

impl AndroidCommandAdapter for SettingsAdapter {
    open spec fn spec_command(&self, phase: CommandPhase) -> InvocationView {
        settings_command(
            phase,
            self.namespace_view(),
            self.key_view(),
            self.apply_value_view(),
            self.restore_value_view(),
        )
    }

    open spec fn spec_intent(&self, phase: CommandPhase) -> Seq<char> {
        settings_intent(phase, self.key_view())
    }

    fn command(&self, phase: CommandPhase) -> (r: CommandInvocation) {
        let namespace = self.namespace.as_str();
        match phase {
            CommandPhase::Probe => {
                let args = ["get", namespace, self.key.as_str()];
                assert(strs_view(args@) =~= seq!["get"@, namespace@, self.key@]);
                CommandInvocation::new(SETTINGS, args.as_slice())
            },
            CommandPhase::Apply => {
                let args = ["put", namespace, self.key.as_str(), self.apply_value.as_str()];
                assert(strs_view(args@) =~= seq!["put"@, namespace@, self.key@, self.apply_value@]);
                CommandInvocation::new(SETTINGS, args.as_slice())
            },
            CommandPhase::Restore => self.restore_command(namespace),
        }
    }

    fn intent(&self, phase: CommandPhase) -> (r: String) {
        let mut s = phase.as_str().to_owned();
        s.append(" setting ");
        s.append(self.key.as_str());
        s
    }
}

} // verus!
