//! Profile rules. Every constructor validates its fields with the same
//! checks as the command adapter that will later run the rule.
use vstd::prelude::*;

use crate::command_runner::adapter::AndroidCommandAdapter;
use crate::command_runner::appops::{appops_check, AppOpsAdapter};
use crate::command_runner::error::{result_check, CommandError};
use crate::command_runner::pm::{component_package, PmComponentAdapter};
use crate::command_runner::settings::{settings_check, SettingsAdapter, SettingsNamespace};
use crate::command_runner::validation::component_check;
use crate::model::{is_rule_token, rule_token_ok};
use crate::profiles::error::{
    from_command, invalid_rule, lift, profile_check, then_profile, ProfileError, ProfileErrorView,
};
use crate::text;

verus! {

pub const ID_REASON: &'static str = "id must be a short ASCII rule token";

pub const XML_KEY_REASON: &'static str = "xml key must be non-empty and XML attribute safe";

pub const COMPONENT_SPLIT_REASON: &'static str = "component must include package/name";

pub open spec fn id_check(id: Seq<char>) -> Result<(), ProfileErrorView> {
    if is_rule_token(id) {
        Ok(())
    } else {
        invalid_rule("id"@, id, ID_REASON@)
    }
}

/// An XML attribute value that needs no escaping: non-empty, and free of
/// NUL, newline, `"`, `<` and `>`.
pub open spec fn xml_key_ok(key: Seq<char>) -> bool {
    key.len() > 0 && !key.contains('\0') && !key.contains('\n') && !key.contains('"')
        && !key.contains('<') && !key.contains('>')
}

pub open spec fn xml_key_check(key: Seq<char>) -> Result<(), ProfileErrorView> {
    if xml_key_ok(key) {
        Ok(())
    } else {
        invalid_rule("xml_key"@, key, XML_KEY_REASON@)
    }
}

/// A rule identifier.
pub fn validate_id(id: &str) -> (r: Result<(), ProfileError>)
    ensures
        profile_check(r) == id_check(id@),
{
    if !rule_token_ok(id) {
        return Err(ProfileError::invalid_rule("id", id, ID_REASON));
    }
    Ok(())
}

/// A `shared_prefs` boolean key.
pub fn validate_xml_key(key: &str) -> (r: Result<(), ProfileError>)
    ensures
        profile_check(r) == xml_key_check(key@),
{
    if key.unicode_len() == 0 || text::str_has_char(key, '\0') || text::str_has_char(key, '\n')
        || text::str_has_char(key, '"') || text::str_has_char(key, '<') || text::str_has_char(
        key,
        '>',
    ) {
        return Err(ProfileError::invalid_rule("xml_key", key, XML_KEY_REASON));
    }
    Ok(())
}

/// The package half of a component.
pub fn package_of_component(component: &str) -> (r: Result<String, ProfileError>)
    ensures
        match (r, text::split_once(component@, '/')) {
            (Ok(p), Some((package, _))) => p@ == package,
            (Err(e), None) => e@ == (ProfileErrorView::InvalidRule {
                field: "component"@,
                value: component@,
                reason: COMPONENT_SPLIT_REASON@,
            }),
            _ => false,
        },
{
    match text::split_once_char(component, '/') {
        Some((package, _name)) => Ok(package),
        None => Err(ProfileError::invalid_rule("component", component, COMPONENT_SPLIT_REASON)),
    }
}

/// An AppOps rule.
#[derive(Debug, Clone, PartialEq, Eq)]
pub struct AppOpProfileRule {
    pub(crate) id: String,
    pub(crate) package: String,
    pub(crate) op: String,
    pub(crate) mode: String,
}

impl AppOpProfileRule {
    pub closed spec fn id_view(&self) -> Seq<char> {
        self.id@
    }

    pub closed spec fn package_view(&self) -> Seq<char> {
        self.package@
    }

    pub closed spec fn op_view(&self) -> Seq<char> {
        self.op@
    }

    pub closed spec fn mode_view(&self) -> Seq<char> {
        self.mode@
    }

    /// An AppOps rule; the mode restored by default is `default`.
    pub fn new(id: &str, package: &str, op: &str, mode: &str) -> (r: Result<Self, ProfileError>)
        ensures
            profile_check(r) == then_profile(
                id_check(id@),
                lift(appops_check(package@, op@, mode@, "default"@)),
            ),
            r matches Ok(rule) ==> rule.id_view() == id@ && rule.package_view() == package@
                && rule.op_view() == op@ && rule.mode_view() == mode@,
    {
        validate_id(id)?;
        match AppOpsAdapter::new(package, op, mode, "default") {
            Ok(_) => {},
            Err(e) => return Err(from_command(e)),
        }
        Ok(
            AppOpProfileRule {
                id: id.to_owned(),
                package: package.to_owned(),
                op: op.to_owned(),
                mode: mode.to_owned(),
            },
        )
    }
}

impl AppOpProfileRule {
    /// The rule identifier.
    pub fn id(&self) -> (r: &str)
        ensures
            r@ == self.id_view(),
    {
        self.id.as_str()
    }

    /// The package.
    pub fn package(&self) -> (r: &str)
        ensures
            r@ == self.package_view(),
    {
        self.package.as_str()
    }

    /// The AppOps operation.
    pub fn op(&self) -> (r: &str)
        ensures
            r@ == self.op_view(),
    {
        self.op.as_str()
    }

    /// The mode to set.
    pub fn mode(&self) -> (r: &str)
        ensures
            r@ == self.mode_view(),
    {
        self.mode.as_str()
    }
}

/// What to do about `pm hide`.
#[derive(Debug, Clone, Copy, PartialEq, Eq, Structural)]
pub enum PmHidePolicy {
    /// Never run `pm hide`.
    DoNotHide,
    /// Try it; when unavailable, record a skip.
    TryHide,
}

/// A component rule.
#[derive(Debug, Clone, PartialEq, Eq)]
pub struct ComponentProfileRule {
    pub(crate) id: String,
    pub(crate) user_id: u32,
    pub(crate) component: String,
    pub(crate) package: String,
    pub(crate) hide_policy: PmHidePolicy,
}

impl ComponentProfileRule {
    pub closed spec fn id_view(&self) -> Seq<char> {
        self.id@
    }

    pub closed spec fn user_id_view(&self) -> u32 {
        self.user_id
    }

    pub closed spec fn component_view(&self) -> Seq<char> {
        self.component@
    }

    pub closed spec fn package_view(&self) -> Seq<char> {
        self.package@
    }

    pub closed spec fn hide_policy_view(&self) -> PmHidePolicy {
        self.hide_policy
    }

    /// A component-disabling rule.
    pub fn new(id: &str, user_id: u32, component: &str, hide_policy: PmHidePolicy) -> (r: Result<
        Self,
        ProfileError,
    >)
        ensures
            profile_check(r) == then_profile(id_check(id@), lift(component_check(component@))),
            r matches Ok(rule) ==> {
                &&& rule.id_view() == id@
                &&& rule.user_id_view() == user_id
                &&& rule.component_view() == component@
                &&& rule.package_view() == component_package(component@)
                &&& rule.hide_policy_view() == hide_policy
            },
    {
        validate_id(id)?;
        match PmComponentAdapter::new(user_id, component) {
            Ok(_) => {},
            Err(e) => return Err(from_command(e)),
        }
        let package = package_of_component(component)?;
        Ok(
            ComponentProfileRule {
                id: id.to_owned(),
                user_id,
                component: component.to_owned(),
                package,
                hide_policy,
            },
        )
    }
}

impl ComponentProfileRule {
    /// The rule identifier.
    pub fn id(&self) -> (r: &str)
        ensures
            r@ == self.id_view(),
    {
        self.id.as_str()
    }

    /// The Android user.
    pub fn user_id(&self) -> (r: u32)
        ensures
            r == self.user_id_view(),
    {
        self.user_id
    }

    /// The component `package/ClassName`.
    pub fn component(&self) -> (r: &str)
        ensures
            r@ == self.component_view(),
    {
        self.component.as_str()
    }

    /// The component's package.
    pub fn package(&self) -> (r: &str)
        ensures
            r@ == self.package_view(),
    {
        self.package.as_str()
    }

    /// The `pm hide` policy.
    pub fn hide_policy(&self) -> (r: PmHidePolicy)
        ensures
            r == self.hide_policy_view(),
    {
        self.hide_policy
    }
}

/// The ROM a rule applies to, recognised by a non-empty system property.
#[derive(Debug, Clone, PartialEq, Eq)]
pub struct RomMatcher {
    pub(crate) name: String,
    pub(crate) property: String,
}

impl RomMatcher {
    pub closed spec fn name_view(&self) -> Seq<char> {
        self.name@
    }

    pub closed spec fn property_view(&self) -> Seq<char> {
        self.property@
    }

    /// MIUI / HyperOS.
    pub fn miui() -> (r: Self)
        ensures
            r.name_view() == "miui"@,
            r.property_view() == "ro.miui.ui.version.name"@,
    {
        RomMatcher { name: "miui".to_owned(), property: "ro.miui.ui.version.name".to_owned() }
    }

    /// The matcher's name.
    pub fn name(&self) -> (r: &str)
        ensures
            r@ == self.name_view(),
    {
        self.name.as_str()
    }

    /// The system property that must be non-empty.
    pub fn property(&self) -> (r: &str)
        ensures
            r@ == self.property_view(),
    {
        self.property.as_str()
    }

    /// A copy of this matcher.
    pub fn duplicate(&self) -> (r: Self)
        ensures
            r.name_view() == self.name_view(),
            r.property_view() == self.property_view(),
    {
        RomMatcher { name: self.name.clone(), property: self.property.clone() }
    }
}

/// A ROM settings rule.
#[derive(Debug, Clone, PartialEq, Eq)]
pub struct RomSettingsRule {
    pub(crate) namespace: SettingsNamespace,
    pub(crate) key: String,
    pub(crate) value: String,
}

impl RomSettingsRule {
    pub closed spec fn namespace_view(&self) -> SettingsNamespace {
        self.namespace
    }

    pub closed spec fn key_view(&self) -> Seq<char> {
        self.key@
    }

    pub closed spec fn value_view(&self) -> Seq<char> {
        self.value@
    }

    /// An allowlisted settings rule.
    pub fn new(namespace: SettingsNamespace, key: &str, value: &str) -> (r: Result<
        Self,
        CommandError,
    >)
        ensures
            result_check(r) == settings_check(key@, value@, None),
            r matches Ok(rule) ==> rule.namespace_view() == namespace && rule.key_view() == key@
                && rule.value_view() == value@,
    {
        SettingsAdapter::new(namespace, key, value, None)?;
        Ok(RomSettingsRule { namespace, key: key.to_owned(), value: value.to_owned() })
    }
}

impl RomSettingsRule {
    /// The namespace.
    pub fn namespace(&self) -> (r: SettingsNamespace)
        ensures
            r == self.namespace_view(),
    {
        self.namespace
    }

    /// The key.
    pub fn key(&self) -> (r: &str)
        ensures
            r@ == self.key_view(),
    {
        self.key.as_str()
    }

    /// The value to put.
    pub fn value(&self) -> (r: &str)
        ensures
            r@ == self.value_view(),
    {
        self.value.as_str()
    }
}

/// A `shared_prefs` boolean rule.
#[derive(Debug, Clone, PartialEq, Eq)]
pub struct SharedPrefsBoolRule {
    pub(crate) path: String,
    pub(crate) key: String,
    pub(crate) value: bool,
    pub(crate) backup_dir: String,
}

impl SharedPrefsBoolRule {
    pub closed spec fn path_view(&self) -> Seq<char> {
        self.path@
    }

    pub closed spec fn key_view(&self) -> Seq<char> {
        self.key@
    }

    pub closed spec fn value_view(&self) -> bool {
        self.value
    }

    pub closed spec fn backup_dir_view(&self) -> Seq<char> {
        self.backup_dir@
    }

    /// A rule that sets the boolean `key` of the preferences file at `path`.
    pub fn new(path: &str, key: &str, value: bool, backup_dir: &str) -> (r: Result<
        Self,
        ProfileError,
    >)
        ensures
            profile_check(r) == xml_key_check(key@),
            r matches Ok(rule) ==> rule.path_view() == path@ && rule.key_view() == key@
                && rule.value_view() == value && rule.backup_dir_view() == backup_dir@,
    {
        validate_xml_key(key)?;
        Ok(
            SharedPrefsBoolRule {
                path: path.to_owned(),
                key: key.to_owned(),
                value,
                backup_dir: backup_dir.to_owned(),
            },
        )
    }

    /// The preferences file.
    pub fn path(&self) -> (r: &str)
        ensures
            r@ == self.path_view(),
    {
        self.path.as_str()
    }

    /// The boolean key.
    pub fn key(&self) -> (r: &str)
        ensures
            r@ == self.key_view(),
    {
        self.key.as_str()
    }

    /// The value to set.
    pub fn value(&self) -> (r: bool)
        ensures
            r == self.value_view(),
    {
        self.value
    }

    /// The directory of the backup copy.
    pub fn backup_dir(&self) -> (r: &str)
        ensures
            r@ == self.backup_dir_view(),
    {
        self.backup_dir.as_str()
    }
}

/// What a ROM rule changes.
#[derive(Debug, Clone, PartialEq, Eq)]
pub enum RomProfileAction {
    Settings(RomSettingsRule),
    SharedPrefsBool(SharedPrefsBoolRule),
}

/// A ROM profile rule.
#[derive(Debug, Clone, PartialEq, Eq)]
pub struct RomProfileRule {
    pub(crate) id: String,
    pub(crate) matcher: RomMatcher,
    pub(crate) action: RomProfileAction,
}

impl RomProfileRule {
    pub closed spec fn id_view(&self) -> Seq<char> {
        self.id@
    }

    pub closed spec fn matcher_view(&self) -> RomMatcher {
        self.matcher
    }

    pub closed spec fn action_view(&self) -> RomProfileAction {
        self.action
    }

    /// A settings ROM rule.
    pub fn settings(id: &str, matcher: RomMatcher, rule: RomSettingsRule) -> (r: Result<
        Self,
        ProfileError,
    >)
        ensures
            profile_check(r) == id_check(id@),
            r matches Ok(x) ==> x.id_view() == id@ && x.matcher_view() == matcher
                && x.action_view() == RomProfileAction::Settings(rule),
    {
        validate_id(id)?;
        Ok(RomProfileRule { id: id.to_owned(), matcher, action: RomProfileAction::Settings(rule) })
    }

    /// A `shared_prefs` boolean ROM rule.
    pub fn shared_prefs_bool(id: &str, matcher: RomMatcher, rule: SharedPrefsBoolRule) -> (r:
        Result<Self, ProfileError>)
        ensures
            profile_check(r) == id_check(id@),
            r matches Ok(x) ==> x.id_view() == id@ && x.matcher_view() == matcher
                && x.action_view() == RomProfileAction::SharedPrefsBool(rule),
    {
        validate_id(id)?;
        Ok(
            RomProfileRule {
                id: id.to_owned(),
                matcher,
                action: RomProfileAction::SharedPrefsBool(rule),
            },
        )
    }

    /// The rule identifier.
    pub fn id(&self) -> (r: &str)
        ensures
            r@ == self.id_view(),
    {
        self.id.as_str()
    }

    /// The ROM matcher.
    pub fn matcher(&self) -> (r: &RomMatcher)
        ensures
            *r == self.matcher_view(),
    {
        &self.matcher
    }

    /// What the rule changes.
    pub fn action(&self) -> (r: &RomProfileAction)
        ensures
            *r == self.action_view(),
    {
        &self.action
    }
}

} // verus!
