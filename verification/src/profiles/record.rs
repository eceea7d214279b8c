//! Profile restore records and their ledger encoding.
use vstd::prelude::*;

use crate::command_runner::settings::SettingsNamespace;
use crate::profiles::json::{
    bool_text, json_bool, json_member, json_object, json_opt_str, json_str, member, object,
    string_member,
};
use crate::text;

verus! {

/// The status of a profile operation.
#[derive(Debug, Clone, Copy, PartialEq, Eq, Structural)]
pub enum ProfileOperationStatus {
    /// The change was made.
    Applied,
    /// Skipped: missing capability, missing package, or another ROM.
    Skipped,
}

/// The result of a profile operation.
#[derive(Debug, Clone, PartialEq, Eq)]
pub struct ProfileOperation {
    /// Status.
    pub status: ProfileOperationStatus,
    /// The restore record, as a ledger line.
    pub record: String,
}

#[derive(Debug, Clone, Copy, PartialEq, Eq, Structural)]
pub enum PackageEnabledState {
    Enabled,
    Disabled,
}

#[derive(Debug, Clone, Copy, PartialEq, Eq, Structural)]
pub enum PackageHiddenState {
    Visible,
    Hidden,
}

#[derive(Debug, Clone, Copy, PartialEq, Eq, Structural)]
pub enum HideApplyStatus {
    NotRequested,
    Applied,
    SkippedUnavailable,
}

/// A package that was not installed, so nothing was changed.
#[derive(Debug, Clone, PartialEq, Eq)]
pub struct AppSkippedRecord {
    pub rule_id: String,
    pub package: String,
    pub reason: String,
}

/// An AppOps change and the mode it replaced.
#[derive(Debug, Clone, PartialEq, Eq)]
pub struct AppOpRecord {
    pub rule_id: String,
    pub package: String,
    pub op: String,
    pub applied_mode: String,
    pub original_mode: String,
}

/// A disabled component and the package state it replaced.
#[derive(Debug, Clone, PartialEq, Eq)]
pub struct ComponentRecord {
    pub rule_id: String,
    pub user_id: u32,
    pub package: String,
    pub component: String,
    pub original_enabled: PackageEnabledState,
    pub original_hidden: PackageHiddenState,
    pub hide_status: HideApplyStatus,
}

/// A ROM setting change and the value it replaced (`None`: absent).
#[derive(Debug, Clone, PartialEq, Eq)]
pub struct RomSettingRecord {
    pub rule_id: String,
    pub matcher: String,
    pub namespace: SettingsNamespace,
    pub key: String,
    pub applied_value: String,
    pub original_value: Option<String>,
}

/// A `shared_prefs` boolean change, with the original file's hash and backup.
#[derive(Debug, Clone, PartialEq, Eq)]
pub struct SharedPrefsBoolRecord {
    pub rule_id: String,
    pub matcher: String,
    pub path: String,
    pub key: String,
    pub applied_value: bool,
    pub original_value: bool,
    pub original_sha256: String,
    pub backup_path: String,
}

/// A ROM rule skipped because the device runs another ROM.
#[derive(Debug, Clone, PartialEq, Eq)]
pub struct RomSkippedRecord {
    pub rule_id: String,
    pub matcher: String,
    pub reason: String,
}

/// A restore record of the profile ledger.
#[derive(Debug, Clone, PartialEq, Eq)]
pub enum ProfileRecord {
    AppSkipped(AppSkippedRecord),
    AppOp(AppOpRecord),
    Component(ComponentRecord),
    RomSetting(RomSettingRecord),
    SharedPrefsBool(SharedPrefsBoolRecord),
    RomSkipped(RomSkippedRecord),
}

/// A restore record, taken by contents.
pub enum RecordView {
    AppSkipped { rule_id: Seq<char>, package: Seq<char>, reason: Seq<char> },
    AppOp {
        rule_id: Seq<char>,
        package: Seq<char>,
        op: Seq<char>,
        applied_mode: Seq<char>,
        original_mode: Seq<char>,
    },
    Component {
        rule_id: Seq<char>,
        user_id: u32,
        package: Seq<char>,
        component: Seq<char>,
        original_enabled: PackageEnabledState,
        original_hidden: PackageHiddenState,
        hide_status: HideApplyStatus,
    },
    RomSetting {
        rule_id: Seq<char>,
        matcher: Seq<char>,
        namespace: SettingsNamespace,
        key: Seq<char>,
        applied_value: Seq<char>,
        original_value: Option<Seq<char>>,
    },
    SharedPrefsBool {
        rule_id: Seq<char>,
        matcher: Seq<char>,
        path: Seq<char>,
        key: Seq<char>,
        applied_value: bool,
        original_value: bool,
        original_sha256: Seq<char>,
        backup_path: Seq<char>,
    },
    RomSkipped { rule_id: Seq<char>, matcher: Seq<char>, reason: Seq<char> },
}

pub open spec fn opt_view(o: Option<String>) -> Option<Seq<char>> {
    match o {
        Some(s) => Some(s@),
        None => None,
    }
}

impl View for ProfileRecord {
    type V = RecordView;

    open spec fn view(&self) -> RecordView {
        match self {
            ProfileRecord::AppSkipped(r) => RecordView::AppSkipped {
                rule_id: r.rule_id@,
                package: r.package@,
                reason: r.reason@,
            },
            ProfileRecord::AppOp(r) => RecordView::AppOp {
                rule_id: r.rule_id@,
                package: r.package@,
                op: r.op@,
                applied_mode: r.applied_mode@,
                original_mode: r.original_mode@,
            },
            ProfileRecord::Component(r) => RecordView::Component {
                rule_id: r.rule_id@,
                user_id: r.user_id,
                package: r.package@,
                component: r.component@,
                original_enabled: r.original_enabled,
                original_hidden: r.original_hidden,
                hide_status: r.hide_status,
            },
            ProfileRecord::RomSetting(r) => RecordView::RomSetting {
                rule_id: r.rule_id@,
                matcher: r.matcher@,
                namespace: r.namespace,
                key: r.key@,
                applied_value: r.applied_value@,
                original_value: opt_view(r.original_value),
            },
            ProfileRecord::SharedPrefsBool(r) => RecordView::SharedPrefsBool {
                rule_id: r.rule_id@,
                matcher: r.matcher@,
                path: r.path@,
                key: r.key@,
                applied_value: r.applied_value,
                original_value: r.original_value,
                original_sha256: r.original_sha256@,
                backup_path: r.backup_path@,
            },
            ProfileRecord::RomSkipped(r) => RecordView::RomSkipped {
                rule_id: r.rule_id@,
                matcher: r.matcher@,
                reason: r.reason@,
            },
        }
    }
}

pub open spec fn enabled_name(s: PackageEnabledState) -> Seq<char> {
    match s {
        PackageEnabledState::Enabled => "enabled"@,
        PackageEnabledState::Disabled => "disabled"@,
    }
}

pub open spec fn hidden_name(s: PackageHiddenState) -> Seq<char> {
    match s {
        PackageHiddenState::Visible => "visible"@,
        PackageHiddenState::Hidden => "hidden"@,
    }
}

pub open spec fn hide_status_name(s: HideApplyStatus) -> Seq<char> {
    match s {
        HideApplyStatus::NotRequested => "not_requested"@,
        HideApplyStatus::Applied => "applied"@,
        HideApplyStatus::SkippedUnavailable => "skipped_unavailable"@,
    }
}

/// Namespaces are written by their variant names.
pub open spec fn namespace_tag(ns: SettingsNamespace) -> Seq<char> {
    match ns {
        SettingsNamespace::System => "System"@,
        SettingsNamespace::Secure => "Secure"@,
        SettingsNamespace::Global => "Global"@,
    }
}

pub open spec fn str_member(name: Seq<char>, value: Seq<char>) -> Seq<char> {
    member(name, json_str(value))
}

/// The ledger line of a record: a JSON object tagged by `kind`, with the
/// record's fields in declaration order.
pub open spec fn record_json(r: RecordView) -> Seq<char> {
    match r {
        RecordView::AppSkipped { rule_id, package, reason } => object(
            seq![
                str_member("kind"@, "app_skipped"@),
                str_member("rule_id"@, rule_id),
                str_member("package"@, package),
                str_member("reason"@, reason),
            ],
        ),
        RecordView::AppOp { rule_id, package, op, applied_mode, original_mode } => object(
            seq![
                str_member("kind"@, "app_op"@),
                str_member("rule_id"@, rule_id),
                str_member("package"@, package),
                str_member("op"@, op),
                str_member("applied_mode"@, applied_mode),
                str_member("original_mode"@, original_mode),
            ],
        ),
        RecordView::Component {
            rule_id,
            user_id,
            package,
            component,
            original_enabled,
            original_hidden,
            hide_status,
        } => object(
            seq![
                str_member("kind"@, "component"@),
                str_member("rule_id"@, rule_id),
                member("user_id"@, text::decimal(user_id as nat)),
                str_member("package"@, package),
                str_member("component"@, component),
                str_member("original_enabled"@, enabled_name(original_enabled)),
                str_member("original_hidden"@, hidden_name(original_hidden)),
                str_member("hide_status"@, hide_status_name(hide_status)),
            ],
        ),
        RecordView::RomSetting { rule_id, matcher, namespace, key, applied_value, original_value } =>
        object(
            seq![
                str_member("kind"@, "rom_setting"@),
                str_member("rule_id"@, rule_id),
                str_member("matcher"@, matcher),
                str_member("namespace"@, namespace_tag(namespace)),
                str_member("key"@, key),
                str_member("applied_value"@, applied_value),
                member("original_value"@, json_opt_str(original_value)),
            ],
        ),
        RecordView::SharedPrefsBool {
            rule_id,
            matcher,
            path,
            key,
            applied_value,
            original_value,
            original_sha256,
            backup_path,
        } => object(
            seq![
                str_member("kind"@, "shared_prefs_bool"@),
                str_member("rule_id"@, rule_id),
                str_member("matcher"@, matcher),
                str_member("path"@, path),
                str_member("key"@, key),
                member("applied_value"@, json_bool(applied_value)),
                member("original_value"@, json_bool(original_value)),
                str_member("original_sha256"@, original_sha256),
                str_member("backup_path"@, backup_path),
            ],
        ),
        RecordView::RomSkipped { rule_id, matcher, reason } => object(
            seq![
                str_member("kind"@, "rom_skipped"@),
                str_member("rule_id"@, rule_id),
                str_member("matcher"@, matcher),
                str_member("reason"@, reason),
            ],
        ),
    }
}

fn enabled_str(s: PackageEnabledState) -> (r: &'static str)
    ensures
        r@ == enabled_name(s),
{
    match s {
        PackageEnabledState::Enabled => "enabled",
        PackageEnabledState::Disabled => "disabled",
    }
}

fn hidden_str(s: PackageHiddenState) -> (r: &'static str)
    ensures
        r@ == hidden_name(s),
{
    match s {
        PackageHiddenState::Visible => "visible",
        PackageHiddenState::Hidden => "hidden",
    }
}

fn hide_status_str(s: HideApplyStatus) -> (r: &'static str)
    ensures
        r@ == hide_status_name(s),
{
    match s {
        HideApplyStatus::NotRequested => "not_requested",
        HideApplyStatus::Applied => "applied",
        HideApplyStatus::SkippedUnavailable => "skipped_unavailable",
    }
}

fn namespace_str(ns: SettingsNamespace) -> (r: &'static str)
    ensures
        r@ == namespace_tag(ns),
{
    match ns {
        SettingsNamespace::System => "System",
        SettingsNamespace::Secure => "Secure",
        SettingsNamespace::Global => "Global",
    }
}

fn push_str_member(ms: &mut Vec<String>, name: &str, value: &str)
    ensures
        final(ms).deep_view() == old(ms).deep_view().push(str_member(name@, value@)),
{
    let m = string_member(name, value);
    let ghost before = ms.deep_view();
    ms.push(m);
    assert(ms.deep_view() =~= before.push(str_member(name@, value@)));
}

fn push_raw_member(ms: &mut Vec<String>, name: &str, value: &str)
    ensures
        final(ms).deep_view() == old(ms).deep_view().push(member(name@, value@)),
{
    let m = json_member(name, value);
    let ghost before = ms.deep_view();
    ms.push(m);
    assert(ms.deep_view() =~= before.push(member(name@, value@)));
}

impl ProfileRecord {
    /// The ledger line of this record.
    pub fn to_json(&self) -> (r: String)
        ensures
            r@ == record_json(self@),
    {
        let mut ms: Vec<String> = Vec::new();
        match self {
            ProfileRecord::AppSkipped(r) => {
                push_str_member(&mut ms, "kind", "app_skipped");
                push_str_member(&mut ms, "rule_id", r.rule_id.as_str());
                push_str_member(&mut ms, "package", r.package.as_str());
                push_str_member(&mut ms, "reason", r.reason.as_str());
            },
            ProfileRecord::AppOp(r) => {
                push_str_member(&mut ms, "kind", "app_op");
                push_str_member(&mut ms, "rule_id", r.rule_id.as_str());
                push_str_member(&mut ms, "package", r.package.as_str());
                push_str_member(&mut ms, "op", r.op.as_str());
                push_str_member(&mut ms, "applied_mode", r.applied_mode.as_str());
                push_str_member(&mut ms, "original_mode", r.original_mode.as_str());
            },
            ProfileRecord::Component(r) => {
                push_str_member(&mut ms, "kind", "component");
                push_str_member(&mut ms, "rule_id", r.rule_id.as_str());
                let user = text::u32_to_decimal(r.user_id);
                push_raw_member(&mut ms, "user_id", user.as_str());
                push_str_member(&mut ms, "package", r.package.as_str());
                push_str_member(&mut ms, "component", r.component.as_str());
                push_str_member(&mut ms, "original_enabled", enabled_str(r.original_enabled));
                push_str_member(&mut ms, "original_hidden", hidden_str(r.original_hidden));
                push_str_member(&mut ms, "hide_status", hide_status_str(r.hide_status));
            },
            ProfileRecord::RomSetting(r) => {
                push_str_member(&mut ms, "kind", "rom_setting");
                push_str_member(&mut ms, "rule_id", r.rule_id.as_str());
                push_str_member(&mut ms, "matcher", r.matcher.as_str());
                push_str_member(&mut ms, "namespace", namespace_str(r.namespace));
                push_str_member(&mut ms, "key", r.key.as_str());
                push_str_member(&mut ms, "applied_value", r.applied_value.as_str());
                match &r.original_value {
                    Some(v) => {
                        let j = crate::profiles::json::json_string(v.as_str());
                        push_raw_member(&mut ms, "original_value", j.as_str());
                    },
                    None => {
                        push_raw_member(&mut ms, "original_value", "null");
                    },
                }
            },
            ProfileRecord::SharedPrefsBool(r) => {
                push_str_member(&mut ms, "kind", "shared_prefs_bool");
                push_str_member(&mut ms, "rule_id", r.rule_id.as_str());
                push_str_member(&mut ms, "matcher", r.matcher.as_str());
                push_str_member(&mut ms, "path", r.path.as_str());
                push_str_member(&mut ms, "key", r.key.as_str());
                push_raw_member(&mut ms, "applied_value", bool_text(r.applied_value));
                push_raw_member(&mut ms, "original_value", bool_text(r.original_value));
                push_str_member(&mut ms, "original_sha256", r.original_sha256.as_str());
                push_str_member(&mut ms, "backup_path", r.backup_path.as_str());
            },
            ProfileRecord::RomSkipped(r) => {
                push_str_member(&mut ms, "kind", "rom_skipped");
                push_str_member(&mut ms, "rule_id", r.rule_id.as_str());
                push_str_member(&mut ms, "matcher", r.matcher.as_str());
                push_str_member(&mut ms, "reason", r.reason.as_str());
            },
        }
        let out = json_object(&ms);
        assert(ms.deep_view() =~= match self@ {
            RecordView::AppSkipped { rule_id, package, reason } => seq![
                str_member("kind"@, "app_skipped"@),
                str_member("rule_id"@, rule_id),
                str_member("package"@, package),
                str_member("reason"@, reason),
            ],
            RecordView::AppOp { rule_id, package, op, applied_mode, original_mode } => seq![
                str_member("kind"@, "app_op"@),
                str_member("rule_id"@, rule_id),
                str_member("package"@, package),
                str_member("op"@, op),
                str_member("applied_mode"@, applied_mode),
                str_member("original_mode"@, original_mode),
            ],
            RecordView::Component {
                rule_id,
                user_id,
                package,
                component,
                original_enabled,
                original_hidden,
                hide_status,
            } => seq![
                str_member("kind"@, "component"@),
                str_member("rule_id"@, rule_id),
                member("user_id"@, text::decimal(user_id as nat)),
                str_member("package"@, package),
                str_member("component"@, component),
                str_member("original_enabled"@, enabled_name(original_enabled)),
                str_member("original_hidden"@, hidden_name(original_hidden)),
                str_member("hide_status"@, hide_status_name(hide_status)),
            ],
            RecordView::RomSetting { rule_id, matcher, namespace, key, applied_value, original_value } => seq![
                str_member("kind"@, "rom_setting"@),
                str_member("rule_id"@, rule_id),
                str_member("matcher"@, matcher),
                str_member("namespace"@, namespace_tag(namespace)),
                str_member("key"@, key),
                str_member("applied_value"@, applied_value),
                member("original_value"@, json_opt_str(original_value)),
            ],
            RecordView::SharedPrefsBool {
                rule_id,
                matcher,
                path,
                key,
                applied_value,
                original_value,
                original_sha256,
                backup_path,
            } => seq![
                str_member("kind"@, "shared_prefs_bool"@),
                str_member("rule_id"@, rule_id),
                str_member("matcher"@, matcher),
                str_member("path"@, path),
                str_member("key"@, key),
                member("applied_value"@, json_bool(applied_value)),
                member("original_value"@, json_bool(original_value)),
                str_member("original_sha256"@, original_sha256),
                str_member("backup_path"@, backup_path),
            ],
            RecordView::RomSkipped { rule_id, matcher, reason } => seq![
                str_member("kind"@, "rom_skipped"@),
                str_member("rule_id"@, rule_id),
                str_member("matcher"@, matcher),
                str_member("reason"@, reason),
            ],
        });
        out
    }
}

} // verus!
