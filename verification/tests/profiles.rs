use std::cell::RefCell;

use puread_android::command_runner::invocation::CommandInvocation;
use puread_android::command_runner::output::CommandOutput;
use puread_android::command_runner::runner::{AndroidCommandRunner, CommandRunnerError};
use puread_android::command_runner::settings::SettingsNamespace;
use puread_android::profiles::error::ProfileError;
use puread_android::profiles::executor::{required_result, AndroidProfileExecutor, ProfileLedgerSink};
use puread_android::profiles::record::{
    AppOpRecord, AppSkippedRecord, ComponentRecord, HideApplyStatus, PackageEnabledState, PackageHiddenState,
    ProfileOperationStatus, ProfileRecord, RomSettingRecord, SharedPrefsBoolRecord,
};
use puread_android::profiles::rom::{RomRestore, RomStep};
use puread_android::profiles::rules::{
    AppOpProfileRule, ComponentProfileRule, PmHidePolicy, RomMatcher, RomProfileRule, RomSettingsRule,
    SharedPrefsBoolRule,
};
use puread_android::profiles::xml::plan_bool;

/// Answers each argv by a scripted rule; records every call.
struct FakeDevice {
    answers: Vec<(Vec<&'static str>, Result<CommandOutput, CommandRunnerError>)>,
    calls: RefCell<Vec<Vec<String>>>,
}

impl FakeDevice {
    fn new(answers: Vec<(Vec<&'static str>, Result<CommandOutput, CommandRunnerError>)>) -> Self {
        FakeDevice { answers, calls: RefCell::new(Vec::new()) }
    }

    fn calls(&self) -> Vec<Vec<String>> {
        self.calls.borrow().clone()
    }
}

impl AndroidCommandRunner for FakeDevice {
    fn run(&self, invocation: &CommandInvocation) -> Result<CommandOutput, CommandRunnerError> {
        let argv = invocation.argv();
        self.calls.borrow_mut().push(argv.clone());
        for (expected, answer) in &self.answers {
            if *expected == argv {
                return answer.clone();
            }
        }
        Ok(CommandOutput::success(String::new(), String::new()))
    }
}

#[derive(Default)]
struct MemoryLedger {
    lines: RefCell<Vec<String>>,
    fail: bool,
}

impl ProfileLedgerSink for MemoryLedger {
    fn append(&self, record: String) -> Result<(), ProfileError> {
        if self.fail {
            return Err(ProfileError::Json { detail: "ledger full".to_owned() });
        }
        self.lines.borrow_mut().push(record);
        Ok(())
    }
}

fn out(stdout: &str) -> Result<CommandOutput, CommandRunnerError> {
    Ok(CommandOutput::success(stdout.to_owned(), String::new()))
}

const PKG: &str = "com.example.app";

fn appop_rule() -> AppOpProfileRule {
    AppOpProfileRule::new("appops-example", PKG, "RUN_IN_BACKGROUND", "ignore").unwrap()
}

#[test]
fn appop_records_the_original_mode_before_setting_the_new_one() {
    let device = FakeDevice::new(vec![
        (vec!["/system/bin/pm", "path", PKG], out("package:/data/app/base.apk")),
        (vec!["/system/bin/cmd", "appops", "get", PKG, "RUN_IN_BACKGROUND"], out("Uid mode: x\nRUN_IN_BACKGROUND: allow\n")),
    ]);
    let ledger = MemoryLedger::default();
    let mut executor = AndroidProfileExecutor::new(&device, &ledger);
    let operation = executor.apply_appop(&appop_rule()).unwrap();
    assert_eq!(operation.status, ProfileOperationStatus::Applied);
    assert_eq!(
        operation.record,
        r#"{"kind":"app_op","rule_id":"appops-example","package":"com.example.app","op":"RUN_IN_BACKGROUND","applied_mode":"ignore","original_mode":"allow"}"#
    );
    assert_eq!(ledger.lines.borrow().as_slice(), [operation.record.clone()].as_slice());
    assert_eq!(
        device.calls().last().unwrap(),
        &vec!["/system/bin/cmd", "appops", "set", PKG, "RUN_IN_BACKGROUND", "ignore"]
    );
}

#[test]
fn appop_with_an_unrecognised_original_mode_is_refused_after_recording() {
    let device = FakeDevice::new(vec![
        (vec!["/system/bin/pm", "path", PKG], out("package:/data/app/base.apk")),
        (vec!["/system/bin/cmd", "appops", "get", PKG, "RUN_IN_BACKGROUND"], out("RUN_IN_BACKGROUND: allow; time=+1d")),
    ]);
    let ledger = MemoryLedger::default();
    let mut executor = AndroidProfileExecutor::new(&device, &ledger);
    let error = executor.apply_appop(&appop_rule()).unwrap_err();
    assert!(matches!(error, ProfileError::Command(_)));
    assert_eq!(ledger.lines.borrow().len(), 1);
    assert!(device.calls().iter().all(|argv| !argv.contains(&"set".to_owned())));
}

#[test]
fn appop_without_reported_mode_records_default() {
    let device = FakeDevice::new(vec![
        (vec!["/system/bin/pm", "path", PKG], out("package:/data/app/base.apk")),
        (vec!["/system/bin/cmd", "appops", "get", PKG, "RUN_IN_BACKGROUND"], out("No operations.")),
    ]);
    let ledger = MemoryLedger::default();
    let mut executor = AndroidProfileExecutor::new(&device, &ledger);
    let operation = executor.apply_appop(&appop_rule()).unwrap();
    assert!(operation.record.ends_with(r#""original_mode":"default"}"#));
}

#[test]
fn appop_for_missing_package_records_a_skip_and_changes_nothing() {
    let device = FakeDevice::new(vec![(vec!["/system/bin/pm", "path", PKG], out(""))]);
    let ledger = MemoryLedger::default();
    let mut executor = AndroidProfileExecutor::new(&device, &ledger);
    let operation = executor.apply_appop(&appop_rule()).unwrap();
    assert_eq!(operation.status, ProfileOperationStatus::Skipped);
    assert_eq!(
        operation.record,
        r#"{"kind":"app_skipped","rule_id":"appops-example","package":"com.example.app","reason":"package_not_installed"}"#
    );
    assert_eq!(device.calls().len(), 1);
}

#[test]
fn appop_is_not_changed_when_the_ledger_refuses_the_record() {
    let device = FakeDevice::new(vec![(vec!["/system/bin/pm", "path", PKG], out("package:/x.apk"))]);
    let ledger = MemoryLedger { lines: RefCell::new(Vec::new()), fail: true };
    let mut executor = AndroidProfileExecutor::new(&device, &ledger);
    assert!(executor.apply_appop(&appop_rule()).is_err());
    assert!(device.calls().iter().all(|argv| !argv.contains(&"set".to_owned())));
}

#[test]
fn appop_restore_sets_the_recorded_original_mode() {
    let device = FakeDevice::new(vec![]);
    let ledger = MemoryLedger::default();
    let mut executor = AndroidProfileExecutor::new(&device, &ledger);
    let record = ProfileRecord::AppOp(AppOpRecord {
        rule_id: "appops-example".to_owned(),
        package: PKG.to_owned(),
        op: "RUN_IN_BACKGROUND".to_owned(),
        applied_mode: "ignore".to_owned(),
        original_mode: "allow".to_owned(),
    });
    executor.restore_appop(&record).unwrap();
    assert_eq!(device.calls(), vec![vec!["/system/bin/cmd", "appops", "set", PKG, "RUN_IN_BACKGROUND", "allow"]]);
}

fn component_rule(policy: PmHidePolicy) -> ComponentProfileRule {
    ComponentProfileRule::new("component-example", 0, "com.example.app/com.example.AdService", policy).unwrap()
}

#[test]
fn component_hide_success_writes_a_confirmed_record() {
    let device = FakeDevice::new(vec![
        (vec!["/system/bin/pm", "path", PKG], out("package:/x.apk")),
        (vec!["/system/bin/pm", "list", "packages", "-d", PKG], out("")),
        (vec!["/system/bin/pm", "list", "packages", "--hidden", PKG], out("")),
    ]);
    let ledger = MemoryLedger::default();
    let mut executor = AndroidProfileExecutor::new(&device, &ledger);
    let operation = executor.apply_component(&component_rule(PmHidePolicy::TryHide)).unwrap();
    assert!(operation.record.contains(r#""hide_status":"applied""#));
    assert!(operation.record.contains(r#""original_enabled":"enabled""#));
    assert!(operation.record.contains(r#""original_hidden":"visible""#));
    assert_eq!(ledger.lines.borrow().len(), 2);
    assert_eq!(
        device.calls().last().unwrap(),
        &vec!["/system/bin/pm", "disable-user", "--user", "0", "com.example.app/com.example.AdService"]
    );
}

#[test]
fn component_hide_failure_is_recorded_as_skipped_unavailable() {
    let device = FakeDevice::new(vec![
        (vec!["/system/bin/pm", "path", PKG], out("package:/x.apk")),
        (vec!["/system/bin/pm", "hide", PKG], Ok(CommandOutput::failure(1, String::new(), "not allowed".to_owned()))),
    ]);
    let ledger = MemoryLedger::default();
    let mut executor = AndroidProfileExecutor::new(&device, &ledger);
    let operation = executor.apply_component(&component_rule(PmHidePolicy::TryHide)).unwrap();
    assert!(operation.record.contains(r#""hide_status":"skipped_unavailable""#));
    assert_eq!(ledger.lines.borrow().len(), 1);
}

fn component_record(enabled: PackageEnabledState, hidden: PackageHiddenState, status: HideApplyStatus) -> ProfileRecord {
    ProfileRecord::Component(ComponentRecord {
        rule_id: "component-example".to_owned(),
        user_id: 0,
        package: PKG.to_owned(),
        component: "com.example.app/com.example.AdService".to_owned(),
        original_enabled: enabled,
        original_hidden: hidden,
        hide_status: status,
    })
}

#[test]
fn component_restore_unhides_and_enables_what_was_changed() {
    let device = FakeDevice::new(vec![]);
    let ledger = MemoryLedger::default();
    let mut executor = AndroidProfileExecutor::new(&device, &ledger);
    executor
        .restore_component(&component_record(PackageEnabledState::Enabled, PackageHiddenState::Visible, HideApplyStatus::Applied))
        .unwrap();
    assert_eq!(
        device.calls(),
        vec![
            vec!["/system/bin/pm", "unhide", PKG],
            vec!["/system/bin/pm", "enable", "--user", "0", "com.example.app/com.example.AdService"],
        ]
    );
}

#[test]
fn component_restore_leaves_originally_disabled_and_hidden_packages_alone() {
    let device = FakeDevice::new(vec![]);
    let ledger = MemoryLedger::default();
    let mut executor = AndroidProfileExecutor::new(&device, &ledger);
    executor
        .restore_component(&component_record(PackageEnabledState::Disabled, PackageHiddenState::Hidden, HideApplyStatus::Applied))
        .unwrap();
    assert!(device.calls().is_empty());
}

fn rom_settings_rule() -> RomProfileRule {
    let settings = RomSettingsRule::new(SettingsNamespace::Secure, "miui_home_show_recommend", "0").unwrap();
    RomProfileRule::settings("rom-home-recommend", RomMatcher::miui(), settings).unwrap()
}

#[test]
fn rom_rule_is_skipped_on_another_rom() {
    let device = FakeDevice::new(vec![(vec!["/system/bin/getprop", "ro.miui.ui.version.name"], out("  \n"))]);
    let ledger = MemoryLedger::default();
    let mut executor = AndroidProfileExecutor::new(&device, &ledger);
    match executor.apply_rom(&rom_settings_rule()).unwrap() {
        RomStep::Finished(operation) => {
            assert_eq!(operation.status, ProfileOperationStatus::Skipped);
            assert_eq!(
                operation.record,
                r#"{"kind":"rom_skipped","rule_id":"rom-home-recommend","matcher":"miui","reason":"rom_property_empty"}"#
            );
        },
        RomStep::SharedPrefs => panic!("settings rule handed back"),
    }
    assert_eq!(device.calls().len(), 1);
}

#[test]
fn rom_setting_records_absent_original_then_puts_the_value() {
    let device = FakeDevice::new(vec![
        (vec!["/system/bin/getprop", "ro.miui.ui.version.name"], out("V140")),
        (vec!["/system/bin/settings", "get", "secure", "miui_home_show_recommend"], out("null\n")),
    ]);
    let ledger = MemoryLedger::default();
    let mut executor = AndroidProfileExecutor::new(&device, &ledger);
    let RomStep::Finished(operation) = executor.apply_rom(&rom_settings_rule()).unwrap() else {
        panic!("settings rule handed back");
    };
    assert_eq!(operation.status, ProfileOperationStatus::Applied);
    assert!(operation.record.contains(r#""namespace":"Secure""#));
    assert!(operation.record.ends_with(r#""original_value":null}"#));
    assert_eq!(
        device.calls().last().unwrap(),
        &vec!["/system/bin/settings", "put", "secure", "miui_home_show_recommend", "0"]
    );
}

#[test]
fn rom_setting_restore_deletes_an_absent_original_and_puts_a_present_one() {
    let device = FakeDevice::new(vec![]);
    let ledger = MemoryLedger::default();
    let mut executor = AndroidProfileExecutor::new(&device, &ledger);
    let record = |original: Option<&str>| {
        ProfileRecord::RomSetting(RomSettingRecord {
            rule_id: "rom-home-recommend".to_owned(),
            matcher: "miui".to_owned(),
            namespace: SettingsNamespace::Secure,
            key: "miui_home_show_recommend".to_owned(),
            applied_value: "0".to_owned(),
            original_value: original.map(str::to_owned),
        })
    };
    assert!(matches!(executor.restore_rom(&record(None)).unwrap(), RomRestore::Done));
    assert!(matches!(executor.restore_rom(&record(Some("1"))).unwrap(), RomRestore::Done));
    assert_eq!(
        device.calls(),
        vec![
            vec!["/system/bin/settings", "delete", "secure", "miui_home_show_recommend"],
            vec!["/system/bin/settings", "put", "secure", "miui_home_show_recommend", "1"],
        ]
    );
}

#[test]
fn shared_prefs_rule_is_handed_back_and_recorded_with_hash_and_backup() {
    let device = FakeDevice::new(vec![(vec!["/system/bin/getprop", "ro.miui.ui.version.name"], out("V140"))]);
    let ledger = MemoryLedger::default();
    let mut executor = AndroidProfileExecutor::new(&device, &ledger);
    let xml = SharedPrefsBoolRule::new("/data/data/com.miui.weather2/shared_prefs/prefs.xml", "key_content_promotion", false, "/data/adb/puread/backups").unwrap();
    let rule = RomProfileRule::shared_prefs_bool("miui-weather-content-promotion", RomMatcher::miui(), xml).unwrap();
    assert!(matches!(executor.apply_rom(&rule).unwrap(), RomStep::SharedPrefs));
    let content = br#"<map><boolean name="key_content_promotion" value="true" /></map>"#;
    let plan = plan_bool(content, "/data/data/com.miui.weather2/shared_prefs/prefs.xml", "key_content_promotion", false, "/data/adb/puread/backups", "miui-weather-content-promotion").unwrap();
    let operation = executor.record_shared_prefs(&rule, &plan).unwrap();
    assert!(operation.record.contains(r#""kind":"shared_prefs_bool""#));
    assert!(operation.record.contains(r#""applied_value":false,"original_value":true"#));
    assert!(operation.record.contains(r#""backup_path":"/data/adb/puread/backups/miui-weather-content-promotion.xml.bak""#));
    let restore = executor
        .restore_rom(&ProfileRecord::SharedPrefsBool(SharedPrefsBoolRecord {
            rule_id: "miui-weather-content-promotion".to_owned(),
            matcher: "miui".to_owned(),
            path: "/p.xml".to_owned(),
            key: "k".to_owned(),
            applied_value: false,
            original_value: true,
            original_sha256: plan.original_sha256.clone(),
            backup_path: "/b.xml.bak".to_owned(),
        }))
        .unwrap();
    assert!(matches!(restore, RomRestore::CopyBackup { ref path, ref backup_path } if path == "/p.xml" && backup_path == "/b.xml.bak"));
}

#[test]
fn rule_constructors_refuse_bad_fields() {
    assert!(AppOpProfileRule::new("bad id", PKG, "RUN_IN_BACKGROUND", "ignore").is_err());
    assert!(AppOpProfileRule::new("ok-id", "not a package", "RUN_IN_BACKGROUND", "ignore").is_err());
    assert!(SharedPrefsBoolRule::new("/p.xml", "bad\"key", true, "/b").is_err());
    assert!(RomSettingsRule::new(SettingsNamespace::Global, "private_dns_mode", "off").is_err());
}

#[test]
fn shared_prefs_is_not_recorded_when_the_checks_failed_or_for_another_rule() {
    let device = FakeDevice::new(vec![]);
    let ledger = MemoryLedger::default();
    let mut executor = AndroidProfileExecutor::new(&device, &ledger);
    let xml = SharedPrefsBoolRule::new("/data/data/com.miui.weather2/shared_prefs/prefs.xml", "key_content_promotion", false, "/data/adb/puread/backups").unwrap();
    let rule = RomProfileRule::shared_prefs_bool("miui-weather-content-promotion", RomMatcher::miui(), xml).unwrap();
    let content = br#"<map><boolean name="key_content_promotion" value="true" /></map>"#;
    let plan = plan_bool(content, "/data/data/com.miui.weather2/shared_prefs/prefs.xml", "key_content_promotion", false, "/data/adb/puread/backups", "miui-weather-content-promotion").unwrap();
    let failed = ProfileError::Io { path: "/x".to_owned(), detail: "changed".to_owned() };
    assert!(matches!(executor.apply_shared_prefs(&rule, &plan, Err(failed)), Err(ProfileError::Io { .. })));
    assert!(ledger.lines.borrow().is_empty());
    assert!(matches!(
        executor.record_shared_prefs(&rom_settings_rule(), &plan),
        Err(ProfileError::InvalidRule { field: "action", reason: "rule is not a shared_prefs rule", .. })
    ));
    assert!(ledger.lines.borrow().is_empty());
    let operation = executor.apply_shared_prefs(&rule, &plan, Ok(())).unwrap();
    assert_eq!(ledger.lines.borrow().as_slice(), &[operation.record.clone()]);
    assert!(device.calls().is_empty());
}

#[test]
fn a_required_command_fails_on_a_non_zero_status() {
    let invocation = CommandInvocation::new("/system/bin/pm", &["path", "com.x"]);
    let ok = required_result(&invocation, Ok(CommandOutput::success("package:/x".to_owned(), String::new()))).unwrap();
    assert_eq!(ok.stdout(), "package:/x");
    assert!(matches!(
        required_result(&invocation, Ok(CommandOutput::failure(1, String::new(), "boom".to_owned()))),
        Err(ProfileError::Command(_))
    ));
    assert!(matches!(
        required_result(&invocation, Err(CommandRunnerError::NotFound { detail: "no pm".to_owned() })),
        Err(ProfileError::Runner { .. })
    ));
}

#[test]
fn appop_restore_makes_one_set_call_and_other_records_none() {
    let device = FakeDevice::new(vec![]);
    let ledger = MemoryLedger::default();
    let mut executor = AndroidProfileExecutor::new(&device, &ledger);
    let record = ProfileRecord::AppOp(AppOpRecord {
        rule_id: "appops-example".to_owned(),
        package: PKG.to_owned(),
        op: "RUN_IN_BACKGROUND".to_owned(),
        applied_mode: "ignore".to_owned(),
        original_mode: "allow".to_owned(),
    });
    executor.restore_appop(&record).unwrap();
    assert_eq!(device.calls(), vec![vec!["/system/bin/cmd", "appops", "set", PKG, "RUN_IN_BACKGROUND", "allow"]]);
    let other = ProfileRecord::AppSkipped(AppSkippedRecord {
        rule_id: "x".to_owned(),
        package: PKG.to_owned(),
        reason: "package_not_installed".to_owned(),
    });
    executor.restore_appop(&other).unwrap();
    assert_eq!(device.calls().len(), 1);
    assert!(ledger.lines.borrow().is_empty());
}
