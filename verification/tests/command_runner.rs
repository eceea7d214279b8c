use std::cell::RefCell;

use puread_android::command_runner::adapter::{AndroidCommandAdapter, CommandPhase};
use puread_android::command_runner::appops::AppOpsAdapter;
use puread_android::command_runner::error::CommandError;
use puread_android::command_runner::invocation::CommandInvocation;
use puread_android::command_runner::metadata::{ChattrAdapter, LsattrAdapter};
use puread_android::command_runner::output::CommandOutput;
use puread_android::command_runner::pm::{PmComponentAdapter, PmPackageAdapter};
use puread_android::command_runner::property::GetpropAdapter;
use puread_android::command_runner::runner::{AndroidCommandRunner, CommandRunnerError};
use puread_android::command_runner::settings::{SettingsAdapter, SettingsNamespace};
use puread_android::command_runner::validation::validate_common;

struct ScriptedRunner {
    answers: RefCell<Vec<Result<CommandOutput, CommandRunnerError>>>,
    calls: RefCell<Vec<Vec<String>>>,
}

impl ScriptedRunner {
    fn new(answers: Vec<Result<CommandOutput, CommandRunnerError>>) -> Self {
        ScriptedRunner { answers: RefCell::new(answers), calls: RefCell::new(Vec::new()) }
    }
}

impl AndroidCommandRunner for ScriptedRunner {
    fn run(&self, invocation: &CommandInvocation) -> Result<CommandOutput, CommandRunnerError> {
        self.calls.borrow_mut().push(invocation.argv());
        self.answers.borrow_mut().remove(0)
    }
}

fn ok(stdout: &str) -> Result<CommandOutput, CommandRunnerError> {
    Ok(CommandOutput::success(stdout.to_owned(), String::new()))
}

#[test]
fn invocation_keeps_program_and_arguments_apart() {
    let invocation = CommandInvocation::new("/system/bin/pm", &["path", "com.example.app"]);
    assert_eq!(invocation.program(), "/system/bin/pm");
    assert_eq!(invocation.args(), ["path".to_owned(), "com.example.app".to_owned()].as_slice());
    assert_eq!(invocation.argv(), vec!["/system/bin/pm", "path", "com.example.app"]);
}

#[test]
fn output_reports_success_only_for_status_zero() {
    assert!(CommandOutput::success("x".to_owned(), String::new()).is_success());
    let failed = CommandOutput::failure(2, "out".to_owned(), "err".to_owned());
    assert!(!failed.is_success());
    assert_eq!(failed.status(), 2);
    assert_eq!(failed.stdout(), "out");
    assert_eq!(failed.stderr(), "err");
}

#[test]
fn common_check_rejects_shell_metacharacters_options_and_traversal() {
    for bad in ["a;b", "a|b", "$HOME", "-rf", "a/../b", "a b", ""] {
        assert!(validate_common("field", bad).is_err(), "{bad} accepted");
    }
    assert!(validate_common("field", "com.example.app").is_ok());
}

#[test]
fn appops_adapter_builds_get_and_set_argv() {
    let adapter = AppOpsAdapter::new("com.example.app", "RUN_IN_BACKGROUND", "ignore", "allow").unwrap();
    assert_eq!(
        adapter.command(CommandPhase::Probe).argv(),
        vec!["/system/bin/cmd", "appops", "get", "com.example.app", "RUN_IN_BACKGROUND"]
    );
    assert_eq!(
        adapter.command(CommandPhase::Apply).argv(),
        vec!["/system/bin/cmd", "appops", "set", "com.example.app", "RUN_IN_BACKGROUND", "ignore"]
    );
    assert_eq!(
        adapter.command(CommandPhase::Restore).argv(),
        vec!["/system/bin/cmd", "appops", "set", "com.example.app", "RUN_IN_BACKGROUND", "allow"]
    );
}

#[test]
fn appops_adapter_rejects_unknown_mode() {
    let error = AppOpsAdapter::new("com.example.app", "RUN_IN_BACKGROUND", "sometimes", "allow").unwrap_err();
    assert!(matches!(error, CommandError::InvalidArgument { field: "appop_mode", .. }));
}

#[test]
fn settings_adapter_refuses_dns_host_and_proxy_keys_in_any_case() {
    for key in ["private_dns_mode", "Global_HTTP_PROXY", "hostname_override", "DNS"] {
        let error = SettingsAdapter::new(SettingsNamespace::Global, key, "1", None).unwrap_err();
        assert!(matches!(error, CommandError::DeniedSettingsKey { .. }), "{key} accepted");
    }
}

#[test]
fn settings_adapter_accepts_only_allowlisted_keys() {
    assert!(SettingsAdapter::new(SettingsNamespace::Secure, "miui_home_show_recommend", "0", None).is_ok());
    let error = SettingsAdapter::new(SettingsNamespace::Secure, "screen_brightness", "0", None).unwrap_err();
    assert!(matches!(error, CommandError::DeniedSettingsKey { reason, .. } if reason == "settings key is not in the ROM profile allowlist"));
}

#[test]
fn settings_restore_deletes_when_original_was_absent() {
    let absent = SettingsAdapter::new(SettingsNamespace::Secure, "miui_home_show_recommend", "0", None).unwrap();
    assert_eq!(
        absent.command(CommandPhase::Restore).argv(),
        vec!["/system/bin/settings", "delete", "secure", "miui_home_show_recommend"]
    );
    let present = SettingsAdapter::new(SettingsNamespace::Secure, "miui_home_show_recommend", "0", Some("1")).unwrap();
    assert_eq!(
        present.command(CommandPhase::Restore).argv(),
        vec!["/system/bin/settings", "put", "secure", "miui_home_show_recommend", "1"]
    );
}

#[test]
fn settings_value_with_newline_is_invalid() {
    let error = SettingsAdapter::new(SettingsNamespace::Secure, "miui_home_show_recommend", "0\n1", None).unwrap_err();
    assert!(matches!(error, CommandError::InvalidArgument { field: "settings_value", .. }));
}

#[test]
fn pm_component_adapter_disables_and_enables_for_user() {
    let adapter = PmComponentAdapter::new(0, "com.example.app/com.example.AdService").unwrap();
    assert_eq!(
        adapter.command(CommandPhase::Apply).argv(),
        vec!["/system/bin/pm", "disable-user", "--user", "0", "com.example.app/com.example.AdService"]
    );
    assert_eq!(
        adapter.command(CommandPhase::Restore).argv(),
        vec!["/system/bin/pm", "enable", "--user", "0", "com.example.app/com.example.AdService"]
    );
    assert!(PmComponentAdapter::new(0, "com.example.app").is_err());
}

#[test]
fn pm_package_adapter_builds_probe_and_hide_argv() {
    let adapter = PmPackageAdapter::new("com.example.app").unwrap();
    assert_eq!(adapter.path_probe().argv(), vec!["/system/bin/pm", "path", "com.example.app"]);
    assert_eq!(adapter.disabled_probe().argv(), vec!["/system/bin/pm", "list", "packages", "-d", "com.example.app"]);
    assert_eq!(adapter.hidden_probe().argv(), vec!["/system/bin/pm", "list", "packages", "--hidden", "com.example.app"]);
    assert_eq!(adapter.hide_command().argv(), vec!["/system/bin/pm", "hide", "com.example.app"]);
    assert_eq!(adapter.try_hide().argv(), vec!["/system/bin/pm", "hide", "com.example.app"]);
    assert_eq!(adapter.unhide().argv(), vec!["/system/bin/pm", "unhide", "com.example.app"]);
}

#[test]
fn getprop_adapter_is_read_only() {
    let adapter = GetpropAdapter::new("ro.miui.ui.version.name").unwrap();
    let runner = ScriptedRunner::new(vec![]);
    let error = adapter.apply(&runner).unwrap_err();
    assert!(matches!(error, CommandError::UnsupportedReadOnlyPhase { phase: "apply", .. }));
    assert!(adapter.restore(&runner).is_err());
    assert!(runner.calls.borrow().is_empty());
}

#[test]
fn lsattr_adapter_is_read_only_and_chattr_sets_immutable() {
    let lsattr = LsattrAdapter::new("/data/local/ad.cache").unwrap();
    let runner = ScriptedRunner::new(vec![]);
    assert!(lsattr.apply(&runner).is_err());
    let chattr = ChattrAdapter::new("/data/local/ad.cache").unwrap();
    assert_eq!(chattr.command(CommandPhase::Apply).argv(), vec!["/system/bin/chattr", "+i", "/data/local/ad.cache"]);
    assert_eq!(chattr.command(CommandPhase::Restore).argv(), vec!["/system/bin/chattr", "-i", "/data/local/ad.cache"]);
}

#[test]
fn dry_run_plans_without_calling_the_runner() {
    let adapter = AppOpsAdapter::new("com.example.app", "RUN_IN_BACKGROUND", "ignore", "allow").unwrap();
    let outcome = adapter.dry_run(CommandPhase::Apply);
    assert!(outcome.is_dry_run());
    assert!(outcome.output().is_none());
    assert_eq!(outcome.phase(), CommandPhase::Apply);
    assert_eq!(outcome.intent(), "apply appop RUN_IN_BACKGROUND for com.example.app");
}

#[test]
fn run_maps_non_zero_status_to_command_failed() {
    let adapter = AppOpsAdapter::new("com.example.app", "RUN_IN_BACKGROUND", "ignore", "allow").unwrap();
    let runner = ScriptedRunner::new(vec![Ok(CommandOutput::failure(1, String::new(), "denied".to_owned()))]);
    let error = adapter.apply(&runner).unwrap_err();
    assert!(matches!(error, CommandError::CommandFailed { status: 1, ref stderr, .. } if stderr == "denied"));
}

#[test]
fn run_maps_start_failure_to_command_unavailable() {
    let adapter = AppOpsAdapter::new("com.example.app", "RUN_IN_BACKGROUND", "ignore", "allow").unwrap();
    let runner = ScriptedRunner::new(vec![Err(CommandRunnerError::NotFound { detail: "missing".to_owned() })]);
    let error = adapter.probe(&runner).unwrap_err();
    assert!(matches!(error, CommandError::CommandUnavailable { .. }));
}

#[test]
fn run_records_the_output_of_a_successful_call() {
    let adapter = AppOpsAdapter::new("com.example.app", "RUN_IN_BACKGROUND", "ignore", "allow").unwrap();
    let runner = ScriptedRunner::new(vec![ok("RUN_IN_BACKGROUND: allow")]);
    let outcome = adapter.probe(&runner).unwrap();
    assert!(!outcome.is_dry_run());
    assert_eq!(outcome.output().unwrap().stdout(), "RUN_IN_BACKGROUND: allow");
    assert_eq!(
        runner.calls.borrow()[0],
        vec!["/system/bin/cmd", "appops", "get", "com.example.app", "RUN_IN_BACKGROUND"]
    );
}
