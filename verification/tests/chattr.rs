use std::cell::RefCell;

use puread_android::chattr::command::{contains_failure_marker, CommandInvocation, CommandOutput, CommandRunner, Tools};
use puread_android::chattr::error::ImmutableError;
use puread_android::chattr::outcome::ImmutableOutcome;
use puread_android::chattr::profile::ImmutableProfile;
use puread_android::chattr::{apply_immutable, parse_lsattr, read_attrs_from, resolve_command, run_chattr_from, ImmutableRequest};
use puread_android::model::ProfileKind;

/// Answers by program: present programs print `stdout`; others are missing.
struct FakeTools {
    present: Vec<&'static str>,
    lsattr_stdout: &'static str,
    chattr_stderr: &'static str,
    calls: RefCell<Vec<(String, Vec<String>)>>,
}

impl CommandRunner for FakeTools {
    fn run(&self, invocation: &CommandInvocation) -> Result<CommandOutput, ImmutableError> {
        let program = invocation.program().to_owned();
        self.calls.borrow_mut().push((program.clone(), invocation.args_vec()));
        if !self.present.contains(&program.as_str()) {
            return Err(ImmutableError::CommandUnavailable { program, detail: "missing".to_owned() });
        }
        if program.ends_with("lsattr") {
            return Ok(CommandOutput::success(self.lsattr_stdout.to_owned(), String::new()));
        }
        Ok(CommandOutput::success(String::new(), self.chattr_stderr.to_owned()))
    }
}

fn tools(present: Vec<&'static str>, chattr_stderr: &'static str) -> FakeTools {
    FakeTools {
        present,
        lsattr_stdout: "--------------e---- /data/ad.cache\n",
        chattr_stderr,
        calls: RefCell::new(Vec::new()),
    }
}

#[test]
fn parse_lsattr_takes_the_first_field_of_the_first_non_blank_line() {
    assert_eq!(parse_lsattr("\n  \n----i--- /data/x\n").unwrap(), "----i---");
    assert!(matches!(parse_lsattr("   \n"), Err(ImmutableError::MalformedLsattr { .. })));
    assert!(matches!(parse_lsattr("onlyattrs"), Err(ImmutableError::MalformedLsattr { .. })));
}

#[test]
fn failure_markers_are_found_in_either_stream_in_any_case() {
    assert!(contains_failure_marker("Operation not permitted", ""));
    assert!(contains_failure_marker("", "ERROR: bad"));
    assert!(!contains_failure_marker("ok", "done"));
}

#[test]
fn non_strong_profile_only_skips_and_runs_nothing() {
    let runner = tools(vec!["/system/bin/lsattr", "/system/bin/chattr"], "");
    let request = ImmutableRequest::new("/data/ad.cache", ImmutableProfile::from_profile(ProfileKind::SdkCache));
    let outcome = apply_immutable(&mut Tools::new(&runner), &request);
    assert!(matches!(outcome, ImmutableOutcome::Skipped { ref reason, .. } if reason == "immutable mode requires strong profile"));
    assert!(runner.calls.borrow().is_empty());
}

#[test]
fn strong_profile_reads_attributes_then_sets_immutable() {
    let runner = tools(vec!["/system/xbin/lsattr", "/system/bin/chattr"], "");
    let request = ImmutableRequest::new("/data/ad.cache", ImmutableProfile::Strong);
    match apply_immutable(&mut Tools::new(&runner), &request) {
        ImmutableOutcome::Applied { original_attrs, command, .. } => {
            assert_eq!(original_attrs.as_deref(), Some("--------------e----"));
            assert_eq!(command.program(), "/system/bin/chattr");
            assert_eq!(command.args(), ["+i".to_owned(), "/data/ad.cache".to_owned()].as_slice());
        },
        other => panic!("unexpected outcome {other:?}"),
    }
}

#[test]
fn missing_lsattr_degrades_without_mutation() {
    let runner = tools(vec!["/system/bin/chattr"], "");
    let request = ImmutableRequest::new("/data/ad.cache", ImmutableProfile::Strong);
    let outcome = apply_immutable(&mut Tools::new(&runner), &request);
    assert!(matches!(outcome, ImmutableOutcome::Degraded { reason: "lsattr command unavailable", original_attrs: None, .. }));
    assert!(runner.calls.borrow().iter().all(|(_, args)| !args.contains(&"+i".to_owned())));
}

#[test]
fn chattr_failure_marker_degrades_with_original_attributes() {
    let runner = tools(vec!["/system/bin/lsattr", "/system/bin/chattr"], "chattr: Operation not permitted");
    let request = ImmutableRequest::new("/data/ad.cache", ImmutableProfile::Strong);
    let outcome = apply_immutable(&mut Tools::new(&runner), &request);
    assert!(matches!(outcome, ImmutableOutcome::Degraded { reason: "chattr failed", original_attrs: Some(_), .. }));
}

#[test]
fn without_candidates_the_unavailable_tool_is_named_chattr_tools() {
    let runner = tools(vec![], "");
    match resolve_command(&mut Tools::new(&runner), &[]) {
        Err(ImmutableError::CommandUnavailable { program, .. }) => assert_eq!(program, "chattr-tools"),
        other => panic!("unexpected {other:?}"),
    }
    assert!(runner.calls.borrow().is_empty());
}

#[test]
fn answers_of_lsattr_and_chattr_map_to_attributes_and_failures() {
    let read = read_attrs_from("/system/bin/lsattr", "/data/ad.cache", Ok(CommandOutput::success("----i---- /data/ad.cache\n".to_owned(), String::new())));
    assert_eq!(read.unwrap(), "----i----");
    let failed = read_attrs_from("/system/bin/lsattr", "/data/ad.cache", Ok(CommandOutput::success(String::new(), "Operation not permitted".to_owned())));
    assert!(matches!(failed, Err(ImmutableError::CommandFailed { .. })));
    let applied = run_chattr_from("/system/bin/chattr", "/data/ad.cache", Ok(CommandOutput::success(String::new(), String::new()))).unwrap();
    assert_eq!(applied.program(), "/system/bin/chattr");
    assert_eq!(applied.args(), &["+i".to_owned(), "/data/ad.cache".to_owned()]);
}

#[test]
fn strong_profile_runs_exactly_the_four_calls_in_order() {
    let runner = tools(vec!["/system/bin/lsattr", "/system/bin/chattr"], "");
    let request = ImmutableRequest::new("/t", ImmutableProfile::Strong);
    let outcome = apply_immutable(&mut Tools::new(&runner), &request);
    assert!(matches!(outcome, ImmutableOutcome::Applied { .. }));
    let calls = runner.calls.borrow().clone();
    assert_eq!(
        calls,
        vec![
            ("/system/bin/lsattr".to_owned(), vec![]),
            ("/system/bin/chattr".to_owned(), vec![]),
            ("/system/bin/lsattr".to_owned(), vec!["/t".to_owned()]),
            ("/system/bin/chattr".to_owned(), vec!["+i".to_owned(), "/t".to_owned()]),
        ]
    );
}
