//! The Android profile executor: probe the original state, write the restore
//! record to the ledger, and only then change the device.
use vstd::prelude::*;

use crate::command_runner::adapter::{
    outcome_of_run, run_view, AndroidCommandAdapter, CommandPhase, OutcomeView,
};
use crate::command_runner::appops::{appops_check, appops_get, appops_intent, appops_set, AppOpsAdapter};
use crate::command_runner::error::CommandErrorView;
use crate::command_runner::invocation::{CommandInvocation, InvocationView};
use crate::command_runner::output::{CommandOutput, OutputView};
use crate::command_runner::pm::{
    component_command, component_intent, component_package, pm, PmComponentAdapter, PmPackageAdapter,
};
use crate::command_runner::runner::{AndroidCommandRunner, CommandRunnerError, RunnerErrorView};
use crate::command_runner::validation::{component_check, package_check};
use crate::profiles::error::{from_command, lift, ProfileError, ProfileErrorView};
use crate::profiles::probe::{
    appop_mode_of, enabled_of, enabled_state, hidden_of, hidden_state, hide_status_for_policy,
    package_probe_missing, parse_appop_mode, planned_hide_status, probe_missing,
    runner_error_string, runner_error_text,
};
use crate::profiles::record::{
    record_json, AppOpRecord, AppSkippedRecord, ComponentRecord, HideApplyStatus,
    PackageEnabledState, PackageHiddenState, ProfileOperation, ProfileOperationStatus,
    ProfileRecord, RecordView,
};
use crate::profiles::rules::{AppOpProfileRule, ComponentProfileRule, PmHidePolicy};
use crate::profiles::device::{answer_of, ledger_answer_of, CallView, Device};
use crate::text;

verus! {

/// Where restore records go.
pub trait ProfileLedgerSink {
    /// Appends one record, a JSON ledger line.
    fn append(&self, record: String) -> Result<(), ProfileError>;
}

/// The Android profile executor.
pub struct AndroidProfileExecutor<'a, R: AndroidCommandRunner, L: ProfileLedgerSink> {
    /// The runner and the ledger, reached only through the call log.
    pub device: Device<'a, R, L>,
}

/// A profile operation, taken by contents.
pub struct OperationView {
    pub status: ProfileOperationStatus,
    pub record: Seq<char>,
}

pub open spec fn op_view(r: Result<ProfileOperation, ProfileError>) -> Result<
    OperationView,
    ProfileErrorView,
> {
    match r {
        Ok(op) => Ok(OperationView { status: op.status, record: op.record@ }),
        Err(e) => Err(e@),
    }
}

pub open spec fn unit_view(r: Result<(), ProfileError>) -> Result<(), ProfileErrorView> {
    match r {
        Ok(()) => Ok(()),
        Err(e) => Err(e@),
    }
}

pub open spec fn output_result_view(r: Result<CommandOutput, ProfileError>) -> Result<
    OutputView,
    ProfileErrorView,
> {
    match r {
        Ok(o) => Ok(o@),
        Err(e) => Err(e@),
    }
}

/// Recording `record` with `status`, given the ledger's answer.
pub open spec fn operation_spec(
    status: ProfileOperationStatus,
    record: RecordView,
    ledger: Result<(), ProfileErrorView>,
) -> Result<OperationView, ProfileErrorView> {
    match ledger {
        Err(e) => Err(e),
        Ok(()) => Ok(OperationView { status, record: record_json(record) }),
    }
}

/// `pm path` of a package.
pub open spec fn path_probe_command(package: Seq<char>) -> InvocationView {
    pm(seq!["path"@, package])
}

/// A command that must exit with status 0, given the runner's answer.
pub open spec fn run_required_spec(
    invocation: InvocationView,
    answer: Result<OutputView, RunnerErrorView>,
) -> Result<OutputView, ProfileErrorView> {
    match answer {
        Ok(o) => if o.status == 0 {
            Ok(o)
        } else {
            Err(
                ProfileErrorView::Command(
                    CommandErrorView::CommandFailed {
                        invocation,
                        status: o.status,
                        stdout: o.stdout,
                        stderr: o.stderr,
                    },
                ),
            )
        },
        Err(e) => Err(ProfileErrorView::Runner { detail: runner_error_text(e) }),
    }
}

/// What `pm path` said about the package.
pub enum Presence {
    Installed,
    NotInstalled,
    Failed(ProfileErrorView),
}

/// A package is installed when `pm path` printed something; it is missing
/// when `pm path` printed nothing or failed saying so.
pub open spec fn presence(path: Result<OutputView, ProfileErrorView>) -> Presence {
    match path {
        Ok(o) => if text::trimmed(o.stdout).len() > 0 {
            Presence::Installed
        } else {
            Presence::NotInstalled
        },
        Err(e) => if probe_missing(e) {
            Presence::NotInstalled
        } else {
            Presence::Failed(e)
        },
    }
}

pub open spec fn outcome_stdout(o: OutcomeView) -> Option<Seq<char>> {
    match o.output {
        Some(x) => Some(x.stdout),
        None => None,
    }
}

pub open spec fn lift_outcome(r: Result<OutcomeView, CommandErrorView>) -> Result<
    OutcomeView,
    ProfileErrorView,
> {
    match r {
        Ok(o) => Ok(o),
        Err(e) => Err(ProfileErrorView::Command(e)),
    }
}

/// The record of a rule skipped because its package is not installed.
pub open spec fn app_skipped(id: Seq<char>, package: Seq<char>) -> RecordView {
    RecordView::AppSkipped { rule_id: id, package, reason: "package_not_installed"@ }
}

/// An AppOps rule, given every answer of the runner and the ledger.
pub open spec fn apply_appop_spec(
    id: Seq<char>,
    package: Seq<char>,
    op: Seq<char>,
    mode: Seq<char>,
    path: Result<OutputView, ProfileErrorView>,
    probe: Result<OutputView, RunnerErrorView>,
    ledger: Result<(), ProfileErrorView>,
    apply: Result<OutputView, RunnerErrorView>,
) -> Result<OperationView, ProfileErrorView> {
    match lift(package_check("package"@, package)) {
        Err(e) => Err(e),
        Ok(()) => match presence(path) {
            Presence::Failed(e) => Err(e),
            Presence::NotInstalled => operation_spec(
                ProfileOperationStatus::Skipped,
                app_skipped(id, package),
                ledger,
            ),
            Presence::Installed => match lift(appops_check(package, op, mode, "default"@)) {
                Err(e) => Err(e),
                Ok(()) => match lift_outcome(
                    outcome_of_run(
                        CommandPhase::Probe,
                        appops_intent(CommandPhase::Probe, package, op),
                        appops_get(package, op),
                        probe,
                    ),
                ) {
                    Err(e) => Err(e),
                    Ok(o) => {
                        let original = appop_mode_of(outcome_stdout(o), op);
                        let record = RecordView::AppOp {
                            rule_id: id,
                            package,
                            op,
                            applied_mode: mode,
                            original_mode: original,
                        };
                        match operation_spec(ProfileOperationStatus::Applied, record, ledger) {
                            Err(e) => Err(e),
                            Ok(operation) => match lift(appops_check(package, op, mode, original)) {
                                Err(e) => Err(e),
                                Ok(()) => match lift_outcome(
                                    outcome_of_run(
                                        CommandPhase::Apply,
                                        appops_intent(CommandPhase::Apply, package, op),
                                        appops_set(package, op, mode),
                                        apply,
                                    ),
                                ) {
                                    Err(e) => Err(e),
                                    Ok(_) => Ok(operation),
                                },
                            },
                        }
                    },
                },
            },
        },
    }
}

/// The calls of an AppOps rule: `pm path <package>`; for a missing package
/// the skip record; else `cmd appops get <package> <op>`, then the record
/// with the applied and the original mode, and only once the ledger took it
/// `cmd appops set <package> <op> <mode>`.
pub open spec fn apply_appop_calls(
    id: Seq<char>,
    package: Seq<char>,
    op: Seq<char>,
    mode: Seq<char>,
    path: Result<OutputView, RunnerErrorView>,
    probe: Result<OutputView, RunnerErrorView>,
    ledger: Result<(), ProfileErrorView>,
    apply: Result<OutputView, RunnerErrorView>,
) -> Seq<CallView> {
    match lift(package_check("package"@, package)) {
        Err(_) => seq![],
        Ok(()) => {
            let c0 = seq![CallView::Run(path_probe_command(package), path)];
            match presence(run_required_spec(path_probe_command(package), path)) {
                Presence::Failed(_) => c0,
                Presence::NotInstalled => c0.push(CallView::Append(record_json(app_skipped(id, package)), ledger)),
                Presence::Installed => match lift(appops_check(package, op, mode, "default"@)) {
                    Err(_) => c0,
                    Ok(()) => {
                        let c1 = c0.push(CallView::Run(appops_get(package, op), probe));
                        match lift_outcome(
                            outcome_of_run(
                                CommandPhase::Probe,
                                appops_intent(CommandPhase::Probe, package, op),
                                appops_get(package, op),
                                probe,
                            ),
                        ) {
                            Err(_) => c1,
                            Ok(o) => {
                                let original = appop_mode_of(outcome_stdout(o), op);
                                let record = RecordView::AppOp {
                                    rule_id: id,
                                    package,
                                    op,
                                    applied_mode: mode,
                                    original_mode: original,
                                };
                                let c2 = c1.push(CallView::Append(record_json(record), ledger));
                                if ledger is Ok && lift(appops_check(package, op, mode, original)) is Ok {
                                    c2.push(CallView::Run(appops_set(package, op, mode), apply))
                                } else {
                                    c2
                                }
                            },
                        }
                    },
                },
            }
        },
    }
}

/// The hide status after the attempt: applied only when `pm hide` succeeded.
pub open spec fn hide_outcome(policy: PmHidePolicy, hide: Result<OutputView, ProfileErrorView>) -> HideApplyStatus {
    match policy {
        PmHidePolicy::DoNotHide => HideApplyStatus::NotRequested,
        PmHidePolicy::TryHide => if hide is Ok {
            HideApplyStatus::Applied
        } else {
            HideApplyStatus::SkippedUnavailable
        },
    }
}

pub open spec fn component_record_view(
    id: Seq<char>,
    user_id: u32,
    package: Seq<char>,
    component: Seq<char>,
    enabled: PackageEnabledState,
    hidden: PackageHiddenState,
    status: HideApplyStatus,
) -> RecordView {
    RecordView::Component {
        rule_id: id,
        user_id,
        package,
        component,
        original_enabled: enabled,
        original_hidden: hidden,
        hide_status: status,
    }
}

/// The calls of a component rule: `pm path <package>`; for a missing
/// package the skip record; else `pm list packages -d <package>` and
/// `pm list packages --hidden <package>`, the record of the original state,
/// and once the ledger took it `pm hide <package>` when the policy asks, the
/// record again with the hide applied when it succeeded, and
/// `pm disable-user --user <user> <component>`.
pub open spec fn apply_component_calls(
    id: Seq<char>,
    user_id: u32,
    package: Seq<char>,
    component: Seq<char>,
    policy: PmHidePolicy,
    path: Result<OutputView, RunnerErrorView>,
    disabled: Result<OutputView, RunnerErrorView>,
    hidden: Result<OutputView, RunnerErrorView>,
    ledger: Result<(), ProfileErrorView>,
    hide: Result<OutputView, RunnerErrorView>,
    confirm: Result<(), ProfileErrorView>,
    apply: Result<OutputView, RunnerErrorView>,
) -> Seq<CallView> {
    match lift(package_check("package"@, package)) {
        Err(_) => seq![],
        Ok(()) => {
            let c0 = seq![CallView::Run(path_probe_command(package), path)];
            match presence(run_required_spec(path_probe_command(package), path)) {
                Presence::Failed(_) => c0,
                Presence::NotInstalled => c0.push(CallView::Append(record_json(app_skipped(id, package)), ledger)),
                Presence::Installed => {
                    let c1 = c0.push(CallView::Run(disabled_command(package), disabled));
                    match run_required_spec(disabled_command(package), disabled) {
                        Err(_) => c1,
                        Ok(d) => {
                            let c2 = c1.push(CallView::Run(hidden_command(package), hidden));
                            match run_required_spec(hidden_command(package), hidden) {
                                Err(_) => c2,
                                Ok(h) => {
                                    let en = enabled_of(d.stdout);
                                    let hi = hidden_of(h.stdout);
                                    let first = component_record_view(
                                        id,
                                        user_id,
                                        package,
                                        component,
                                        en,
                                        hi,
                                        planned_hide_status(policy),
                                    );
                                    let c3 = c2.push(CallView::Append(record_json(first), ledger));
                                    if ledger is Err {
                                        c3
                                    } else {
                                        let c4 = if policy == PmHidePolicy::TryHide {
                                            c3.push(CallView::Run(hide_command_of(package), hide))
                                        } else {
                                            c3
                                        };
                                        let status = hide_outcome(policy, run_required_spec(hide_command_of(package), hide));
                                        let last = component_record_view(
                                            id,
                                            user_id,
                                            package,
                                            component,
                                            en,
                                            hi,
                                            status,
                                        );
                                        let c5 = if status == HideApplyStatus::Applied {
                                            c4.push(CallView::Append(record_json(last), confirm))
                                        } else {
                                            c4
                                        };
                                        if (status == HideApplyStatus::Applied && confirm is Err) || component_check(
                                            component,
                                        ) is Err {
                                            c5
                                        } else {
                                            c5.push(
                                                CallView::Run(
                                                    component_command(
                                                        CommandPhase::Apply,
                                                        user_id,
                                                        component_package(component),
                                                        component,
                                                    ),
                                                    apply,
                                                ),
                                            )
                                        }
                                    }
                                },
                            }
                        },
                    }
                },
            }
        },
    }
}

/// `pm list packages -d <package>`.
pub open spec fn disabled_command(package: Seq<char>) -> InvocationView {
    pm(seq!["list"@, "packages"@, "-d"@, package])
}

/// `pm list packages --hidden <package>`.
pub open spec fn hidden_command(package: Seq<char>) -> InvocationView {
    pm(seq!["list"@, "packages"@, "--hidden"@, package])
}

/// `pm hide <package>`.
pub open spec fn hide_command_of(package: Seq<char>) -> InvocationView {
    pm(seq!["hide"@, package])
}

/// The package of a component record.
pub open spec fn record_package(record: RecordView) -> Seq<char> {
    match record {
        RecordView::Component { package, .. } => package,
        _ => Seq::empty(),
    }
}

/// `pm unhide <package>`.
pub open spec fn unhide_command(package: Seq<char>) -> InvocationView {
    pm(seq!["unhide"@, package])
}

/// A component rule, given every answer of the runner and the ledger.
pub open spec fn apply_component_spec(
    id: Seq<char>,
    user_id: u32,
    package: Seq<char>,
    component: Seq<char>,
    policy: PmHidePolicy,
    path: Result<OutputView, ProfileErrorView>,
    disabled: Result<OutputView, ProfileErrorView>,
    hidden: Result<OutputView, ProfileErrorView>,
    ledger: Result<(), ProfileErrorView>,
    hide: Result<OutputView, ProfileErrorView>,
    confirm: Result<(), ProfileErrorView>,
    apply: Result<OutputView, RunnerErrorView>,
) -> Result<OperationView, ProfileErrorView> {
    match lift(package_check("package"@, package)) {
        Err(e) => Err(e),
        Ok(()) => match presence(path) {
            Presence::Failed(e) => Err(e),
            Presence::NotInstalled => operation_spec(
                ProfileOperationStatus::Skipped,
                app_skipped(id, package),
                ledger,
            ),
            Presence::Installed => match disabled {
                Err(e) => Err(e),
                Ok(d) => match hidden {
                    Err(e) => Err(e),
                    Ok(h) => {
                        let en = enabled_of(d.stdout);
                        let hi = hidden_of(h.stdout);
                        let first = component_record_view(
                            id,
                            user_id,
                            package,
                            component,
                            en,
                            hi,
                            planned_hide_status(policy),
                        );
                        match operation_spec(ProfileOperationStatus::Applied, first, ledger) {
                            Err(e) => Err(e),
                            Ok(operation) => {
                                let status = hide_outcome(policy, hide);
                                let last = component_record_view(
                                    id,
                                    user_id,
                                    package,
                                    component,
                                    en,
                                    hi,
                                    status,
                                );
                                let confirmed = if status == HideApplyStatus::Applied {
                                    confirm
                                } else {
                                    Ok(())
                                };
                                match confirmed {
                                    Err(e) => Err(e),
                                    Ok(()) => match lift(component_check(component)) {
                                        Err(e) => Err(e),
                                        Ok(()) => match lift_outcome(
                                            outcome_of_run(
                                                CommandPhase::Apply,
                                                component_intent(CommandPhase::Apply, component),
                                                component_command(
                                                    CommandPhase::Apply,
                                                    user_id,
                                                    component_package(component),
                                                    component,
                                                ),
                                                apply,
                                            ),
                                        ) {
                                            Err(e) => Err(e),
                                            Ok(_) => Ok(
                                                OperationView {
                                                    status: operation.status,
                                                    record: record_json(last),
                                                },
                                            ),
                                        },
                                    },
                                }
                            },
                        }
                    },
                },
            },
        },
    }
}

/// Restoring an AppOps record, given the runner's answer: the recorded
/// original mode is set again.
pub open spec fn restore_appop_spec(record: RecordView, answer: Result<OutputView, RunnerErrorView>) -> Result<
    (),
    ProfileErrorView,
> {
    match record {
        RecordView::AppOp { package, op, applied_mode, original_mode, .. } => match lift(
            appops_check(package, op, applied_mode, original_mode),
        ) {
            Err(e) => Err(e),
            Ok(()) => match lift_outcome(
                outcome_of_run(
                    CommandPhase::Restore,
                    appops_intent(CommandPhase::Restore, package, op),
                    appops_set(package, op, original_mode),
                    answer,
                ),
            ) {
                Err(e) => Err(e),
                Ok(_) => Ok(()),
            },
        },
        _ => Ok(()),
    }
}

/// The call of an AppOps restore: `cmd appops set <package> <op> <original
/// mode>`, for an AppOps record that passes the checks; none otherwise.
pub open spec fn restore_appop_calls(record: RecordView, answer: Result<OutputView, RunnerErrorView>) -> Seq<
    CallView,
> {
    match record {
        RecordView::AppOp { package, op, applied_mode, original_mode, .. } => match lift(
            appops_check(package, op, applied_mode, original_mode),
        ) {
            Err(_) => seq![],
            Ok(()) => seq![CallView::Run(appops_set(package, op, original_mode), answer)],
        },
        _ => seq![],
    }
}

/// The calls of a component restore: `pm unhide <package>` when the package
/// was visible and the hide was applied, then, unless that failed,
/// `pm enable --user <user> <component>` when the package was enabled.
pub open spec fn restore_component_calls(
    record: RecordView,
    unhide: Result<OutputView, RunnerErrorView>,
    enable: Result<OutputView, RunnerErrorView>,
) -> Seq<CallView> {
    match record {
        RecordView::Component {
            user_id,
            package,
            component,
            original_enabled,
            original_hidden,
            hide_status,
            ..
        } => match lift(package_check("package"@, package)) {
            Err(_) => seq![],
            Ok(()) => {
                let unhid = original_hidden == PackageHiddenState::Visible && hide_status
                    == HideApplyStatus::Applied;
                let first: Seq<CallView> = if unhid {
                    seq![CallView::Run(unhide_command(package), unhide)]
                } else {
                    seq![]
                };
                if unhid && run_required_spec(unhide_command(package), unhide) is Err {
                    first
                } else if original_enabled == PackageEnabledState::Enabled && component_check(component) is Ok {
                    first.push(
                        CallView::Run(
                            component_command(
                                CommandPhase::Restore,
                                user_id,
                                component_package(component),
                                component,
                            ),
                            enable,
                        ),
                    )
                } else {
                    first
                }
            },
        },
        _ => seq![],
    }
}

/// Restoring a component record, given the runner's answers: `pm unhide`
/// only when the package was visible and the hide was applied; `pm enable`
/// only when the package was enabled.
pub open spec fn restore_component_spec(
    record: RecordView,
    unhide: Result<OutputView, ProfileErrorView>,
    enable: Result<OutputView, RunnerErrorView>,
) -> Result<(), ProfileErrorView> {
    match record {
        RecordView::Component {
            user_id,
            package,
            component,
            original_enabled,
            original_hidden,
            hide_status,
            ..
        } => match lift(package_check("package"@, package)) {
            Err(e) => Err(e),
            Ok(()) => {
                let unhidden = if original_hidden == PackageHiddenState::Visible && hide_status
                    == HideApplyStatus::Applied {
                    match unhide {
                        Err(e) => Err(e),
                        Ok(_) => Ok(()),
                    }
                } else {
                    Ok(())
                };
                match unhidden {
                    Err(e) => Err(e),
                    Ok(()) => if original_enabled == PackageEnabledState::Enabled {
                        match lift(component_check(component)) {
                            Err(e) => Err(e),
                            Ok(()) => match lift_outcome(
                                outcome_of_run(
                                    CommandPhase::Restore,
                                    component_intent(CommandPhase::Restore, component),
                                    component_command(
                                        CommandPhase::Restore,
                                        user_id,
                                        component_package(component),
                                        component,
                                    ),
                                    enable,
                                ),
                            ) {
                                Err(e) => Err(e),
                                Ok(_) => Ok(()),
                            },
                        }
                    } else {
                        Ok(())
                    },
                }
            },
        },
        _ => Ok(()),
    }
}

/// What a command that must exit with status 0 comes to, given the runner's
/// answer: the output for status 0, `CommandFailed` for another status, the
/// runner's error text when it could not start.
pub fn required_result(invocation: &CommandInvocation, answer: Result<CommandOutput, CommandRunnerError>) -> (r:
    Result<CommandOutput, ProfileError>)
    ensures
        output_result_view(r) == run_required_spec(invocation@, run_view(answer)),
{
    let ghost av = run_view(answer);
    let r = match answer {
        Ok(output) => {
            if output.status() == 0 {
                Ok(output)
            } else {
                Err(
                    ProfileError::Command(
                        crate::command_runner::error::CommandError::CommandFailed {
                            invocation: invocation.duplicate(),
                            status: output.status(),
                            stdout: output.stdout().to_owned(),
                            stderr: output.stderr().to_owned(),
                        },
                    ),
                )
            }
        },
        Err(error) => Err(ProfileError::Runner { detail: runner_error_string(&error) }),
    };
    assert(output_result_view(r) == run_required_spec(invocation@, av));
    r
}

fn lift_command<T>(r: Result<T, crate::command_runner::error::CommandError>) -> (out: Result<T, ProfileError>)
    ensures
        match (r, out) {
            (Ok(a), Ok(b)) => a == b,
            (Err(e), Err(f)) => f@ == ProfileErrorView::Command(e@),
            _ => false,
        },
{
    match r {
        Ok(v) => Ok(v),
        Err(e) => Err(from_command(e)),
    }
}

impl<'a, R: AndroidCommandRunner, L: ProfileLedgerSink> AndroidProfileExecutor<'a, R, L> {
    /// An executor over `runner` that records into `ledger`.
    pub fn new(runner: &'a R, ledger: &'a L) -> (r: Self)
        ensures
            r.calls() == Seq::<CallView>::empty(),
    {
        AndroidProfileExecutor { device: Device::new(runner, ledger) }
    }

    /// Every call the executor made on the device and the ledger, in order.
    pub open spec fn calls(&self) -> Seq<CallView> {
        self.device.log()
    }

    /// Encodes `record`, appends it to the ledger (its only call), and
    /// returns it with `status`.
    pub fn operation(&mut self, status: ProfileOperationStatus, record: &ProfileRecord) -> (r: Result<
        ProfileOperation,
        ProfileError,
    >)
        ensures
            exists|ledger: Result<(), ProfileErrorView>|
                final(self).calls() == old(self).calls().push(CallView::Append(record_json(record@), ledger))
                    && op_view(r) == #[trigger] operation_spec(status, record@, ledger),
    {
        let line = record.to_json();
        let answer = self.device.append(line.clone());
        let ghost lv = unit_view(answer);
        let r = match answer {
            Ok(()) => Ok(ProfileOperation { status, record: line }),
            Err(e) => Err(e),
        };
        assert(op_view(r) == operation_spec(status, record@, lv));
        r
    }

    /// Records an applied change.
    pub fn applied(&mut self, record: &ProfileRecord) -> (r: Result<ProfileOperation, ProfileError>)
        ensures
            exists|ledger: Result<(), ProfileErrorView>|
                final(self).calls() == old(self).calls().push(CallView::Append(record_json(record@), ledger))
                    && op_view(r) == #[trigger] operation_spec(ProfileOperationStatus::Applied, record@, ledger),
    {
        self.operation(ProfileOperationStatus::Applied, record)
    }

    /// Records a skip.
    pub fn skipped(&mut self, record: &ProfileRecord) -> (r: Result<ProfileOperation, ProfileError>)
        ensures
            exists|ledger: Result<(), ProfileErrorView>|
                final(self).calls() == old(self).calls().push(CallView::Append(record_json(record@), ledger))
                    && op_view(r) == #[trigger] operation_spec(ProfileOperationStatus::Skipped, record@, ledger),
    {
        self.operation(ProfileOperationStatus::Skipped, record)
    }

    fn skipped_app(&mut self, rule_id: &str, package: &str) -> (r: Result<ProfileOperation, ProfileError>)
        ensures
            exists|ledger: Result<(), ProfileErrorView>|
                final(self).calls() == old(self).calls().push(
                    CallView::Append(record_json(app_skipped(rule_id@, package@)), ledger),
                ) && op_view(r) == #[trigger] operation_spec(
                    ProfileOperationStatus::Skipped,
                    app_skipped(rule_id@, package@),
                    ledger,
                ),
    {
        let record = ProfileRecord::AppSkipped(
            AppSkippedRecord {
                rule_id: rule_id.to_owned(),
                package: package.to_owned(),
                reason: "package_not_installed".to_owned(),
            },
        );
        self.skipped(&record)
    }

    /// Runs a command that must exit with status 0.
    fn run_required(&mut self, invocation: &CommandInvocation) -> (r: Result<CommandOutput, ProfileError>)
        ensures
            final(self).calls() == old(self).calls().push(
                CallView::Run(invocation@, answer_of(final(self).calls().last())),
            ),
            output_result_view(r) == run_required_spec(invocation@, answer_of(final(self).calls().last())),
    {
        let answer = self.device.run(invocation);
        required_result(invocation, answer)
    }

    /// Applies an AppOps rule: `pm path`, `cmd appops get`, the record with
    /// the original mode, and only then `cmd appops set`; no other call.
    pub fn apply_appop(&mut self, rule: &AppOpProfileRule) -> (r: Result<ProfileOperation, ProfileError>)
        ensures
            exists|
                path: Result<OutputView, RunnerErrorView>,
                probe: Result<OutputView, RunnerErrorView>,
                ledger: Result<(), ProfileErrorView>,
                apply: Result<OutputView, RunnerErrorView>,
            |
                final(self).calls() == old(self).calls() + apply_appop_calls(
                    rule.id_view(),
                    rule.package_view(),
                    rule.op_view(),
                    rule.mode_view(),
                    path,
                    probe,
                    ledger,
                    apply,
                ) && op_view(r) == #[trigger] apply_appop_spec(
                    rule.id_view(),
                    rule.package_view(),
                    rule.op_view(),
                    rule.mode_view(),
                    run_required_spec(path_probe_command(rule.package_view()), path),
                    probe,
                    ledger,
                    apply,
                ),
    {
        let ghost start = self.calls();
        let id = rule.id();
        let pkg = rule.package();
        let op = rule.op();
        let mode = rule.mode();
        let ghost anyr: Result<OutputView, RunnerErrorView> = Err(RunnerErrorView::NotFound { detail: Seq::empty() });
        let ghost anyl: Result<(), ProfileErrorView> = Ok(());
        let ghost spec = |p: Result<OutputView, RunnerErrorView>, q, l, a| apply_appop_spec(
            id@,
            pkg@,
            op@,
            mode@,
            run_required_spec(path_probe_command(pkg@), p),
            q,
            l,
            a,
        );
        let ghost calls = |p, q, l, a| apply_appop_calls(id@, pkg@, op@, mode@, p, q, l, a);
        let package = match lift_command(PmPackageAdapter::new(pkg)) {
            Ok(p) => p,
            Err(e) => {
                assert(op_view(Err(e)) == spec(anyr, anyr, anyl, anyr));
                assert(self.calls() =~= start + calls(anyr, anyr, anyl, anyr));
                return Err(e);
            },
        };
        let path_inv = package.path_probe();
        let path_r = self.run_required(&path_inv);
        let ghost path_ans = answer_of(self.calls().last());
        let ghost pv = output_result_view(path_r);
        assert(pv == run_required_spec(path_probe_command(pkg@), path_ans));
        let installed = match &path_r {
            Ok(output) => !text::is_blank(output.stdout()),
            Err(error) => {
                if !package_probe_missing(error) {
                    let r = Err(path_r.unwrap_err());
                    assert(op_view(r) == spec(path_ans, anyr, anyl, anyr));
                    assert(self.calls() =~= start + calls(path_ans, anyr, anyl, anyr));
                    return r;
                }
                false
            },
        };
        if !installed {
            let ghost mid = self.calls();
            let r = self.skipped_app(id, pkg);
            let ghost l = ledger_answer_of(self.calls().last());
            assert(op_view(r) == spec(path_ans, anyr, l, anyr));
            assert(self.calls() =~= start + calls(path_ans, anyr, l, anyr));
            return r;
        }
        assert(presence(pv) == Presence::Installed);
        let adapter = match lift_command(AppOpsAdapter::new(pkg, op, mode, "default")) {
            Ok(a) => a,
            Err(e) => {
                assert(op_view(Err(e)) == spec(path_ans, anyr, anyl, anyr));
                assert(self.calls() =~= start + calls(path_ans, anyr, anyl, anyr));
                return Err(e);
            },
        };
        let probe_r = self.device.run_phase(&adapter, CommandPhase::Probe);
        let ghost probe_ans = answer_of(self.calls().last());
        let probe = match lift_command(probe_r) {
            Ok(p) => p,
            Err(e) => {
                assert(op_view(Err(e)) == spec(path_ans, probe_ans, anyl, anyr));
                assert(self.calls() =~= start + calls(path_ans, probe_ans, anyl, anyr));
                return Err(e);
            },
        };
        let original_mode = parse_appop_mode(probe.output(), op);
        assert(original_mode@ == appop_mode_of(outcome_stdout(probe@), op@));
        let record = ProfileRecord::AppOp(
            AppOpRecord {
                rule_id: id.to_owned(),
                package: pkg.to_owned(),
                op: op.to_owned(),
                applied_mode: mode.to_owned(),
                original_mode: original_mode.clone(),
            },
        );
        let op_r = self.applied(&record);
        let ghost ledger_ans = ledger_answer_of(self.calls().last());
        let operation = match op_r {
            Ok(o) => o,
            Err(e) => {
                assert(op_view(Err(e)) == spec(path_ans, probe_ans, ledger_ans, anyr));
                assert(self.calls() =~= start + calls(path_ans, probe_ans, ledger_ans, anyr));
                return Err(e);
            },
        };
        let setter = match lift_command(AppOpsAdapter::new(pkg, op, mode, original_mode.as_str())) {
            Ok(a) => a,
            Err(e) => {
                assert(op_view(Err(e)) == spec(path_ans, probe_ans, ledger_ans, anyr));
                assert(self.calls() =~= start + calls(path_ans, probe_ans, ledger_ans, anyr));
                return Err(e);
            },
        };
        let apply_r = self.device.run_phase(&setter, CommandPhase::Apply);
        let ghost apply_ans = answer_of(self.calls().last());
        let r = match lift_command(apply_r) {
            Ok(_) => Ok(operation),
            Err(e) => Err(e),
        };
        assert(op_view(r) == spec(path_ans, probe_ans, ledger_ans, apply_ans));
        assert(self.calls() =~= start + calls(path_ans, probe_ans, ledger_ans, apply_ans));
        r
    }

    /// Sets the original AppOps mode of a record again with one
    /// `cmd appops set`; other records are left alone, with no call.
    pub fn restore_appop(&mut self, record: &ProfileRecord) -> (r: Result<(), ProfileError>)
        ensures
            exists|answer: Result<OutputView, RunnerErrorView>|
                final(self).calls() == old(self).calls() + restore_appop_calls(record@, answer) && unit_view(r)
                    == #[trigger] restore_appop_spec(record@, answer),
    {
        let ghost start = self.calls();
        let ghost anyr: Result<OutputView, RunnerErrorView> = Err(RunnerErrorView::NotFound { detail: Seq::empty() });
        let rec = match record {
            ProfileRecord::AppOp(rec) => rec,
            _ => {
                assert(unit_view(Ok(())) == restore_appop_spec(record@, anyr));
                assert(self.calls() =~= start + restore_appop_calls(record@, anyr));
                return Ok(());
            },
        };
        let adapter = match lift_command(
            AppOpsAdapter::new(
                rec.package.as_str(),
                rec.op.as_str(),
                rec.applied_mode.as_str(),
                rec.original_mode.as_str(),
            ),
        ) {
            Ok(a) => a,
            Err(e) => {
                assert(unit_view(Err(e)) == restore_appop_spec(record@, anyr));
                assert(self.calls() =~= start + restore_appop_calls(record@, anyr));
                return Err(e);
            },
        };
        let out = self.device.run_phase(&adapter, CommandPhase::Restore);
        let ghost ans = answer_of(self.calls().last());
        let r = match lift_command(out) {
            Ok(_) => Ok(()),
            Err(e) => Err(e),
        };
        assert(unit_view(r) == restore_appop_spec(record@, ans));
        assert(self.calls() =~= start + restore_appop_calls(record@, ans));
        r
    }

    /// Disables a component after recording the package's original state:
    /// `pm path`, the two `pm list packages` probes, the record, `pm hide`
    /// under `TryHide`, the record again when the hide succeeded, and
    /// `pm disable-user`; no other call.
    pub fn apply_component(&mut self, rule: &ComponentProfileRule) -> (r: Result<
        ProfileOperation,
        ProfileError,
    >)
        ensures
            exists|
                path: Result<OutputView, RunnerErrorView>,
                disabled: Result<OutputView, RunnerErrorView>,
                hidden: Result<OutputView, RunnerErrorView>,
                ledger: Result<(), ProfileErrorView>,
                hide: Result<OutputView, RunnerErrorView>,
                confirm: Result<(), ProfileErrorView>,
                apply: Result<OutputView, RunnerErrorView>,
            |
                final(self).calls() == old(self).calls() + apply_component_calls(
                    rule.id_view(),
                    rule.user_id_view(),
                    rule.package_view(),
                    rule.component_view(),
                    rule.hide_policy_view(),
                    path,
                    disabled,
                    hidden,
                    ledger,
                    hide,
                    confirm,
                    apply,
                ) && op_view(r) == #[trigger] apply_component_spec(
                    rule.id_view(),
                    rule.user_id_view(),
                    rule.package_view(),
                    rule.component_view(),
                    rule.hide_policy_view(),
                    run_required_spec(path_probe_command(rule.package_view()), path),
                    run_required_spec(disabled_command(rule.package_view()), disabled),
                    run_required_spec(hidden_command(rule.package_view()), hidden),
                    ledger,
                    run_required_spec(hide_command_of(rule.package_view()), hide),
                    confirm,
                    apply,
                ),
    {
        let ghost start = self.calls();
        let id = rule.id();
        let user_id = rule.user_id();
        let pkg = rule.package();
        let component = rule.component();
        let policy = rule.hide_policy();
        let ghost anyr: Result<OutputView, RunnerErrorView> = Err(RunnerErrorView::NotFound { detail: Seq::empty() });
        let ghost anyl: Result<(), ProfileErrorView> = Ok(());
        let ghost spec = |p: Result<OutputView, RunnerErrorView>, d: Result<OutputView, RunnerErrorView>, h: Result<OutputView, RunnerErrorView>, l, hd: Result<OutputView, RunnerErrorView>, c, a| apply_component_spec(
            id@,
            user_id,
            pkg@,
            component@,
            policy,
            run_required_spec(path_probe_command(pkg@), p),
            run_required_spec(disabled_command(pkg@), d),
            run_required_spec(hidden_command(pkg@), h),
            l,
            run_required_spec(hide_command_of(pkg@), hd),
            c,
            a,
        );
        let ghost calls = |p, d, h, l, hd, c, a| apply_component_calls(id@, user_id, pkg@, component@, policy, p, d, h, l, hd, c, a);
        let package = match lift_command(PmPackageAdapter::new(pkg)) {
            Ok(p) => p,
            Err(e) => {
                assert(op_view(Err(e)) == spec(anyr, anyr, anyr, anyl, anyr, anyl, anyr));
                assert(self.calls() =~= start + calls(anyr, anyr, anyr, anyl, anyr, anyl, anyr));
                return Err(e);
            },
        };
        let path_r = self.run_required(&package.path_probe());
        let ghost pa = answer_of(self.calls().last());
        let ghost pv = output_result_view(path_r);
        let installed = match &path_r {
            Ok(output) => !text::is_blank(output.stdout()),
            Err(error) => {
                if !package_probe_missing(error) {
                    let r = Err(path_r.unwrap_err());
                    assert(op_view(r) == spec(pa, anyr, anyr, anyl, anyr, anyl, anyr));
                    assert(self.calls() =~= start + calls(pa, anyr, anyr, anyl, anyr, anyl, anyr));
                    return r;
                }
                false
            },
        };
        if !installed {
            let r = self.skipped_app(id, pkg);
            let ghost l = ledger_answer_of(self.calls().last());
            assert(op_view(r) == spec(pa, anyr, anyr, l, anyr, anyl, anyr));
            assert(self.calls() =~= start + calls(pa, anyr, anyr, l, anyr, anyl, anyr));
            return r;
        }
        assert(presence(pv) == Presence::Installed);
        let disabled_r = self.run_required(&package.disabled_probe());
        let ghost da = answer_of(self.calls().last());
        let disabled_probe = match disabled_r {
            Ok(o) => o,
            Err(e) => {
                assert(op_view(Err(e)) == spec(pa, da, anyr, anyl, anyr, anyl, anyr));
                assert(self.calls() =~= start + calls(pa, da, anyr, anyl, anyr, anyl, anyr));
                return Err(e);
            },
        };
        let hidden_r = self.run_required(&package.hidden_probe());
        let ghost ha = answer_of(self.calls().last());
        let hidden_probe = match hidden_r {
            Ok(o) => o,
            Err(e) => {
                assert(op_view(Err(e)) == spec(pa, da, ha, anyl, anyr, anyl, anyr));
                assert(self.calls() =~= start + calls(pa, da, ha, anyl, anyr, anyl, anyr));
                return Err(e);
            },
        };
        let original_enabled = enabled_state(&disabled_probe);
        let original_hidden = hidden_state(&hidden_probe);
        let first = ProfileRecord::Component(
            ComponentRecord {
                rule_id: id.to_owned(),
                user_id,
                package: pkg.to_owned(),
                component: component.to_owned(),
                original_enabled,
                original_hidden,
                hide_status: hide_status_for_policy(policy),
            },
        );
        let op_r = self.applied(&first);
        let ghost la = ledger_answer_of(self.calls().last());
        let operation = match op_r {
            Ok(o) => o,
            Err(e) => {
                assert(op_view(Err(e)) == spec(pa, da, ha, la, anyr, anyl, anyr));
                assert(self.calls() =~= start + calls(pa, da, ha, la, anyr, anyl, anyr));
                return Err(e);
            },
        };
        let ghost mut hide_ans = anyr;
        let hide_status = match policy {
            PmHidePolicy::DoNotHide => HideApplyStatus::NotRequested,
            PmHidePolicy::TryHide => {
                let out = self.run_required(&package.try_hide());
                proof {
                    hide_ans = answer_of(self.calls().last());
                }
                match out {
                    Ok(_) => HideApplyStatus::Applied,
                    Err(_) => HideApplyStatus::SkippedUnavailable,
                }
            },
        };
        assert(hide_status == hide_outcome(policy, run_required_spec(hide_command_of(pkg@), hide_ans)));
        let last = ProfileRecord::Component(
            ComponentRecord {
                rule_id: id.to_owned(),
                user_id,
                package: pkg.to_owned(),
                component: component.to_owned(),
                original_enabled,
                original_hidden,
                hide_status,
            },
        );
        let line = last.to_json();
        let ghost mut confirm_ans: Result<(), ProfileErrorView> = Ok(());
        match hide_status {
            HideApplyStatus::Applied => {
                let answer = self.device.append(line.clone());
                proof {
                    confirm_ans = unit_view(answer);
                }
                match answer {
                    Ok(()) => {},
                    Err(e) => {
                        assert(op_view(Err(e)) == spec(pa, da, ha, la, hide_ans, confirm_ans, anyr));
                        assert(self.calls() =~= start + calls(pa, da, ha, la, hide_ans, confirm_ans, anyr));
                        return Err(e);
                    },
                }
            },
            _ => {},
        }
        let disabler = match lift_command(PmComponentAdapter::new(user_id, component)) {
            Ok(a) => a,
            Err(e) => {
                assert(op_view(Err(e)) == spec(pa, da, ha, la, hide_ans, confirm_ans, anyr));
                assert(self.calls() =~= start + calls(pa, da, ha, la, hide_ans, confirm_ans, anyr));
                return Err(e);
            },
        };
        let apply_r = self.device.run_phase(&disabler, CommandPhase::Apply);
        let ghost aa = answer_of(self.calls().last());
        let r = match lift_command(apply_r) {
            Ok(_) => Ok(ProfileOperation { status: operation.status, record: line }),
            Err(e) => Err(e),
        };
        assert(op_view(r) == spec(pa, da, ha, la, hide_ans, confirm_ans, aa));
        assert(self.calls() =~= start + calls(pa, da, ha, la, hide_ans, confirm_ans, aa));
        r
    }

    /// Restores a component record: `pm unhide` when the package was
    /// visible and the hide was applied, then `pm enable` when it was
    /// enabled; no other call, and none for other records.
    pub fn restore_component(&mut self, record: &ProfileRecord) -> (r: Result<(), ProfileError>)
        ensures
            exists|
                unhide: Result<OutputView, RunnerErrorView>,
                enable: Result<OutputView, RunnerErrorView>,
            |
                final(self).calls() == old(self).calls() + restore_component_calls(record@, unhide, enable)
                    && unit_view(r) == #[trigger] restore_component_spec(
                    record@,
                    run_required_spec(unhide_command(record_package(record@)), unhide),
                    enable,
                ),
    {
        let ghost start = self.calls();
        let ghost anyr: Result<OutputView, RunnerErrorView> = Err(RunnerErrorView::NotFound { detail: Seq::empty() });
        let rec = match record {
            ProfileRecord::Component(rec) => rec,
            _ => {
                assert(unit_view(Ok(())) == restore_component_spec(record@, run_required_spec(unhide_command(record_package(record@)), anyr), anyr));
                assert(self.calls() =~= start + restore_component_calls(record@, anyr, anyr));
                return Ok(());
            },
        };
        assert(record_package(record@) == rec.package@);
        let package = match lift_command(PmPackageAdapter::new(rec.package.as_str())) {
            Ok(p) => p,
            Err(e) => {
                assert(unit_view(Err(e)) == restore_component_spec(record@, run_required_spec(unhide_command(record_package(record@)), anyr), anyr));
                assert(self.calls() =~= start + restore_component_calls(record@, anyr, anyr));
                return Err(e);
            },
        };
        let ghost mut unhide_ans = anyr;
        if rec.original_hidden == PackageHiddenState::Visible && rec.hide_status
            == HideApplyStatus::Applied {
            let out = self.run_required(&package.unhide());
            proof {
                unhide_ans = answer_of(self.calls().last());
            }
            match out {
                Ok(_) => {},
                Err(e) => {
                    assert(unit_view(Err(e)) == restore_component_spec(record@, run_required_spec(unhide_command(record_package(record@)), unhide_ans), anyr));
                    assert(self.calls() =~= start + restore_component_calls(record@, unhide_ans, anyr));
                    return Err(e);
                },
            }
        }
        if rec.original_enabled == PackageEnabledState::Enabled {
            let adapter = match lift_command(PmComponentAdapter::new(rec.user_id, rec.component.as_str())) {
                Ok(a) => a,
                Err(e) => {
                    assert(unit_view(Err(e)) == restore_component_spec(record@, run_required_spec(unhide_command(record_package(record@)), unhide_ans), anyr));
                    assert(self.calls() =~= start + restore_component_calls(record@, unhide_ans, anyr));
                    return Err(e);
                },
            };
            let out = self.device.run_phase(&adapter, CommandPhase::Restore);
            let ghost ans = answer_of(self.calls().last());
            let r = match lift_command(out) {
                Ok(_) => Ok(()),
                Err(e) => Err(e),
            };
            assert(unit_view(r) == restore_component_spec(record@, run_required_spec(unhide_command(record_package(record@)), unhide_ans), ans));
            assert(self.calls() =~= start + restore_component_calls(record@, unhide_ans, ans));
            return r;
        }
        assert(unit_view(Ok(())) == restore_component_spec(record@, run_required_spec(unhide_command(record_package(record@)), unhide_ans), anyr));
        assert(self.calls() =~= start + restore_component_calls(record@, unhide_ans, anyr));
        Ok(())
    }
}

} // verus!
