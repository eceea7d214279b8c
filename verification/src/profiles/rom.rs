//! ROM profiles: a rule applies only where its ROM property is set; a
//! settings rule records the value it replaces, a `shared_prefs` rule
//! records the original file's hash and backup before the file is rewritten.
use vstd::prelude::*;

use crate::command_runner::adapter::{
    outcome_of_run, AndroidCommandAdapter, CommandPhase,
};
use crate::command_runner::output::OutputView;
use crate::command_runner::property::{getprop, property_intent, GetpropAdapter};
use crate::command_runner::runner::{AndroidCommandRunner, RunnerErrorView};
use crate::command_runner::settings::{
    opt_view, settings_check, settings_command, settings_intent, SettingsAdapter,
};
use crate::command_runner::validation::property_check;
use crate::profiles::error::{lift, ProfileError, ProfileErrorView};
use crate::profiles::executor::{
    lift_outcome, op_view, operation_spec, outcome_stdout, AndroidProfileExecutor,
    OperationView, ProfileLedgerSink,
};
use crate::profiles::device::{answer_of, ledger_answer_of, CallView};
use crate::profiles::probe::{normalize_settings_value, settings_value_of};
use crate::profiles::record::{
    opt_view as record_opt_view, record_json, ProfileOperation, ProfileOperationStatus, ProfileRecord,
    RecordView, RomSettingRecord, RomSkippedRecord, SharedPrefsBoolRecord,
};
use crate::profiles::rules::{RomMatcher, RomProfileAction, RomProfileRule, RomSettingsRule};
use crate::profiles::xml::{XmlBoolPlan, XmlBoolPlanView};
use crate::text;

verus! {

/// Whether the device runs the rule's ROM, given the runner's answer to
/// `getprop`: the property must print something other than whitespace.
pub open spec fn rom_match_spec(property: Seq<char>, probe: Result<OutputView, RunnerErrorView>) -> Result<
    bool,
    ProfileErrorView,
> {
    match lift(property_check(property)) {
        Err(e) => Err(e),
        Ok(()) => match lift_outcome(
            outcome_of_run(
                CommandPhase::Probe,
                property_intent(CommandPhase::Probe, property),
                getprop(property),
                probe,
            ),
        ) {
            Err(e) => Err(e),
            Ok(o) => Ok(
                match outcome_stdout(o) {
                    Some(s) => text::trimmed(s).len() > 0,
                    None => false,
                },
            ),
        },
    }
}

/// The call of a ROM check: `getprop <property>` for a valid property.
pub open spec fn rom_match_calls(property: Seq<char>, probe: Result<OutputView, RunnerErrorView>) -> Seq<CallView> {
    match lift(property_check(property)) {
        Err(_) => seq![],
        Ok(()) => seq![CallView::Run(getprop(property), probe)],
    }
}

/// The calls of a settings rule: `settings get`, then the record with the
/// value it printed, and once the ledger took it `settings put`.
pub open spec fn rom_settings_calls(
    id: Seq<char>,
    matcher: RomMatcher,
    settings: RomSettingsRule,
    probe: Result<OutputView, RunnerErrorView>,
    ledger: Result<(), ProfileErrorView>,
    apply: Result<OutputView, RunnerErrorView>,
) -> Seq<CallView> {
    let ns = settings.namespace_view();
    let key = settings.key_view();
    let value = settings.value_view();
    match lift(settings_check(key, value, None)) {
        Err(_) => seq![],
        Ok(()) => {
            let c1 = seq![CallView::Run(settings_command(CommandPhase::Probe, ns, key, value, None), probe)];
            match lift_outcome(
                outcome_of_run(
                    CommandPhase::Probe,
                    settings_intent(CommandPhase::Probe, key),
                    settings_command(CommandPhase::Probe, ns, key, value, None),
                    probe,
                ),
            ) {
                Err(_) => c1,
                Ok(o) => {
                    let original = settings_value_of(outcome_stdout(o));
                    let record = RecordView::RomSetting {
                        rule_id: id,
                        matcher: matcher.name_view(),
                        namespace: ns,
                        key,
                        applied_value: value,
                        original_value: original,
                    };
                    let c2 = c1.push(CallView::Append(record_json(record), ledger));
                    if ledger is Ok && lift(settings_check(key, value, original)) is Ok {
                        c2.push(
                            CallView::Run(settings_command(CommandPhase::Apply, ns, key, value, original), apply),
                        )
                    } else {
                        c2
                    }
                },
            }
        },
    }
}

/// The record of a ROM rule skipped on another ROM.
pub open spec fn rom_skipped(id: Seq<char>, matcher: RomMatcher) -> RecordView {
    RecordView::RomSkipped { rule_id: id, matcher: matcher.name_view(), reason: "rom_property_empty"@ }
}

/// A settings rule, given the runner's and the ledger's answers: the value
/// that `settings get` printed is recorded first, then the new value is put.
pub open spec fn rom_settings_spec(
    id: Seq<char>,
    matcher: RomMatcher,
    settings: RomSettingsRule,
    probe: Result<OutputView, RunnerErrorView>,
    ledger: Result<(), ProfileErrorView>,
    apply: Result<OutputView, RunnerErrorView>,
) -> Result<OperationView, ProfileErrorView> {
    let ns = settings.namespace_view();
    let key = settings.key_view();
    let value = settings.value_view();
    match lift(settings_check(key, value, None)) {
        Err(e) => Err(e),
        Ok(()) => match lift_outcome(
            outcome_of_run(
                CommandPhase::Probe,
                settings_intent(CommandPhase::Probe, key),
                settings_command(CommandPhase::Probe, ns, key, value, None),
                probe,
            ),
        ) {
            Err(e) => Err(e),
            Ok(o) => {
                let original = settings_value_of(outcome_stdout(o));
                let record = RecordView::RomSetting {
                    rule_id: id,
                    matcher: matcher.name_view(),
                    namespace: ns,
                    key,
                    applied_value: value,
                    original_value: original,
                };
                match operation_spec(ProfileOperationStatus::Applied, record, ledger) {
                    Err(e) => Err(e),
                    Ok(operation) => match lift(settings_check(key, value, original)) {
                        Err(e) => Err(e),
                        Ok(()) => match lift_outcome(
                            outcome_of_run(
                                CommandPhase::Apply,
                                settings_intent(CommandPhase::Apply, key),
                                settings_command(CommandPhase::Apply, ns, key, value, original),
                                apply,
                            ),
                        ) {
                            Err(e) => Err(e),
                            Ok(_) => Ok(operation),
                        },
                    },
                }
            },
        },
    }
}

/// What applying a ROM rule comes to.
pub enum RomStep {
    /// The rule was skipped or its setting applied.
    Finished(ProfileOperation),
    /// The ROM matches and the rule edits a preferences file: the caller
    /// plans the edit (`plan_bool`), checks the file, records the plan
    /// (`record_shared_prefs`) and then commits it.
    SharedPrefs,
}

pub enum RomStepView {
    Finished(OperationView),
    SharedPrefs,
}

pub open spec fn rom_step_view(r: Result<RomStep, ProfileError>) -> Result<RomStepView, ProfileErrorView> {
    match r {
        Ok(RomStep::Finished(op)) => Ok(RomStepView::Finished(OperationView { status: op.status, record: op.record@ })),
        Ok(RomStep::SharedPrefs) => Ok(RomStepView::SharedPrefs),
        Err(e) => Err(e@),
    }
}

pub open spec fn finished(r: Result<OperationView, ProfileErrorView>) -> Result<RomStepView, ProfileErrorView> {
    match r {
        Ok(op) => Ok(RomStepView::Finished(op)),
        Err(e) => Err(e),
    }
}

/// A ROM rule, given every answer of the runner and the ledger.
pub open spec fn apply_rom_spec(
    id: Seq<char>,
    matcher: RomMatcher,
    action: RomProfileAction,
    probe: Result<OutputView, RunnerErrorView>,
    ledger: Result<(), ProfileErrorView>,
    settings_probe: Result<OutputView, RunnerErrorView>,
    settings_apply: Result<OutputView, RunnerErrorView>,
) -> Result<RomStepView, ProfileErrorView> {
    match rom_match_spec(matcher.property_view(), probe) {
        Err(e) => Err(e),
        Ok(false) => finished(
            operation_spec(ProfileOperationStatus::Skipped, rom_skipped(id, matcher), ledger),
        ),
        Ok(true) => match action {
            RomProfileAction::Settings(settings) => finished(
                rom_settings_spec(id, matcher, settings, settings_probe, ledger, settings_apply),
            ),
            RomProfileAction::SharedPrefsBool(_) => Ok(RomStepView::SharedPrefs),
        },
    }
}

/// The calls of a ROM rule: the ROM check; on another ROM the skip record;
/// on the ROM, a settings rule's calls, and none more for a `shared_prefs`
/// rule.
pub open spec fn apply_rom_calls(
    id: Seq<char>,
    matcher: RomMatcher,
    action: RomProfileAction,
    probe: Result<OutputView, RunnerErrorView>,
    ledger: Result<(), ProfileErrorView>,
    settings_probe: Result<OutputView, RunnerErrorView>,
    settings_apply: Result<OutputView, RunnerErrorView>,
) -> Seq<CallView> {
    let m = rom_match_calls(matcher.property_view(), probe);
    match rom_match_spec(matcher.property_view(), probe) {
        Err(_) => m,
        Ok(false) => m.push(CallView::Append(record_json(rom_skipped(id, matcher)), ledger)),
        Ok(true) => match action {
            RomProfileAction::Settings(settings) => m + rom_settings_calls(
                id,
                matcher,
                settings,
                settings_probe,
                ledger,
                settings_apply,
            ),
            RomProfileAction::SharedPrefsBool(_) => m,
        },
    }
}

/// The call of a ROM restore: for a setting that passes the checks,
/// `settings put` of the recorded value, or `settings delete` when there was
/// none; no call otherwise.
pub open spec fn restore_rom_calls(record: RecordView, answer: Result<OutputView, RunnerErrorView>) -> Seq<
    CallView,
> {
    match record {
        RecordView::RomSetting { namespace, key, applied_value, original_value, .. } => match lift(
            settings_check(key, applied_value, original_value),
        ) {
            Err(_) => seq![],
            Ok(()) => seq![
                CallView::Run(
                    settings_command(CommandPhase::Restore, namespace, key, applied_value, original_value),
                    answer,
                ),
            ],
        },
        _ => seq![],
    }
}

/// The record of a planned `shared_prefs` change.
pub open spec fn shared_prefs_record(
    id: Seq<char>,
    matcher: RomMatcher,
    action: RomProfileAction,
    plan: XmlBoolPlanView,
) -> RecordView {
    match action {
        RomProfileAction::SharedPrefsBool(xml) => RecordView::SharedPrefsBool {
            rule_id: id,
            matcher: matcher.name_view(),
            path: xml.path_view(),
            key: xml.key_view(),
            applied_value: xml.value_view(),
            original_value: plan.original_value,
            original_sha256: plan.original_sha256,
            backup_path: plan.backup_path,
        },
        RomProfileAction::Settings(_) => RecordView::RomSkipped {
            rule_id: id,
            matcher: matcher.name_view(),
            reason: Seq::empty(),
        },
    }
}

/// What restoring a ROM record comes to.
pub enum RomRestore {
    /// Nothing more to do.
    Done,
    /// The caller copies the backup at `backup_path` over `path`.
    CopyBackup { path: String, backup_path: String },
}

pub enum RomRestoreView {
    Done,
    CopyBackup { path: Seq<char>, backup_path: Seq<char> },
}

pub open spec fn rom_restore_view(r: Result<RomRestore, ProfileError>) -> Result<RomRestoreView, ProfileErrorView> {
    match r {
        Ok(RomRestore::Done) => Ok(RomRestoreView::Done),
        Ok(RomRestore::CopyBackup { path, backup_path }) => Ok(
            RomRestoreView::CopyBackup { path: path@, backup_path: backup_path@ },
        ),
        Err(e) => Err(e@),
    }
}

/// Restoring a ROM record, given the runner's answer: a setting gets its
/// recorded value back (or is deleted when it had none); a preferences file
/// gets its backup back; other records are left alone.
pub open spec fn restore_rom_spec(record: RecordView, answer: Result<OutputView, RunnerErrorView>) -> Result<
    RomRestoreView,
    ProfileErrorView,
> {
    match record {
        RecordView::RomSetting { namespace, key, applied_value, original_value, .. } => match lift(
            settings_check(key, applied_value, original_value),
        ) {
            Err(e) => Err(e),
            Ok(()) => match lift_outcome(
                outcome_of_run(
                    CommandPhase::Restore,
                    settings_intent(CommandPhase::Restore, key),
                    settings_command(CommandPhase::Restore, namespace, key, applied_value, original_value),
                    answer,
                ),
            ) {
                Err(e) => Err(e),
                Ok(_) => Ok(RomRestoreView::Done),
            },
        },
        RecordView::SharedPrefsBool { path, backup_path, .. } => Ok(
            RomRestoreView::CopyBackup { path, backup_path },
        ),
        _ => Ok(RomRestoreView::Done),
    }
}

pub open spec fn bool_result_view(r: Result<bool, ProfileError>) -> Result<bool, ProfileErrorView> {
    match r {
        Ok(b) => Ok(b),
        Err(e) => Err(e@),
    }
}

fn lift_command<T>(r: Result<T, crate::command_runner::error::CommandError>) -> (out: Result<T, ProfileError>)
    ensures
        match (r, out) {
            (Ok(a), Ok(b)) => a == b,
            (Err(e), Err(f)) => f@ == ProfileErrorView::Command(e@),
            _ => false,
        },
{
    match r {
        Ok(v) => Ok(v),
        Err(e) => Err(crate::profiles::error::from_command(e)),
    }
}

fn opt_str(o: &Option<String>) -> (r: Option<&str>)
    ensures
        opt_view(r) == record_opt_view(*o),
{
    match o {
        Some(s) => Some(s.as_str()),
        None => None,
    }
}

impl<'a, R: AndroidCommandRunner, L: ProfileLedgerSink> AndroidProfileExecutor<'a, R, L> {
    /// Whether the device runs the rule's ROM: one `getprop`.
    pub fn rom_matches(&mut self, rule: &RomProfileRule) -> (r: Result<bool, ProfileError>)
        ensures
            exists|probe: Result<OutputView, RunnerErrorView>|
                final(self).calls() == old(self).calls() + rom_match_calls(rule.matcher_view().property_view(), probe)
                    && bool_result_view(r) == #[trigger] rom_match_spec(rule.matcher_view().property_view(), probe),
    {
        let ghost start = self.calls();
        let property = rule.matcher().property();
        let ghost anyr: Result<OutputView, RunnerErrorView> = Err(RunnerErrorView::NotFound { detail: Seq::empty() });
        let adapter = match lift_command(GetpropAdapter::new(property)) {
            Ok(a) => a,
            Err(e) => {
                assert(bool_result_view(Err(e)) == rom_match_spec(property@, anyr));
                assert(self.calls() =~= start + rom_match_calls(property@, anyr));
                return Err(e);
            },
        };
        let out = self.device.run_phase(&adapter, CommandPhase::Probe);
        let ghost ans = answer_of(self.calls().last());
        let r = match lift_command(out) {
            Ok(outcome) => match outcome.output() {
                Some(output) => Ok(!text::is_blank(output.stdout())),
                None => Ok(false),
            },
            Err(e) => Err(e),
        };
        assert(bool_result_view(r) == rom_match_spec(property@, ans));
        assert(self.calls() =~= start + rom_match_calls(property@, ans));
        r
    }

    /// Applies a settings rule: `settings get`, the record of the value it
    /// replaces, and only then `settings put`; no other call.
    pub fn apply_rom_settings(&mut self, rule: &RomProfileRule, settings: &RomSettingsRule) -> (r: Result<
        ProfileOperation,
        ProfileError,
    >)
        ensures
            exists|
                probe: Result<OutputView, RunnerErrorView>,
                ledger: Result<(), ProfileErrorView>,
                apply: Result<OutputView, RunnerErrorView>,
            |
                final(self).calls() == old(self).calls() + rom_settings_calls(
                    rule.id_view(),
                    rule.matcher_view(),
                    *settings,
                    probe,
                    ledger,
                    apply,
                ) && op_view(r) == #[trigger] rom_settings_spec(
                    rule.id_view(),
                    rule.matcher_view(),
                    *settings,
                    probe,
                    ledger,
                    apply,
                ),
    {
        let ghost start = self.calls();
        let ns = settings.namespace();
        let key = settings.key();
        let value = settings.value();
        let ghost anyr: Result<OutputView, RunnerErrorView> = Err(RunnerErrorView::NotFound { detail: Seq::empty() });
        let ghost anyl: Result<(), ProfileErrorView> = Ok(());
        let ghost spec = |p, l, a| rom_settings_spec(rule.id_view(), rule.matcher_view(), *settings, p, l, a);
        let ghost calls = |p, l, a| rom_settings_calls(rule.id_view(), rule.matcher_view(), *settings, p, l, a);
        let prober = match lift_command(SettingsAdapter::new(ns, key, value, None)) {
            Ok(a) => a,
            Err(e) => {
                assert(op_view(Err(e)) == spec(anyr, anyl, anyr));
                assert(self.calls() =~= start + calls(anyr, anyl, anyr));
                return Err(e);
            },
        };
        let probe_r = self.device.run_phase(&prober, CommandPhase::Probe);
        let ghost probe_ans = answer_of(self.calls().last());
        let probe = match lift_command(probe_r) {
            Ok(o) => o,
            Err(e) => {
                assert(op_view(Err(e)) == spec(probe_ans, anyl, anyr));
                assert(self.calls() =~= start + calls(probe_ans, anyl, anyr));
                return Err(e);
            },
        };
        let original_value = normalize_settings_value(probe.output());
        let record = ProfileRecord::RomSetting(
            RomSettingRecord {
                rule_id: rule.id().to_owned(),
                matcher: rule.matcher().name().to_owned(),
                namespace: ns,
                key: key.to_owned(),
                applied_value: value.to_owned(),
                original_value,
            },
        );
        let op_r = self.applied(&record);
        let ghost ledger_ans = ledger_answer_of(self.calls().last());
        let operation = match op_r {
            Ok(o) => o,
            Err(e) => {
                assert(op_view(Err(e)) == spec(probe_ans, ledger_ans, anyr));
                assert(self.calls() =~= start + calls(probe_ans, ledger_ans, anyr));
                return Err(e);
            },
        };
        let original = match &record {
            ProfileRecord::RomSetting(rec) => opt_str(&rec.original_value),
            _ => None,
        };
        let setter = match lift_command(SettingsAdapter::new(ns, key, value, original)) {
            Ok(a) => a,
            Err(e) => {
                assert(op_view(Err(e)) == spec(probe_ans, ledger_ans, anyr));
                assert(self.calls() =~= start + calls(probe_ans, ledger_ans, anyr));
                return Err(e);
            },
        };
        let apply_r = self.device.run_phase(&setter, CommandPhase::Apply);
        let ghost apply_ans = answer_of(self.calls().last());
        let r = match lift_command(apply_r) {
            Ok(_) => Ok(operation),
            Err(e) => Err(e),
        };
        assert(op_view(r) == spec(probe_ans, ledger_ans, apply_ans));
        assert(self.calls() =~= start + calls(probe_ans, ledger_ans, apply_ans));
        r
    }

    /// Applies a ROM rule: skipped on another ROM (`getprop` and the skip
    /// record only); a settings rule is applied; a `shared_prefs` rule is
    /// handed back to the caller, who edits the file, after `getprop` alone.
    pub fn apply_rom(&mut self, rule: &RomProfileRule) -> (r: Result<RomStep, ProfileError>)
        ensures
            exists|
                probe: Result<OutputView, RunnerErrorView>,
                ledger: Result<(), ProfileErrorView>,
                settings_probe: Result<OutputView, RunnerErrorView>,
                settings_apply: Result<OutputView, RunnerErrorView>,
            |
                final(self).calls() == old(self).calls() + apply_rom_calls(
                    rule.id_view(),
                    rule.matcher_view(),
                    rule.action_view(),
                    probe,
                    ledger,
                    settings_probe,
                    settings_apply,
                ) && rom_step_view(r) == #[trigger] apply_rom_spec(
                    rule.id_view(),
                    rule.matcher_view(),
                    rule.action_view(),
                    probe,
                    ledger,
                    settings_probe,
                    settings_apply,
                ),
    {
        let ghost start = self.calls();
        let ghost anyr: Result<OutputView, RunnerErrorView> = Err(RunnerErrorView::NotFound { detail: Seq::empty() });
        let ghost anyl: Result<(), ProfileErrorView> = Ok(());
        let matched = self.rom_matches(rule);
        let ghost m = choose|probe: Result<OutputView, RunnerErrorView>|
            self.calls() == start + rom_match_calls(rule.matcher_view().property_view(), probe)
                && bool_result_view(matched) == #[trigger] rom_match_spec(rule.matcher_view().property_view(), probe);
        let ghost spec = |l, p, a| apply_rom_spec(rule.id_view(), rule.matcher_view(), rule.action_view(), m, l, p, a);
        let ghost calls = |l, p, a| apply_rom_calls(rule.id_view(), rule.matcher_view(), rule.action_view(), m, l, p, a);
        let is_match = match matched {
            Ok(b) => b,
            Err(e) => {
                assert(rom_step_view(Err(e)) == spec(anyl, anyr, anyr));
                assert(self.calls() =~= start + calls(anyl, anyr, anyr));
                return Err(e);
            },
        };
        let ghost mid = self.calls();
        if !is_match {
            let record = ProfileRecord::RomSkipped(
                RomSkippedRecord {
                    rule_id: rule.id().to_owned(),
                    matcher: rule.matcher().name().to_owned(),
                    reason: "rom_property_empty".to_owned(),
                },
            );
            let op_r = self.skipped(&record);
            let ghost l = ledger_answer_of(self.calls().last());
            let r = match op_r {
                Ok(op) => Ok(RomStep::Finished(op)),
                Err(e) => Err(e),
            };
            assert(rom_step_view(r) == spec(l, anyr, anyr));
            assert(self.calls() =~= start + calls(l, anyr, anyr));
            return r;
        }
        match rule.action() {
            RomProfileAction::Settings(settings) => {
                let op_r = self.apply_rom_settings(rule, settings);
                let ghost (p, l, a) = choose|
                    probe: Result<OutputView, RunnerErrorView>,
                    ledger: Result<(), ProfileErrorView>,
                    apply: Result<OutputView, RunnerErrorView>,
                |
                    self.calls() == mid + rom_settings_calls(
                        rule.id_view(),
                        rule.matcher_view(),
                        *settings,
                        probe,
                        ledger,
                        apply,
                    ) && op_view(op_r) == #[trigger] rom_settings_spec(
                        rule.id_view(),
                        rule.matcher_view(),
                        *settings,
                        probe,
                        ledger,
                        apply,
                    );
                let r = match op_r {
                    Ok(op) => Ok(RomStep::Finished(op)),
                    Err(e) => Err(e),
                };
                assert(rom_step_view(r) == spec(l, p, a));
                assert(self.calls() =~= start + calls(l, p, a));
                r
            },
            RomProfileAction::SharedPrefsBool(_) => {
                assert(rom_step_view(Ok(RomStep::SharedPrefs)) == spec(anyl, anyr, anyr));
                assert(self.calls() =~= start + calls(anyl, anyr, anyr));
                Ok(RomStep::SharedPrefs)
            },
        }
    }

    /// Records a planned `shared_prefs` change in the ledger (its only
    /// call); the caller commits the plan only after this succeeded. A rule
    /// of another kind is refused and nothing is called.
    pub fn record_shared_prefs(&mut self, rule: &RomProfileRule, plan: &XmlBoolPlan) -> (r: Result<
        ProfileOperation,
        ProfileError,
    >)
        ensures
            rule.action_view() is SharedPrefsBool ==> exists|ledger: Result<(), ProfileErrorView>|
                final(self).calls() == old(self).calls().push(
                    CallView::Append(
                        record_json(shared_prefs_record(rule.id_view(), rule.matcher_view(), rule.action_view(), plan@)),
                        ledger,
                    ),
                ) && op_view(r) == #[trigger] operation_spec(
                    ProfileOperationStatus::Applied,
                    shared_prefs_record(rule.id_view(), rule.matcher_view(), rule.action_view(), plan@),
                    ledger,
                ),
            rule.action_view() is Settings ==> final(self).calls() == old(self).calls() && op_view(r) == Err::<
                OperationView,
                ProfileErrorView,
            >(
                ProfileErrorView::InvalidRule {
                    field: "action"@,
                    value: rule.id_view(),
                    reason: "rule is not a shared_prefs rule"@,
                },
            ),
    {
        match rule.action() {
            RomProfileAction::SharedPrefsBool(xml) => {
                let record = ProfileRecord::SharedPrefsBool(
                    SharedPrefsBoolRecord {
                        rule_id: rule.id().to_owned(),
                        matcher: rule.matcher().name().to_owned(),
                        path: xml.path().to_owned(),
                        key: xml.key().to_owned(),
                        applied_value: xml.value(),
                        original_value: plan.original_value,
                        original_sha256: plan.original_sha256.clone(),
                        backup_path: plan.backup_path.clone(),
                    },
                );
                self.applied(&record)
            },
            RomProfileAction::Settings(_) => Err(
                ProfileError::invalid_rule("action", rule.id(), "rule is not a shared_prefs rule"),
            ),
        }
    }

    /// Records a planned `shared_prefs` change once the caller's checks of
    /// the file and the backup (`preflight`) passed; after a failed check
    /// nothing is called. The caller commits the plan only when this
    /// returns `Ok`.
    pub fn apply_shared_prefs(
        &mut self,
        rule: &RomProfileRule,
        plan: &XmlBoolPlan,
        preflight: Result<(), ProfileError>,
    ) -> (r: Result<ProfileOperation, ProfileError>)
        ensures
            preflight matches Err(e) ==> final(self).calls() == old(self).calls() && op_view(r) == Err::<
                OperationView,
                ProfileErrorView,
            >(e@),
            preflight is Ok && rule.action_view() is SharedPrefsBool ==> exists|ledger: Result<(), ProfileErrorView>|
                final(self).calls() == old(self).calls().push(
                    CallView::Append(
                        record_json(shared_prefs_record(rule.id_view(), rule.matcher_view(), rule.action_view(), plan@)),
                        ledger,
                    ),
                ) && op_view(r) == #[trigger] operation_spec(
                    ProfileOperationStatus::Applied,
                    shared_prefs_record(rule.id_view(), rule.matcher_view(), rule.action_view(), plan@),
                    ledger,
                ),
            preflight is Ok && rule.action_view() is Settings ==> final(self).calls() == old(self).calls() && op_view(r)
                == Err::<OperationView, ProfileErrorView>(
                ProfileErrorView::InvalidRule {
                    field: "action"@,
                    value: rule.id_view(),
                    reason: "rule is not a shared_prefs rule"@,
                },
            ),
    {
        match preflight {
            Err(e) => Err(e),
            Ok(()) => self.record_shared_prefs(rule, plan),
        }
    }

    /// Restores a ROM record: a setting with one `settings put` of the
    /// recorded value (or `settings delete`), a preferences file handed back
    /// for its backup to be copied, with no call; other records with no call.
    pub fn restore_rom(&mut self, record: &ProfileRecord) -> (r: Result<RomRestore, ProfileError>)
        ensures
            exists|answer: Result<OutputView, RunnerErrorView>|
                final(self).calls() == old(self).calls() + restore_rom_calls(record@, answer) && rom_restore_view(r)
                    == #[trigger] restore_rom_spec(record@, answer),
    {
        let ghost start = self.calls();
        let ghost anyr: Result<OutputView, RunnerErrorView> = Err(RunnerErrorView::NotFound { detail: Seq::empty() });
        match record {
            ProfileRecord::RomSetting(rec) => {
                let original = opt_str(&rec.original_value);
                let adapter = match lift_command(
                    SettingsAdapter::new(rec.namespace, rec.key.as_str(), rec.applied_value.as_str(), original),
                ) {
                    Ok(a) => a,
                    Err(e) => {
                        assert(rom_restore_view(Err(e)) == restore_rom_spec(record@, anyr));
                        assert(self.calls() =~= start + restore_rom_calls(record@, anyr));
                        return Err(e);
                    },
                };
                let out = self.device.run_phase(&adapter, CommandPhase::Restore);
                let ghost ans = answer_of(self.calls().last());
                let r = match lift_command(out) {
                    Ok(_) => Ok(RomRestore::Done),
                    Err(e) => Err(e),
                };
                assert(rom_restore_view(r) == restore_rom_spec(record@, ans));
                assert(self.calls() =~= start + restore_rom_calls(record@, ans));
                r
            },
            ProfileRecord::SharedPrefsBool(rec) => {
                let r = Ok(RomRestore::CopyBackup { path: rec.path.clone(), backup_path: rec.backup_path.clone() });
                assert(rom_restore_view(r) == restore_rom_spec(record@, anyr));
                assert(self.calls() =~= start + restore_rom_calls(record@, anyr));
                r
            },
            _ => {
                assert(rom_restore_view(Ok(RomRestore::Done)) == restore_rom_spec(record@, anyr));
                assert(self.calls() =~= start + restore_rom_calls(record@, anyr));
                Ok(RomRestore::Done)
            },
        }
    }
}

} // verus!
