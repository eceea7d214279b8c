//! What the profile executor guarantees across apply and restore.
use vstd::prelude::*;

use crate::command_runner::adapter::{outcome_of_run, CommandPhase, OutcomeView};
use crate::command_runner::appops::{appops_get, appops_intent, appops_set};
use crate::command_runner::pm::{component_command, component_package};
use crate::command_runner::output::OutputView;
use crate::command_runner::runner::RunnerErrorView;
use crate::command_runner::settings::{settings_command, settings_intent};
use crate::command_runner::validation::package_check;
use crate::profiles::error::{lift, ProfileErrorView};
use crate::profiles::probe::{appop_mode_of, enabled_of, hidden_of, settings_value_of};
use crate::text;
use crate::profiles::xml_bool::{
    attr_bytes, attr_lookup, bool_text_bytes, bool_value_of, name_matches, rewritten_attrs, rewritten_tag, utf8,
    XmlTagView,
};
use crate::profiles::executor::{
    app_skipped, apply_appop_calls, disabled_command, hidden_command, hide_command_of, path_probe_command, apply_appop_spec, apply_component_calls, apply_component_spec, component_record_view, hide_outcome,
    lift_outcome, operation_spec, outcome_stdout, presence, restore_appop_spec, restore_component_spec, Presence,
};
use crate::profiles::device::CallView;
use crate::profiles::record::{
    record_json, HideApplyStatus, PackageEnabledState, PackageHiddenState, ProfileOperationStatus,
    RecordView,
};
use crate::profiles::rom::{
    apply_rom_spec, finished, restore_rom_spec, rom_match_spec, rom_settings_calls, rom_settings_spec, rom_skipped,
};
use crate::profiles::rules::{PmHidePolicy, RomMatcher, RomProfileAction, RomSettingsRule};

verus! {

/// What a restore command comes to.
pub open spec fn restore_result(r: Result<crate::command_runner::adapter::OutcomeView, crate::command_runner::error::CommandErrorView>) -> Result<
    (),
    ProfileErrorView,
> {
    match lift_outcome(r) {
        Ok(_) => Ok(()),
        Err(e) => Err(e),
    }
}

/// The AppOps record of a rule.
pub open spec fn appop_record(id: Seq<char>, package: Seq<char>, op: Seq<char>, mode: Seq<char>, original: Seq<char>) -> RecordView {
    RecordView::AppOp { rule_id: id, package, op, applied_mode: mode, original_mode: original }
}

/// The record of a ROM setting rule.
pub open spec fn setting_record(id: Seq<char>, matcher: RomMatcher, settings: RomSettingsRule, original: Option<Seq<char>>) -> RecordView {
    RecordView::RomSetting {
        rule_id: id,
        matcher: matcher.name_view(),
        namespace: settings.namespace_view(),
        key: settings.key_view(),
        applied_value: settings.value_view(),
        original_value: original,
    }
}

/// Restoring what an applied AppOps rule recorded sets the mode that was
/// read before the change: the record written is an AppOps record whose
/// restore runs `cmd appops set <package> <op> <original mode>`.
pub proof fn law_appop_restore_sets_original_mode(
    id: Seq<char>,
    package: Seq<char>,
    op: Seq<char>,
    mode: Seq<char>,
    path: Result<OutputView, ProfileErrorView>,
    probe: Result<OutputView, RunnerErrorView>,
    ledger: Result<(), ProfileErrorView>,
    apply: Result<OutputView, RunnerErrorView>,
    answer: Result<OutputView, RunnerErrorView>,
)
    ensures
        match apply_appop_spec(id, package, op, mode, path, probe, ledger, apply) {
            Ok(o) => o.status == ProfileOperationStatus::Applied ==> exists|original: Seq<char>|
                {
                    &&& o.record == record_json(#[trigger] appop_record(id, package, op, mode, original))
                    &&& restore_appop_spec(appop_record(id, package, op, mode, original), answer) == restore_result(
                        outcome_of_run(
                            CommandPhase::Restore,
                            appops_intent(CommandPhase::Restore, package, op),
                            appops_set(package, op, original),
                            answer,
                        ),
                    )
                },
            Err(_) => true,
        },
{
    if lift(package_check("package"@, package)) is Ok && presence(path) == Presence::Installed {
        let probed = lift_outcome(
            outcome_of_run(
                CommandPhase::Probe,
                appops_intent(CommandPhase::Probe, package, op),
                appops_get(package, op),
                probe,
            ),
        );
        if let Ok(po) = probed {
            let original = appop_mode_of(outcome_stdout(po), op);
            assert(appop_record(id, package, op, mode, original) == RecordView::AppOp {
                rule_id: id,
                package,
                op,
                applied_mode: mode,
                original_mode: original,
            });
        }
    }
}

/// An AppOps rule for a package that is not installed changes nothing: it
/// records a skip, whatever the runner would answer to the AppOps commands.
pub proof fn law_appop_missing_package_skipped(
    id: Seq<char>,
    package: Seq<char>,
    op: Seq<char>,
    mode: Seq<char>,
    path: Result<OutputView, ProfileErrorView>,
    probe: Result<OutputView, RunnerErrorView>,
    ledger: Result<(), ProfileErrorView>,
    apply: Result<OutputView, RunnerErrorView>,
)
    requires
        package_check("package"@, package) is Ok,
        presence(path) == Presence::NotInstalled,
    ensures
        apply_appop_spec(id, package, op, mode, path, probe, ledger, apply) == operation_spec(
            ProfileOperationStatus::Skipped,
            app_skipped(id, package),
            ledger,
        ),
{
}

/// A component rule for a package that is not installed changes nothing.
pub proof fn law_component_missing_package_skipped(
    id: Seq<char>,
    user_id: u32,
    package: Seq<char>,
    component: Seq<char>,
    policy: PmHidePolicy,
    path: Result<OutputView, ProfileErrorView>,
    disabled: Result<OutputView, ProfileErrorView>,
    hidden: Result<OutputView, ProfileErrorView>,
    ledger: Result<(), ProfileErrorView>,
    hide: Result<OutputView, ProfileErrorView>,
    confirm: Result<(), ProfileErrorView>,
    apply: Result<OutputView, RunnerErrorView>,
)
    requires
        package_check("package"@, package) is Ok,
        presence(path) == Presence::NotInstalled,
    ensures
        apply_component_spec(
            id,
            user_id,
            package,
            component,
            policy,
            path,
            disabled,
            hidden,
            ledger,
            hide,
            confirm,
            apply,
        ) == operation_spec(ProfileOperationStatus::Skipped, app_skipped(id, package), ledger),
{
}

/// `pm hide` counts as applied only when it was requested and succeeded;
/// the record of an applied component rule carries that status, and when
/// the hide did not happen no confirmation is written.
pub proof fn law_hide_confirmed_only_on_success(
    id: Seq<char>,
    user_id: u32,
    package: Seq<char>,
    component: Seq<char>,
    policy: PmHidePolicy,
    path: Result<OutputView, ProfileErrorView>,
    disabled: Result<OutputView, ProfileErrorView>,
    hidden: Result<OutputView, ProfileErrorView>,
    ledger: Result<(), ProfileErrorView>,
    hide: Result<OutputView, ProfileErrorView>,
    confirm: Result<(), ProfileErrorView>,
    other_confirm: Result<(), ProfileErrorView>,
    apply: Result<OutputView, RunnerErrorView>,
)
    ensures
        hide_outcome(policy, hide) == HideApplyStatus::Applied <==> (policy == PmHidePolicy::TryHide
            && hide is Ok),
        match apply_component_spec(
            id,
            user_id,
            package,
            component,
            policy,
            path,
            disabled,
            hidden,
            ledger,
            hide,
            confirm,
            apply,
        ) {
            Ok(o) => o.status == ProfileOperationStatus::Applied ==> exists|
                en: PackageEnabledState,
                hi: PackageHiddenState,
            |
                o.record == #[trigger] record_json(
                    component_record_view(id, user_id, package, component, en, hi, hide_outcome(policy, hide)),
                ),
            Err(_) => true,
        },
        hide_outcome(policy, hide) != HideApplyStatus::Applied ==> apply_component_spec(
            id,
            user_id,
            package,
            component,
            policy,
            path,
            disabled,
            hidden,
            ledger,
            hide,
            confirm,
            apply,
        ) == apply_component_spec(
            id,
            user_id,
            package,
            component,
            policy,
            path,
            disabled,
            hidden,
            ledger,
            hide,
            other_confirm,
            apply,
        ),
{
}

/// Restoring a component undoes only what was done: `pm enable` runs only
/// when the package was enabled before, and `pm unhide` only when it was
/// visible and the hide was applied.
pub proof fn law_component_restore_only_undoes_what_was_done(
    record: RecordView,
    unhide: Result<OutputView, ProfileErrorView>,
    other_unhide: Result<OutputView, ProfileErrorView>,
    enable: Result<OutputView, RunnerErrorView>,
    other_enable: Result<OutputView, RunnerErrorView>,
)
    ensures
        record matches RecordView::Component { original_enabled, .. }
            && original_enabled == PackageEnabledState::Disabled ==> restore_component_spec(record, unhide, enable)
            == restore_component_spec(record, unhide, other_enable),
        record matches RecordView::Component { original_hidden, hide_status, .. }
            && !(original_hidden == PackageHiddenState::Visible && hide_status == HideApplyStatus::Applied)
            ==> restore_component_spec(record, unhide, enable) == restore_component_spec(record, other_unhide, enable),
        !(record is Component) ==> restore_component_spec(record, unhide, enable) == Ok::<(), ProfileErrorView>(()),
{
}

/// A ROM rule on a device without its ROM property changes nothing: it
/// records a skip, whatever the rule's action.
pub proof fn law_rom_rule_needs_its_rom(
    id: Seq<char>,
    matcher: RomMatcher,
    action: RomProfileAction,
    probe: Result<OutputView, RunnerErrorView>,
    ledger: Result<(), ProfileErrorView>,
    settings_probe: Result<OutputView, RunnerErrorView>,
    settings_apply: Result<OutputView, RunnerErrorView>,
)
    requires
        rom_match_spec(matcher.property_view(), probe) == Ok::<bool, ProfileErrorView>(false),
    ensures
        apply_rom_spec(id, matcher, action, probe, ledger, settings_probe, settings_apply) == finished(
            operation_spec(ProfileOperationStatus::Skipped, rom_skipped(id, matcher), ledger),
        ),
{
}

/// Restoring what an applied ROM setting recorded puts back the value read
/// before the change: `settings put` of that value, or `settings delete`
/// when the key had none.
pub proof fn law_rom_setting_restore_puts_back_original(
    id: Seq<char>,
    matcher: RomMatcher,
    settings: RomSettingsRule,
    probe: Result<OutputView, RunnerErrorView>,
    ledger: Result<(), ProfileErrorView>,
    apply: Result<OutputView, RunnerErrorView>,
    answer: Result<OutputView, RunnerErrorView>,
)
    ensures
        match rom_settings_spec(id, matcher, settings, probe, ledger, apply) {
            Ok(o) => exists|original: Option<Seq<char>>|
                {
                    &&& o.record == record_json(#[trigger] setting_record(id, matcher, settings, original))
                    &&& restore_rom_spec(setting_record(id, matcher, settings, original), answer) == match restore_result(
                        outcome_of_run(
                            CommandPhase::Restore,
                            settings_intent(CommandPhase::Restore, settings.key_view()),
                            settings_command(
                                CommandPhase::Restore,
                                settings.namespace_view(),
                                settings.key_view(),
                                settings.value_view(),
                                original,
                            ),
                            answer,
                        ),
                    ) {
                        Ok(()) => Ok(crate::profiles::rom::RomRestoreView::Done),
                        Err(e) => Err(e),
                    }
                },
            Err(_) => true,
        },
{
    let probed = lift_outcome(
        outcome_of_run(
            CommandPhase::Probe,
            settings_intent(CommandPhase::Probe, settings.key_view()),
            settings_command(
                CommandPhase::Probe,
                settings.namespace_view(),
                settings.key_view(),
                settings.value_view(),
                None,
            ),
            probe,
        ),
    );
    if let Ok(po) = probed {
        let original = settings_value_of(outcome_stdout(po));
        assert(setting_record(id, matcher, settings, original) == RecordView::RomSetting {
            rule_id: id,
            matcher: matcher.name_view(),
            namespace: settings.namespace_view(),
            key: settings.key_view(),
            applied_value: settings.value_view(),
            original_value: original,
        });
    }
}

/// The original is recorded before the change: when an AppOps rule ends
/// with `cmd appops set <package> <op> <mode>`, the call before it appended
/// the AppOps record with the mode read by `cmd appops get`, and the ledger
/// took it.
pub proof fn law_appop_recorded_before_set(
    id: Seq<char>,
    package: Seq<char>,
    op: Seq<char>,
    mode: Seq<char>,
    path: Result<OutputView, RunnerErrorView>,
    probe: Result<OutputView, RunnerErrorView>,
    ledger: Result<(), ProfileErrorView>,
    apply: Result<OutputView, RunnerErrorView>,
)
    ensures
        ({
            let calls = apply_appop_calls(id, package, op, mode, path, probe, ledger, apply);
            calls.len() > 0 && calls.last() == CallView::Run(appops_set(package, op, mode), apply) ==> {
                &&& calls.len() == 4
                &&& calls[1] == CallView::Run(appops_get(package, op), probe)
                &&& ledger is Ok
                &&& exists|o: OutcomeView|
                    lift_outcome(
                        outcome_of_run(
                            CommandPhase::Probe,
                            appops_intent(CommandPhase::Probe, package, op),
                            appops_get(package, op),
                            probe,
                        ),
                    ) == Ok::<OutcomeView, ProfileErrorView>(o) && calls[2] == CallView::Append(
                        record_json(appop_record(id, package, op, mode, appop_mode_of(outcome_stdout(o), op))),
                        ledger,
                    )
            }
        }),
{
    let calls = apply_appop_calls(id, package, op, mode, path, probe, ledger, apply);
    if calls.len() > 0 && calls.last() == CallView::Run(appops_set(package, op, mode), apply) {
        if calls.len() == 1 {
            assert(calls.last() == CallView::Run(path_probe_command(package), path));
            assert(path_probe_command(package).args.len() != appops_set(package, op, mode).args.len());
        }
        if calls.len() == 2 {
            assert(calls.last() == CallView::Run(appops_get(package, op), probe));
            assert(appops_get(package, op).args.len() != appops_set(package, op, mode).args.len());
        }
    }
}

/// The original state is recorded before the component is disabled: when a
/// component rule ends with `pm disable-user`, the ledger took the record of
/// the package's original state (the fourth call) before it.
pub proof fn law_component_recorded_before_disable(
    id: Seq<char>,
    user_id: u32,
    package: Seq<char>,
    component: Seq<char>,
    policy: PmHidePolicy,
    path: Result<OutputView, RunnerErrorView>,
    disabled: Result<OutputView, RunnerErrorView>,
    hidden: Result<OutputView, RunnerErrorView>,
    ledger: Result<(), ProfileErrorView>,
    hide: Result<OutputView, RunnerErrorView>,
    confirm: Result<(), ProfileErrorView>,
    apply: Result<OutputView, RunnerErrorView>,
)
    ensures
        ({
            let calls = apply_component_calls(
                id,
                user_id,
                package,
                component,
                policy,
                path,
                disabled,
                hidden,
                ledger,
                hide,
                confirm,
                apply,
            );
            let disable = component_command(CommandPhase::Apply, user_id, component_package(component), component);
            calls.len() > 0 && calls.last() == CallView::Run(disable, apply) ==> {
                &&& calls.len() >= 5
                &&& ledger is Ok
                &&& calls[3] is Append
                &&& calls[3]->Append_1 == ledger
            }
        }),
{
    let calls = apply_component_calls(
        id,
        user_id,
        package,
        component,
        policy,
        path,
        disabled,
        hidden,
        ledger,
        hide,
        confirm,
        apply,
    );
    let disable = component_command(CommandPhase::Apply, user_id, component_package(component), component);
    reveal_strlit("list");
    reveal_strlit("disable-user");
    assert(disable.args[0] == "disable-user"@);
    assert(disabled_command(package).args[0] == "list"@);
    assert(hidden_command(package).args[0] == "list"@);
    assert(path_probe_command(package).args.len() != disable.args.len());
    assert(hide_command_of(package).args.len() != disable.args.len());
    assert(disabled_command(package) != disable);
    assert(hidden_command(package) != disable);
}

/// The value a ROM setting replaces is recorded before the new one is put:
/// when a settings rule ends with `settings put`, the call before it
/// appended the setting's record and the ledger took it.
pub proof fn law_rom_setting_recorded_before_put(
    id: Seq<char>,
    matcher: RomMatcher,
    settings: RomSettingsRule,
    probe: Result<OutputView, RunnerErrorView>,
    ledger: Result<(), ProfileErrorView>,
    apply: Result<OutputView, RunnerErrorView>,
)
    ensures
        ({
            let calls = rom_settings_calls(id, matcher, settings, probe, ledger, apply);
            calls.len() == 3 ==> {
                &&& calls[0] == CallView::Run(
                    settings_command(
                        CommandPhase::Probe,
                        settings.namespace_view(),
                        settings.key_view(),
                        settings.value_view(),
                        None,
                    ),
                    probe,
                )
                &&& calls[1] is Append
                &&& ledger is Ok
                &&& calls[1]->Append_1 == ledger
            }
        }),
{
}

/// The original enabled state is read from `pm list packages -d`: the
/// package was disabled exactly when that list printed something other than
/// whitespace, and enabled when it printed nothing. The same holds of the
/// hidden state and `pm list packages --hidden`.
pub proof fn law_original_state_follows_the_lists(stdout: Seq<char>)
    ensures
        (enabled_of(stdout) == PackageEnabledState::Disabled) <==> exists|i: int|
            0 <= i < stdout.len() && !text::is_ws(#[trigger] stdout[i]),
        (enabled_of(stdout) == PackageEnabledState::Enabled) <==> forall|i: int|
            0 <= i < stdout.len() ==> text::is_ws(#[trigger] stdout[i]),
        (hidden_of(stdout) == PackageHiddenState::Hidden) <==> exists|i: int|
            0 <= i < stdout.len() && !text::is_ws(#[trigger] stdout[i]),
        (hidden_of(stdout) == PackageHiddenState::Visible) <==> forall|i: int|
            0 <= i < stdout.len() ==> text::is_ws(#[trigger] stdout[i]),
{
    text::lemma_blank(stdout);
}

/// The original value of a setting is what `settings get` printed, trimmed:
/// there is one exactly when the answer holds a non-whitespace character and
/// is not `null`, and then it is the printed text without its surrounding
/// whitespace, never empty.
pub proof fn law_recorded_setting_is_the_printed_value(stdout: Seq<char>)
    ensures
        (settings_value_of(Some(stdout)) is None) <==> ((forall|i: int|
            0 <= i < stdout.len() ==> text::is_ws(#[trigger] stdout[i])) || text::trimmed(stdout) == "null"@),
        settings_value_of(Some(stdout)) matches Some(v) ==> (v == text::trimmed(stdout) && v.len() > 0),
        settings_value_of(None) is None,
{
    text::lemma_blank(stdout);
}

/// An attribute of a rewritten `<boolean>`: `value` takes the new boolean's
/// text, every other attribute is kept.
pub open spec fn with_value(
    a: Result<(Seq<u8>, Seq<u8>), Seq<char>>,
    value: bool,
) -> Result<(Seq<u8>, Seq<u8>), Seq<char>> {
    match a {
        Ok((k, v)) => Ok((k, if k == utf8("value"@) { bool_text_bytes(value) } else { v })),
        Err(m) => Err(m),
    }
}

/// The attributes of a rewritten `<boolean>`, in their order.
pub open spec fn rewritten_list(
    attrs: Seq<Result<(Seq<u8>, Seq<u8>), Seq<char>>>,
    value: bool,
) -> Seq<Result<(Seq<u8>, Seq<u8>), Seq<char>>> {
    Seq::new(attrs.len(), |i: int| with_value(attrs[i], value))
}

/// The bytes of an attribute list from index `i`, each as ` key="value"`.
pub open spec fn attrs_written(l: Seq<Result<(Seq<u8>, Seq<u8>), Seq<char>>>, i: int) -> Seq<u8>
    decreases l.len() - i,
{
    if i < 0 || i >= l.len() {
        Seq::empty()
    } else {
        match l[i] {
            Ok((k, v)) => attr_bytes(k, v) + attrs_written(l, i + 1),
            Err(_) => Seq::empty(),
        }
    }
}

proof fn lemma_words_differ()
    ensures
        utf8("true"@) != utf8("false"@),
        utf8("name"@) != utf8("value"@),
{
    reveal_strlit("true");
    reveal_strlit("false");
    reveal_strlit("name");
    reveal_strlit("value");
    vstd::utf8::encode_utf8_first_scalar("true"@);
    vstd::utf8::encode_utf8_first_scalar("false"@);
    vstd::utf8::encode_utf8_first_scalar("name"@);
    vstd::utf8::encode_utf8_first_scalar("value"@);
}

proof fn lemma_lookup_rewritten(
    attrs: Seq<Result<(Seq<u8>, Seq<u8>), Seq<char>>>,
    i: int,
    key: Seq<u8>,
    value: bool,
)
    requires
        0 <= i,
    ensures
        key == utf8("value"@) ==> attr_lookup(rewritten_list(attrs, value), i, key) == match attr_lookup(
            attrs,
            i,
            key,
        ) {
            Ok(Some(_)) => Ok::<Option<Seq<u8>>, Seq<char>>(Some(bool_text_bytes(value))),
            other => other,
        },
        key != utf8("value"@) ==> attr_lookup(rewritten_list(attrs, value), i, key) == attr_lookup(attrs, i, key),
    decreases attrs.len() - i,
{
    if i < attrs.len() {
        lemma_lookup_rewritten(attrs, i + 1, key, value);
    }
}

proof fn lemma_written(attrs: Seq<Result<(Seq<u8>, Seq<u8>), Seq<char>>>, i: int, value: bool)
    requires
        0 <= i,
    ensures
        rewritten_attrs(attrs, i, value) is Ok ==> rewritten_attrs(attrs, i, value) == Ok::<Seq<u8>, Seq<char>>(
            attrs_written(rewritten_list(attrs, value), i),
        ),
    decreases attrs.len() - i,
{
    if i < attrs.len() {
        lemma_written(attrs, i + 1, value);
    }
}

/// Rewriting a `<boolean>` writes back what reading it gives: the rewritten
/// tag is its name and its attributes in order, each written as
/// ` key="value"`, where the `value` attribute now reads as the boolean that
/// was asked for (`true` as `true`, `false` as `false`), and the `name`
/// attribute still names the same key, so the rewritten entry is found
/// again under it.
pub proof fn law_rewritten_boolean_reads_back(t: XmlTagView, value: bool, key: Seq<char>)
    ensures
        rewritten_tag(t, value) is Ok ==> rewritten_tag(t, value) == Ok::<Seq<u8>, ProfileErrorView>(
            seq![60u8] + t.name + attrs_written(rewritten_list(t.attrs, value), 0) + if t.empty {
                seq![47u8, 62u8]
            } else {
                seq![62u8]
            },
        ),
        attr_lookup(t.attrs, 0, utf8("value"@)) matches Ok(Some(_)) ==> bool_value_of(
            XmlTagView { empty: t.empty, name: t.name, attrs: rewritten_list(t.attrs, value) },
        ) == Ok::<bool, ProfileErrorView>(value),
        name_matches(XmlTagView { empty: t.empty, name: t.name, attrs: rewritten_list(t.attrs, value) }, key)
            == name_matches(t, key),
        bool_text_bytes(value) == utf8(if value { "true"@ } else { "false"@ }),
{
    lemma_words_differ();
    lemma_written(t.attrs, 0, value);
    lemma_lookup_rewritten(t.attrs, 0, utf8("value"@), value);
    lemma_lookup_rewritten(t.attrs, 0, utf8("name"@), value);
}

} // verus!
