//! What every command the adapters build guarantees.
use vstd::prelude::*;

use crate::command_runner::adapter::CommandPhase;
use crate::command_runner::settings::{
    is_allowed_rom_setting, namespace_name, settings_call, settings_check, settings_command,
    settings_key_check, SettingsNamespace,
};
use crate::command_runner::validation::{
    common_check, dot_dot, has_cli_meta, is_android_identifier, package_check, package_shape_ok,
};
use crate::text;

verus! {

/// A token that passes the common check reaches the command as one inert
/// argument: non-empty, without whitespace, NUL, leading `-`, `..` or any
/// CLI metacharacter.
pub proof fn law_checked_tokens_are_inert(field: Seq<char>, v: Seq<char>)
    requires
        common_check(field, v) is Ok,
    ensures
        v.len() > 0,
        !text::has_ws(v),
        !v.contains('\0'),
        !text::starts_with_char(v, '-'),
        !text::contains_seq(v, dot_dot()),
        !has_cli_meta(v),
{
}

/// No settings key that mentions DNS, hosts or proxy, in any letter case,
/// is ever accepted; and an accepted key is one of the ROM advertising keys.
pub proof fn law_settings_never_touch_network(key: Seq<char>)
    ensures
        text::contains_seq(text::lower_seq(key), "dns"@) ==> settings_key_check(key) is Err,
        text::contains_seq(text::lower_seq(key), "host"@) ==> settings_key_check(key) is Err,
        text::contains_seq(text::lower_seq(key), "proxy"@) ==> settings_key_check(key) is Err,
        settings_key_check(key) is Ok ==> is_allowed_rom_setting(key),
{
}

/// A settings adapter only exists for an accepted key.
pub proof fn law_settings_adapter_needs_accepted_key(
    key: Seq<char>,
    apply_value: Seq<char>,
    restore_value: Option<Seq<char>>,
)
    ensures
        settings_check(key, apply_value, restore_value) is Ok ==> settings_key_check(key) is Ok,
{
}

/// Restoring a setting puts its recorded value back, or deletes the key
/// when there was none.
pub proof fn law_settings_restore_puts_back_or_deletes(
    ns: SettingsNamespace,
    key: Seq<char>,
    apply_value: Seq<char>,
    restore_value: Option<Seq<char>>,
)
    ensures
        settings_command(CommandPhase::Restore, ns, key, apply_value, restore_value) == match restore_value {
            Some(v) => settings_call(seq!["put"@, namespace_name(ns), key, v]),
            None => settings_call(seq!["delete"@, namespace_name(ns), key]),
        },
{
}

/// Two Android identifiers joined by a dot make a package name: when the
/// text passes the common token check, the package check accepts it. A
/// single identifier, without a dot, is refused.
pub proof fn law_dotted_identifiers_are_packages(field: Seq<char>, a: Seq<char>, b: Seq<char>)
    requires
        is_android_identifier(a),
        is_android_identifier(b),
    ensures
        common_check(field, a + seq!['.'] + b) is Ok ==> package_check(field, a + seq!['.'] + b) is Ok,
        !(package_check(field, a) is Ok),
{
    assert forall|i: int| 0 <= i < a.len() implies #[trigger] a[i] != '.' by {
        if i > 0 {
            assert(text::is_ascii_alnum(a[i]) || a[i] == '_');
        }
    }
    assert forall|i: int| 0 <= i < b.len() implies #[trigger] b[i] != '.' by {
        if i > 0 {
            assert(text::is_ascii_alnum(b[i]) || b[i] == '_');
        }
    }
    text::lemma_split_none(a, '.');
    text::lemma_split_join(a, '.', b);
    let parts = text::split_on(a + seq!['.'] + b, '.');
    assert(parts == seq![a, b]);
    assert(forall|i: int| 0 <= i < parts.len() ==> is_android_identifier(#[trigger] parts[i]));
    assert(package_shape_ok(a + seq!['.'] + b));
    assert(!package_shape_ok(a));
}

} // verus!
