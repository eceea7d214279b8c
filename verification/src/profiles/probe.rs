//! Reading the answers of probe commands: installed packages, AppOps modes,
//! package states and settings values.
use vstd::prelude::*;

use crate::command_runner::error::CommandErrorView;
use crate::command_runner::output::CommandOutput;
use crate::command_runner::runner::{CommandRunnerError, RunnerErrorView};
use crate::profiles::error::{ProfileError, ProfileErrorView};
use crate::profiles::record::{HideApplyStatus, PackageEnabledState, PackageHiddenState};
use crate::profiles::rules::PmHidePolicy;
use crate::text;

verus! {

/// Output text that says the package does not exist.
pub open spec fn mentions_missing_package(value: Seq<char>) -> bool {
    let l = text::lower_seq(value);
    text::contains_seq(l, "unknown package"@) || text::contains_seq(l, "can't find package"@)
        || text::contains_seq(l, "not installed"@) || text::contains_seq(l, "package not found"@)
}

/// A failed probe whose output says the package does not exist.
pub open spec fn probe_missing(e: ProfileErrorView) -> bool {
    match e {
        ProfileErrorView::Command(CommandErrorView::CommandFailed { stdout, stderr, .. }) =>
            mentions_missing_package(stderr) || mentions_missing_package(stdout),
        _ => false,
    }
}

/// Whether output text says the package does not exist.
pub fn command_text_mentions_missing_package(value: &str) -> (r: bool)
    ensures
        r == mentions_missing_package(value@),
{
    text::lower_contains(value, "unknown package") || text::lower_contains(
        value,
        "can't find package",
    ) || text::lower_contains(value, "not installed") || text::lower_contains(
        value,
        "package not found",
    )
}

/// Whether a probe failed because the package does not exist.
pub fn package_probe_missing(error: &ProfileError) -> (r: bool)
    ensures
        r == probe_missing(error@),
{
    match error {
        ProfileError::Command(
            crate::command_runner::error::CommandError::CommandFailed { stderr, stdout, .. },
        ) => command_text_mentions_missing_package(stderr.as_str())
            || command_text_mentions_missing_package(stdout.as_str()),
        _ => false,
    }
}

/// The mode after the first `:` of a line, trimmed, when not empty.
pub open spec fn mode_from_line(line: Seq<char>) -> Option<Seq<char>> {
    match text::split_once(line, ':') {
        Some((_, suffix)) => if text::trimmed(suffix).len() > 0 {
            Some(text::trimmed(suffix))
        } else {
            None
        },
        None => None,
    }
}

/// The first line that contains `pat`.
pub open spec fn first_line_with(ls: Seq<Seq<char>>, pat: Seq<char>) -> Option<Seq<char>>
    decreases ls.len(),
{
    if ls.len() == 0 {
        None
    } else if text::contains_seq(ls[0], pat) {
        Some(ls[0])
    } else {
        first_line_with(ls.drop_first(), pat)
    }
}

/// The AppOps mode that `cmd appops get` printed for `op`, or `default`.
pub open spec fn appop_mode_of(stdout: Option<Seq<char>>, op: Seq<char>) -> Seq<char> {
    match stdout {
        None => "default"@,
        Some(s) => match first_line_with(text::lines_of(s), op) {
            None => "default"@,
            Some(line) => match mode_from_line(line) {
                Some(m) => m,
                None => "default"@,
            },
        },
    }
}

/// The trimmed text after the first `:`, when not empty.
pub fn parse_mode_from_line(line: &str) -> (r: Option<String>)
    ensures
        match (r, mode_from_line(line@)) {
            (Some(a), Some(b)) => a@ == b,
            (None, None) => true,
            _ => false,
        },
{
    match text::split_once_char(line, ':') {
        Some((_prefix, suffix)) => {
            let t = text::trim(suffix.as_str());
            if t.as_str().unicode_len() > 0 {
                Some(t)
            } else {
                None
            }
        },
        None => None,
    }
}

proof fn lemma_first_line_with_skip(ls: Seq<Seq<char>>, pat: Seq<char>, i: int)
    requires
        0 <= i <= ls.len(),
        forall|j: int| 0 <= j < i ==> !text::contains_seq(#[trigger] ls[j], pat),
    ensures
        first_line_with(ls, pat) == first_line_with(ls.subrange(i, ls.len() as int), pat),
    decreases i,
{
    if i > 0 {
        assert(ls.drop_first().subrange(i - 1, ls.len() - 1) =~= ls.subrange(i, ls.len() as int));
        assert forall|j: int| 0 <= j < i - 1 implies !text::contains_seq(
            #[trigger] ls.drop_first()[j],
            pat,
        ) by {
            assert(ls.drop_first()[j] == ls[j + 1]);
        }
        assert(!text::contains_seq(ls[0], pat));
        lemma_first_line_with_skip(ls.drop_first(), pat, i - 1);
    } else {
        assert(ls.subrange(0, ls.len() as int) =~= ls);
    }
}

/// The AppOps mode that a probe printed for `op`, or `default`.
pub fn parse_appop_mode(output: Option<&CommandOutput>, op: &str) -> (r: String)
    ensures
        r@ == appop_mode_of(
            match output {
                Some(o) => Some(o@.stdout),
                None => None,
            },
            op@,
        ),
{
    let stdout = match output {
        Some(o) => o.stdout(),
        None => {
            return "default".to_owned();
        },
    };
    let ls = text::lines(stdout);
    let ghost lv = ls.deep_view();
    let mut i: usize = 0;
    while i < ls.len()
        invariant
            lv == ls.deep_view(),
            lv == text::lines_of(stdout@),
            match output {
                Some(o) => o@.stdout == stdout@,
                None => false,
            },
            i <= lv.len(),
            forall|j: int| 0 <= j < i ==> !text::contains_seq(#[trigger] lv[j], op@),
        decreases lv.len() - i,
    {
        if text::str_contains(ls[i].as_str(), op) {
            proof {
                lemma_first_line_with_skip(lv, op@, i as int);
                assert(lv.subrange(i as int, lv.len() as int)[0] == lv[i as int]);
            }
            return match parse_mode_from_line(ls[i].as_str()) {
                Some(mode) => mode,
                None => "default".to_owned(),
            };
        }
        i = i + 1;
    }
    proof {
        lemma_first_line_with_skip(lv, op@, lv.len() as int);
        assert(lv.subrange(lv.len() as int, lv.len() as int).len() == 0);
    }
    "default".to_owned()
}

/// An empty `pm list packages -d` answer means the package is enabled.
pub open spec fn enabled_of(stdout: Seq<char>) -> PackageEnabledState {
    if text::trimmed(stdout).len() == 0 {
        PackageEnabledState::Enabled
    } else {
        PackageEnabledState::Disabled
    }
}

/// An empty `pm list packages --hidden` answer means the package is visible.
pub open spec fn hidden_of(stdout: Seq<char>) -> PackageHiddenState {
    if text::trimmed(stdout).len() == 0 {
        PackageHiddenState::Visible
    } else {
        PackageHiddenState::Hidden
    }
}

/// Whether the package was enabled before the change.
pub fn enabled_state(output: &CommandOutput) -> (r: PackageEnabledState)
    ensures
        r == enabled_of(output@.stdout),
{
    if text::is_blank(output.stdout()) {
        PackageEnabledState::Enabled
    } else {
        PackageEnabledState::Disabled
    }
}

/// Whether the package was hidden before the change.
pub fn hidden_state(output: &CommandOutput) -> (r: PackageHiddenState)
    ensures
        r == hidden_of(output@.stdout),
{
    if text::is_blank(output.stdout()) {
        PackageHiddenState::Visible
    } else {
        PackageHiddenState::Hidden
    }
}

/// The hide status recorded before `pm hide` is attempted.
pub open spec fn planned_hide_status(policy: PmHidePolicy) -> HideApplyStatus {
    match policy {
        PmHidePolicy::DoNotHide => HideApplyStatus::NotRequested,
        PmHidePolicy::TryHide => HideApplyStatus::SkippedUnavailable,
    }
}

/// The hide status recorded before `pm hide` is attempted: an attempt counts
/// as unavailable until it succeeds.
pub fn hide_status_for_policy(policy: PmHidePolicy) -> (r: HideApplyStatus)
    ensures
        r == planned_hide_status(policy),
{
    match policy {
        PmHidePolicy::DoNotHide => HideApplyStatus::NotRequested,
        PmHidePolicy::TryHide => HideApplyStatus::SkippedUnavailable,
    }
}

/// A settings value as printed by `settings get`: trimmed; `null` or
/// nothing means the key is absent.
pub open spec fn settings_value_of(stdout: Option<Seq<char>>) -> Option<Seq<char>> {
    match stdout {
        None => None,
        Some(s) => {
            let v = text::trimmed(s);
            if v.len() == 0 || v == "null"@ {
                None
            } else {
                Some(v)
            }
        },
    }
}

/// The value a `settings get` probe printed.
pub fn normalize_settings_value(output: Option<&CommandOutput>) -> (r: Option<String>)
    ensures
        match (
            r,
            settings_value_of(
                match output {
                    Some(o) => Some(o@.stdout),
                    None => None,
                },
            ),
        ) {
            (Some(a), Some(b)) => a@ == b,
            (None, None) => true,
            _ => false,
        },
{
    let stdout = match output {
        Some(o) => o.stdout(),
        None => {
            return None;
        },
    };
    let value = text::trim(stdout);
    if value.as_str().unicode_len() == 0 || text::str_eq(value.as_str(), "null") {
        return None;
    }
    Some(value)
}

/// The text of a start failure, as the runner error displays it.
pub open spec fn runner_error_text(e: RunnerErrorView) -> Seq<char> {
    match e {
        RunnerErrorView::NotFound { detail } => "command not found: "@ + detail,
        RunnerErrorView::Unavailable { detail } => "command unavailable: "@ + detail,
    }
}

/// The text of a start failure.
pub fn runner_error_string(e: &CommandRunnerError) -> (r: String)
    ensures
        r@ == runner_error_text(e@),
{
    match e {
        CommandRunnerError::NotFound { detail } => text::concat("command not found: ", detail.as_str()),
        CommandRunnerError::Unavailable { detail } => text::concat(
            "command unavailable: ",
            detail.as_str(),
        ),
    }
}

} // verus!
