//! Validation of the tokens that reach an argv.
//!
//! A token that passes these checks is non-empty, contains no whitespace or
//! NUL, does not look like an option, does not traverse paths, and holds no
//! shell metacharacter, so it reaches the command as exactly one inert argument.
use vstd::prelude::*;

use crate::command_runner::error::{
    check_view, invalid, then_check, CommandError, CommandErrorView,
};
use crate::text;

verus! {

pub const TOKEN_SHAPE_REASON: &'static str =
    "token must be non-empty and contain no whitespace or NUL";

pub const TOKEN_INERT_REASON: &'static str =
    "token must not be option-like, path-traversing, or contain CLI metacharacters";

pub const PACKAGE_REASON: &'static str = "package must be dot-separated Android identifiers";

pub const COMPONENT_SHAPE_REASON: &'static str =
    "component must be non-empty, shell-inert, and not path-traversing";

pub const COMPONENT_SPLIT_REASON: &'static str = "component must include package/name";

pub const COMPONENT_EMPTY_NAME_REASON: &'static str = "component name must be non-empty";

pub const COMPONENT_CLASS_REASON: &'static str = "component name must be an Android class name";

pub const APPOP_REASON: &'static str = "appop must be an uppercase Android AppOps token";

pub const PROPERTY_REASON: &'static str = "property must be a dot-separated Android property name";

/// Characters that a shell or a command line would interpret.
pub open spec fn is_cli_meta(c: char) -> bool {
    c == ';' || c == '&' || c == '|' || c == '`' || c == '$' || c == '<' || c == '>' || c == '*'
        || c == '?' || c == '[' || c == ']' || c == '\\'
}

pub open spec fn has_cli_meta(s: Seq<char>) -> bool {
    exists|i: int| 0 <= i < s.len() && is_cli_meta(#[trigger] s[i])
}

pub open spec fn dot_dot() -> Seq<char> {
    seq!['.', '.']
}

/// Non-empty, without whitespace or NUL.
pub open spec fn token_shape_ok(v: Seq<char>) -> bool {
    v.len() > 0 && !text::has_ws(v) && !v.contains('\0')
}

/// Not option-like, not path-traversing, without CLI metacharacters.
pub open spec fn token_inert(v: Seq<char>) -> bool {
    !text::starts_with_char(v, '-') && !text::contains_seq(v, dot_dot()) && !has_cli_meta(v)
}

/// The common token check.
pub open spec fn common_check(field: Seq<char>, v: Seq<char>) -> Result<(), CommandErrorView> {
    if !token_shape_ok(v) {
        invalid(field, v, TOKEN_SHAPE_REASON@)
    } else if !token_inert(v) {
        invalid(field, v, TOKEN_INERT_REASON@)
    } else {
        Ok(())
    }
}

/// A Java identifier in ASCII: a letter or `_`, then letters, digits or `_`.
pub open spec fn is_android_identifier(p: Seq<char>) -> bool {
    &&& p.len() > 0
    &&& (text::is_ascii_alpha(p[0]) || p[0] == '_')
    &&& forall|i: int| 1 <= i < p.len() ==> (text::is_ascii_alnum(#[trigger] p[i]) || p[i] == '_')
}

/// At least two dot-separated Android identifiers.
pub open spec fn package_shape_ok(v: Seq<char>) -> bool {
    let parts = text::split_on(v, '.');
    parts.len() >= 2 && forall|i: int| 0 <= i < parts.len() ==> is_android_identifier(#[trigger] parts[i])
}

pub open spec fn package_check(field: Seq<char>, v: Seq<char>) -> Result<(), CommandErrorView> {
    then_check(
        common_check(field, v),
        if package_shape_ok(v) {
            Ok(())
        } else {
            invalid(field, v, PACKAGE_REASON@)
        },
    )
}

pub open spec fn is_component_char(c: char) -> bool {
    text::is_ascii_alnum(c) || c == '_' || c == '.' || c == '$'
}

/// The checks of the class-name half of a component.
pub open spec fn component_name_check(c: Seq<char>, name: Seq<char>) -> Result<(), CommandErrorView> {
    if name.len() == 0 {
        invalid("component"@, c, COMPONENT_EMPTY_NAME_REASON@)
    } else if text::starts_with_char(name, '-') || text::contains_seq(name, dot_dot()) || !(forall|i: int|
        0 <= i < name.len() ==> is_component_char(#[trigger] name[i])) {
        invalid("component"@, c, COMPONENT_CLASS_REASON@)
    } else {
        Ok(())
    }
}

/// `package/ClassName`.
pub open spec fn component_check(c: Seq<char>) -> Result<(), CommandErrorView> {
    if c.len() == 0 || text::has_ws(c) || c.contains('\0') || text::starts_with_char(c, '-') || text::contains_seq(
        c,
        dot_dot(),
    ) {
        invalid("component"@, c, COMPONENT_SHAPE_REASON@)
    } else {
        match text::split_once(c, '/') {
            None => invalid("component"@, c, COMPONENT_SPLIT_REASON@),
            Some((package, name)) => then_check(
                package_check("component.package"@, package),
                component_name_check(c, name),
            ),
        }
    }
}

pub open spec fn appop_check(op: Seq<char>) -> Result<(), CommandErrorView> {
    then_check(
        common_check("appop"@, op),
        if forall|i: int| 0 <= i < op.len() ==> (text::is_ascii_upper(#[trigger] op[i]) || op[i] == '_') {
            Ok(())
        } else {
            invalid("appop"@, op, APPOP_REASON@)
        },
    )
}

pub open spec fn is_property_char(c: char) -> bool {
    text::is_ascii_alnum(c) || c == '_' || c == '-'
}

pub open spec fn property_part_ok(p: Seq<char>) -> bool {
    p.len() > 0 && forall|i: int| 0 <= i < p.len() ==> is_property_char(#[trigger] p[i])
}

pub open spec fn property_check(p: Seq<char>) -> Result<(), CommandErrorView> {
    let parts = text::split_on(p, '.');
    then_check(
        common_check("property"@, p),
        if forall|i: int| 0 <= i < parts.len() ==> property_part_ok(#[trigger] parts[i]) {
            Ok(())
        } else {
            invalid("property"@, p, PROPERTY_REASON@)
        },
    )
}

fn has_meta(s: &[char]) -> (r: bool)
    ensures
        r == has_cli_meta(s@),
{
    let mut i: usize = 0;
    while i < s.len()
        invariant
            i <= s@.len(),
            forall|j: int| 0 <= j < i ==> !is_cli_meta(s@[j]),
        decreases s@.len() - i,
    {
        let c = s[i];
        if c == ';' || c == '&' || c == '|' || c == '`' || c == '$' || c == '<' || c == '>' || c
            == '*' || c == '?' || c == '[' || c == ']' || c == '\\' {
            return true;
        }
        i = i + 1;
    }
    false
}

/// The common token check.
pub fn validate_common(field: &'static str, value: &str) -> (r: Result<(), CommandError>)
    ensures
        check_view(r) == common_check(field@, value@),
{
    let v = text::chars_of(value);
    if v.len() == 0 || text::has_whitespace(v.as_slice()) || text::has_char(v.as_slice(), '\0') {
        return Err(CommandError::invalid_argument(field, value, TOKEN_SHAPE_REASON));
    }
    let dd = ['.', '.'];
    assert(dd@ =~= dot_dot());
    if text::starts_with(value, '-') || text::contains_chars(v.as_slice(), dd.as_slice()) || has_meta(
        v.as_slice(),
    ) {
        return Err(CommandError::invalid_argument(field, value, TOKEN_INERT_REASON));
    }
    Ok(())
}

/// A token that passes the common check only.
pub fn validate_simple_token(field: &'static str, value: &str) -> (r: Result<(), CommandError>)
    ensures
        check_view(r) == common_check(field@, value@),
{
    validate_common(field, value)
}

/// A Java identifier in ASCII.
pub fn is_android_identifier_str(value: &str) -> (r: bool)
    ensures
        r == is_android_identifier(value@),
{
    let v = text::chars_of(value);
    if v.len() == 0 {
        return false;
    }
    let first = v[0];
    if !(('a' <= first && first <= 'z') || ('A' <= first && first <= 'Z') || first == '_') {
        return false;
    }
    let mut i: usize = 1;
    while i < v.len()
        invariant
            v@ == value@,
            1 <= i <= v@.len(),
            forall|j: int| 1 <= j < i ==> (text::is_ascii_alnum(#[trigger] v@[j]) || v@[j] == '_'),
        decreases v@.len() - i,
    {
        if !(text::is_ascii_alphanumeric(v[i]) || v[i] == '_') {
            assert(!(text::is_ascii_alnum(v@[i as int]) || v@[i as int] == '_'));
            return false;
        }
        i = i + 1;
    }
    true
}

/// A package name: the common check, then at least two identifiers.
pub fn validate_package(field: &'static str, value: &str) -> (r: Result<(), CommandError>)
    ensures
        check_view(r) == package_check(field@, value@),
{
    validate_common(field, value)?;
    let parts = text::split_char(value, '.');
    if parts.len() < 2 {
        return Err(CommandError::invalid_argument(field, value, PACKAGE_REASON));
    }
    let mut i: usize = 0;
    while i < parts.len()
        invariant
            i <= parts@.len(),
            parts.deep_view() == text::split_on(value@, '.'),
            common_check(field@, value@) is Ok,
            parts@.len() >= 2,
            forall|j: int| 0 <= j < i ==> is_android_identifier(#[trigger] parts.deep_view()[j]),
        decreases parts@.len() - i,
    {
        if !is_android_identifier_str(parts[i].as_str()) {
            assert(!is_android_identifier(parts.deep_view()[i as int]));
            return Err(CommandError::invalid_argument(field, value, PACKAGE_REASON));
        }
        i = i + 1;
    }
    Ok(())
}

fn all_component_chars(name: &str) -> (r: bool)
    ensures
        r == (forall|i: int| 0 <= i < name@.len() ==> is_component_char(#[trigger] name@[i])),
{
    let v = text::chars_of(name);
    let mut i: usize = 0;
    while i < v.len()
        invariant
            v@ == name@,
            i <= v@.len(),
            forall|j: int| 0 <= j < i ==> is_component_char(#[trigger] v@[j]),
        decreases v@.len() - i,
    {
        let c = v[i];
        if !(text::is_ascii_alphanumeric(c) || c == '_' || c == '.' || c == '$') {
            return false;
        }
        i = i + 1;
    }
    true
}

/// A component `package/ClassName`.
pub fn validate_component(component: &str) -> (r: Result<(), CommandError>)
    ensures
        check_view(r) == component_check(component@),
{
    let v = text::chars_of(component);
    let dd = ['.', '.'];
    assert(dd@ =~= dot_dot());
    if v.len() == 0 || text::has_whitespace(v.as_slice()) || text::has_char(v.as_slice(), '\0') || text::starts_with(
        component,
        '-',
    ) || text::contains_chars(v.as_slice(), dd.as_slice()) {
        return Err(CommandError::invalid_argument("component", component, COMPONENT_SHAPE_REASON));
    }
    let (package, name) = match text::split_once_char(component, '/') {
        Some(pair) => pair,
        None => {
            return Err(
                CommandError::invalid_argument("component", component, COMPONENT_SPLIT_REASON),
            );
        },
    };
    validate_package("component.package", package.as_str())?;
    let nv = text::chars_of(name.as_str());
    if nv.len() == 0 {
        return Err(
            CommandError::invalid_argument("component", component, COMPONENT_EMPTY_NAME_REASON),
        );
    }
    if text::starts_with(name.as_str(), '-') || text::contains_chars(nv.as_slice(), dd.as_slice())
        || !all_component_chars(name.as_str()) {
        return Err(CommandError::invalid_argument("component", component, COMPONENT_CLASS_REASON));
    }
    Ok(())
}

/// An AppOps operation name: the common check, then `A-Z` and `_` only.
pub fn validate_appop(op: &str) -> (r: Result<(), CommandError>)
    ensures
        check_view(r) == appop_check(op@),
{
    validate_common("appop", op)?;
    let v = text::chars_of(op);
    let mut i: usize = 0;
    while i < v.len()
        invariant
            common_check("appop"@, op@) is Ok,
            v@ == op@,
            i <= v@.len(),
            forall|j: int| 0 <= j < i ==> (text::is_ascii_upper(#[trigger] v@[j]) || v@[j] == '_'),
        decreases v@.len() - i,
    {
        let c = v[i];
        if !(('A' <= c && c <= 'Z') || c == '_') {
            assert(!(text::is_ascii_upper(v@[i as int]) || v@[i as int] == '_'));
            return Err(CommandError::invalid_argument("appop", op, APPOP_REASON));
        }
        i = i + 1;
    }
    Ok(())
}

fn property_part(part: &str) -> (r: bool)
    ensures
        r == property_part_ok(part@),
{
    let v = text::chars_of(part);
    if v.len() == 0 {
        return false;
    }
    let mut i: usize = 0;
    while i < v.len()
        invariant
            v@ == part@,
            i <= v@.len(),
            forall|j: int| 0 <= j < i ==> is_property_char(#[trigger] v@[j]),
        decreases v@.len() - i,
    {
        let c = v[i];
        if !(text::is_ascii_alphanumeric(c) || c == '_' || c == '-') {
            return false;
        }
        i = i + 1;
    }
    true
}

/// An Android system property name.
pub fn validate_property(property: &str) -> (r: Result<(), CommandError>)
    ensures
        check_view(r) == property_check(property@),
{
    validate_common("property", property)?;
    let parts = text::split_char(property, '.');
    let mut i: usize = 0;
    while i < parts.len()
        invariant
            i <= parts@.len(),
            parts.deep_view() == text::split_on(property@, '.'),
            common_check("property"@, property@) is Ok,
            forall|j: int| 0 <= j < i ==> property_part_ok(#[trigger] parts.deep_view()[j]),
        decreases parts@.len() - i,
    {
        if !property_part(parts[i].as_str()) {
            assert(!property_part_ok(parts.deep_view()[i as int]));
            return Err(CommandError::invalid_argument("property", property, PROPERTY_REASON));
        }
        i = i + 1;
    }
    Ok(())
}

} // verus!
