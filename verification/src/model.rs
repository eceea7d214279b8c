//! The rule vocabulary that the actions are planned with: profiles, risk
//! levels and rule identifiers.
use vstd::prelude::*;

use crate::text;

verus! {

/// The profile a rule belongs to.
#[derive(Debug, Clone, Copy, PartialEq, Eq, Structural)]
pub enum ProfileKind {
    /// Conservative local cleanup.
    Conservative,
    /// Advertising SDK caches.
    SdkCache,
    /// Advertising SQLite databases.
    Sqlite,
    /// AppOps governance.
    AppOps,
    /// Component governance.
    Components,
    /// ROM advertising settings.
    Rom,
}

pub open spec fn profile_name(p: ProfileKind) -> Seq<char> {
    match p {
        ProfileKind::Conservative => "conservative"@,
        ProfileKind::SdkCache => "sdk_cache"@,
        ProfileKind::Sqlite => "sqlite"@,
        ProfileKind::AppOps => "appops"@,
        ProfileKind::Components => "components"@,
        ProfileKind::Rom => "rom"@,
    }
}

impl ProfileKind {
    /// The profile's name in ledgers.
    pub fn as_str(self) -> (r: &'static str)
        ensures
            r@ == profile_name(self),
    {
        match self {
            ProfileKind::Conservative => "conservative",
            ProfileKind::SdkCache => "sdk_cache",
            ProfileKind::Sqlite => "sqlite",
            ProfileKind::AppOps => "appops",
            ProfileKind::Components => "components",
            ProfileKind::Rom => "rom",
        }
    }
}

/// How risky a rule is.
#[derive(Debug, Clone, Copy, PartialEq, Eq, Structural)]
pub enum RiskLevel {
    Low,
    Medium,
    High,
}

/// A short ASCII rule token: 1 to 96 characters from `A-Z a-z 0-9 - _`.
pub open spec fn is_rule_token(id: Seq<char>) -> bool {
    &&& 0 < id.len() <= 96
    &&& forall|i: int| 0 <= i < id.len() ==> is_token_char(#[trigger] id[i])
}

pub open spec fn is_token_char(c: char) -> bool {
    text::is_ascii_alnum(c) || c == '-' || c == '_'
}

/// Whether `id` is a rule token.
pub fn rule_token_ok(id: &str) -> (r: bool)
    ensures
        r == is_rule_token(id@),
{
    let v = text::chars_of(id);
    if v.len() == 0 || v.len() > 96 {
        return false;
    }
    let mut i: usize = 0;
    while i < v.len()
        invariant
            v@ == id@,
            i <= v@.len(),
            forall|j: int| 0 <= j < i ==> is_token_char(#[trigger] v@[j]),
        decreases v@.len() - i,
    {
        let c = v[i];
        if !(text::is_ascii_alphanumeric(c) || c == '-' || c == '_') {
            assert(!is_token_char(v@[i as int]));
            return false;
        }
        i = i + 1;
    }
    true
}

/// A validated rule identifier.
#[derive(Debug, Clone, PartialEq, Eq)]
pub struct RuleId {
    id: String,
}

impl View for RuleId {
    type V = Seq<char>;

    closed spec fn view(&self) -> Seq<char> {
        self.id@
    }
}

impl RuleId {
    /// A rule identifier, when `id` is a rule token.
    pub fn parse(id: &str) -> (r: Option<Self>)
        ensures
            r is Some <==> is_rule_token(id@),
            r matches Some(rid) ==> rid@ == id@,
    {
        if rule_token_ok(id) {
            Some(RuleId { id: id.to_owned() })
        } else {
            None
        }
    }

    /// The identifier text.
    pub fn as_str(&self) -> (r: &str)
        ensures
            r@ == self@,
    {
        self.id.as_str()
    }

    /// A copy of this identifier.
    pub fn duplicate(&self) -> (r: Self)
        ensures
            r@ == self@,
    {
        RuleId { id: self.id.clone() }
    }
}

} // verus!
