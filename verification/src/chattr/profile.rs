//! Which profiles may set the immutable attribute.
use vstd::prelude::*;

use crate::model::ProfileKind;

verus! {

/// The profile an immutable request runs under.
#[derive(Debug, Clone, Copy, PartialEq, Eq, Structural)]
pub enum ImmutableProfile {
    /// The explicit strong profile: `chattr +i` may run.
    Strong,
    /// Any other rule profile: only skip/plan.
    Rule(ProfileKind),
}

impl ImmutableProfile {
    /// Whether immutable mutations are allowed.
    pub fn is_strong(self) -> (r: bool)
        ensures
            r == (self is Strong),
    {
        match self {
            ImmutableProfile::Strong => true,
            ImmutableProfile::Rule(_) => false,
        }
    }

    /// The profile of an ordinary rule.
    pub fn from_profile(value: ProfileKind) -> (r: Self)
        ensures
            r == ImmutableProfile::Rule(value),
    {
        ImmutableProfile::Rule(value)
    }
}

} // verus!
