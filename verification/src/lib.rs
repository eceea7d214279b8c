//! Verified core of the Android adapter: command argv construction and
//! argument validation, `chattr`/`lsattr` handling, profile rules and their
//! restore records, and the decisions of the recoverable file actions.
use vstd::prelude::*;

pub mod chattr;
pub mod command_runner;
pub mod file_actions;
pub mod model;
pub mod profiles;
pub mod restore_ledger;
pub mod secure_path;
pub mod text;

verus! {

/// Identifier of this crate.
pub fn crate_name() -> (r: &'static str)
    ensures
        r@ == "puread-android"@,
{
    "puread-android"
}

} // verus!
