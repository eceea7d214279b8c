//! AppOps, component and ROM profiles: rules, reversible execution and the
//! restore records that the profile ledger keeps.
pub mod json;
pub mod error;
pub mod rules;
pub mod record;
pub mod probe;
pub mod device;
pub mod executor;
pub mod xml_bool;
pub mod xml;
pub mod rom;
pub mod laws;
