//! Recoverable file actions on Android paths mapped into a host root: the
//! target checks, the restore record written before any change, and the
//! decisions taken around each file-system step.
pub mod error;
pub mod target;
pub mod metadata;
pub mod outcome;
pub mod request;
pub mod plan;
pub mod snapshot;
pub mod ledger;
pub mod backup;
pub mod guards;
pub mod primary;
pub mod metadata_ops;
pub mod executor;
pub mod laws;
pub mod transaction;
