//! Android command adapters that can be injected with any command runner.
//!
//! Each adapter validates its arguments once, at construction, and then only
//! builds argv vectors: no shell ever expands them.
pub mod error;
pub mod invocation;
pub mod output;
pub mod runner;
pub mod validation;
pub mod adapter;
pub mod appops;
pub mod metadata;
pub mod property;
pub mod pm;
pub mod settings;
pub mod laws;
