//! Runtime-loaded bindings for Basler Pylon cameras: the verified core.
//!
//! The camera SDK is reached through a C ABI shim that is opened at run
//! time. This crate holds the decisions that surround those calls: the
//! runtime's lease bookkeeping, the validation of the shim's API table, the
//! interpretation of what each shim call reports, and the grab options.
//! Opening the shim and calling through its function table is done by the
//! companion application layer, which hands the results to these functions.

pub mod error;
pub mod report;
pub mod shim;
pub mod options;
pub mod runtime;
pub mod message;

