//! Configured-root file resolution for a desktop tile/addon editor backend.
//!
//! The library verifies the decision logic of a small set of file-access
//! operations: resolving caller-supplied relative identifiers against
//! persisted base directories, the defaulting rules of the persisted path
//! configuration, and the partial-failure semantics of interactive file
//! selection (a dismissed dialog is a typed outcome, not an error).
//!
//! Actual disk and dialog I/O is performed by the surrounding application,
//! which hands the outcomes to the functions here as plain values; an
//! in-memory provider is included as the substitutable test double for the
//! persistence and file capabilities.

pub mod config;
pub mod dialog;
pub mod errors;
pub mod memory;
pub mod ops;
pub mod resolve;
