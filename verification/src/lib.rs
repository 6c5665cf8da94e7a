//! Handle management for an embedded, transactional key-value storage engine.
//!
//! The engine names its databases by small integer identifiers (dbi's) that
//! must be opened inside a transaction, are process-global once opened, and
//! must never be opened twice for the same name nor opened concurrently.
//! This crate holds the verified bookkeeping that makes those hazards
//! unrepresentable: a per-environment registry of live identifiers, the
//! open/delete/close decision logic, and typed key-ordering bindings.
//!
//! The engine's own calls (transactions, the handle-open primitive, comparator
//! installation) are performed by an unverified driver outside this crate,
//! which feeds their outcomes back into the decision logic step by step.

pub mod db;
pub mod dbi;
pub mod environment;
pub mod error;
pub mod keys;
