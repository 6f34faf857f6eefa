//! Transaction and identifier-allocation core of an embedded, append-only
//! database on top of an ordered key-value store.
//!
//! The crate holds the rules: which identifier is issued next, how the
//! high-water marks are laid out in the store and read back, what a session
//! and a transaction context are. The storage engine itself stays with the
//! caller, who reads and writes for the crate and hands it plain values.
//!
//! * [`data::compare`] states the order the store keeps its keys in and the
//!   prefix it filters by.
//! * [`data::id`] holds the three kinds of surrogate identifier, the rule by
//!   which the next one is issued, and a sequential model of the shared
//!   counters.
//! * [`data::ledger`] lays out the rows that record, per kind, the highest
//!   identifier ever issued.
//! * [`runtime::store`] holds what passes between the crate and the engine.
//! * [`runtime::counters`] holds the atomic counters that all handles of one
//!   database share, [`runtime::error`] the failures.
//! * [`runtime::transact`] is the unit of work, [`runtime::instance`] the
//!   database handle and its sessions.
pub mod data;
pub mod runtime;
