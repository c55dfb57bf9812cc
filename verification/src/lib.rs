//! A proposal-and-voting registry.
//!
//! The registry owns one mapping from 64-bit keys to proposals.
//! Callers create proposals, vote on each at most once, and the owning
//! caller may edit or close them. Every operation is specified by a
//! contract and verified: the registry's invariants (one vote per
//! identity, counters matching the voter set, owner-only mutation, a
//! one-way active-to-closed lifecycle under `end_proposal`) hold after
//! every call.

pub mod laws;
pub mod proposal;
pub mod registry;
