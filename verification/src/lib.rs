//! Verified core of the ChainCircle contracts: a credit score ledger, a
//! single-loan microloan book and a rotating savings circle.
//!
//! Each contract is modelled as a record and a set of transitions on it.
//! Storage, authorisation and the ledger clock belong to the host and are
//! handled by whoever drives these transitions.

pub mod address;
pub mod credit_score;
pub mod microloan;
pub mod savings_circle;
