//! Quorum-gated, time-bounded, rate-limited authorization engine.
//!
//! Three governed resources share one proposal/vote/execute pattern:
//! a governance multisig with a per-transaction spend cap, a treasury
//! vault with a rolling daily spend cap, and an emergency pause
//! controller with separate pause and resume vote channels.
//!
//! Principals, resource keys and payload bytes are plain values; the
//! clock is handed in by the caller, and the external value transfer
//! is driven around `execute` by unverified host code through an
//! explicit reserve / commit / rollback split.

pub mod members;

pub mod governance;

pub mod treasury;

pub mod emergency;
