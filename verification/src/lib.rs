//! A neutral escrow service for buyer/seller work-for-payment jobs.
//!
//! A buyer funds a job and posts collateral; a seller stakes collateral to
//! accept it; delivery is attested by a content fingerprint; the buyer (or a
//! timeout) releases the funds, or a dispute routes the decision to a
//! designated arbitrator who splits the pooled funds and earns a fee.
//!
//! This crate holds the core of that service: the escrow state machine and
//! the custodial fund-settlement arithmetic. Each operation is a pure
//! transition taking the current record, the caller's identity and the
//! current time, and producing the updated record plus the vault movements
//! the host must perform. The host — identity verification, persistent
//! storage, the value-transfer primitive, the clock and the event sink — is
//! an external collaborator and stays outside this crate.

pub mod errors;
pub mod events;
pub mod identity;
pub mod laws;
pub mod record;
pub mod transitions;
pub mod vault;
