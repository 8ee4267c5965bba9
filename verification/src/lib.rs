//! A governance core for a decentralized ledger: authorized participants
//! create proposals, cast ballots, and trigger execution once the voting
//! conditions are met.
//!
//! The engine supports two membership models behind one surface: a
//! member-based roll (every active member's ballot counts one) and a
//! weight-based roll (each member carries an integer voting power and
//! execution needs strictly more favorable weight than a quorum).
//!
//! The surrounding ledger runtime authenticates callers, persists state
//! between calls and applies operations one at a time; this crate only
//! consumes the authenticated caller identity as an explicit argument and
//! keeps the durable state in one owned aggregate. Every operation is a
//! single atomic transition: it either commits fully or rejects with a
//! typed error and leaves the state untouched.

pub mod account;
pub mod engine;
pub mod errors;
pub mod membership;
pub mod proposal;

pub use account::AccountId;
pub use engine::Rwa;
pub use errors::GovernanceError;
pub use membership::Dao;
pub use membership::Membership;
pub use proposal::Proposal;
