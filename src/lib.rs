//! Governance core of a stake-weighted organization: proposals and their
//! lifecycle, stake accounting, vote records and member reward scoring.
//!
//! Every value-bearing counter uses checked arithmetic; reputation and point
//! forfeiture saturate. Time enters only as arguments (`now_slot`, the
//! ordinal tick, and `now_unix`, the wall time), so each operation is a pure
//! function of the records it touches and of the clock reading it is given.
pub mod address;
pub mod constants;
pub mod error;
pub mod instructions;
pub mod laws;
pub mod member;
pub mod proposal;
pub mod setup;
pub mod stake;
pub mod token;
pub mod vote;
