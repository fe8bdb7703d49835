use vstd::prelude::*;

verus! {

/// Bytes in an address.
pub const PUBKEY_LENGTH: usize = 32;

/// Bytes in a field-less enum's stored form.
pub const ENUM_LENGTH: usize = 1;

pub const U8_LENGTH: usize = 1;

pub const U16_LENGTH: usize = 2;

pub const U32_LENGTH: usize = 4;

pub const U64_LENGTH: usize = 8;

pub const U128_LENGTH: usize = 16;

pub const BOOL_LENGTH: usize = 1;

/// Points credited for each vote cast, and taken back when it is removed.
pub const BASE_VOTE_POINTS: u64 = 10;

/// Bonus points for a vote on a successful proposal.
pub const BONUS_VOTE_POINTS: u64 = 5;

/// Points credited for opening a proposal.
pub const PROPOSAL_CREATION_POINTS: u64 = 50;

/// Points credited to the proposer of a proposal that succeeds.
pub const PROPOSAL_SUCCESS_POINTS: u64 = 100;

/// Reputation gained by voting.
pub const VOTE_REPUTATION_INCREASE: i64 = 1;

/// Reputation lost by removing a vote.
pub const VOTE_REPUTATION_DECREASE: i64 = -2;

/// Reputation gained by opening a proposal.
pub const PROPOSAL_CREATION_REPUTATION_INCREASE: i64 = 5;

/// Reputation gained when one's proposal succeeds.
pub const PROPOSAL_SUCCESS_REPUTATION_INCREASE: i64 = 20;

/// Reputation needed to open a proposal.
pub const MIN_REPUTATION_FOR_PROPOSAL: u64 = 100;

/// Highest reputation score.
pub const MAX_REPUTATION_SCORE: u64 = 10000;

/// Seconds between two reputation decays: thirty days.
pub const REPUTATION_DECAY_INTERVAL: i64 = 30 * 24 * 60 * 60;

} // verus!
