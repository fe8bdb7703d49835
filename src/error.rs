use vstd::prelude::*;

verus! {

/// Every way in which an operation of this library can be refused.
///
/// An operation that returns one of these has left every record it was
/// handed exactly as it found it.
#[derive(Clone, Copy, Debug, PartialEq, Eq, Structural)]
pub enum DaoError {
    /// A checked addition would pass the largest value of its counter.
    Overflow,
    /// A checked subtraction would go below zero.
    Underflow,
    /// A bump seed was missing where one is needed.
    BumpError,
    /// The proposal name is longer than 32 bytes.
    InvalidName,
    /// The proposal description is longer than 72 bytes.
    InvalidGist,
    /// The proposal is not in the status the operation needs.
    InvalidProposalStatus,
    /// The proposal's voting period is over.
    Expired,
    /// A vote must commit a positive amount.
    InvalidVoteAmount,
    /// The requested quorum is below the organization's floor.
    InvalidQuorum,
    /// The requested voting period is above the organization's ceiling.
    InvalidExpiry,
    /// A new proposal's id is not the next value of the proposal counter.
    InvalidProposalSeed,
    /// The member has not staked enough.
    InsufficientStake,
    /// The stake still backs open vote records.
    AccountsOpen,
    /// The stake was already touched in the current tick.
    InvalidSlot,
    /// The payout target handed in is not the one the proposal names.
    PayeeMismatch,
    /// A record already exists under the key.
    AlreadyExists,
}

} // verus!
