use vstd::prelude::*;

use crate::address::Address;
use crate::error::DaoError;
use crate::proposal::VoteType;

verus! {

/// One member's vote on one proposal: the amount committed and the choice.
/// The proposal is the one under whose key the record is kept.
#[derive(Clone, Copy, Debug)]
pub struct VoteState {
    pub owner: Address,
    pub amount: u64,
    pub vote_type: VoteType,
    pub bump: u8,
}

impl VoteState {
    /// Fills the record. The rules on the amount and on the proposal are the
    /// caller's to check.
    pub fn init(&mut self, owner: Address, amount: u64, vote_type: VoteType, bump: u8) -> (r: Result<(), DaoError>)
        ensures
            r is Ok,
            *final(self) == (VoteState { owner, amount, vote_type, bump }),
    {
        self.owner = owner;
        self.amount = amount;
        self.vote_type = vote_type;
        self.bump = bump;
        Ok(())
    }
}

/// Yes, no and abstain counts kept apart from a proposal.
#[derive(Clone, Copy, Debug, PartialEq, Eq, Structural)]
pub struct VoteTally {
    pub proposal_id: u64,
    pub yes_votes: u64,
    pub no_votes: u64,
    pub abstain_votes: u64,
    pub bump: u8,
}

impl VoteTally {
    /// An empty tally for the proposal `proposal_id`.
    pub fn init(&mut self, proposal_id: u64, bump: u8) -> (r: Result<(), DaoError>)
        ensures
            r is Ok,
            *final(self) == (VoteTally { proposal_id, yes_votes: 0, no_votes: 0, abstain_votes: 0, bump }),
    {
        self.proposal_id = proposal_id;
        self.yes_votes = 0;
        self.no_votes = 0;
        self.abstain_votes = 0;
        self.bump = bump;
        Ok(())
    }

    /// Adds to all three counts; fails with `Overflow`, changing nothing, if
    /// any of them would not fit.
    pub fn add_votes(&mut self, yes: u64, no: u64, abstain: u64) -> (r: Result<(), DaoError>)
        ensures
            r is Ok <==> {
                &&& old(self).yes_votes + yes <= u64::MAX
                &&& old(self).no_votes + no <= u64::MAX
                &&& old(self).abstain_votes + abstain <= u64::MAX
            },
            r is Ok ==> *final(self) == (VoteTally {
                yes_votes: (old(self).yes_votes + yes) as u64,
                no_votes: (old(self).no_votes + no) as u64,
                abstain_votes: (old(self).abstain_votes + abstain) as u64,
                ..*old(self)
            }),
            r is Err ==> r == Err::<(), DaoError>(DaoError::Overflow) && *final(self) == *old(self),
    {
        let y = match self.yes_votes.checked_add(yes) {
            Some(v) => v,
            None => return Err(DaoError::Overflow),
        };
        let n = match self.no_votes.checked_add(no) {
            Some(v) => v,
            None => return Err(DaoError::Overflow),
        };
        let a = match self.abstain_votes.checked_add(abstain) {
            Some(v) => v,
            None => return Err(DaoError::Overflow),
        };
        self.yes_votes = y;
        self.no_votes = n;
        self.abstain_votes = a;
        Ok(())
    }

    /// Takes from all three counts; fails with `Underflow`, changing nothing,
    /// if any of them would go below zero.
    pub fn remove_votes(&mut self, yes: u64, no: u64, abstain: u64) -> (r: Result<(), DaoError>)
        ensures
            r is Ok <==> {
                &&& old(self).yes_votes >= yes
                &&& old(self).no_votes >= no
                &&& old(self).abstain_votes >= abstain
            },
            r is Ok ==> *final(self) == (VoteTally {
                yes_votes: (old(self).yes_votes - yes) as u64,
                no_votes: (old(self).no_votes - no) as u64,
                abstain_votes: (old(self).abstain_votes - abstain) as u64,
                ..*old(self)
            }),
            r is Err ==> r == Err::<(), DaoError>(DaoError::Underflow) && *final(self) == *old(self),
    {
        let y = match self.yes_votes.checked_sub(yes) {
            Some(v) => v,
            None => return Err(DaoError::Underflow),
        };
        let n = match self.no_votes.checked_sub(no) {
            Some(v) => v,
            None => return Err(DaoError::Underflow),
        };
        let a = match self.abstain_votes.checked_sub(abstain) {
            Some(v) => v,
            None => return Err(DaoError::Underflow),
        };
        self.yes_votes = y;
        self.no_votes = n;
        self.abstain_votes = a;
        Ok(())
    }

    /// The sum of the three counts, held at `u64::MAX`.
    pub fn total_votes(&self) -> (r: u64)
        ensures
            r == crate::member::clamp_u64(self.yes_votes + self.no_votes + self.abstain_votes),
    {
        self.yes_votes.saturating_add(self.no_votes).saturating_add(self.abstain_votes)
    }

    /// Whether yes votes outnumber no votes.
    pub fn has_passed(&self) -> (r: bool)
        ensures
            r == (self.yes_votes > self.no_votes),
    {
        self.yes_votes > self.no_votes
    }
}

} // verus!
