//! The operations that touch several records at once. Each works on the
//! records that the keyed storage loaded for it, and on success leaves them
//! as they are to be stored; on any error it leaves every record as it found
//! it. Moving tokens or funds is not done here: an operation that calls for
//! a transfer says so in its result.
use vstd::prelude::*;

use crate::address::Address;
use crate::constants::{
    BASE_VOTE_POINTS, PROPOSAL_CREATION_POINTS, PROPOSAL_CREATION_REPUTATION_INCREASE,
    PROPOSAL_SUCCESS_POINTS, PROPOSAL_SUCCESS_REPUTATION_INCREASE, VOTE_REPUTATION_DECREASE,
    VOTE_REPUTATION_INCREASE,
};
use crate::error::DaoError;
use crate::member::{MemberState, MemberStateView};
use crate::proposal::{tally_of, with_tally, Proposal, ProposalResults, ProposalStatus, ProposalType, VoteType};
use crate::setup::DaoSetup;
use crate::stake::StakeState;
use crate::vote::VoteState;

verus! {

/// The records that casting a vote touches. `vote` is what the storage holds
/// under the key of this owner and this proposal: `None` until a vote is
/// cast.
#[derive(Debug)]
pub struct Vote {
    pub owner: Address,
    pub stake_state: StakeState,
    pub proposal: Proposal,
    pub vote: Option<VoteState>,
    pub member_state: MemberState,
}

impl Vote {
    /// The outcome of casting `amount` on `vote_type` at tick `now_slot`,
    /// checks taken in order.
    pub open spec fn vote_outcome(self, amount: u64, vote_type: VoteType, now_slot: u64) -> Result<(), DaoError> {
        if self.vote is Some {
            Err(DaoError::AlreadyExists)
        } else if self.proposal.result != ProposalStatus::Open {
            Err(DaoError::InvalidProposalStatus)
        } else if now_slot >= self.proposal.expiry {
            Err(DaoError::Expired)
        } else if amount == 0 {
            Err(DaoError::InvalidVoteAmount)
        } else if self.proposal.add_vote_outcome(amount, vote_type) is Err {
            Err(DaoError::Overflow)
        } else if self.stake_state.amount < amount {
            Err(DaoError::InsufficientStake)
        } else if self.stake_state.accounts == u64::MAX {
            Err(DaoError::Overflow)
        } else if !self.member_state.vote_points_fit(BASE_VOTE_POINTS) {
            Err(DaoError::Overflow)
        } else {
            Ok(())
        }
    }

    /// The records after a vote of `amount` on `vote_type` at `now_slot`.
    pub open spec fn voted(self, amount: u64, vote_type: VoteType, bump: u8, now_slot: u64) -> Vote {
        Vote {
            proposal: with_tally(
                self.proposal,
                vote_type,
                (self.proposal.votes + amount) as u64,
                (tally_of(self.proposal, vote_type) + amount) as u64,
            ).finalized(now_slot),
            stake_state: StakeState { accounts: (self.stake_state.accounts + 1) as u64, ..self.stake_state },
            vote: Some(VoteState { owner: self.owner, amount, vote_type, bump }),
            member_state: self.member_state.with_vote_points(BASE_VOTE_POINTS).with_reputation(
                VOTE_REPUTATION_INCREASE,
            ),
            ..self
        }
    }

    /// Casts a vote: the proposal must be open and unexpired, the amount
    /// positive and covered by the stake. The amount goes to the proposal's
    /// tallies, which are then finalized; the stake backs one more open
    /// record; the vote record is created; the member earns base points and
    /// reputation.
    pub fn vote(&mut self, amount: u64, vote_type: VoteType, bump: u8, now_slot: u64) -> (r: Result<(), DaoError>)
        ensures
            r == old(self).vote_outcome(amount, vote_type, now_slot),
            r is Ok ==> *final(self) == old(self).voted(amount, vote_type, bump, now_slot),
            r is Err ==> *final(self) == *old(self),
    {
        if self.vote.is_some() {
            return Err(DaoError::AlreadyExists);
        }
        let mut proposal = self.proposal.clone();
        if let Err(e) = proposal.is_open() {
            return Err(e);
        }
        if let Err(e) = proposal.check_expiry(now_slot) {
            return Err(e);
        }
        if amount == 0 {
            return Err(DaoError::InvalidVoteAmount);
        }
        if let Err(e) = proposal.add_vote(amount, vote_type, now_slot) {
            return Err(e);
        }
        let mut stake_state = self.stake_state;
        if let Err(e) = stake_state.check_stake_amount(amount) {
            return Err(e);
        }
        if let Err(e) = stake_state.add_account() {
            return Err(e);
        }
        let mut vote = VoteState { owner: self.owner, amount: 0, vote_type, bump: 0 };
        let _ = vote.init(self.owner, amount, vote_type, bump);
        let mut member_state = self.member_state;
        if let Err(e) = member_state.add_vote_points(BASE_VOTE_POINTS) {
            return Err(e);
        }
        let _ = member_state.update_reputation(VOTE_REPUTATION_INCREASE);
        self.proposal = proposal;
        self.stake_state = stake_state;
        self.vote = Some(vote);
        self.member_state = member_state;
        Ok(())
    }
}

/// The records that opening a proposal touches.
#[derive(Debug)]
pub struct CreateProposal {
    /// The member opening the proposal.
    pub owner: Address,
    pub stake_state: StakeState,
    /// The record under the new proposal's key, as the storage created it.
    pub proposal: Proposal,
    pub member_state: MemberState,
    pub config: DaoSetup,
}

impl CreateProposal {
    /// The outcome of opening a proposal, checks taken in order.
    pub open spec fn create_outcome(
        self,
        id: u64,
        name: Seq<char>,
        gist: Seq<char>,
        quorum: u64,
        expiry: u64,
        now_slot: u64,
    ) -> Result<(), DaoError> {
        if self.stake_state.amount == 0 {
            Err(DaoError::InsufficientStake)
        } else if self.config.add_proposal_outcome(id) is Err {
            self.config.add_proposal_outcome(id)
        } else if self.config.min_quorum > quorum {
            Err(DaoError::InvalidQuorum)
        } else if expiry > self.config.max_expiry {
            Err(DaoError::InvalidExpiry)
        } else if Proposal::init_outcome(name, gist, expiry, now_slot) is Err {
            Proposal::init_outcome(name, gist, expiry, now_slot)
        } else if !self.member_state.proposal_points_fit(PROPOSAL_CREATION_POINTS) {
            Err(DaoError::Overflow)
        } else {
            Ok(())
        }
    }

    /// Opens proposal `id`: the owner must have staked, `id` must be the
    /// next value of the counter, and quorum and voting period must be within
    /// the organization's bounds. The proposal starts open with empty
    /// tallies and expires `expiry` ticks after `now_slot`; the owner earns
    /// creation points and reputation. The fee is charged by the caller.
    pub fn create_proposal(
        &mut self,
        id: u64,
        name: String,
        gist: String,
        proposal: ProposalType,
        quorum: u64,
        expiry: u64,
        bump: u8,
        now_slot: u64,
    ) -> (r: Result<(), DaoError>)
        ensures
            r == old(self).create_outcome(id, name@, gist@, quorum, expiry, now_slot),
            r is Ok ==> *final(self) == (CreateProposal {
                config: DaoSetup { proposal_count: id, ..old(self).config },
                proposal: Proposal {
                    id,
                    name,
                    gist,
                    proposal,
                    result: ProposalStatus::Open,
                    quorum,
                    votes: 0,
                    expiry: (now_slot + expiry) as u64,
                    yes_votes: 0,
                    no_votes: 0,
                    abstain_votes: 0,
                    bump,
                    proposer: old(self).owner,
                },
                member_state: old(self).member_state.with_proposal_points(PROPOSAL_CREATION_POINTS).with_reputation(
                    PROPOSAL_CREATION_REPUTATION_INCREASE,
                ),
                ..*old(self)
            }),
            r is Err ==> *final(self) == *old(self),
    {
        if let Err(e) = self.stake_state.check_stake() {
            return Err(e);
        }
        let mut config = self.config;
        if let Err(e) = config.add_proposal(id) {
            return Err(e);
        }
        if let Err(e) = config.check_min_quorum(quorum) {
            return Err(e);
        }
        if let Err(e) = config.check_max_expiry(expiry) {
            return Err(e);
        }
        let mut record = self.proposal.clone();
        if let Err(e) = record.init(id, name, gist, proposal, quorum, expiry, bump, self.owner, now_slot) {
            return Err(e);
        }
        let mut member_state = self.member_state;
        if let Err(e) = member_state.add_proposal_points(PROPOSAL_CREATION_POINTS) {
            return Err(e);
        }
        let _ = member_state.update_reputation(PROPOSAL_CREATION_REPUTATION_INCREASE);
        self.config = config;
        self.proposal = record;
        self.member_state = member_state;
        Ok(())
    }
}

/// The records that removing or cleaning up a vote touches. `vote` is the
/// member's record on `proposal`; the caller destroys it when the operation
/// succeeds.
#[derive(Debug)]
pub struct RemoveOrCleanupVote {
    pub stake_state: StakeState,
    pub proposal: Proposal,
    pub vote: VoteState,
    pub member_state: MemberState,
}

impl RemoveOrCleanupVote {
    /// The outcome of removing the vote at tick `now_slot`.
    pub open spec fn remove_outcome(self, now_slot: u64) -> Result<(), DaoError> {
        if self.proposal.result != ProposalStatus::Open {
            Err(DaoError::InvalidProposalStatus)
        } else if now_slot >= self.proposal.expiry {
            Err(DaoError::Expired)
        } else if self.proposal.remove_vote_outcome(self.vote.amount, self.vote.vote_type) is Err {
            Err(DaoError::Underflow)
        } else if self.stake_state.accounts == 0 {
            Err(DaoError::Underflow)
        } else if !self.member_state.slash_fits(BASE_VOTE_POINTS) {
            Err(DaoError::Overflow)
        } else {
            Ok(())
        }
    }

    /// The outcome of cleaning up the vote at tick `now_slot`.
    pub open spec fn cleanup_outcome(self, now_slot: u64) -> Result<(), DaoError> {
        if self.proposal.result == ProposalStatus::Open && now_slot < self.proposal.expiry {
            Err(DaoError::InvalidProposalStatus)
        } else if self.stake_state.accounts == 0 {
            Err(DaoError::Underflow)
        } else {
            Ok(())
        }
    }

    /// Releases the stake behind a vote on a proposal that is no longer
    /// running (final, or expired). Tallies and points stay as they are.
    pub fn cleanup_vote(&mut self, now_slot: u64) -> (r: Result<(), DaoError>)
        ensures
            r == old(self).cleanup_outcome(now_slot),
            r is Ok ==> *final(self) == (RemoveOrCleanupVote {
                stake_state: StakeState { accounts: (old(self).stake_state.accounts - 1) as u64, ..old(self).stake_state },
                ..*old(self)
            }),
            r is Err ==> *final(self) == *old(self),
    {
        if self.proposal.is_open().is_ok() && self.proposal.check_expiry(now_slot).is_ok() {
            return Err(DaoError::InvalidProposalStatus);
        }
        if let Err(e) = self.stake_state.remove_account() {
            return Err(e);
        }
        Ok(())
    }

    /// Withdraws a vote from a running proposal: its amount leaves the
    /// tallies, the stake backs one record fewer, the member loses the base
    /// points (any shortfall is recorded as forfeited) and reputation.
    pub fn remove_vote(&mut self, now_slot: u64) -> (r: Result<(), DaoError>)
        ensures
            r == old(self).remove_outcome(now_slot),
            r is Ok ==> *final(self) == (RemoveOrCleanupVote {
                proposal: with_tally(
                    old(self).proposal,
                    old(self).vote.vote_type,
                    (old(self).proposal.votes - old(self).vote.amount) as u64,
                    (tally_of(old(self).proposal, old(self).vote.vote_type) - old(self).vote.amount) as u64,
                ),
                stake_state: StakeState { accounts: (old(self).stake_state.accounts - 1) as u64, ..old(self).stake_state },
                member_state: old(self).member_state.slashed(BASE_VOTE_POINTS).with_reputation(VOTE_REPUTATION_DECREASE),
                ..*old(self)
            }),
            r is Err ==> *final(self) == *old(self),
    {
        if let Err(e) = self.proposal.is_open() {
            return Err(e);
        }
        if let Err(e) = self.proposal.check_expiry(now_slot) {
            return Err(e);
        }
        let mut proposal = self.proposal.clone();
        if let Err(e) = proposal.remove_vote(self.vote.amount, self.vote.vote_type) {
            return Err(e);
        }
        let mut stake_state = self.stake_state;
        if let Err(e) = stake_state.remove_account() {
            return Err(e);
        }
        let mut member_state = self.member_state;
        if let Err(e) = member_state.slash_vote_points(BASE_VOTE_POINTS) {
            return Err(e);
        }
        let _ = member_state.update_reputation(VOTE_REPUTATION_DECREASE);
        self.proposal = proposal;
        self.stake_state = stake_state;
        self.member_state = member_state;
        Ok(())
    }
}

/// A payment from the treasury that an executed proposal calls for.
#[derive(Clone, Copy, Debug)]
pub struct BountyPayout {
    pub payee: Address,
    pub amount: u64,
}

impl PartialEq for BountyPayout {
    fn eq(&self, other: &BountyPayout) -> (r: bool) {
        self.payee.same_as(&other.payee) && self.amount == other.amount
    }
}

impl vstd::std_specs::cmp::PartialEqSpecImpl for BountyPayout {
    open spec fn obeys_eq_spec() -> bool {
        true
    }

    open spec fn eq_spec(&self, other: &BountyPayout) -> bool {
        self.payee@ == other.payee@ && self.amount == other.amount
    }
}

impl Eq for BountyPayout {
}

/// The records that finalizing a proposal touches. `payee` is the payout
/// target the caller hands in; it must match the one the proposal names.
#[derive(Debug)]
pub struct FinalizeProposal {
    pub payee: Address,
    pub proposal: Proposal,
    pub proposer_state: MemberState,
}

impl FinalizeProposal {
    /// The outcome of executing the proposal at tick `now_slot`.
    pub open spec fn execute_outcome(self, now_slot: u64) -> Result<Option<BountyPayout>, DaoError> {
        if self.proposal.finalized_status(now_slot) != ProposalStatus::Succeeded {
            Err(DaoError::InvalidProposalStatus)
        } else if !self.proposer_state.success_points_fit(PROPOSAL_SUCCESS_POINTS) {
            Err(DaoError::Overflow)
        } else {
            match self.proposal.proposal {
                ProposalType::Bounty(payee, amount) => if self.payee@ != payee@ {
                    Err(DaoError::PayeeMismatch)
                } else {
                    Ok(Some(BountyPayout { payee, amount }))
                },
                ProposalType::Executable => Ok(None),
                ProposalType::Vote => Ok(None),
            }
        }
    }

    /// Finalizes the proposal at tick `now_slot` and accepts it only if it
    /// failed. The caller then closes it.
    pub fn cleanup_proposal(&mut self, now_slot: u64) -> (r: Result<(), DaoError>)
        ensures
            r is Ok <==> old(self).proposal.finalized_status(now_slot) == ProposalStatus::Failed,
            r is Ok ==> *final(self) == (FinalizeProposal { proposal: old(self).proposal.finalized(now_slot), ..*old(self) }),
            r is Err ==> r == Err::<(), DaoError>(DaoError::InvalidProposalStatus) && *final(self) == *old(self),
    {
        let mut proposal = self.proposal.clone();
        let _ = proposal.try_finalize(now_slot);
        if let Err(e) = proposal.is_failed() {
            return Err(e);
        }
        self.proposal = proposal;
        Ok(())
    }

    /// Finalizes the proposal at tick `now_slot` and, if it succeeded,
    /// rewards the proposer and carries out its payload: a bounty yields the
    /// payout to make, the other kinds nothing.
    pub fn execute_proposal(&mut self, now_slot: u64) -> (r: Result<Option<BountyPayout>, DaoError>)
        ensures
            r == old(self).execute_outcome(now_slot),
            r is Ok ==> *final(self) == (FinalizeProposal {
                proposal: old(self).proposal.finalized(now_slot),
                proposer_state: old(self).proposer_state.with_success_points(PROPOSAL_SUCCESS_POINTS).with_reputation(
                    PROPOSAL_SUCCESS_REPUTATION_INCREASE,
                ),
                ..*old(self)
            }),
            r is Err ==> *final(self) == *old(self),
    {
        let mut proposal = self.proposal.clone();
        let _ = proposal.try_finalize(now_slot);
        if let Err(e) = proposal.is_succeeded() {
            return Err(e);
        }
        let mut proposer_state = self.proposer_state;
        if let Err(e) = proposer_state.add_proposal_success_points(PROPOSAL_SUCCESS_POINTS) {
            return Err(e);
        }
        let _ = proposer_state.update_reputation(PROPOSAL_SUCCESS_REPUTATION_INCREASE);
        let outcome = match proposal.proposal {
            ProposalType::Bounty(payee, payout) => match self.payout_bounty(payee, payout) {
                Ok(p) => Some(p),
                Err(e) => return Err(e),
            },
            ProposalType::Executable => {
                let _ = self.execute_tx();
                None
            },
            ProposalType::Vote => {
                let _ = self.finalize_vote();
                None
            },
        };
        self.proposal = proposal;
        self.proposer_state = proposer_state;
        Ok(outcome)
    }

    /// A poll has no effect beyond its tallies.
    pub fn finalize_vote(&self) -> (r: Result<(), DaoError>)
        ensures
            r is Ok,
    {
        Ok(())
    }

    /// The payout of `payout` to `payee`, provided the target handed in is
    /// `payee`.
    pub fn payout_bounty(&self, payee: Address, payout: u64) -> (r: Result<BountyPayout, DaoError>)
        ensures
            r is Ok <==> self.payee@ == payee@,
            r is Ok ==> r == Ok::<BountyPayout, DaoError>(BountyPayout { payee, amount: payout }),
            r is Err ==> r == Err::<BountyPayout, DaoError>(DaoError::PayeeMismatch),
    {
        if !self.payee.same_as(&payee) {
            return Err(DaoError::PayeeMismatch);
        }
        Ok(BountyPayout { payee, amount: payout })
    }

    /// Running an instruction is not implemented: it does nothing.
    pub fn execute_tx(&self) -> (r: Result<(), DaoError>)
        ensures
            r is Ok,
    {
        Ok(())
    }
}

/// The record that a results query reads.
#[derive(Debug)]
pub struct GetProposalResults {
    pub proposal: Proposal,
}

impl GetProposalResults {
    /// Finalizes an expired proposal at tick `now_slot`, then reports its
    /// tallies and status.
    pub fn get_results(&mut self, now_slot: u64) -> (r: Result<ProposalResults, DaoError>)
        ensures
            final(self).proposal == if now_slot >= old(self).proposal.expiry {
                old(self).proposal.finalized(now_slot)
            } else {
                old(self).proposal
            },
            r == Ok::<ProposalResults, DaoError>(final(self).proposal.results_of()),
    {
        let _ = self.check_and_finalize(now_slot);
        Ok(self.proposal.get_results())
    }

    fn check_and_finalize(&mut self, now_slot: u64) -> (r: Result<(), DaoError>)
        ensures
            r is Ok,
            final(self).proposal == if now_slot >= old(self).proposal.expiry {
                old(self).proposal.finalized(now_slot)
            } else {
                old(self).proposal
            },
    {
        if now_slot >= self.proposal.expiry {
            let _ = self.proposal.try_finalize(now_slot);
        }
        Ok(())
    }
}

/// The record that a member query reads.
#[derive(Clone, Copy, Debug)]
pub struct GetMemberState {
    pub member_state: MemberState,
}

impl GetMemberState {
    /// Every field of the member's profile.
    pub fn get_member_state(&self) -> (r: Result<MemberStateView, DaoError>)
        ensures
            r == Ok::<MemberStateView, DaoError>(self.member_state.view_of()),
    {
        Ok(self.member_state.get_member_state())
    }
}

/// The records that staking and unstaking touch.
#[derive(Clone, Copy, Debug)]
pub struct Stake {
    pub owner: Address,
    pub stake_state: StakeState,
    /// Zeroed until the member first stakes.
    pub member_state: MemberState,
}

impl Stake {
    /// Adds `amount` to the stake at tick `now_slot`, and starts the
    /// member's profile, joined at `now_unix`, if it has not started yet.
    /// The caller moves the tokens into the vault.
    pub fn deposit_tokens(&mut self, amount: u64, member_state_bump: u8, now_slot: u64, now_unix: i64) -> (r: Result<(), DaoError>)
        ensures
            r is Ok <==> old(self).stake_state.amount + amount <= u64::MAX,
            r is Ok ==> *final(self) == (Stake {
                stake_state: StakeState {
                    amount: (old(self).stake_state.amount + amount) as u64,
                    updated: now_slot,
                    ..old(self).stake_state
                },
                member_state: if old(self).member_state.join_date == 0 {
                    MemberState::fresh(old(self).owner, member_state_bump, now_unix)
                } else {
                    old(self).member_state
                },
                ..*old(self)
            }),
            r is Err ==> r == Err::<(), DaoError>(DaoError::Overflow) && *final(self) == *old(self),
    {
        if let Err(e) = self.stake_state.stake(amount, now_slot) {
            return Err(e);
        }
        if self.member_state.join_date == 0 {
            let _ = self.member_state.init(self.owner, member_state_bump, now_unix);
        }
        Ok(())
    }

    /// Takes `amount` out of the stake at tick `now_slot`, under the rules of
    /// `StakeState::unstake`. The caller moves the tokens out of the vault.
    pub fn withdraw_tokens(&mut self, amount: u64, now_slot: u64) -> (r: Result<(), DaoError>)
        ensures
            r == old(self).stake_state.unstake_outcome(amount, now_slot),
            r is Ok ==> *final(self) == (Stake {
                stake_state: StakeState {
                    amount: (old(self).stake_state.amount - amount) as u64,
                    updated: now_slot,
                    ..old(self).stake_state
                },
                ..*old(self)
            }),
            r is Err ==> *final(self) == *old(self),
    {
        self.stake_state.unstake(amount, now_slot)
    }
}

} // verus!
