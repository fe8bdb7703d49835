use vstd::prelude::*;
use vstd::utf8::encode_utf8;

use crate::address::Address;
use crate::error::DaoError;

verus! {

/// Longest proposal name, in bytes.
pub const MAX_NAME_LEN: usize = 32;

/// Longest proposal description, in bytes.
pub const MAX_GIST_LEN: usize = 72;

/// The length in bytes of the UTF-8 encoding of `s`, as `str::len` reports
/// it (a string held in memory always has a length that fits in `usize`).
pub open spec fn byte_len(s: Seq<char>) -> usize {
    encode_utf8(s).len() as usize
}

/// What a proposal does once it has succeeded.
#[derive(Clone, Copy, Debug)]
pub enum ProposalType {
    /// Pay the given target the given amount from the treasury.
    Bounty(Address, u64),
    /// Run an instruction; not yet implemented, so it does nothing.
    Executable,
    /// Only ask the members' opinion.
    Vote,
}

impl PartialEq for ProposalType {
    fn eq(&self, other: &ProposalType) -> (r: bool) {
        match (self, other) {
            (ProposalType::Bounty(a, x), ProposalType::Bounty(b, y)) => a.same_as(b) && *x == *y,
            (ProposalType::Executable, ProposalType::Executable) => true,
            (ProposalType::Vote, ProposalType::Vote) => true,
            _ => false,
        }
    }
}

impl vstd::std_specs::cmp::PartialEqSpecImpl for ProposalType {
    open spec fn obeys_eq_spec() -> bool {
        true
    }

    open spec fn eq_spec(&self, other: &ProposalType) -> bool {
        match (*self, *other) {
            (ProposalType::Bounty(a, x), ProposalType::Bounty(b, y)) => a@ == b@ && x == y,
            (ProposalType::Executable, ProposalType::Executable) => true,
            (ProposalType::Vote, ProposalType::Vote) => true,
            _ => false,
        }
    }
}

impl Eq for ProposalType {
}

/// Where a proposal stands. `Succeeded` and `Failed` are final.
#[derive(Clone, Copy, Debug, PartialEq, Eq, Structural)]
pub enum ProposalStatus {
    Open,
    Succeeded,
    Failed,
}

/// A member's choice.
#[derive(Clone, Copy, Debug, PartialEq, Eq, Structural)]
pub enum VoteType {
    Yes,
    No,
    Abstain,
}

/// The tallies and status of a proposal, as a query reports them.
#[derive(Clone, Copy, Debug, PartialEq, Eq, Structural)]
pub struct ProposalResults {
    pub yes_votes: u64,
    pub no_votes: u64,
    pub abstain_votes: u64,
    pub status: ProposalStatus,
    pub total_votes: u64,
    pub quorum: u64,
}

/// A governance proposal and its running tallies.
#[derive(Debug)]
pub struct Proposal {
    /// Unique id, handed out by the organization's counter.
    pub id: u64,
    /// At most 32 bytes.
    pub name: String,
    /// A short description or a link to one: at most 72 bytes.
    pub gist: String,
    pub proposal: ProposalType,
    pub result: ProposalStatus,
    /// Yes and no votes needed for a decision.
    pub quorum: u64,
    /// All votes cast: yes, no and abstain together.
    pub votes: u64,
    /// The tick from which the proposal counts as expired.
    pub expiry: u64,
    pub yes_votes: u64,
    pub no_votes: u64,
    pub abstain_votes: u64,
    pub bump: u8,
    /// The member who opened the proposal.
    pub proposer: Address,
}

/// The status that finalization gives: a final status stays; otherwise a
/// quorum of yes and no votes decides by strict majority of yes, and without
/// a quorum an expired proposal fails and a running one stays open.
pub open spec fn decide(
    result: ProposalStatus,
    yes: u64,
    no: u64,
    quorum: u64,
    expiry: u64,
    now_slot: u64,
) -> ProposalStatus {
    if result != ProposalStatus::Open {
        result
    } else if yes + no >= quorum {
        if yes > no {
            ProposalStatus::Succeeded
        } else {
            ProposalStatus::Failed
        }
    } else if now_slot >= expiry {
        ProposalStatus::Failed
    } else {
        ProposalStatus::Open
    }
}

/// The tally that a choice adds to.
pub open spec fn tally_of(p: Proposal, vote_type: VoteType) -> u64 {
    match vote_type {
        VoteType::Yes => p.yes_votes,
        VoteType::No => p.no_votes,
        VoteType::Abstain => p.abstain_votes,
    }
}

/// `p` with the total set to `votes` and the tally of `vote_type` to `tally`.
pub open spec fn with_tally(p: Proposal, vote_type: VoteType, votes: u64, tally: u64) -> Proposal {
    match vote_type {
        VoteType::Yes => Proposal { votes, yes_votes: tally, ..p },
        VoteType::No => Proposal { votes, no_votes: tally, ..p },
        VoteType::Abstain => Proposal { votes, abstain_votes: tally, ..p },
    }
}

impl Clone for Proposal {
    fn clone(&self) -> (r: Proposal)
        ensures
            r == *self,
    {
        Proposal {
            id: self.id,
            name: self.name.clone(),
            gist: self.gist.clone(),
            proposal: self.proposal,
            result: self.result,
            quorum: self.quorum,
            votes: self.votes,
            expiry: self.expiry,
            yes_votes: self.yes_votes,
            no_votes: self.no_votes,
            abstain_votes: self.abstain_votes,
            bump: self.bump,
            proposer: self.proposer,
        }
    }
}

impl Proposal {
    /// The total equals the sum of the three tallies.
    pub open spec fn wf(self) -> bool {
        self.votes as int == self.yes_votes as int + self.no_votes as int + self.abstain_votes as int
    }

    /// The status that finalizing at tick `now_slot` gives.
    pub open spec fn finalized_status(self, now_slot: u64) -> ProposalStatus {
        decide(self.result, self.yes_votes, self.no_votes, self.quorum, self.expiry, now_slot)
    }

    /// The proposal as finalizing at tick `now_slot` leaves it.
    pub open spec fn finalized(self, now_slot: u64) -> Proposal {
        Proposal { result: self.finalized_status(now_slot), ..self }
    }

    /// The outcome of opening a proposal with these inputs at tick `now_slot`.
    pub open spec fn init_outcome(name: Seq<char>, gist: Seq<char>, expiry: u64, now_slot: u64) -> Result<(), DaoError> {
        if byte_len(name) > MAX_NAME_LEN {
            Err(DaoError::InvalidName)
        } else if byte_len(gist) > MAX_GIST_LEN {
            Err(DaoError::InvalidGist)
        } else if now_slot + expiry > u64::MAX {
            Err(DaoError::Overflow)
        } else {
            Ok(())
        }
    }

    /// The outcome of adding `amount` to the tally of `vote_type`.
    pub open spec fn add_vote_outcome(self, amount: u64, vote_type: VoteType) -> Result<(), DaoError> {
        if self.votes + amount > u64::MAX || tally_of(self, vote_type) + amount > u64::MAX {
            Err(DaoError::Overflow)
        } else {
            Ok(())
        }
    }

    /// The outcome of taking `amount` from the tally of `vote_type`.
    pub open spec fn remove_vote_outcome(self, amount: u64, vote_type: VoteType) -> Result<(), DaoError> {
        if self.votes < amount || tally_of(self, vote_type) < amount {
            Err(DaoError::Underflow)
        } else {
            Ok(())
        }
    }

    /// Opens the proposal: checks the lengths of name and description, sets
    /// every tally to zero, and sets the expiry `expiry` ticks after
    /// `now_slot`. On any error the record is left unchanged.
    pub fn init(
        &mut self,
        id: u64,
        name: String,
        gist: String,
        proposal: ProposalType,
        quorum: u64,
        expiry: u64,
        bump: u8,
        proposer: Address,
        now_slot: u64,
    ) -> (r: Result<(), DaoError>)
        ensures
            r == Proposal::init_outcome(name@, gist@, expiry, now_slot),
            r is Ok ==> *final(self) == (Proposal {
                id,
                name,
                gist,
                proposal,
                result: ProposalStatus::Open,
                quorum,
                votes: 0,
                expiry: (now_slot + expiry) as u64,
                yes_votes: 0,
                no_votes: 0,
                abstain_votes: 0,
                bump,
                proposer,
            }),
            r is Ok ==> final(self).wf(),
            r is Err ==> *final(self) == *old(self),
    {
        if name.as_str().len() > MAX_NAME_LEN {
            return Err(DaoError::InvalidName);
        }
        if gist.as_str().len() > MAX_GIST_LEN {
            return Err(DaoError::InvalidGist);
        }
        let end = match now_slot.checked_add(expiry) {
            Some(e) => e,
            None => return Err(DaoError::Overflow),
        };
        self.id = id;
        self.proposal = proposal;
        self.name = name;
        self.gist = gist;
        self.result = ProposalStatus::Open;
        self.quorum = quorum;
        self.votes = 0;
        self.yes_votes = 0;
        self.no_votes = 0;
        self.abstain_votes = 0;
        self.bump = bump;
        self.proposer = proposer;
        self.expiry = end;
        Ok(())
    }

    /// Settles the status at tick `now_slot`: a final status is kept, and an
    /// open proposal takes the status that `decide` gives. Nothing but the
    /// status changes.
    pub fn try_finalize(&mut self, now_slot: u64) -> (r: Result<(), DaoError>)
        ensures
            r == Ok::<(), DaoError>(()),
            *final(self) == old(self).finalized(now_slot),
    {
        if self.result != ProposalStatus::Open {
            return Ok(());
        }
        let has_expired = self.check_expiry(now_slot).is_err();
        let decided = self.yes_votes as u128 + self.no_votes as u128 >= self.quorum as u128;
        self.result = if decided {
            if self.yes_votes > self.no_votes {
                ProposalStatus::Succeeded
            } else {
                ProposalStatus::Failed
            }
        } else if has_expired {
            ProposalStatus::Failed
        } else {
            ProposalStatus::Open
        };
        Ok(())
    }

    /// Accepts only a tick before the expiry.
    pub fn check_expiry(&self, now_slot: u64) -> (r: Result<(), DaoError>)
        ensures
            r is Ok <==> now_slot < self.expiry,
            r is Err ==> r == Err::<(), DaoError>(DaoError::Expired),
    {
        if now_slot < self.expiry {
            Ok(())
        } else {
            Err(DaoError::Expired)
        }
    }

    /// Accepts only an open proposal.
    pub fn is_open(&self) -> (r: Result<(), DaoError>)
        ensures
            r is Ok <==> self.result == ProposalStatus::Open,
            r is Err ==> r == Err::<(), DaoError>(DaoError::InvalidProposalStatus),
    {
        if self.result == ProposalStatus::Open {
            Ok(())
        } else {
            Err(DaoError::InvalidProposalStatus)
        }
    }

    /// Accepts only a proposal that has succeeded.
    pub fn is_succeeded(&self) -> (r: Result<(), DaoError>)
        ensures
            r is Ok <==> self.result == ProposalStatus::Succeeded,
            r is Err ==> r == Err::<(), DaoError>(DaoError::InvalidProposalStatus),
    {
        if self.result == ProposalStatus::Succeeded {
            Ok(())
        } else {
            Err(DaoError::InvalidProposalStatus)
        }
    }

    /// Accepts only a proposal that has failed.
    pub fn is_failed(&self) -> (r: Result<(), DaoError>)
        ensures
            r is Ok <==> self.result == ProposalStatus::Failed,
            r is Err ==> r == Err::<(), DaoError>(DaoError::InvalidProposalStatus),
    {
        if self.result == ProposalStatus::Failed {
            Ok(())
        } else {
            Err(DaoError::InvalidProposalStatus)
        }
    }

    /// Adds `amount` to the total and to the tally of `vote_type`, then
    /// finalizes at tick `now_slot`. On overflow nothing changes.
    pub fn add_vote(&mut self, amount: u64, vote_type: VoteType, now_slot: u64) -> (r: Result<(), DaoError>)
        ensures
            r == old(self).add_vote_outcome(amount, vote_type),
            r is Ok ==> *final(self) == with_tally(
                *old(self),
                vote_type,
                (old(self).votes + amount) as u64,
                (tally_of(*old(self), vote_type) + amount) as u64,
            ).finalized(now_slot),
            r is Err ==> *final(self) == *old(self),
            r is Ok && old(self).wf() ==> final(self).wf(),
    {
        let votes = match self.votes.checked_add(amount) {
            Some(v) => v,
            None => return Err(DaoError::Overflow),
        };
        match vote_type {
            VoteType::Yes => {
                let t = match self.yes_votes.checked_add(amount) {
                    Some(t) => t,
                    None => return Err(DaoError::Overflow),
                };
                self.yes_votes = t;
            },
            VoteType::No => {
                let t = match self.no_votes.checked_add(amount) {
                    Some(t) => t,
                    None => return Err(DaoError::Overflow),
                };
                self.no_votes = t;
            },
            VoteType::Abstain => {
                let t = match self.abstain_votes.checked_add(amount) {
                    Some(t) => t,
                    None => return Err(DaoError::Overflow),
                };
                self.abstain_votes = t;
            },
        }
        self.votes = votes;
        let _ = self.try_finalize(now_slot);
        Ok(())
    }

    /// Takes `amount` from the total and from the tally of `vote_type`. On
    /// underflow nothing changes.
    pub fn remove_vote(&mut self, amount: u64, vote_type: VoteType) -> (r: Result<(), DaoError>)
        ensures
            r == old(self).remove_vote_outcome(amount, vote_type),
            r is Ok ==> *final(self) == with_tally(
                *old(self),
                vote_type,
                (old(self).votes - amount) as u64,
                (tally_of(*old(self), vote_type) - amount) as u64,
            ),
            r is Err ==> *final(self) == *old(self),
            r is Ok && old(self).wf() ==> final(self).wf(),
    {
        let votes = match self.votes.checked_sub(amount) {
            Some(v) => v,
            None => return Err(DaoError::Underflow),
        };
        match vote_type {
            VoteType::Yes => {
                let t = match self.yes_votes.checked_sub(amount) {
                    Some(t) => t,
                    None => return Err(DaoError::Underflow),
                };
                self.yes_votes = t;
            },
            VoteType::No => {
                let t = match self.no_votes.checked_sub(amount) {
                    Some(t) => t,
                    None => return Err(DaoError::Underflow),
                };
                self.no_votes = t;
            },
            VoteType::Abstain => {
                let t = match self.abstain_votes.checked_sub(amount) {
                    Some(t) => t,
                    None => return Err(DaoError::Underflow),
                };
                self.abstain_votes = t;
            },
        }
        self.votes = votes;
        Ok(())
    }

    /// The tallies, quorum and status as they stand.
    pub fn get_results(&self) -> (r: ProposalResults)
        ensures
            r == self.results_of(),
    {
        ProposalResults {
            yes_votes: self.yes_votes,
            no_votes: self.no_votes,
            abstain_votes: self.abstain_votes,
            status: self.result,
            total_votes: self.votes,
            quorum: self.quorum,
        }
    }

    /// What `get_results` reports.
    pub open spec fn results_of(self) -> ProposalResults {
        ProposalResults {
            yes_votes: self.yes_votes,
            no_votes: self.no_votes,
            abstain_votes: self.abstain_votes,
            status: self.result,
            total_votes: self.votes,
            quorum: self.quorum,
        }
    }
}

} // verus!
