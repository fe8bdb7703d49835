use vstd::prelude::*;

use crate::error::DaoError;

verus! {

/// The organization's configuration: parameters fixed at initialization and
/// the counter that numbers proposals.
#[derive(Clone, Copy, Debug)]
pub struct DaoSetup {
    /// Distinguishes this organization's records from any other's.
    pub seed: u64,
    /// Price at which governance tokens are issued.
    pub issue_price: u64,
    /// Tokens handed out per issue.
    pub issue_amount: u64,
    /// Fee charged for opening a proposal.
    pub proposal_fee: u64,
    /// Largest token supply the organization allows.
    pub max_supply: u64,
    /// Smallest quorum a proposal may ask for.
    pub min_quorum: u64,
    /// Longest voting period, in ticks, a proposal may ask for.
    pub max_expiry: u64,
    /// How many proposals have been registered: the id of the latest one.
    pub proposal_count: u64,
    pub auth_bump: u8,
    pub config_bump: u8,
    pub mint_bump: u8,
    pub treasury_bump: u8,
}

impl DaoSetup {
    /// Sets every parameter and starts the proposal counter at zero.
    pub fn init(
        &mut self,
        seed: u64,
        issue_price: u64,
        issue_amount: u64,
        proposal_fee: u64,
        max_supply: u64,
        min_quorum: u64,
        max_expiry: u64,
        auth_bump: u8,
        config_bump: u8,
        mint_bump: u8,
        treasury_bump: u8,
    ) -> (r: Result<(), DaoError>)
        ensures
            r is Ok,
            *final(self) == (DaoSetup {
                seed,
                issue_price,
                issue_amount,
                proposal_fee,
                max_supply,
                min_quorum,
                max_expiry,
                proposal_count: 0,
                auth_bump,
                config_bump,
                mint_bump,
                treasury_bump,
            }),
    {
        self.seed = seed;
        self.issue_price = issue_price;
        self.issue_amount = issue_amount;
        self.proposal_fee = proposal_fee;
        self.max_supply = max_supply;
        self.min_quorum = min_quorum;
        self.max_expiry = max_expiry;
        self.proposal_count = 0;
        self.auth_bump = auth_bump;
        self.config_bump = config_bump;
        self.mint_bump = mint_bump;
        self.treasury_bump = treasury_bump;
        Ok(())
    }

    /// The outcome of registering a proposal with the given id.
    pub open spec fn add_proposal_outcome(self, id: u64) -> Result<(), DaoError> {
        if self.proposal_count == u64::MAX {
            Err(DaoError::Overflow)
        } else if id != self.proposal_count + 1 {
            Err(DaoError::InvalidProposalSeed)
        } else {
            Ok(())
        }
    }

    /// Registers a new proposal: the counter moves on by one, and `id` must be
    /// its new value. On any error the configuration is left unchanged.
    pub fn add_proposal(&mut self, id: u64) -> (r: Result<(), DaoError>)
        ensures
            r == old(self).add_proposal_outcome(id),
            r is Ok ==> *final(self) == (DaoSetup { proposal_count: id, ..*old(self) }),
            r is Ok ==> final(self).proposal_count == old(self).proposal_count + 1,
            r is Err ==> *final(self) == *old(self),
    {
        let next = match self.proposal_count.checked_add(1) {
            Some(n) => n,
            None => return Err(DaoError::Overflow),
        };
        if next != id {
            return Err(DaoError::InvalidProposalSeed);
        }
        self.proposal_count = next;
        Ok(())
    }

    /// Accepts a quorum only if it is at least the configured floor.
    pub fn check_min_quorum(&self, quorum: u64) -> (r: Result<(), DaoError>)
        ensures
            r is Ok <==> self.min_quorum <= quorum,
            r is Err ==> r == Err::<(), DaoError>(DaoError::InvalidQuorum),
    {
        if self.min_quorum <= quorum {
            Ok(())
        } else {
            Err(DaoError::InvalidQuorum)
        }
    }

    /// Accepts a voting period only if it is at most the configured ceiling.
    pub fn check_max_expiry(&self, expiry: u64) -> (r: Result<(), DaoError>)
        ensures
            r is Ok <==> expiry <= self.max_expiry,
            r is Err ==> r == Err::<(), DaoError>(DaoError::InvalidExpiry),
    {
        if self.max_expiry >= expiry {
            Ok(())
        } else {
            Err(DaoError::InvalidExpiry)
        }
    }
}

} // verus!
