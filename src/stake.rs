use vstd::prelude::*;

use crate::address::Address;
use crate::error::DaoError;

verus! {

/// One member's stake: the amount staked and how many open vote records it
/// backs.
#[derive(Clone, Copy, Debug)]
pub struct StakeState {
    /// The staking member.
    pub owner: Address,
    /// Tokens staked.
    pub amount: u64,
    /// Open vote records backed by this stake.
    pub accounts: u64,
    /// The tick of the latest change.
    pub updated: u64,
    pub vault_bump: u8,
    pub auth_bump: u8,
    pub state_bump: u8,
}

impl StakeState {
    /// The outcome of withdrawing `amount` at tick `now_slot`, checks taken
    /// in order: open vote records, then the tick, then the balance.
    pub open spec fn unstake_outcome(self, amount: u64, now_slot: u64) -> Result<(), DaoError> {
        if self.accounts != 0 {
            Err(DaoError::AccountsOpen)
        } else if !(self.updated < now_slot) {
            Err(DaoError::InvalidSlot)
        } else if self.amount < amount {
            Err(DaoError::Underflow)
        } else {
            Ok(())
        }
    }

    /// An empty stake for `owner`, stamped with the current tick.
    pub fn init(&mut self, owner: Address, state_bump: u8, vault_bump: u8, auth_bump: u8, now_slot: u64) -> (r: Result<(), DaoError>)
        ensures
            r is Ok,
            *final(self) == (StakeState {
                owner,
                amount: 0,
                accounts: 0,
                updated: now_slot,
                vault_bump,
                auth_bump,
                state_bump,
            }),
    {
        self.owner = owner;
        self.amount = 0;
        self.accounts = 0;
        self.state_bump = state_bump;
        self.vault_bump = vault_bump;
        self.auth_bump = auth_bump;
        self.update(now_slot)
    }

    /// Adds `amount` to the stake and stamps the tick; fails with `Overflow`
    /// when the sum does not fit, leaving the stake unchanged.
    pub fn stake(&mut self, amount: u64, now_slot: u64) -> (r: Result<(), DaoError>)
        ensures
            r is Ok <==> old(self).amount + amount <= u64::MAX,
            r is Ok ==> *final(self) == (StakeState {
                amount: (old(self).amount + amount) as u64,
                updated: now_slot,
                ..*old(self)
            }),
            r is Err ==> r == Err::<(), DaoError>(DaoError::Overflow) && *final(self) == *old(self),
    {
        self.amount = match self.amount.checked_add(amount) {
            Some(a) => a,
            None => return Err(DaoError::Overflow),
        };
        self.update(now_slot)
    }

    /// Takes `amount` out of the stake: refused while vote records are open,
    /// in the tick of the latest change, or beyond the balance.
    pub fn unstake(&mut self, amount: u64, now_slot: u64) -> (r: Result<(), DaoError>)
        ensures
            r == old(self).unstake_outcome(amount, now_slot),
            r is Ok ==> *final(self) == (StakeState {
                amount: (old(self).amount - amount) as u64,
                updated: now_slot,
                ..*old(self)
            }),
            r is Err ==> *final(self) == *old(self),
    {
        if let Err(e) = self.check_accounts() {
            return Err(e);
        }
        if let Err(e) = self.check_slot(now_slot) {
            return Err(e);
        }
        self.amount = match self.amount.checked_sub(amount) {
            Some(a) => a,
            None => return Err(DaoError::Underflow),
        };
        self.update(now_slot)
    }

    /// One more open vote record backed by this stake.
    pub fn add_account(&mut self) -> (r: Result<(), DaoError>)
        ensures
            r is Ok <==> old(self).accounts < u64::MAX,
            r is Ok ==> *final(self) == (StakeState { accounts: (old(self).accounts + 1) as u64, ..*old(self) }),
            r is Err ==> r == Err::<(), DaoError>(DaoError::Overflow) && *final(self) == *old(self),
    {
        self.accounts = match self.accounts.checked_add(1) {
            Some(a) => a,
            None => return Err(DaoError::Overflow),
        };
        Ok(())
    }

    /// One open vote record fewer.
    pub fn remove_account(&mut self) -> (r: Result<(), DaoError>)
        ensures
            r is Ok <==> old(self).accounts > 0,
            r is Ok ==> *final(self) == (StakeState { accounts: (old(self).accounts - 1) as u64, ..*old(self) }),
            r is Err ==> r == Err::<(), DaoError>(DaoError::Underflow) && *final(self) == *old(self),
    {
        self.accounts = match self.accounts.checked_sub(1) {
            Some(a) => a,
            None => return Err(DaoError::Underflow),
        };
        Ok(())
    }

    /// Stamps the stake with the current tick.
    pub fn update(&mut self, now_slot: u64) -> (r: Result<(), DaoError>)
        ensures
            r == Ok::<(), DaoError>(()),
            *final(self) == (StakeState { updated: now_slot, ..*old(self) }),
    {
        self.updated = now_slot;
        Ok(())
    }

    /// Accepts only a tick later than the latest change, so that staking and
    /// unstaking never share a tick.
    pub fn check_slot(&self, now_slot: u64) -> (r: Result<(), DaoError>)
        ensures
            r is Ok <==> self.updated < now_slot,
            r is Err ==> r == Err::<(), DaoError>(DaoError::InvalidSlot),
    {
        if self.updated < now_slot {
            Ok(())
        } else {
            Err(DaoError::InvalidSlot)
        }
    }

    /// Accepts only a stake that backs no open vote record.
    pub fn check_accounts(&self) -> (r: Result<(), DaoError>)
        ensures
            r is Ok <==> self.accounts == 0,
            r is Err ==> r == Err::<(), DaoError>(DaoError::AccountsOpen),
    {
        if self.accounts == 0 {
            Ok(())
        } else {
            Err(DaoError::AccountsOpen)
        }
    }

    /// Accepts only a positive stake.
    pub fn check_stake(&self) -> (r: Result<(), DaoError>)
        ensures
            r is Ok <==> self.amount > 0,
            r is Err ==> r == Err::<(), DaoError>(DaoError::InsufficientStake),
    {
        if self.amount > 0 {
            Ok(())
        } else {
            Err(DaoError::InsufficientStake)
        }
    }

    /// Accepts only a stake of at least `amount`.
    pub fn check_stake_amount(&self, amount: u64) -> (r: Result<(), DaoError>)
        ensures
            r is Ok <==> self.amount >= amount,
            r is Err ==> r == Err::<(), DaoError>(DaoError::InsufficientStake),
    {
        if self.amount >= amount {
            Ok(())
        } else {
            Err(DaoError::InsufficientStake)
        }
    }
}

} // verus!
