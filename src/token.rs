use vstd::prelude::*;

use crate::address::Address;

verus! {

/// The organization's governance token.
#[derive(Clone, Copy, Debug)]
pub struct GovernanceToken {
    /// The token's mint.
    pub mint: Address,
    pub total_supply: u64,
    pub decimals: u8,
    pub bump: u8,
}

} // verus!
