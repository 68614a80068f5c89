//! What is stored: one grant for each company, and one allocation for each
//! beneficiary under a grant.

use crate::pubkey::Pubkey;
use vstd::prelude::*;

verus! {

/// A company's grant: who may allocate under it, which asset it vests, and the
/// treasury that holds what is not yet withdrawn.
#[derive(Clone, Debug, PartialEq, Eq)]
pub struct VestingAccount {
    /// Who may create allocations under this grant.
    pub owner: Pubkey,
    /// The asset that vests.
    pub mint: Pubkey,
    /// The treasury. Its authority is its own address, derived from the company's
    /// name: no one holds a key to it.
    pub treasury_token_account: Pubkey,
    /// The company's name, from which the grant's address and the treasury's are
    /// derived. A grant is created only under a name that fits in one seed.
    pub company_name: String,
    /// The bump of the treasury's address.
    pub treasury_bump: u8,
    /// The bump of the grant's own address.
    pub bump: u8,
}

/// The allocation of one beneficiary under one grant.
#[derive(Clone, Copy, Debug, PartialEq, Eq)]
pub struct EmployeeAccount {
    /// Who may claim.
    pub beneficiary: Pubkey,
    /// When vesting starts, in seconds.
    pub start_time: i64,
    /// When everything has vested.
    pub end_time: i64,
    /// Until when nothing can be claimed.
    pub cliff_time: i64,
    /// The address of the grant that this allocation belongs to.
    pub vesting_account: Pubkey,
    /// All that is allocated to the beneficiary. It never changes.
    pub total_ammount: u64,
    /// What the beneficiary has withdrawn so far. Only a settled claim changes it.
    pub total_withdrawn: u64,
    /// The bump of the allocation's own address.
    pub bump: u8,
}

impl EmployeeAccount {
    /// No more has been withdrawn than was allocated.
    pub open spec fn inv(&self) -> bool {
        self.total_withdrawn <= self.total_ammount
    }
}

} // verus!
