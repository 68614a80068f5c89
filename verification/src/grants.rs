//! Creating grants and allocations. A company's grant is created once, at the
//! address derived from the company's name; an allocation is created once for
//! each beneficiary under a grant, by the grant's owner, at the address derived
//! from the two. No schedule is examined here: one that cannot vest is
//! rejected when it is claimed from.

use crate::accounts::{EmployeeAccount, VestingAccount};
use crate::address::{
    canonical_address, canonical_bytes, employee_seeds, find_employee_address,
    find_treasury_address, find_vesting_address, program_address, treasury_seeds, vesting_seeds,
    with_bump, MAX_SEED_LEN,
};
use crate::error::ErrorCode;
use crate::pubkey::{lemma_same_bytes_same_key, Pubkey};
use vstd::prelude::*;
use vstd::utf8::encode_utf8;

verus! {

/// The canonical address `found` is the address `key`.
pub open spec fn found_at(found: Option<(Seq<u8>, u8)>, key: Pubkey) -> bool {
    found matches Some((address, _)) && address == key.bytes@
}

/// Whether the canonical address `found` is the address `key`.
fn is_found_at(found: &Option<(Pubkey, u8)>, key: &Pubkey) -> (r: bool)
    ensures
        r == found_at(canonical_bytes(*found), *key),
{
    match found {
        Some((address, _)) => {
            proof {
                lemma_same_bytes_same_key(*address, *key);
            }
            *address == *key
        },
        None => false,
    }
}

impl VestingAccount {
    /// The grant is stored at `key` under `program_id` as its name and its bumps
    /// say: its own address and its treasury's are the ones derived from the
    /// company's name, which is short enough to be a seed.
    pub open spec fn sits_at(&self, key: Pubkey, program_id: Pubkey) -> bool {
        &&& encode_utf8(self.company_name@).len() <= MAX_SEED_LEN
        &&& program_address(
            with_bump(vesting_seeds(self.company_name@), self.bump),
            program_id.bytes@,
        ) == Some(key.bytes@)
        &&& program_address(
            with_bump(treasury_seeds(self.company_name@), self.treasury_bump),
            program_id.bytes@,
        ) == Some(self.treasury_token_account.bytes@)
    }
}

impl EmployeeAccount {
    /// The allocation is stored at `key` under `program_id` as its beneficiary,
    /// its grant and its bump say.
    pub open spec fn sits_at(&self, key: Pubkey, program_id: Pubkey) -> bool {
        program_address(
            with_bump(employee_seeds(self.beneficiary, self.vesting_account), self.bump),
            program_id.bytes@,
        ) == Some(key.bytes@)
    }
}

/// The accounts of `create_vesting_account`, as the caller handed them in.
#[derive(Clone, Debug, PartialEq, Eq)]
pub struct CreateVestingAccount {
    /// The program under which all addresses are derived.
    pub program_id: Pubkey,
    /// Who signed: the owner of the grant to be.
    pub signer: Pubkey,
    /// Where the grant is to be stored.
    pub vesting_account_key: Pubkey,
    /// What is stored there: nothing before the grant is created.
    pub vesting_account: Option<VestingAccount>,
    /// The asset that vests.
    pub mint: Pubkey,
    /// The treasury to be.
    pub treasury_token_account: Pubkey,
}

impl CreateVestingAccount {
    /// What `check_accounts` returns, given the canonical addresses of the grant
    /// and of the treasury: the two bumps where the accounts handed in are at
    /// those addresses and no grant is stored yet.
    pub open spec fn check_outcome(
        &self,
        vesting_address: Option<(Seq<u8>, u8)>,
        treasury_address: Option<(Seq<u8>, u8)>,
    ) -> Result<(u8, u8), ErrorCode> {
        match (vesting_address, treasury_address) {
            (Some((vesting_key, bump)), Some((treasury_key, treasury_bump))) => {
                if vesting_key != self.vesting_account_key.bytes@ || treasury_key
                    != self.treasury_token_account.bytes@ {
                    Err(ErrorCode::Unauthorized)
                } else if self.vesting_account is Some {
                    Err(ErrorCode::DuplicateGrant)
                } else {
                    Ok((bump, treasury_bump))
                }
            },
            _ => Err(ErrorCode::Unauthorized),
        }
    }

    /// What creating the grant of the company `company_name` yields: the bump of
    /// the grant and the bump of its treasury, or why there will be no grant.
    pub open spec fn create_outcome(&self, company_name: Seq<char>) -> Result<(u8, u8), ErrorCode> {
        self.check_outcome(
            canonical_address(vesting_seeds(company_name), self.program_id.bytes@),
            canonical_address(treasury_seeds(company_name), self.program_id.bytes@),
        )
    }

    /// The accounts after `create_vesting_account`: the grant is stored where it
    /// was created, and nothing changes where it was not.
    pub open spec fn created(self, company_name: String) -> CreateVestingAccount {
        match self.create_outcome(company_name@) {
            Ok((bump, treasury_bump)) => CreateVestingAccount {
                vesting_account: Some(
                    VestingAccount {
                        owner: self.signer,
                        mint: self.mint,
                        treasury_token_account: self.treasury_token_account,
                        company_name,
                        treasury_bump,
                        bump,
                    },
                ),
                ..self
            },
            Err(_) => self,
        }
    }

    /// Checks the accounts against the canonical addresses of the grant and of the
    /// treasury, and gives the bumps of the two.
    pub fn check_accounts(
        &self,
        vesting_address: Option<(Pubkey, u8)>,
        treasury_address: Option<(Pubkey, u8)>,
    ) -> (r: Result<(u8, u8), ErrorCode>)
        ensures
            r == self.check_outcome(
                canonical_bytes(vesting_address),
                canonical_bytes(treasury_address),
            ),
    {
        if !is_found_at(&vesting_address, &self.vesting_account_key) || !is_found_at(
            &treasury_address,
            &self.treasury_token_account,
        ) {
            return Err(ErrorCode::Unauthorized);
        }
        if self.vesting_account.is_some() {
            return Err(ErrorCode::DuplicateGrant);
        }
        match (vesting_address, treasury_address) {
            (Some((_, bump)), Some((_, treasury_bump))) => Ok((bump, treasury_bump)),
            _ => Err(ErrorCode::Unauthorized),
        }
    }
}

/// Creates the grant of the company `company_name`, owned by the signer. The
/// grant and its treasury must be handed in at the canonical addresses derived
/// from the name, else the call is `Unauthorized`; and no grant may be stored
/// there yet, else it is a `DuplicateGrant`.
pub fn create_vesting_account(ctx: &mut CreateVestingAccount, company_name: String) -> (r: Result<
    (),
    ErrorCode,
>)
    ensures
        match old(ctx).create_outcome(company_name@) {
            Ok(_) => r is Ok,
            Err(e) => r == Err::<(), ErrorCode>(e),
        },
        *final(ctx) == old(ctx).created(company_name),
        r is Ok ==> (final(ctx).vesting_account matches Some(grant) && grant.sits_at(
            final(ctx).vesting_account_key,
            final(ctx).program_id,
        )),
{
    let vesting_address: Option<(Pubkey, u8)> = find_vesting_address(
        company_name.as_str(),
        &ctx.program_id,
    );
    let treasury_address: Option<(Pubkey, u8)> = find_treasury_address(
        company_name.as_str(),
        &ctx.program_id,
    );
    let (bump, treasury_bump): (u8, u8) = match ctx.check_accounts(
        vesting_address,
        treasury_address,
    ) {
        Ok(bumps) => bumps,
        Err(e) => {
            return Err(e);
        },
    };
    ctx.vesting_account = Some(
        VestingAccount {
            owner: ctx.signer,
            mint: ctx.mint,
            treasury_token_account: ctx.treasury_token_account,
            company_name,
            treasury_bump,
            bump,
        },
    );
    Ok(())
}

/// The accounts of `create_employee_account`, as the caller handed them in.
#[derive(Clone, Debug, PartialEq, Eq)]
pub struct CreateEmployeeAccount {
    /// The program under which all addresses are derived.
    pub program_id: Pubkey,
    /// Who signed.
    pub owner: Pubkey,
    /// Who will claim.
    pub beneficiary: Pubkey,
    /// Where the grant is stored.
    pub vesting_account_key: Pubkey,
    /// The grant under which the allocation is made.
    pub vesting_account: VestingAccount,
    /// Where the allocation is to be stored.
    pub employee_account_key: Pubkey,
    /// What is stored there: nothing before the allocation is created.
    pub employee_account: Option<EmployeeAccount>,
}

impl CreateEmployeeAccount {
    /// What `check_accounts` returns, given the canonical address of the
    /// allocation: its bump where the signer owns the grant, the allocation is
    /// handed in at that address and none is stored there yet.
    pub open spec fn check_outcome(&self, employee_address: Option<(Seq<u8>, u8)>) -> Result<
        u8,
        ErrorCode,
    > {
        match employee_address {
            Some((employee_key, bump)) => {
                if self.vesting_account.owner != self.owner || employee_key
                    != self.employee_account_key.bytes@ {
                    Err(ErrorCode::Unauthorized)
                } else if self.employee_account is Some {
                    Err(ErrorCode::DuplicateGrant)
                } else {
                    Ok(bump)
                }
            },
            None => Err(ErrorCode::Unauthorized),
        }
    }

    /// What creating the allocation yields: its bump, or why there will be none.
    pub open spec fn create_outcome(&self) -> Result<u8, ErrorCode> {
        self.check_outcome(
            canonical_address(
                employee_seeds(self.beneficiary, self.vesting_account_key),
                self.program_id.bytes@,
            ),
        )
    }

    /// The accounts after `create_employee_account`: the allocation is stored,
    /// with nothing withdrawn, where it was created, and nothing changes where it
    /// was not.
    pub open spec fn created(
        self,
        start_time: i64,
        end_time: i64,
        cliff_time: i64,
        total_ammount: u64,
    ) -> CreateEmployeeAccount {
        match self.create_outcome() {
            Ok(bump) => CreateEmployeeAccount {
                employee_account: Some(
                    EmployeeAccount {
                        beneficiary: self.beneficiary,
                        start_time,
                        end_time,
                        cliff_time,
                        vesting_account: self.vesting_account_key,
                        total_ammount,
                        total_withdrawn: 0,
                        bump,
                    },
                ),
                ..self
            },
            Err(_) => self,
        }
    }

    /// Checks the accounts against the canonical address of the allocation, and
    /// gives its bump.
    pub fn check_accounts(&self, employee_address: Option<(Pubkey, u8)>) -> (r: Result<
        u8,
        ErrorCode,
    >)
        ensures
            r == self.check_outcome(canonical_bytes(employee_address)),
    {
        if self.vesting_account.owner != self.owner || !is_found_at(
            &employee_address,
            &self.employee_account_key,
        ) {
            return Err(ErrorCode::Unauthorized);
        }
        if self.employee_account.is_some() {
            return Err(ErrorCode::DuplicateGrant);
        }
        match employee_address {
            Some((_, bump)) => Ok(bump),
            None => Err(ErrorCode::Unauthorized),
        }
    }
}

/// Creates the allocation of the beneficiary under the grant, with the given
/// schedule and nothing withdrawn. Only the grant's owner may do so, and the
/// allocation must be handed in at the canonical address derived from the
/// beneficiary and the grant, else the call is `Unauthorized`; and no allocation
/// may be stored there yet, else it is a `DuplicateGrant`. The schedule is taken
/// as it is.
pub fn create_employee_account(
    ctx: &mut CreateEmployeeAccount,
    start_time: i64,
    end_time: i64,
    cliff_time: i64,
    total_ammount: u64,
) -> (r: Result<(), ErrorCode>)
    ensures
        match old(ctx).create_outcome() {
            Ok(_) => r is Ok,
            Err(e) => r == Err::<(), ErrorCode>(e),
        },
        *final(ctx) == old(ctx).created(start_time, end_time, cliff_time, total_ammount),
        r is Ok ==> (final(ctx).employee_account matches Some(allocation) && allocation.inv()
            && allocation.sits_at(final(ctx).employee_account_key, final(ctx).program_id)),
{
    let employee_address: Option<(Pubkey, u8)> = find_employee_address(
        &ctx.beneficiary,
        &ctx.vesting_account_key,
        &ctx.program_id,
    );
    let bump: u8 = match ctx.check_accounts(employee_address) {
        Ok(bump) => bump,
        Err(e) => {
            return Err(e);
        },
    };
    ctx.employee_account = Some(
        EmployeeAccount {
            beneficiary: ctx.beneficiary,
            start_time,
            end_time,
            cliff_time,
            vesting_account: ctx.vesting_account_key,
            total_ammount,
            total_withdrawn: 0,
            bump,
        },
    );
    Ok(())
}

} // verus!
