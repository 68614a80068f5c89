//! Claims. A claim is authorized, priced, paid and recorded: `claim_tokens`
//! does the first two and says what is to be transferred; the caller has the
//! ledger make the transfer; `settle_claim` records it, or leaves everything
//! as it was where the ledger refused.

use crate::accounts::{EmployeeAccount, VestingAccount};
use crate::address::{
    address_bytes, create_program_address, employee_seeds, employee_seeds_with_bump,
    program_address, seed_bytes, treasury_seeds, treasury_seeds_with_bump, vesting_seeds,
    vesting_seeds_with_bump, with_bump,
};
use crate::error::ErrorCode;
use crate::pubkey::{lemma_same_bytes_same_key, Pubkey};
use crate::schedule::VestingPhase;
use vstd::prelude::*;

verus! {

impl EmployeeAccount {
    /// What a claim at `now` may take: what has vested and is not yet withdrawn.
    pub open spec fn withdrawable(&self, now: i64) -> int {
        if self.vested(now) > self.total_withdrawn {
            self.vested(now) - self.total_withdrawn
        } else {
            0
        }
    }

    /// What `withdrawable_amount` returns.
    pub open spec fn withdrawable_amount_spec(&self, now: i64) -> Result<u64, ErrorCode> {
        if self.phase(now) is Unvested {
            Err(ErrorCode::CliffTimeNotPassed)
        } else if !self.schedule_valid() {
            Err(ErrorCode::InvalidVestingTime)
        } else if self.product_overflows(now) {
            Err(ErrorCode::InvalidVestingAmount)
        } else if self.withdrawable(now) == 0 {
            Err(ErrorCode::NoTokensToWithdraw)
        } else {
            Ok(self.withdrawable(now) as u64)
        }
    }

    /// What a claim at `now` may take. Nothing can be claimed up to the cliff; a
    /// schedule that does not end after it starts is rejected then; and a claim
    /// that would take nothing is rejected too.
    pub fn withdrawable_amount(&self, now: i64) -> (r: Result<u64, ErrorCode>)
        ensures
            r == self.withdrawable_amount_spec(now),
            r matches Ok(amount) ==> 0 < amount && self.total_withdrawn + amount == self.vested(now)
                && self.vested(now) <= self.total_ammount,
    {
        if self.phase(now) == VestingPhase::Unvested {
            return Err(ErrorCode::CliffTimeNotPassed);
        }
        let vested: u64 = match self.vested_amount(now) {
            Ok(vested) => vested,
            Err(e) => {
                return Err(e);
            },
        };
        let available: u64 = vested.saturating_sub(self.total_withdrawn);
        if available == 0 {
            return Err(ErrorCode::NoTokensToWithdraw);
        }
        Ok(available)
    }

    /// The allocation once `amount` more has been withdrawn.
    pub open spec fn after_withdrawal(self, amount: u64) -> EmployeeAccount {
        EmployeeAccount { total_withdrawn: (self.total_withdrawn + amount) as u64, ..self }
    }

    /// The allocation after a claim at `now`. Where the claim `settles` (it was
    /// authorized and the transfer went through) and there is something to
    /// withdraw, that much more is withdrawn; otherwise nothing changes.
    pub open spec fn after_claim(self, now: i64, settles: bool) -> EmployeeAccount {
        match self.withdrawable_amount_spec(now) {
            Ok(amount) => if settles {
                self.after_withdrawal(amount)
            } else {
                self
            },
            Err(_) => self,
        }
    }
}

/// The accounts of a claim, as the caller handed them in.
#[derive(Clone, Debug, PartialEq, Eq)]
pub struct ClaimTokens {
    /// The program under which all addresses are derived.
    pub program_id: Pubkey,
    /// Who signed the claim.
    pub beneficiary: Pubkey,
    /// Where the allocation is stored.
    pub employee_account_key: Pubkey,
    /// The allocation claimed from.
    pub employee_account: EmployeeAccount,
    /// Where the grant is stored.
    pub vesting_account_key: Pubkey,
    /// The grant.
    pub vesting_account: VestingAccount,
    /// The asset.
    pub mint: Pubkey,
    /// The number of decimals of the asset, which the ledger checks on a transfer.
    pub decimals: u8,
    /// The treasury that pays.
    pub treasury_token_account: Pubkey,
    /// The beneficiary's account that receives.
    pub employee_token_account: Pubkey,
}

/// A transfer for the ledger to make.
#[derive(Clone, Debug, PartialEq, Eq)]
pub struct TransferRequest {
    /// The account that pays.
    pub from: Pubkey,
    /// The account that receives.
    pub to: Pubkey,
    /// The asset.
    pub mint: Pubkey,
    /// The authority over the paying account.
    pub authority: Pubkey,
    /// How much to transfer.
    pub amount: u64,
    /// The number of decimals of the asset.
    pub decimals: u8,
    /// The seeds from which the authority's address is derived: they stand for its
    /// signature.
    pub signer_seeds: Vec<Vec<u8>>,
}

impl TransferRequest {
    /// This request pays `amount` out of the treasury of `ctx` to the
    /// beneficiary's account, on the treasury's own authority.
    pub open spec fn pays(&self, ctx: &ClaimTokens, company_name: Seq<char>, amount: u64) -> bool {
        &&& self.from == ctx.treasury_token_account
        &&& self.to == ctx.employee_token_account
        &&& self.mint == ctx.mint
        &&& self.authority == ctx.treasury_token_account
        &&& self.amount == amount
        &&& self.decimals == ctx.decimals
        &&& seed_bytes(self.signer_seeds@) == with_bump(
            treasury_seeds(company_name),
            ctx.vesting_account.treasury_bump,
        )
    }
}

impl ClaimTokens {
    /// The address derived for the allocation of the signer under the grant
    /// handed in, with the bump that the allocation stores.
    pub open spec fn employee_address(&self) -> Option<Seq<u8>> {
        program_address(
            with_bump(
                employee_seeds(self.beneficiary, self.vesting_account_key),
                self.employee_account.bump,
            ),
            self.program_id.bytes@,
        )
    }

    /// The address derived for the grant of the company `company_name`, with the
    /// bump that the grant stores.
    pub open spec fn vesting_address(&self, company_name: Seq<char>) -> Option<Seq<u8>> {
        program_address(
            with_bump(vesting_seeds(company_name), self.vesting_account.bump),
            self.program_id.bytes@,
        )
    }

    /// The accounts belong together: the signer is the beneficiary of the
    /// allocation, the allocation belongs to the grant and the grant names the
    /// asset and the treasury; and allocation and grant are stored at the given
    /// derived addresses.
    pub open spec fn accounts_match(
        &self,
        employee_address: Option<Seq<u8>>,
        vesting_address: Option<Seq<u8>>,
    ) -> bool {
        &&& self.employee_account.beneficiary == self.beneficiary
        &&& self.employee_account.vesting_account == self.vesting_account_key
        &&& employee_address == Some(self.employee_account_key.bytes@)
        &&& vesting_address == Some(self.vesting_account_key.bytes@)
        &&& self.vesting_account.mint == self.mint
        &&& self.vesting_account.treasury_token_account == self.treasury_token_account
    }

    /// The claim is authorized: the accounts belong together, and are stored where
    /// the signer, the grant and the company's name say.
    pub open spec fn authorized(&self, company_name: Seq<char>) -> bool {
        self.accounts_match(self.employee_address(), self.vesting_address(company_name))
    }

    /// What a claim at `now` yields: the amount to transfer, or why there is none.
    /// An unauthorized claim is rejected as such, whatever the schedule says.
    pub open spec fn claim_outcome(&self, company_name: Seq<char>, now: i64) -> Result<
        u64,
        ErrorCode,
    > {
        if !self.authorized(company_name) {
            Err(ErrorCode::Unauthorized)
        } else {
            self.employee_account.withdrawable_amount_spec(now)
        }
    }

    /// What `settle_claim` returns: the amount of the claim where the ledger made
    /// the transfer, `TransferFailed` where it refused, and the claim's own error
    /// where there was nothing to transfer.
    pub open spec fn settle_outcome(
        &self,
        company_name: Seq<char>,
        now: i64,
        transferred: bool,
    ) -> Result<u64, ErrorCode> {
        match self.claim_outcome(company_name, now) {
            Ok(amount) => if transferred {
                Ok(amount)
            } else {
                Err(ErrorCode::TransferFailed)
            },
            Err(e) => Err(e),
        }
    }

    /// The accounts after `settle_claim`: the amount is added to what was
    /// withdrawn where the claim went through; nothing changes where it did not.
    pub open spec fn settled(self, company_name: Seq<char>, now: i64, transferred: bool) -> ClaimTokens {
        match self.settle_outcome(company_name, now, transferred) {
            Ok(amount) => ClaimTokens {
                employee_account: self.employee_account.after_withdrawal(amount),
                ..self
            },
            Err(_) => self,
        }
    }

    /// Checks that the accounts belong together, given the addresses derived for
    /// the allocation and for the grant.
    pub fn check_accounts(
        &self,
        employee_address: Option<Pubkey>,
        vesting_address: Option<Pubkey>,
    ) -> (r: Result<(), ErrorCode>)
        ensures
            r == (if self.accounts_match(
                address_bytes(employee_address),
                address_bytes(vesting_address),
            ) {
                Ok::<(), ErrorCode>(())
            } else {
                Err::<(), ErrorCode>(ErrorCode::Unauthorized)
            }),
    {
        let employee_at_address: bool = match employee_address {
            Some(address) => {
                proof {
                    lemma_same_bytes_same_key(address, self.employee_account_key);
                }
                address == self.employee_account_key
            },
            None => false,
        };
        let vesting_at_address: bool = match vesting_address {
            Some(address) => {
                proof {
                    lemma_same_bytes_same_key(address, self.vesting_account_key);
                }
                address == self.vesting_account_key
            },
            None => false,
        };
        if self.employee_account.beneficiary == self.beneficiary
            && self.employee_account.vesting_account == self.vesting_account_key
            && employee_at_address && vesting_at_address && self.vesting_account.mint == self.mint
            && self.vesting_account.treasury_token_account == self.treasury_token_account {
            Ok(())
        } else {
            Err(ErrorCode::Unauthorized)
        }
    }

    /// Derives the addresses of the allocation and of the grant, and checks that
    /// the accounts belong together.
    pub fn authorize(&self, company_name: &str) -> (r: Result<(), ErrorCode>)
        ensures
            r == (if self.authorized(company_name@) {
                Ok::<(), ErrorCode>(())
            } else {
                Err::<(), ErrorCode>(ErrorCode::Unauthorized)
            }),
    {
        let employee_seeds: Vec<Vec<u8>> = employee_seeds_with_bump(
            &self.beneficiary,
            &self.vesting_account_key,
            self.employee_account.bump,
        );
        let employee_address: Option<Pubkey> = create_program_address(
            &employee_seeds,
            &self.program_id,
        );
        let vesting_seeds: Vec<Vec<u8>> = vesting_seeds_with_bump(
            company_name,
            self.vesting_account.bump,
        );
        let vesting_address: Option<Pubkey> = create_program_address(
            &vesting_seeds,
            &self.program_id,
        );
        self.check_accounts(employee_address, vesting_address)
    }
}

/// Authorizes and prices a claim at `now`, and says what the ledger is to
/// transfer for it. Nothing is recorded yet: that is for `settle_claim`, once
/// the transfer has been made.
pub fn claim_tokens(ctx: &ClaimTokens, company_name: String, now: i64) -> (r: Result<
    TransferRequest,
    ErrorCode,
>)
    ensures
        match ctx.claim_outcome(company_name@, now) {
            Ok(amount) => r matches Ok(request) && request.pays(ctx, company_name@, amount),
            Err(e) => r matches Err(refusal) && refusal == e,
        },
{
    match ctx.authorize(company_name.as_str()) {
        Ok(()) => {},
        Err(e) => {
            return Err(e);
        },
    }
    let amount: u64 = match ctx.employee_account.withdrawable_amount(now) {
        Ok(amount) => amount,
        Err(e) => {
            return Err(e);
        },
    };
    Ok(
        TransferRequest {
            from: ctx.treasury_token_account,
            to: ctx.employee_token_account,
            mint: ctx.mint,
            authority: ctx.treasury_token_account,
            amount,
            decimals: ctx.decimals,
            signer_seeds: treasury_seeds_with_bump(
                company_name.as_str(),
                ctx.vesting_account.treasury_bump,
            ),
        },
    )
}

/// Completes a claim at `now`, given whether the ledger made the transfer that
/// `claim_tokens` asked for. The claim is authorized and priced again, so what
/// is recorded depends on nothing that the caller carried over. Where the
/// transfer was made, the amount is added to what was withdrawn and returned;
/// where it was not, the claim fails with `TransferFailed`. A claim that fails,
/// for whatever reason, changes nothing.
pub fn settle_claim(ctx: &mut ClaimTokens, company_name: String, now: i64, transferred: bool) -> (r:
    Result<u64, ErrorCode>)
    ensures
        r == old(ctx).settle_outcome(company_name@, now, transferred),
        *final(ctx) == old(ctx).settled(company_name@, now, transferred),
        r is Ok ==> final(ctx).employee_account.inv(),
        old(ctx).employee_account.inv() ==> final(ctx).employee_account.inv(),
        final(ctx).employee_account.total_withdrawn >= old(ctx).employee_account.total_withdrawn,
{
    match ctx.authorize(company_name.as_str()) {
        Ok(()) => {},
        Err(e) => {
            return Err(e);
        },
    }
    let amount: u64 = match ctx.employee_account.withdrawable_amount(now) {
        Ok(amount) => amount,
        Err(e) => {
            return Err(e);
        },
    };
    if !transferred {
        return Err(ErrorCode::TransferFailed);
    }
    ctx.employee_account.total_withdrawn = ctx.employee_account.total_withdrawn + amount;
    Ok(amount)
}

} // verus!
