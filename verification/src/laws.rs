//! What holds of grants and claims, whatever the accounts and the times:
//! proved here from what the instructions are verified to do.

use crate::accounts::EmployeeAccount;
use crate::claim::ClaimTokens;
use crate::error::ErrorCode;
use crate::grants::{CreateEmployeeAccount, CreateVestingAccount};
use crate::schedule::lemma_vested_within_total;
use vstd::prelude::*;

verus! {

impl EmployeeAccount {
    /// The allocation after a run of claims, each given by its time and by
    /// whether it settles.
    pub open spec fn after_claims(self, claims: Seq<(i64, bool)>) -> EmployeeAccount
        decreases claims.len(),
    {
        if claims.len() == 0 {
            self
        } else {
            self.after_claims(claims.drop_last()).after_claim(claims.last().0, claims.last().1)
        }
    }

    /// Allocations that differ at most in what has been withdrawn.
    pub open spec fn same_terms(self, other: EmployeeAccount) -> bool {
        other == EmployeeAccount { total_withdrawn: other.total_withdrawn, ..self }
    }
}

/// A claim that settles leaves exactly what has vested withdrawn, which is no
/// more than was allocated; and no claim lowers what was withdrawn, or changes
/// anything else of the allocation.
pub proof fn lemma_claim_keeps_withdrawn_within_total(
    account: EmployeeAccount,
    now: i64,
    settles: bool,
)
    ensures
        account.same_terms(account.after_claim(now, settles)),
        account.after_claim(now, settles).total_withdrawn >= account.total_withdrawn,
        account.inv() ==> account.after_claim(now, settles).inv(),
        settles && account.withdrawable_amount_spec(now) is Ok ==> account.after_claim(
            now,
            settles,
        ).total_withdrawn == account.vested(now) && account.after_claim(now, settles).inv(),
{
    if account.withdrawable_amount_spec(now) is Ok {
        lemma_vested_within_total(account, now);
    }
}

/// What was withdrawn moves only past the cliff: a claim made while the
/// schedule is unvested changes nothing, whether it settles or not.
pub proof fn lemma_no_withdrawal_while_unvested(account: EmployeeAccount, now: i64, settles: bool)
    requires
        account.phase(now) is Unvested,
    ensures
        account.withdrawable_amount_spec(now) == Err::<u64, ErrorCode>(
            ErrorCode::CliffTimeNotPassed,
        ),
        account.after_claim(now, settles) == account,
{
}

/// After any run of claims, at whatever times and in whatever order, no more
/// has been withdrawn than was allocated, given that this held before the
/// first of them. What was withdrawn has not shrunk, and nothing else of the
/// allocation has changed.
pub proof fn lemma_claims_keep_withdrawn_within_total(
    account: EmployeeAccount,
    claims: Seq<(i64, bool)>,
)
    requires
        account.inv(),
    ensures
        account.after_claims(claims).inv(),
        account.after_claims(claims).total_withdrawn >= account.total_withdrawn,
        account.same_terms(account.after_claims(claims)),
    decreases claims.len(),
{
    if claims.len() > 0 {
        lemma_claims_keep_withdrawn_within_total(account, claims.drop_last());
        lemma_claim_keeps_withdrawn_within_total(
            account.after_claims(claims.drop_last()),
            claims.last().0,
            claims.last().1,
        );
    }
}

/// Settling a claim does to the allocation what `after_claim` says, and to
/// nothing else: the claim settles where it is authorized and the ledger made
/// the transfer.
pub proof fn lemma_settled_is_after_claim(
    ctx: ClaimTokens,
    company_name: Seq<char>,
    now: i64,
    transferred: bool,
)
    ensures
        ctx.settled(company_name, now, transferred) == (ClaimTokens {
            employee_account: ctx.employee_account.after_claim(
                now,
                ctx.authorized(company_name) && transferred,
            ),
            ..ctx
        }),
        ctx.employee_account.inv() || ctx.settle_outcome(company_name, now, transferred) is Ok
            ==> ctx.settled(company_name, now, transferred).employee_account.inv(),
{
    lemma_claim_keeps_withdrawn_within_total(
        ctx.employee_account,
        now,
        ctx.authorized(company_name) && transferred,
    );
}

/// A claim repeated at the same time finds nothing to withdraw: once a claim
/// has settled, a second one at that time is rejected with
/// `NoTokensToWithdraw`, whether or not a transfer is reported for it, and
/// changes nothing.
pub proof fn lemma_repeated_claim_finds_nothing(
    ctx: ClaimTokens,
    company_name: Seq<char>,
    now: i64,
    transferred: bool,
)
    requires
        ctx.settle_outcome(company_name, now, true) is Ok,
    ensures
        ({
            let first = ctx.settled(company_name, now, true);
            &&& first.claim_outcome(company_name, now) == Err::<u64, ErrorCode>(
                ErrorCode::NoTokensToWithdraw,
            )
            &&& first.settle_outcome(company_name, now, transferred) == Err::<u64, ErrorCode>(
                ErrorCode::NoTokensToWithdraw,
            )
            &&& first.settled(company_name, now, transferred) == first
        }),
{
    let first = ctx.settled(company_name, now, true);
    lemma_vested_within_total(ctx.employee_account, now);
    assert(first.authorized(company_name));
    assert(first.employee_account.vested(now) == ctx.employee_account.vested(now));
    assert(first.employee_account.withdrawable(now) == 0);
}

/// A claim signed by anyone but the beneficiary of the allocation is
/// `Unauthorized`, at every time and whatever the schedule or the ledger says,
/// and changes nothing.
pub proof fn lemma_stranger_is_unauthorized(
    ctx: ClaimTokens,
    company_name: Seq<char>,
    now: i64,
    transferred: bool,
)
    requires
        ctx.beneficiary != ctx.employee_account.beneficiary,
    ensures
        ctx.claim_outcome(company_name, now) == Err::<u64, ErrorCode>(ErrorCode::Unauthorized),
        ctx.settle_outcome(company_name, now, transferred) == Err::<u64, ErrorCode>(
            ErrorCode::Unauthorized,
        ),
        ctx.settled(company_name, now, transferred) == ctx,
{
}

/// A claim whose transfer the ledger refused changes nothing: the transfer and
/// the record of it happen together or not at all.
pub proof fn lemma_refused_transfer_changes_nothing(
    ctx: ClaimTokens,
    company_name: Seq<char>,
    now: i64,
)
    ensures
        ctx.settle_outcome(company_name, now, false) is Err,
        ctx.settled(company_name, now, false) == ctx,
{
}

/// Past the cliff of a schedule that does not end after it starts, every
/// authorized claim is rejected with `InvalidVestingTime`.
pub proof fn lemma_claim_on_schedule_without_duration(
    ctx: ClaimTokens,
    company_name: Seq<char>,
    now: i64,
)
    requires
        ctx.authorized(company_name),
        ctx.employee_account.end_time <= ctx.employee_account.start_time,
        ctx.employee_account.cliff_time < now,
    ensures
        ctx.claim_outcome(company_name, now) == Err::<u64, ErrorCode>(
            ErrorCode::InvalidVestingTime,
        ),
{
}

/// A company's grant is created once: where one has been created, creating it
/// again under the same name is a `DuplicateGrant`, and no further creation,
/// under whatever name, changes what is stored.
pub proof fn lemma_grant_is_created_once(
    ctx: CreateVestingAccount,
    company_name: String,
    again: String,
)
    requires
        ctx.create_outcome(company_name@) is Ok,
    ensures
        ({
            let stored = ctx.created(company_name);
            &&& stored.create_outcome(company_name@) == Err::<(u8, u8), ErrorCode>(
                ErrorCode::DuplicateGrant,
            )
            &&& stored.create_outcome(again@) is Err
            &&& stored.created(again) == stored
        }),
{
}

/// An allocation is created once: where one has been created, creating it
/// again is a `DuplicateGrant`, whatever the schedule and the amount, and
/// changes nothing of what is stored.
pub proof fn lemma_allocation_is_created_once(
    ctx: CreateEmployeeAccount,
    start_time: i64,
    end_time: i64,
    cliff_time: i64,
    total_ammount: u64,
    other_start_time: i64,
    other_end_time: i64,
    other_cliff_time: i64,
    other_total_ammount: u64,
)
    requires
        ctx.create_outcome() is Ok,
    ensures
        ({
            let stored = ctx.created(start_time, end_time, cliff_time, total_ammount);
            &&& stored.create_outcome() == Err::<u8, ErrorCode>(ErrorCode::DuplicateGrant)
            &&& stored.created(
                other_start_time,
                other_end_time,
                other_cliff_time,
                other_total_ammount,
            ) == stored
        }),
{
}

/// Only the owner of a grant allocates under it: for any other signer the
/// creation is `Unauthorized`, whatever else is handed in, and stores nothing.
pub proof fn lemma_only_the_owner_allocates(
    ctx: CreateEmployeeAccount,
    start_time: i64,
    end_time: i64,
    cliff_time: i64,
    total_ammount: u64,
)
    requires
        ctx.owner != ctx.vesting_account.owner,
    ensures
        ctx.create_outcome() == Err::<u8, ErrorCode>(ErrorCode::Unauthorized),
        ctx.created(start_time, end_time, cliff_time, total_ammount) == ctx,
{
}

/// Accounts that are stored where their contents say, and that name each
/// other, make an authorized claim: what `create_vesting_account` and
/// `create_employee_account` have stored can be claimed from by the
/// beneficiary, under the company's name.
pub proof fn lemma_accounts_in_place_are_authorized(ctx: ClaimTokens)
    requires
        ctx.vesting_account.sits_at(ctx.vesting_account_key, ctx.program_id),
        ctx.employee_account.sits_at(ctx.employee_account_key, ctx.program_id),
        ctx.employee_account.beneficiary == ctx.beneficiary,
        ctx.employee_account.vesting_account == ctx.vesting_account_key,
        ctx.vesting_account.mint == ctx.mint,
        ctx.vesting_account.treasury_token_account == ctx.treasury_token_account,
    ensures
        ctx.authorized(ctx.vesting_account.company_name@),
{
}

} // verus!
