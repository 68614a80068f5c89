use tokenvesting::address::{
    find_employee_address, find_treasury_address, find_vesting_address, TREASURY_TAG,
};
use tokenvesting::{
    claim_tokens, create_employee_account, create_vesting_account, settle_claim, ClaimTokens,
    CreateEmployeeAccount, CreateVestingAccount, EmployeeAccount, ErrorCode, Pubkey,
    VestingAccount,
};

fn key(byte: u8) -> Pubkey {
    Pubkey::new_from_array([byte; 32])
}

fn program() -> Pubkey {
    key(7)
}

fn company() -> String {
    String::from("acme")
}

/// A grant of the company, created through the library, with where it is stored.
fn grant() -> (Pubkey, VestingAccount) {
    let (vesting_key, _) = find_vesting_address("acme", &program()).unwrap();
    let (treasury_key, _) = find_treasury_address("acme", &program()).unwrap();
    let mut ctx = CreateVestingAccount {
        program_id: program(),
        signer: key(1),
        vesting_account_key: vesting_key,
        vesting_account: None,
        mint: key(3),
        treasury_token_account: treasury_key,
    };
    assert_eq!(create_vesting_account(&mut ctx, company()), Ok(()));
    (vesting_key, ctx.vesting_account.unwrap())
}

/// An allocation for the beneficiary `key(2)`, created through the library, with
/// where it is stored.
fn allocation(start: i64, cliff: i64, end: i64, total: u64) -> (Pubkey, EmployeeAccount) {
    let (vesting_key, vesting_account) = grant();
    let (employee_key, _) = find_employee_address(&key(2), &vesting_key, &program()).unwrap();
    let mut ctx = CreateEmployeeAccount {
        program_id: program(),
        owner: key(1),
        beneficiary: key(2),
        vesting_account_key: vesting_key,
        vesting_account,
        employee_account_key: employee_key,
        employee_account: None,
    };
    assert_eq!(create_employee_account(&mut ctx, start, end, cliff, total), Ok(()));
    (employee_key, ctx.employee_account.unwrap())
}

fn claim(start: i64, cliff: i64, end: i64, total: u64) -> ClaimTokens {
    let (vesting_key, vesting_account) = grant();
    let (employee_key, employee_account) = allocation(start, cliff, end, total);
    ClaimTokens {
        program_id: program(),
        beneficiary: key(2),
        employee_account_key: employee_key,
        employee_account,
        vesting_account_key: vesting_key,
        mint: vesting_account.mint,
        treasury_token_account: vesting_account.treasury_token_account,
        vesting_account,
        decimals: 6,
        employee_token_account: key(9),
    }
}

#[test]
fn a_schedule_is_claimed_step_by_step() {
    let mut ctx = claim(0, 100, 1000, 1_000_000);

    assert_eq!(claim_tokens(&ctx, company(), 50), Err(ErrorCode::CliffTimeNotPassed));
    assert_eq!(settle_claim(&mut ctx, company(), 50, true), Err(ErrorCode::CliffTimeNotPassed));
    assert_eq!(ctx.employee_account.total_withdrawn, 0);

    let request = claim_tokens(&ctx, company(), 500).unwrap();
    assert_eq!(request.amount, 500_000);
    assert_eq!(settle_claim(&mut ctx, company(), 500, true), Ok(500_000));
    assert_eq!(ctx.employee_account.total_withdrawn, 500_000);

    assert_eq!(claim_tokens(&ctx, company(), 500), Err(ErrorCode::NoTokensToWithdraw));
    assert_eq!(settle_claim(&mut ctx, company(), 500, true), Err(ErrorCode::NoTokensToWithdraw));
    assert_eq!(ctx.employee_account.total_withdrawn, 500_000);

    let request = claim_tokens(&ctx, company(), 1000).unwrap();
    assert_eq!(request.amount, 500_000);
    assert_eq!(settle_claim(&mut ctx, company(), 1000, true), Ok(500_000));
    assert_eq!(ctx.employee_account.total_withdrawn, 1_000_000);

    assert_eq!(claim_tokens(&ctx, company(), 2000), Err(ErrorCode::NoTokensToWithdraw));
    assert_eq!(settle_claim(&mut ctx, company(), 2000, true), Err(ErrorCode::NoTokensToWithdraw));
    assert_eq!(ctx.employee_account.total_withdrawn, 1_000_000);
}

#[test]
fn a_schedule_that_ends_where_it_starts_cannot_be_claimed() {
    let mut ctx = claim(1000, 100, 1000, 1_000_000);
    assert_eq!(claim_tokens(&ctx, company(), 100), Err(ErrorCode::CliffTimeNotPassed));
    assert_eq!(claim_tokens(&ctx, company(), 101), Err(ErrorCode::InvalidVestingTime));
    assert_eq!(claim_tokens(&ctx, company(), 1000), Err(ErrorCode::InvalidVestingTime));
    assert_eq!(claim_tokens(&ctx, company(), 5000), Err(ErrorCode::InvalidVestingTime));
    let before = ctx.clone();
    assert_eq!(settle_claim(&mut ctx, company(), 5000, true), Err(ErrorCode::InvalidVestingTime));
    assert_eq!(ctx, before);
}

#[test]
fn a_schedule_that_ends_before_it_starts_cannot_be_claimed() {
    let ctx = claim(1000, 100, 900, 1_000_000);
    assert_eq!(claim_tokens(&ctx, company(), 950), Err(ErrorCode::InvalidVestingTime));
    assert_eq!(claim_tokens(&ctx, company(), 2000), Err(ErrorCode::InvalidVestingTime));
}

#[test]
fn a_stranger_cannot_claim() {
    let mut ctx = claim(0, 100, 1000, 1_000_000);
    ctx.beneficiary = key(4);
    let before = ctx.clone();
    assert_eq!(claim_tokens(&ctx, company(), 50), Err(ErrorCode::Unauthorized));
    assert_eq!(claim_tokens(&ctx, company(), 500), Err(ErrorCode::Unauthorized));
    assert_eq!(claim_tokens(&ctx, company(), 5000), Err(ErrorCode::Unauthorized));
    assert_eq!(settle_claim(&mut ctx, company(), 500, true), Err(ErrorCode::Unauthorized));
    assert_eq!(ctx, before);
}

#[test]
fn a_stranger_cannot_claim_from_an_allocation_made_out_to_them_elsewhere() {
    // The stranger hands in an allocation of their own making, stored nowhere
    // that the program derives for them.
    let mut ctx = claim(0, 100, 1000, 1_000_000);
    ctx.beneficiary = key(4);
    ctx.employee_account.beneficiary = key(4);
    assert_eq!(claim_tokens(&ctx, company(), 500), Err(ErrorCode::Unauthorized));
}

#[test]
fn a_claim_against_another_grant_is_unauthorized() {
    let mut ctx = claim(0, 100, 1000, 1_000_000);
    ctx.employee_account.vesting_account = key(5);
    assert_eq!(claim_tokens(&ctx, company(), 500), Err(ErrorCode::Unauthorized));
}

#[test]
fn a_claim_with_another_mint_or_treasury_is_unauthorized() {
    let mut ctx = claim(0, 100, 1000, 1_000_000);
    ctx.mint = key(5);
    assert_eq!(claim_tokens(&ctx, company(), 500), Err(ErrorCode::Unauthorized));
    let mut ctx = claim(0, 100, 1000, 1_000_000);
    ctx.treasury_token_account = key(5);
    assert_eq!(claim_tokens(&ctx, company(), 500), Err(ErrorCode::Unauthorized));
}

#[test]
fn a_claim_under_another_name_is_unauthorized() {
    let ctx = claim(0, 100, 1000, 1_000_000);
    assert_eq!(claim_tokens(&ctx, String::from("acme2"), 500), Err(ErrorCode::Unauthorized));
    assert_eq!(claim_tokens(&ctx, String::new(), 500), Err(ErrorCode::Unauthorized));
}

#[test]
fn a_claim_on_accounts_stored_elsewhere_is_unauthorized() {
    let mut ctx = claim(0, 100, 1000, 1_000_000);
    ctx.employee_account_key = program();
    assert_eq!(claim_tokens(&ctx, company(), 500), Err(ErrorCode::Unauthorized));
    let mut ctx = claim(0, 100, 1000, 1_000_000);
    ctx.employee_account.bump = ctx.employee_account.bump.wrapping_sub(1);
    assert_eq!(claim_tokens(&ctx, company(), 500), Err(ErrorCode::Unauthorized));
    let mut ctx = claim(0, 100, 1000, 1_000_000);
    ctx.program_id = key(8);
    assert_eq!(claim_tokens(&ctx, company(), 500), Err(ErrorCode::Unauthorized));
}

#[test]
fn the_transfer_is_paid_by_the_treasury_on_its_own_authority() {
    let ctx = claim(0, 100, 1000, 1_000_000);
    let request = claim_tokens(&ctx, company(), 250).unwrap();
    assert_eq!(request.from, ctx.treasury_token_account);
    assert_eq!(request.authority, ctx.treasury_token_account);
    assert_eq!(request.to, key(9));
    assert_eq!(request.mint, key(3));
    assert_eq!(request.amount, 250_000);
    assert_eq!(request.decimals, 6);
    assert_eq!(
        request.signer_seeds,
        vec![
            b"vesting_treasury".to_vec(),
            b"acme".to_vec(),
            vec![ctx.vesting_account.treasury_bump],
        ]
    );
    assert_eq!(TREASURY_TAG.to_vec(), b"vesting_treasury".to_vec());
}

#[test]
fn a_refused_transfer_changes_nothing() {
    let mut ctx = claim(0, 100, 1000, 1_000_000);
    let before = ctx.clone();
    assert_eq!(settle_claim(&mut ctx, company(), 500, false), Err(ErrorCode::TransferFailed));
    assert_eq!(ctx, before);
    assert_eq!(settle_claim(&mut ctx, company(), 500, true), Ok(500_000));
    assert_eq!(ctx.employee_account.total_withdrawn, 500_000);
}

#[test]
fn a_claim_changes_only_what_was_withdrawn() {
    let mut ctx = claim(0, 100, 1000, 1_000_000);
    let before = ctx.clone();
    assert_eq!(settle_claim(&mut ctx, company(), 300, true), Ok(300_000));
    let mut expected = before;
    expected.employee_account.total_withdrawn = 300_000;
    assert_eq!(ctx, expected);
}

#[test]
fn no_run_of_claims_withdraws_more_than_was_allocated() {
    let mut ctx = claim(0, 10, 997, 1_000_003);
    let mut paid: u64 = 0;
    let times: [i64; 12] = [5, 11, 11, 300, 299, 640, 996, 997, 997, 2000, 100, i64::MAX];
    for now in times {
        let before = ctx.employee_account.total_withdrawn;
        match settle_claim(&mut ctx, company(), now, true) {
            Ok(amount) => {
                assert!(amount > 0);
                paid += amount;
                assert_eq!(ctx.employee_account.total_withdrawn, before + amount);
            }
            Err(_) => assert_eq!(ctx.employee_account.total_withdrawn, before),
        }
        assert!(ctx.employee_account.total_withdrawn <= ctx.employee_account.total_ammount);
    }
    assert_eq!(paid, 1_000_003);
    assert_eq!(ctx.employee_account.total_withdrawn, 1_000_003);
}

#[test]
fn an_overflowing_claim_is_rejected_and_changes_nothing() {
    let mut ctx = claim(0, 0, 1_000_000, u64::MAX);
    let before = ctx.clone();
    assert_eq!(claim_tokens(&ctx, company(), 2), Err(ErrorCode::InvalidVestingAmount));
    assert_eq!(settle_claim(&mut ctx, company(), 2, true), Err(ErrorCode::InvalidVestingAmount));
    assert_eq!(ctx, before);
    assert_eq!(settle_claim(&mut ctx, company(), 1_000_000, true), Ok(u64::MAX));
}

#[test]
fn accounts_are_checked_against_the_addresses_given() {
    let ctx = claim(0, 100, 1000, 1_000_000);
    let employee = Some(ctx.employee_account_key);
    let vesting = Some(ctx.vesting_account_key);
    assert_eq!(ctx.check_accounts(employee, vesting), Ok(()));
    assert_eq!(ctx.check_accounts(None, vesting), Err(ErrorCode::Unauthorized));
    assert_eq!(ctx.check_accounts(employee, None), Err(ErrorCode::Unauthorized));
    assert_eq!(ctx.check_accounts(vesting, employee), Err(ErrorCode::Unauthorized));
    assert_eq!(ctx.authorize("acme"), Ok(()));
    assert_eq!(ctx.authorize("Acme"), Err(ErrorCode::Unauthorized));
}
