use tokenvesting::schedule::saturating_seconds;
use tokenvesting::{EmployeeAccount, ErrorCode, Pubkey, VestingPhase};

fn key(byte: u8) -> Pubkey {
    Pubkey::new_from_array([byte; 32])
}

fn allocation(start: i64, cliff: i64, end: i64, total: u64, withdrawn: u64) -> EmployeeAccount {
    EmployeeAccount {
        beneficiary: key(1),
        start_time: start,
        end_time: end,
        cliff_time: cliff,
        vesting_account: key(2),
        total_ammount: total,
        total_withdrawn: withdrawn,
        bump: 255,
    }
}

#[test]
fn nothing_vests_up_to_the_cliff() {
    let a = allocation(0, 100, 1000, 1_000_000, 0);
    assert_eq!(a.vested_amount(-5), Ok(0));
    assert_eq!(a.vested_amount(0), Ok(0));
    assert_eq!(a.vested_amount(50), Ok(0));
    assert_eq!(a.vested_amount(100), Ok(0));
}

#[test]
fn vesting_is_linear_between_cliff_and_end() {
    let a = allocation(0, 100, 1000, 1_000_000, 0);
    assert_eq!(a.vested_amount(101), Ok(101_000));
    assert_eq!(a.vested_amount(500), Ok(500_000));
    assert_eq!(a.vested_amount(999), Ok(999_000));
}

#[test]
fn vesting_rounds_down() {
    let a = allocation(0, 0, 3, 10, 0);
    assert_eq!(a.vested_amount(1), Ok(3));
    assert_eq!(a.vested_amount(2), Ok(6));
    assert_eq!(a.vested_amount(3), Ok(10));
    let b = allocation(10, 10, 17, 100, 0);
    assert_eq!(b.vested_amount(11), Ok(14));
    assert_eq!(b.vested_amount(16), Ok(85));
}

#[test]
fn everything_has_vested_from_the_end_on() {
    let a = allocation(0, 100, 1000, 1_000_000, 0);
    assert_eq!(a.vested_amount(1000), Ok(1_000_000));
    assert_eq!(a.vested_amount(1001), Ok(1_000_000));
    assert_eq!(a.vested_amount(i64::MAX), Ok(1_000_000));
}

#[test]
fn the_whole_allocation_vests_at_the_end_though_the_product_would_overflow() {
    let a = allocation(0, 0, 1_000_000, u64::MAX, 0);
    assert_eq!(a.vested_amount(1_000_000), Ok(u64::MAX));
    assert_eq!(a.vested_amount(999_999), Err(ErrorCode::InvalidVestingAmount));
}

#[test]
fn nothing_has_vested_at_the_start() {
    let a = allocation(500, 100, 1000, 1_000_000, 0);
    assert_eq!(a.vested_amount(500), Ok(0));
    assert_eq!(a.vested_amount(501), Ok(2_000));
    let b = allocation(500, 500, 1000, 1_000_000, 0);
    assert_eq!(b.vested_amount(500), Ok(0));
}

#[test]
fn nothing_vests_before_a_start_that_follows_the_cliff() {
    let a = allocation(500, 100, 1000, 1_000_000, 0);
    assert_eq!(a.vested_amount(101), Ok(0));
    assert_eq!(a.vested_amount(499), Ok(0));
}

#[test]
fn a_cliff_after_the_end_holds_everything_back() {
    let a = allocation(0, 2000, 1000, 1_000_000, 0);
    assert_eq!(a.vested_amount(1000), Ok(0));
    assert_eq!(a.vested_amount(2000), Ok(0));
    assert_eq!(a.vested_amount(2001), Ok(1_000_000));
}

#[test]
fn a_schedule_without_duration_is_rejected() {
    let a = allocation(1000, 100, 1000, 1_000_000, 0);
    assert_eq!(a.vested_amount(50), Err(ErrorCode::InvalidVestingTime));
    assert_eq!(a.vested_amount(1000), Err(ErrorCode::InvalidVestingTime));
    assert_eq!(a.vested_amount(5000), Err(ErrorCode::InvalidVestingTime));
    let b = allocation(1000, 100, 900, 1_000_000, 0);
    assert_eq!(b.vested_amount(950), Err(ErrorCode::InvalidVestingTime));
}

#[test]
fn an_overflowing_product_is_rejected() {
    let a = allocation(0, 0, 1_000_000, u64::MAX / 2, 0);
    assert_eq!(a.vested_amount(1), Ok(9_223_372_036_854));
    assert_eq!(a.vested_amount(2), Ok(18_446_744_073_709));
    assert_eq!(a.vested_amount(3), Err(ErrorCode::InvalidVestingAmount));
    assert_eq!(a.vested_amount(1_000_000), Ok(u64::MAX / 2));
}

#[test]
fn vesting_never_shrinks_as_time_passes() {
    let a = allocation(-50, 20, 977, 123_456_789, 0);
    let mut last: u64 = 0;
    let mut now: i64 = -100;
    while now <= 1100 {
        let vested = a.vested_amount(now).unwrap();
        assert!(vested >= last);
        assert!(vested <= a.total_ammount);
        last = vested;
        now += 1;
    }
    assert_eq!(last, 123_456_789);
}

#[test]
fn seconds_saturate_at_both_ends() {
    assert_eq!(saturating_seconds(0, 10), 10);
    assert_eq!(saturating_seconds(10, 10), 0);
    assert_eq!(saturating_seconds(10, 0), 0);
    assert_eq!(saturating_seconds(-5, 5), 10);
    assert_eq!(saturating_seconds(i64::MIN, i64::MAX), i64::MAX as u64);
    assert_eq!(saturating_seconds(-1, i64::MAX), i64::MAX as u64);
    assert_eq!(saturating_seconds(0, i64::MAX), i64::MAX as u64);
    assert_eq!(saturating_seconds(i64::MAX, i64::MIN), 0);
}

#[test]
fn a_schedule_longer_than_the_clock_still_vests() {
    let a = allocation(i64::MIN, i64::MIN, i64::MAX, 2, 0);
    assert_eq!(a.vested_amount(i64::MIN), Ok(0));
    assert_eq!(a.vested_amount(i64::MIN + 1), Ok(0));
    assert_eq!(a.vested_amount(-2), Ok(1));
    assert_eq!(a.vested_amount(-1), Ok(2));
    assert_eq!(a.vested_amount(0), Ok(2));
    assert_eq!(a.vested_amount(i64::MAX), Ok(2));
}

#[test]
fn withdrawable_is_what_vested_less_what_was_withdrawn() {
    let a = allocation(0, 100, 1000, 1_000_000, 200_000);
    assert_eq!(a.withdrawable_amount(500), Ok(300_000));
    assert_eq!(a.withdrawable_amount(1000), Ok(800_000));
    assert_eq!(a.withdrawable_amount(200), Err(ErrorCode::NoTokensToWithdraw));
}

#[test]
fn withdrawable_saturates_where_more_was_withdrawn_than_vested() {
    let a = allocation(0, 100, 1000, 1_000_000, 900_000);
    assert_eq!(a.withdrawable_amount(101), Err(ErrorCode::NoTokensToWithdraw));
    let b = allocation(0, 100, 1000, 1_000_000, u64::MAX);
    assert_eq!(b.withdrawable_amount(5000), Err(ErrorCode::NoTokensToWithdraw));
}

#[test]
fn the_cliff_comes_before_the_schedule_check() {
    let a = allocation(1000, 100, 1000, 1_000_000, 0);
    assert_eq!(a.withdrawable_amount(100), Err(ErrorCode::CliffTimeNotPassed));
    assert_eq!(a.withdrawable_amount(101), Err(ErrorCode::InvalidVestingTime));
}

#[test]
fn an_empty_allocation_has_nothing_to_withdraw() {
    let a = allocation(0, 100, 1000, 0, 0);
    assert_eq!(a.withdrawable_amount(500), Err(ErrorCode::NoTokensToWithdraw));
    assert_eq!(a.withdrawable_amount(5000), Err(ErrorCode::NoTokensToWithdraw));
}

#[test]
fn withdrawable_fails_on_overflow() {
    let a = allocation(0, 0, 1_000_000, u64::MAX, 0);
    assert_eq!(a.withdrawable_amount(2), Err(ErrorCode::InvalidVestingAmount));
}

#[test]
fn each_error_has_its_message() {
    assert_eq!(ErrorCode::CliffTimeNotPassed.message(), "Cliff time still not passed!");
    assert_eq!(ErrorCode::InvalidVestingTime.message(), "Invalid vesting time!");
    assert_eq!(ErrorCode::InvalidVestingAmount.message(), "Invalid vesting amount!");
    assert_eq!(ErrorCode::NoTokensToWithdraw.message(), "No tokens to withdraw!");
    assert_eq!(ErrorCode::DuplicateGrant.message(), "A grant already exists here!");
    assert_eq!(ErrorCode::Unauthorized.message(), "Not authorized for this grant!");
    assert_eq!(ErrorCode::TransferFailed.message(), "Token transfer failed!");
}

#[test]
fn a_schedule_passes_through_its_phases() {
    let a = allocation(0, 100, 1000, 1_000_000, 0);
    assert_eq!(a.phase(i64::MIN), VestingPhase::Unvested);
    assert_eq!(a.phase(100), VestingPhase::Unvested);
    assert_eq!(a.phase(101), VestingPhase::Vesting);
    assert_eq!(a.phase(999), VestingPhase::Vesting);
    assert_eq!(a.phase(1000), VestingPhase::FullyVested);
    assert_eq!(a.phase(i64::MAX), VestingPhase::FullyVested);
    let b = allocation(0, 2000, 1000, 1_000_000, 0);
    assert_eq!(b.phase(1500), VestingPhase::Unvested);
    assert_eq!(b.phase(2001), VestingPhase::FullyVested);
}
