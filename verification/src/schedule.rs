//! How much of an allocation has vested at a given time: nothing up to the
//! cliff, everything from the end on, and in between the share of the time
//! that has passed since the start, rounded down.

use crate::accounts::EmployeeAccount;
use crate::error::ErrorCode;
use vstd::prelude::*;

verus! {

/// The seconds from `from` to `to`: 0 where `to` is not after `from`, and
/// `i64::MAX` where the difference is more than that.
pub open spec fn seconds_between(from: i64, to: i64) -> int {
    if to <= from {
        0
    } else if to - from > i64::MAX {
        i64::MAX as int
    } else {
        to - from
    }
}

/// Computes `seconds_between`.
pub fn saturating_seconds(from: i64, to: i64) -> (r: u64)
    ensures
        r == seconds_between(from, to),
{
    if to <= from {
        0
    } else {
        match to.checked_sub(from) {
            Some(seconds) => seconds as u64,
            None => i64::MAX as u64,
        }
    }
}

/// Where a moment lies in a schedule. Time alone moves an allocation from one
/// phase to the next; nothing of it is stored.
#[derive(Clone, Copy, Debug, PartialEq, Eq, Structural)]
pub enum VestingPhase {
    /// Up to the cliff: nothing has vested and nothing can be claimed.
    Unvested,
    /// After the cliff and before the end: a share of the allocation has vested.
    Vesting,
    /// From the end on: everything has vested.
    FullyVested,
}

impl EmployeeAccount {
    /// The phase of the schedule at `now`.
    pub open spec fn phase_at(&self, now: i64) -> VestingPhase {
        if now <= self.cliff_time {
            VestingPhase::Unvested
        } else if now < self.end_time {
            VestingPhase::Vesting
        } else {
            VestingPhase::FullyVested
        }
    }

    /// The phase of the schedule at `now`.
    #[verifier::when_used_as_spec(phase_at)]
    pub fn phase(&self, now: i64) -> (r: VestingPhase)
        ensures
            r == self.phase_at(now),
    {
        if now <= self.cliff_time {
            VestingPhase::Unvested
        } else if now < self.end_time {
            VestingPhase::Vesting
        } else {
            VestingPhase::FullyVested
        }
    }

    /// The schedule ends after it starts.
    pub open spec fn schedule_valid(&self) -> bool {
        self.start_time < self.end_time
    }

    /// The length of the schedule in seconds.
    pub open spec fn duration(&self) -> int {
        seconds_between(self.start_time, self.end_time)
    }

    /// The seconds of the schedule that have passed at `now`.
    pub open spec fn elapsed(&self, now: i64) -> int {
        seconds_between(self.start_time, now)
    }

    /// What has vested at `now`: nothing while unvested, everything once fully
    /// vested, and in between the allocation times the elapsed seconds over the
    /// length of the schedule, rounded down. It means something only of a valid
    /// schedule.
    pub open spec fn vested(&self, now: i64) -> int {
        match self.phase(now) {
            VestingPhase::Unvested => 0,
            VestingPhase::Vesting => self.total_ammount * self.elapsed(now) / self.duration(),
            VestingPhase::FullyVested => self.total_ammount as int,
        }
    }

    /// The product of the allocation and the elapsed time is needed at `now` and
    /// does not fit in 64 bits.
    pub open spec fn product_overflows(&self, now: i64) -> bool {
        self.phase(now) is Vesting && self.total_ammount * self.elapsed(now) > u64::MAX
    }

    /// What `vested_amount` returns.
    pub open spec fn vested_amount_spec(&self, now: i64) -> Result<u64, ErrorCode> {
        if !self.schedule_valid() {
            Err(ErrorCode::InvalidVestingTime)
        } else if self.product_overflows(now) {
            Err(ErrorCode::InvalidVestingAmount)
        } else {
            Ok(self.vested(now) as u64)
        }
    }

    /// What has vested at `now`. Fails where the schedule does not end after it
    /// starts, and where the product of the allocation and the elapsed time
    /// overflows.
    pub fn vested_amount(&self, now: i64) -> (r: Result<u64, ErrorCode>)
        ensures
            r == self.vested_amount_spec(now),
            r matches Ok(amount) ==> amount <= self.total_ammount,
    {
        let total_time: u64 = saturating_seconds(self.start_time, self.end_time);
        if total_time == 0 {
            return Err(ErrorCode::InvalidVestingTime);
        }
        match self.phase(now) {
            VestingPhase::Unvested => Ok(0),
            VestingPhase::FullyVested => Ok(self.total_ammount),
            VestingPhase::Vesting => {
                let time_passed: u64 = saturating_seconds(self.start_time, now);
                match self.total_ammount.checked_mul(time_passed) {
                    Some(product) => {
                        proof {
                            lemma_share_within_whole(
                                self.total_ammount as int,
                                time_passed as int,
                                total_time as int,
                            );
                        }
                        Ok(product / total_time)
                    },
                    None => Err(ErrorCode::InvalidVestingAmount),
                }
            },
        }
    }
}

/// A schedule never goes back a phase: what is fully vested stays so, and what
/// is still unvested was so at every earlier moment.
pub proof fn lemma_phase_never_goes_back(account: EmployeeAccount, earlier: i64, later: i64)
    requires
        earlier <= later,
    ensures
        account.phase(earlier) is FullyVested ==> account.phase(later) is FullyVested,
        account.phase(later) is Unvested ==> account.phase(earlier) is Unvested,
{
}

/// What has vested lies between nothing and the whole allocation.
pub proof fn lemma_vested_within_total(account: EmployeeAccount, now: i64)
    requires
        account.schedule_valid(),
    ensures
        0 <= account.vested(now) <= account.total_ammount,
{
    if account.phase(now) is Vesting {
        lemma_share_within_whole(
            account.total_ammount as int,
            account.elapsed(now),
            account.duration(),
        );
    }
}

/// What has vested never shrinks as time passes: of two moments, the later one
/// has at least as much vested as the earlier one.
pub proof fn lemma_vested_monotonic(account: EmployeeAccount, earlier: i64, later: i64)
    requires
        account.schedule_valid(),
        earlier <= later,
    ensures
        account.vested(earlier) <= account.vested(later),
        account.vested_amount_spec(earlier) matches Ok(before) ==> (account.vested_amount_spec(
            later,
        ) matches Ok(after) ==> before <= after),
{
    lemma_vested_within_total(account, earlier);
    lemma_vested_within_total(account, later);
    if account.phase(earlier) is Vesting && account.phase(later) is Vesting {
        lemma_share_grows_with_part(
            account.total_ammount as int,
            account.elapsed(earlier),
            account.elapsed(later),
            account.duration(),
        );
    }
}

/// From the end of the schedule on, the whole allocation has vested, and stays
/// so. A cliff that lies at or after the end holds this back until it has passed.
pub proof fn lemma_fully_vested_from_end(account: EmployeeAccount, now: i64)
    requires
        account.end_time <= now,
        account.cliff_time < now,
    ensures
        account.phase(now) is FullyVested,
        account.vested(now) == account.total_ammount,
        account.schedule_valid() ==> account.vested_amount_spec(now) == Ok::<u64, ErrorCode>(
            account.total_ammount,
        ),
{
}

/// At the start of a schedule nothing has vested.
pub proof fn lemma_nothing_vested_at_start(account: EmployeeAccount)
    requires
        account.schedule_valid(),
    ensures
        account.vested(account.start_time) == 0,
        account.vested_amount_spec(account.start_time) == Ok::<u64, ErrorCode>(0),
{
    assert(account.elapsed(account.start_time) == 0);
    assert(account.total_ammount * 0 == 0);
    assert(0int / account.duration() == 0) by (nonlinear_arith)
        requires
            account.duration() > 0,
    ;
}

/// Between the cliff and the end, what has vested is the exact share of the
/// elapsed time, rounded down: it falls short of the exact share by less than
/// one unit. So it is as close to nothing as the time is close to the start.
pub proof fn lemma_vested_rounds_down(account: EmployeeAccount, now: i64)
    requires
        account.schedule_valid(),
        account.phase(now) is Vesting,
    ensures
        account.vested(now) * account.duration() <= account.total_ammount * account.elapsed(now),
        account.total_ammount * account.elapsed(now) < (account.vested(now) + 1)
            * account.duration(),
{
    let product = account.total_ammount * account.elapsed(now);
    let whole = account.duration();
    assert((product / whole) * whole <= product < (product / whole + 1) * whole)
        by (nonlinear_arith)
        requires
            whole > 0,
    ;
}

/// A larger part gives a larger share, rounded down.
proof fn lemma_share_grows_with_part(total: int, part: int, larger: int, whole: int)
    requires
        0 <= total,
        0 <= part <= larger,
        0 < whole,
    ensures
        total * part / whole <= total * larger / whole,
{
    assert(total * part <= total * larger) by (nonlinear_arith)
        requires
            0 <= total,
            part <= larger,
    ;
    assert(total * part / whole <= total * larger / whole) by (nonlinear_arith)
        requires
            total * part <= total * larger,
            0 < whole,
    ;
}

/// A share `part / whole` of `total`, rounded down, is between 0 and `total`.
pub proof fn lemma_share_within_whole(total: int, part: int, whole: int)
    requires
        0 <= total,
        0 <= part <= whole,
        0 < whole,
    ensures
        0 <= total * part / whole <= total,
{
    assert(0 <= total * part <= total * whole) by (nonlinear_arith)
        requires
            0 <= total,
            0 <= part <= whole,
    ;
    assert(total * whole / whole == total) by (nonlinear_arith)
        requires
            0 < whole,
    ;
    assert(0 <= total * part / whole <= total * whole / whole) by (nonlinear_arith)
        requires
            0 <= total * part <= total * whole,
            0 < whole,
    ;
}

} // verus!
