use vstd::prelude::*;

verus! {

/// Why an instruction was rejected. A rejected instruction changes nothing.
#[derive(Clone, Copy, Debug, PartialEq, Eq, Structural)]
pub enum ErrorCode {
    /// The claim came at or before the cliff.
    CliffTimeNotPassed,
    /// The schedule does not end after it starts.
    InvalidVestingTime,
    /// The product of the allocation and the elapsed time does not fit in 64 bits.
    InvalidVestingAmount,
    /// Everything vested so far has already been withdrawn.
    NoTokensToWithdraw,
    /// A grant is already stored where the new one would go.
    DuplicateGrant,
    /// The caller, or an account handed in, is not the one the grant names.
    Unauthorized,
    /// The ledger refused the transfer.
    TransferFailed,
}

impl ErrorCode {
    /// The message shown for this error.
    pub fn message(&self) -> (r: &'static str)
        ensures
            r@ == self.spec_message(),
    {
        match self {
            ErrorCode::CliffTimeNotPassed => "Cliff time still not passed!",
            ErrorCode::InvalidVestingTime => "Invalid vesting time!",
            ErrorCode::InvalidVestingAmount => "Invalid vesting amount!",
            ErrorCode::NoTokensToWithdraw => "No tokens to withdraw!",
            ErrorCode::DuplicateGrant => "A grant already exists here!",
            ErrorCode::Unauthorized => "Not authorized for this grant!",
            ErrorCode::TransferFailed => "Token transfer failed!",
        }
    }

    pub open spec fn spec_message(&self) -> Seq<char> {
        match self {
            ErrorCode::CliffTimeNotPassed => "Cliff time still not passed!"@,
            ErrorCode::InvalidVestingTime => "Invalid vesting time!"@,
            ErrorCode::InvalidVestingAmount => "Invalid vesting amount!"@,
            ErrorCode::NoTokensToWithdraw => "No tokens to withdraw!"@,
            ErrorCode::DuplicateGrant => "A grant already exists here!"@,
            ErrorCode::Unauthorized => "Not authorized for this grant!"@,
            ErrorCode::TransferFailed => "Token transfer failed!"@,
        }
    }
}

} // verus!
