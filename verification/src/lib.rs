//! Token vesting with a cliff: a company deposits tokens into a treasury and
//! an employee withdraws them gradually, in proportion to the time that has
//! passed.
//!
//! The crate decides; it moves no tokens and keeps no storage. Each
//! instruction takes the accounts it works on as plain values, checks that
//! they belong together, and says what is to be stored or transferred. The
//! caller reads the clock, carries out the transfer and persists the accounts.

pub mod accounts;
pub mod address;
pub mod claim;
pub mod error;
pub mod grants;
pub mod laws;
pub mod pubkey;
pub mod schedule;

pub use accounts::{EmployeeAccount, VestingAccount};
pub use claim::{claim_tokens, settle_claim, ClaimTokens, TransferRequest};
pub use error::ErrorCode;
pub use grants::{
    create_employee_account, create_vesting_account, CreateEmployeeAccount, CreateVestingAccount,
};
pub use pubkey::Pubkey;
pub use schedule::VestingPhase;
