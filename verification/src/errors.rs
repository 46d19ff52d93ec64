//! Reasons an operation is rejected.

use vstd::prelude::*;

verus! {

/// Why an operation on a vault or an escrow was rejected. A rejected operation
/// changes nothing.
#[derive(Clone, Copy, Debug, PartialEq, Eq, Structural)]
pub enum VaultError {
    /// A deposit of zero units.
    ZeroDeposit,
    /// A withdrawal before the lock-up period has passed.
    LockupPeriodNotExpired,
    /// A withdrawal of zero units.
    ZeroWithdrawal,
    /// More was asked for than the account holds.
    InsufficientFunds,
    /// A sum or a product does not fit in 64 bits.
    Overflow,
    /// A difference would be negative.
    Underflow,
    /// An escrow opened with less than the minimum.
    InvalidEscrowAmount,
    /// Every submission of the bounty has been paid already.
    MaxSubmissionsReached,
    /// The signer is not the owner recorded in the account.
    Unauthorized,
    /// The account exists already.
    AccountAlreadyInitialized,
    /// The account was never created.
    AccountNotInitialized,
    /// The account was closed.
    AccountClosed,
}

/// Whether `outcome` is a refusal, and for the reason `error`.
pub open spec fn refused<T>(outcome: Result<T, VaultError>, error: VaultError) -> bool {
    outcome == Err::<T, VaultError>(error)
}

impl VaultError {
    /// The text of the message that goes with the error.
    pub open spec fn message_text(self) -> Seq<char> {
        match self {
            VaultError::ZeroDeposit => "Cannot deposit zero amount."@,
            VaultError::LockupPeriodNotExpired => "Lock-up period of 15 days has not expired yet."@,
            VaultError::ZeroWithdrawal => "Withdrawal amount must be greater than zero."@,
            VaultError::InsufficientFunds => "Insufficient funds in the vault."@,
            VaultError::Overflow => "Arithmetic overflow occurred."@,
            VaultError::Underflow => "Arithmetic underflow occurred."@,
            VaultError::InvalidEscrowAmount => "Invalid escrow amount"@,
            VaultError::MaxSubmissionsReached => "Maximum submissions reached"@,
            VaultError::Unauthorized => "Signer is not the owner of the account."@,
            VaultError::AccountAlreadyInitialized => "Account is already initialized."@,
            VaultError::AccountNotInitialized => "Account is not initialized."@,
            VaultError::AccountClosed => "Account is closed."@,
        }
    }

    /// A message for the error, fit to show to a user.
    pub fn message(&self) -> (text: &'static str)
        ensures
            text@ == self.message_text(),
    {
        match self {
            VaultError::ZeroDeposit => "Cannot deposit zero amount.",
            VaultError::LockupPeriodNotExpired => "Lock-up period of 15 days has not expired yet.",
            VaultError::ZeroWithdrawal => "Withdrawal amount must be greater than zero.",
            VaultError::InsufficientFunds => "Insufficient funds in the vault.",
            VaultError::Overflow => "Arithmetic overflow occurred.",
            VaultError::Underflow => "Arithmetic underflow occurred.",
            VaultError::InvalidEscrowAmount => "Invalid escrow amount",
            VaultError::MaxSubmissionsReached => "Maximum submissions reached",
            VaultError::Unauthorized => "Signer is not the owner of the account.",
            VaultError::AccountAlreadyInitialized => "Account is already initialized.",
            VaultError::AccountNotInitialized => "Account is not initialized.",
            VaultError::AccountClosed => "Account is closed.",
        }
    }
}

} // verus!
