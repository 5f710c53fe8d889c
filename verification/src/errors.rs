//! What an operation reports when it is turned down.

use vstd::prelude::*;

verus! {

/// The error kinds that the program itself declares.
///
/// Only [`InvalidAmount`](BriberyBusterError::InvalidAmount) and
/// [`MathOverflow`](BriberyBusterError::MathOverflow) are ever raised by the
/// operations of this crate. The others are reserved for a verification
/// workflow that no operation implements.
#[derive(Clone, Copy, Debug, PartialEq, Eq, Hash)]
pub enum BriberyBusterError {
    /// A reward of zero tokens was asked for.
    InvalidAmount,
    /// A counter of the treasury would leave the range of `u64`.
    MathOverflow,
    /// The caller may not act on the treasury.
    Unauthorized,
    /// The report was verified before.
    AlreadyVerified,
    /// The vault holds less than the reward.
    InsufficientBalance,
    /// The digest of the report is malformed.
    InvalidHash,
}

impl BriberyBusterError {
    /// The text that describes each kind to a person.
    pub open spec fn message_text(self) -> Seq<char> {
        match self {
            BriberyBusterError::InvalidAmount => "Invalid amount provided"@,
            BriberyBusterError::MathOverflow => "Mathematical operation overflow"@,
            BriberyBusterError::Unauthorized => "Unauthorized access"@,
            BriberyBusterError::AlreadyVerified => "Report already verified"@,
            BriberyBusterError::InsufficientBalance => "Insufficient treasury balance"@,
            BriberyBusterError::InvalidHash => "Invalid report hash"@,
        }
    }

    /// Describes the error to a person.
    pub fn message(&self) -> (text: &'static str)
        ensures
            text@ == self.message_text(),
    {
        match self {
            BriberyBusterError::InvalidAmount => "Invalid amount provided",
            BriberyBusterError::MathOverflow => "Mathematical operation overflow",
            BriberyBusterError::Unauthorized => "Unauthorized access",
            BriberyBusterError::AlreadyVerified => "Report already verified",
            BriberyBusterError::InsufficientBalance => "Insufficient treasury balance",
            BriberyBusterError::InvalidHash => "Invalid report hash",
        }
    }
}

/// Why the token ledger turned a transfer down.
#[derive(Clone, Copy, Debug, PartialEq, Eq, Hash)]
pub enum TransferError {
    /// The source account holds less than the amount.
    InsufficientBalance,
    /// One of the accounts is not a token account that the transfer can use.
    InvalidAccount,
    /// Any other refusal, with the code that the token ledger gave.
    Other(u32),
}

/// Why an operation was aborted.
#[derive(Clone, Copy, Debug, PartialEq, Eq, Hash)]
pub enum Failure {
    /// The program itself rejected the request.
    Program(BriberyBusterError),
    /// The ledger already holds a record at the address where one was to be
    /// created.
    AlreadyExists,
    /// The address given for the treasury is not the one derived from its
    /// authority.
    AddressMismatch,
    /// The token ledger turned the transfer down; its reason is passed on as
    /// it came.
    Transfer(TransferError),
}

} // verus!
