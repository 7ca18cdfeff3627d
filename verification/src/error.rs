//! Why an operation fails.

use vstd::prelude::*;

verus! {

/// The kinds of failure that the bridge itself reports. Each one ends the
/// operation in which it occurs, with no effect applied.
#[derive(Clone, Copy, Debug, PartialEq, Eq, Structural)]
pub enum ErrorCode {
    /// The amount is zero.
    InvalidAmount,
    /// A message is required and has no bytes.
    EmptyMessage,
    /// The network named in the request is not the one in the configuration.
    InvalidChainId,
    /// The token kind named in the request is not that of the accounts.
    InvalidMint,
    /// The caller lacks the authorization that the operation asks for.
    Unauthorized,
    /// The bytes of an inbound message are not the format of a message.
    MessageDecodingFailed,
}

/// Why the ledger cannot move an amount from one balance to another.
#[derive(Clone, Copy, Debug, PartialEq, Eq, Structural)]
pub enum LedgerError {
    /// The paying balance holds less than the amount.
    InsufficientFunds,
    /// The receiving balance would exceed what a balance can hold.
    BalanceOverflow,
}

/// Why a deposit fails: a rule of the bridge is broken, or every rule is
/// met and the ledger cannot carry out the transfer.
#[derive(Clone, Copy, Debug, PartialEq, Eq, Structural)]
pub enum DepositError {
    Rejected(ErrorCode),
    Ledger(LedgerError),
}

impl ErrorCode {
    /// A sentence for the person who sees the failure.
    pub fn message(&self) -> (r: &'static str)
        ensures
            r@ == match *self {
                ErrorCode::InvalidAmount => "Invalid amount provided"@,
                ErrorCode::EmptyMessage => "Message cannot be empty"@,
                ErrorCode::InvalidChainId => "Invalid chain ID"@,
                ErrorCode::InvalidMint => "Invalid mint address"@,
                ErrorCode::Unauthorized => "Unauthorized access"@,
                ErrorCode::MessageDecodingFailed => "Failed to decode cross-chain message"@,
            },
    {
        match self {
            ErrorCode::InvalidAmount => "Invalid amount provided",
            ErrorCode::EmptyMessage => "Message cannot be empty",
            ErrorCode::InvalidChainId => "Invalid chain ID",
            ErrorCode::InvalidMint => "Invalid mint address",
            ErrorCode::Unauthorized => "Unauthorized access",
            ErrorCode::MessageDecodingFailed => "Failed to decode cross-chain message",
        }
    }
}

} // verus!
