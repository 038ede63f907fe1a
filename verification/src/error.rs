//! The failures that an operation reports to its caller.
use vstd::prelude::*;

verus! {

/// Why an operation was refused. A refused operation changes no record and
/// orders no transfer.
#[derive(Clone, Copy, Debug, PartialEq, Eq, Structural)]
pub enum CustomError {
    /// The round is not active, or its window has closed.
    RoundExpired,
    /// The vesting delay of the purchase has not elapsed yet.
    VestingPeriodNotEnded,
    /// The payer cannot cover the payment.
    InsufficientFunds,
    /// The round has nothing left to sell, or less than the purchase asks for.
    InsufficientRoundBalance,
    /// The round does not come after the one that is active.
    InvalidRoundOrder,
    /// There is no round with that index.
    InvalidRound,
    /// The buyer's ledger has no purchase with that index.
    InvalidPurchaseId,
    /// The purchase has been paid out before.
    AlreadyClaimed,
    /// The caller is not the administrator.
    Unauthorized,
}

impl CustomError {
    /// The message shown for the failure.
    pub fn message(&self) -> (text: &'static str)
        ensures
            text@ == self.message_text(),
    {
        match self {
            CustomError::RoundExpired => "The round has expired.",
            CustomError::VestingPeriodNotEnded => "The vesting period has not ended yet.",
            CustomError::InsufficientFunds => "Insufficient funds.",
            CustomError::InsufficientRoundBalance => "Insufficient balance in the round.",
            CustomError::InvalidRoundOrder => "Rounds must be started in increasing order.",
            CustomError::InvalidRound => "The specified round is invalid.",
            CustomError::InvalidPurchaseId => "Invalid purchase ID",
            CustomError::AlreadyClaimed => "Already claimed",
            CustomError::Unauthorized => "Only admin can perform this action.",
        }
    }

    /// The characters of [`CustomError::message`].
    pub open spec fn message_text(&self) -> Seq<char> {
        match self {
            CustomError::RoundExpired => "The round has expired."@,
            CustomError::VestingPeriodNotEnded => "The vesting period has not ended yet."@,
            CustomError::InsufficientFunds => "Insufficient funds."@,
            CustomError::InsufficientRoundBalance => "Insufficient balance in the round."@,
            CustomError::InvalidRoundOrder => "Rounds must be started in increasing order."@,
            CustomError::InvalidRound => "The specified round is invalid."@,
            CustomError::InvalidPurchaseId => "Invalid purchase ID"@,
            CustomError::AlreadyClaimed => "Already claimed"@,
            CustomError::Unauthorized => "Only admin can perform this action."@,
        }
    }
}

} // verus!
