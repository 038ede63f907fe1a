//! What each operation is handed: the caller and the records it works on.
//!
//! Finding and storing the records, and establishing who the caller is, is
//! the business of the layer around this crate. An operation receives them
//! in one of these structs, updates the records in place and leaves it to
//! the caller to store them.
use vstd::prelude::*;
use crate::state::{Pubkey, State};
use crate::vesting::Vesting;

verus! {

/// For [`crate::initialize`].
#[derive(Clone, Copy, Debug, PartialEq, Eq)]
pub struct Initialize {
    /// Who sets the sale up; becomes the administrator.
    pub admin: Pubkey,
    /// The token on sale.
    pub mint: Pubkey,
    /// The token accepted as payment.
    pub payment_mint: Pubkey,
    /// The record to initialise.
    pub state: State,
}

/// For [`crate::dogdistribution`].
#[derive(Clone, Copy, Debug, PartialEq, Eq)]
pub struct Distoken {
    /// Who signs; the pools are seeded from this caller's balance.
    pub admin: Pubkey,
    /// The sale.
    pub state: State,
}

/// For [`crate::purchasenow`].
#[derive(Clone, Debug, PartialEq, Eq)]
pub struct Purchasenow {
    /// Who buys.
    pub buyer: Pubkey,
    /// Decimal places of the token on sale.
    pub mint_decimals: u8,
    /// Decimal places of the payment token.
    pub payment_mint_decimals: u8,
    /// The sale.
    pub state: State,
    /// The buyer's ledger for the round.
    pub vesting: Vesting,
}

/// For [`crate::claim`].
#[derive(Clone, Debug, PartialEq, Eq)]
pub struct Claim {
    /// Who claims; the owner of the ledger.
    pub claimant: Pubkey,
    /// The claimant's ledger for the round.
    pub vesting: Vesting,
}

/// For [`crate::start_round`].
#[derive(Clone, Copy, Debug, PartialEq, Eq)]
pub struct StartRound {
    /// Who calls.
    pub admin: Pubkey,
    /// The sale.
    pub state: State,
}

/// For [`crate::withdraw_remaining_tokens`].
#[derive(Clone, Copy, Debug, PartialEq, Eq)]
pub struct WithdrawRemainingTokens {
    /// Who calls.
    pub admin: Pubkey,
    /// The sale.
    pub state: State,
    /// What the ledger holds for the public pool.
    pub pubsup_balance: u64,
    /// What the ledger holds for the reserve pool.
    pub reserve_balance: u64,
}

/// For [`crate::withdraw_public_pool_tokens`].
#[derive(Clone, Copy, Debug, PartialEq, Eq)]
pub struct WithdrawPublicPoolTokens {
    /// Who calls.
    pub admin: Pubkey,
    /// The sale.
    pub state: State,
    /// What the ledger holds for the public pool.
    pub pubsup_balance: u64,
}

/// For [`crate::withdraw_reserve_pool_tokens`].
#[derive(Clone, Copy, Debug, PartialEq, Eq)]
pub struct WithdrawReservePoolTokens {
    /// Who calls.
    pub admin: Pubkey,
    /// The sale.
    pub state: State,
    /// What the ledger holds for the reserve pool.
    pub reserve_balance: u64,
}

} // verus!
