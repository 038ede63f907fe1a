//! Settlement engine for a three-round token presale with vesting.
//!
//! The crate keeps the books of a sale of a fixed token supply: the split of
//! the supply between a public and a reserve pool, the three rounds with
//! their prices and balances, what each buyer bought, and the release of
//! bought tokens after a vesting delay. It moves no tokens itself. Every
//! operation takes the records it works on and the current time as plain
//! values, updates the records, and hands back the transfers that the token
//! ledger has to carry out. The caller commits the updated records together
//! with the transfers, or drops both.
//!
//! Every function is verified against a contract that states its result on
//! all inputs; the `laws` module proves what holds across several calls.
//!
//! - [`state`], [`vesting`], [`error`] and [`ledger`] hold the records, the
//!   failures and the transfer orders.
//! - [`accounts`] holds what each operation is handed.
//! - [`distribution`], [`rounds`], [`purchase`], [`claim`] and [`withdraw`]
//!   hold the operations.
//! - [`pricing`] says what a payment buys, on top of [`binary64`].
use vstd::prelude::*;

pub mod accounts;
pub mod binary64;
pub mod claim;
pub mod distribution;
pub mod error;
pub mod laws;
pub mod ledger;
pub mod pricing;
pub mod purchase;
pub mod rounds;
pub mod state;
pub mod vesting;
pub mod withdraw;

pub use accounts::{
    Claim, Distoken, Initialize, Purchasenow, StartRound, WithdrawPublicPoolTokens,
    WithdrawRemainingTokens, WithdrawReservePoolTokens,
};
pub use claim::claim;
pub use distribution::{dogdistribution, initialize, Distribution};
pub use error::CustomError;
pub use ledger::{Authority, Custody, TokenTransfer};
pub use pricing::receivable_amount;
pub use purchase::{purchasenow, record_purchase};
pub use rounds::start_round;
pub use state::{Balance, Price, Pubkey, Round, State};
pub use vesting::{Purchase, Vesting};
pub use withdraw::{
    withdraw_public_pool_tokens, withdraw_remaining_tokens, withdraw_reserve_pool_tokens,
    Withdrawal,
};
