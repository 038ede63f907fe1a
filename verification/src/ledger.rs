//! Orders for the token ledger.
//!
//! The ledger that holds the balances and moves tokens between them is a
//! service outside this crate. An operation that has to move tokens returns
//! the transfer as a value; the caller has the ledger carry it out.
use vstd::prelude::*;

verus! {

/// A balance that the ledger keeps and an operation of the sale touches.
#[derive(Clone, Copy, Debug, PartialEq, Eq, Structural)]
pub enum Custody {
    /// The caller's balance of the token on sale, from which the pools are
    /// seeded and to which withdrawals go.
    AdminSaleTokens,
    /// The administrator's balance of the payment token.
    AdminPaymentTokens,
    /// The buyer's balance of the payment token.
    BuyerPaymentTokens,
    /// The claimant's balance of the token on sale.
    ClaimantSaleTokens,
    /// The public pool: sold from, claimed from.
    PublicPool,
    /// The reserve pool.
    ReservePool,
}

/// Who authorises a transfer towards the ledger.
#[derive(Clone, Copy, Debug, PartialEq, Eq, Structural)]
pub enum Authority {
    /// The caller of the operation, by signature.
    Signer,
    /// The delegated authority over the public pool.
    PublicPool,
    /// The delegated authority over the reserve pool.
    ReservePool,
}

/// One transfer for the ledger to carry out.
#[derive(Clone, Copy, Debug, PartialEq, Eq, Structural)]
pub struct TokenTransfer {
    pub from: Custody,
    pub to: Custody,
    pub authority: Authority,
    pub amount: u64,
}

} // verus!
