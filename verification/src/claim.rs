//! Paying out a purchase once its vesting delay has elapsed.
use vstd::prelude::*;
use crate::accounts::Claim;
use crate::error::CustomError;
use crate::ledger::{Authority, Custody, TokenTransfer};
use crate::vesting::{Purchase, VestingView};

verus! {

impl VestingView {
    /// Why the purchase at `purchase_index` cannot be claimed at time `now`,
    /// if anything stands against it: there is no such purchase, its vesting
    /// delay has not elapsed, or it has been claimed before. The three are
    /// asked in this order.
    pub open spec fn claim_refusal(self, purchase_index: u64, now: i64) -> Option<CustomError> {
        if purchase_index >= self.purchases.len() {
            Some(CustomError::InvalidPurchaseId)
        } else if !self.purchases[purchase_index as int].vested_at(now) {
            Some(CustomError::VestingPeriodNotEnded)
        } else if self.purchases[purchase_index as int].claimed {
            Some(CustomError::AlreadyClaimed)
        } else {
            None
        }
    }

    /// The ledger after the purchase at `purchase_index` has been claimed:
    /// that purchase is marked, and nothing else has changed.
    pub open spec fn claimed(self, purchase_index: int) -> VestingView {
        VestingView {
            purchases: self.purchases.update(
                purchase_index,
                Purchase { claimed: true, ..self.purchases[purchase_index] },
            ),
            ..self
        }
    }

    /// The transfer that pays out the purchase at `purchase_index`: its
    /// amount, from the public pool to the claimant, on the pool's delegated
    /// authority.
    pub open spec fn payout(self, purchase_index: int) -> TokenTransfer {
        TokenTransfer {
            from: Custody::PublicPool,
            to: Custody::ClaimantSaleTokens,
            authority: Authority::PublicPool,
            amount: self.purchases[purchase_index].amount,
        }
    }
}

/// Claims the purchase at `purchase_index` of the claimant's ledger at time
/// `now`: marks it as claimed and orders its payout from the public pool.
///
/// The purchase must exist, its vesting delay must have elapsed and it must
/// not have been claimed before. `round` names the round whose ledger
/// `ctx.vesting` is; the ledger was found by it and the claim does not read
/// it again.
///
/// The mark and the payout belong together: the caller stores the ledger
/// only once the transfer has gone through.
pub fn claim(ctx: &mut Claim, round: u8, purchase_index: u64, now: i64) -> (result: Result<
    TokenTransfer,
    CustomError,
>)
    ensures
        match result {
            Ok(transfer) => {
                &&& old(ctx).vesting@.claim_refusal(purchase_index, now) is None
                &&& final(ctx).vesting@ == old(ctx).vesting@.claimed(purchase_index as int)
                &&& transfer == old(ctx).vesting@.payout(purchase_index as int)
            },
            Err(error) => {
                &&& old(ctx).vesting@.claim_refusal(purchase_index, now) == Some(error)
                &&& final(ctx).vesting@ == old(ctx).vesting@
            },
        },
        final(ctx).claimant == old(ctx).claimant,
        old(ctx).vesting.wf() ==> final(ctx).vesting.wf(),
{
    if purchase_index >= ctx.vesting.purchases.len() as u64 {
        return Err(CustomError::InvalidPurchaseId);
    }
    let index = purchase_index as usize;
    let purchase = ctx.vesting.purchases[index];
    if !purchase.is_vested(now) {
        return Err(CustomError::VestingPeriodNotEnded);
    }
    if purchase.claimed {
        return Err(CustomError::AlreadyClaimed);
    }
    ctx.vesting.purchases[index].claimed = true;
    Ok(
        TokenTransfer {
            from: Custody::PublicPool,
            to: Custody::ClaimantSaleTokens,
            authority: Authority::PublicPool,
            amount: purchase.amount,
        },
    )
}

} // verus!
