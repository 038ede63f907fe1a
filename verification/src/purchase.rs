//! Selling tokens of the active round.
use vstd::prelude::*;
use crate::accounts::Purchasenow;
use crate::error::CustomError;
use crate::ledger::{Authority, Custody, TokenTransfer};
use crate::pricing::{receivable, receivable_amount, MAX_DECIMALS};
use crate::state::{Pubkey, Round, State, ROUND_COUNT};
use crate::vesting::{Purchase, VestingView};

verus! {

impl State {
    /// Why a purchase of `receivable` tokens in `round` at time `now` is
    /// refused, if anything stands against it: there is no such round, the
    /// round is not active or its window has closed, it has nothing left, or
    /// it has less left than `receivable`. They are asked in this order.
    pub open spec fn purchase_refusal(self, round: u8, now: i64, receivable: u64) -> Option<
        CustomError,
    > {
        if round >= ROUND_COUNT {
            Some(CustomError::InvalidRound)
        } else if !self.rounds[round as int].open_at(now) {
            Some(CustomError::RoundExpired)
        } else if self.rounds[round as int].balance == 0 {
            Some(CustomError::InsufficientRoundBalance)
        } else if receivable > self.rounds[round as int].balance {
            Some(CustomError::InsufficientRoundBalance)
        } else {
            None
        }
    }

    /// The state after `receivable` tokens of `round` have been sold: they
    /// have moved from the round's balance to its count of sold tokens.
    pub open spec fn sold(self, round: u8, receivable: u64) -> State {
        self.with_round(
            round as int,
            Round {
                balance: (self.rounds[round as int].balance - receivable) as u64,
                tokens_sold: (self.rounds[round as int].tokens_sold + receivable) as u64,
                ..self.rounds[round as int]
            },
        )
    }
}

impl VestingView {
    /// The ledger after `buyer` has bought `purchase`: the buyer owns it and
    /// the purchase stands at its end.
    pub open spec fn recorded(self, buyer: Pubkey, purchase: Purchase) -> VestingView {
        VestingView { owner: buyer, purchases: self.purchases.push(purchase) }
    }
}

impl Purchasenow {
    /// The tokens that a payment of `pay_amount` buys in `round`, at the
    /// round's price and with the decimal places of the two tokens.
    pub open spec fn receivable(&self, pay_amount: u64, round: u8) -> u64 {
        receivable(
            pay_amount,
            self.state.rounds[round as int].price,
            self.mint_decimals,
            self.payment_mint_decimals,
        )
    }

    /// Why a payment of `pay_amount` in `round` at time `now` is refused,
    /// if anything stands against it: there is no such round, the round is
    /// not active or its window has closed, it has nothing left, or it has
    /// less left than the payment buys. They are asked in this order.
    pub open spec fn purchase_refusal(&self, pay_amount: u64, round: u8, now: i64) -> Option<
        CustomError,
    > {
        if round >= ROUND_COUNT {
            Some(CustomError::InvalidRound)
        } else {
            self.state.purchase_refusal(round, now, self.receivable(pay_amount, round))
        }
    }
}

/// The transfer that collects a payment: `pay_amount` of the payment token,
/// from the buyer to the administrator, signed by the buyer.
pub open spec fn payment_of(pay_amount: u64) -> TokenTransfer {
    TokenTransfer {
        from: Custody::BuyerPaymentTokens,
        to: Custody::AdminPaymentTokens,
        authority: Authority::Signer,
        amount: pay_amount,
    }
}

/// Sells `receivable` tokens of `round` to the buyer at time `now` against a
/// payment of `pay_amount`.
///
/// The round must exist, be active with its window still open, and have at
/// least `receivable` tokens and more than none left. The tokens move from
/// the round's balance to its count of sold tokens, the purchase is appended
/// to the buyer's ledger, unclaimed and vesting from `now`, and the payment
/// is ordered. The ledger must have room for the purchase.
pub fn record_purchase(
    ctx: &mut Purchasenow,
    pay_amount: u64,
    round: u8,
    now: i64,
    receivable: u64,
) -> (result: Result<TokenTransfer, CustomError>)
    requires
        old(ctx).state.wf(),
        old(ctx).vesting.has_room(),
    ensures
        match result {
            Ok(transfer) => {
                &&& old(ctx).state.purchase_refusal(round, now, receivable) is None
                &&& receivable <= old(ctx).state.rounds[round as int].balance
                &&& final(ctx).state.rounds[round as int].balance
                    == old(ctx).state.rounds[round as int].balance - receivable
                &&& final(ctx).state == old(ctx).state.sold(round, receivable)
                &&& final(ctx).vesting@ == old(ctx).vesting@.recorded(
                    old(ctx).buyer,
                    Purchase { amount: receivable, start_time: now, round, claimed: false },
                )
                &&& transfer == payment_of(pay_amount)
            },
            Err(error) => {
                &&& old(ctx).state.purchase_refusal(round, now, receivable) == Some(error)
                &&& final(ctx).state == old(ctx).state
                &&& final(ctx).vesting@ == old(ctx).vesting@
            },
        },
        final(ctx).buyer == old(ctx).buyer,
        final(ctx).mint_decimals == old(ctx).mint_decimals,
        final(ctx).payment_mint_decimals == old(ctx).payment_mint_decimals,
        final(ctx).state.wf(),
        final(ctx).vesting.wf(),
{
    if round as usize >= ROUND_COUNT {
        return Err(CustomError::InvalidRound);
    }
    let index = round as usize;
    let current = ctx.state.rounds[index];
    if !current.active || now > current.end_time {
        return Err(CustomError::RoundExpired);
    }
    if current.balance == 0 {
        return Err(CustomError::InsufficientRoundBalance);
    }
    if receivable > current.balance {
        return Err(CustomError::InsufficientRoundBalance);
    }
    ctx.state.rounds[index].balance = current.balance - receivable;
    ctx.state.rounds[index].tokens_sold = current.tokens_sold + receivable;
    proof {
        assert(ctx.state.rounds =~= old(ctx).state.sold(round, receivable).rounds);
    }
    ctx.vesting.owner = ctx.buyer;
    ctx.vesting.purchases.push(
        Purchase { amount: receivable, start_time: now, round, claimed: false },
    );
    Ok(
        TokenTransfer {
            from: Custody::BuyerPaymentTokens,
            to: Custody::AdminPaymentTokens,
            authority: Authority::Signer,
            amount: pay_amount,
        },
    )
}

/// Buys tokens of `round` at time `now` for a payment of `pay_amount`.
///
/// The round must exist, be active with its window still open, and have
/// something left. The payment buys what [`receivable`] gives at the
/// round's price. If the round has that much left, the tokens move from its
/// balance to its count of sold tokens, the purchase is appended to the
/// buyer's ledger, unclaimed and vesting from `now`, and the payment from
/// the buyer to the administrator is ordered.
///
/// The ledger must have room for the purchase, and neither token may have
/// more than [`MAX_DECIMALS`] decimal places.
///
/// The tokens bought never exceed what the round had left, and the round's
/// balance falls by exactly the tokens bought.
pub fn purchasenow(ctx: &mut Purchasenow, pay_amount: u64, round: u8, now: i64) -> (result:
    Result<TokenTransfer, CustomError>)
    requires
        old(ctx).state.wf(),
        old(ctx).vesting.has_room(),
        old(ctx).mint_decimals <= MAX_DECIMALS,
        old(ctx).payment_mint_decimals <= MAX_DECIMALS,
    ensures
        match result {
            Ok(transfer) => {
                &&& old(ctx).purchase_refusal(pay_amount, round, now) is None
                &&& old(ctx).receivable(pay_amount, round)
                    <= old(ctx).state.rounds[round as int].balance
                &&& final(ctx).state.rounds[round as int].balance
                    == old(ctx).state.rounds[round as int].balance - old(ctx).receivable(
                    pay_amount,
                    round,
                )
                &&& final(ctx).state == old(ctx).state.sold(
                    round,
                    old(ctx).receivable(pay_amount, round),
                )
                &&& final(ctx).vesting@ == old(ctx).vesting@.recorded(
                    old(ctx).buyer,
                    Purchase {
                        amount: old(ctx).receivable(pay_amount, round),
                        start_time: now,
                        round,
                        claimed: false,
                    },
                )
                &&& transfer == payment_of(pay_amount)
            },
            Err(error) => {
                &&& old(ctx).purchase_refusal(pay_amount, round, now) == Some(error)
                &&& final(ctx).state == old(ctx).state
                &&& final(ctx).vesting@ == old(ctx).vesting@
            },
        },
        final(ctx).buyer == old(ctx).buyer,
        final(ctx).mint_decimals == old(ctx).mint_decimals,
        final(ctx).payment_mint_decimals == old(ctx).payment_mint_decimals,
        final(ctx).state.wf(),
        final(ctx).vesting.wf(),
{
    if round as usize >= ROUND_COUNT {
        return Err(CustomError::InvalidRound);
    }
    let price = ctx.state.rounds[round as usize].price;
    let receivable = receivable_amount(
        pay_amount,
        price,
        ctx.mint_decimals,
        ctx.payment_mint_decimals,
    );
    record_purchase(ctx, pay_amount, round, now, receivable)
}

} // verus!
