//! Setting the sale up: the first write of the state, and the split of the
//! supply between the pools and the rounds.
use vstd::prelude::*;
use crate::accounts::{Distoken, Initialize};
use crate::ledger::{Authority, Custody, TokenTransfer};
use crate::state::{
    Price, Pubkey, Round, State, FIRST_ROUND_PERCENT, FIRST_ROUND_PRICE_BITS, LATER_ROUND_PERCENT,
    POOL_PERCENT, SECOND_ROUND_PRICE_BITS, THIRD_ROUND_PRICE_BITS,
};

verus! {

/// The share of `percent` hundredths of `amount`, rounded down.
pub open spec fn percent_of(amount: int, percent: int) -> int {
    amount * percent / 100
}

/// What each pool gets of a total supply: half of it, rounded down. What is
/// left of an odd total stays where it was.
pub open spec fn pool_share(totalsupply: u64) -> int {
    percent_of(totalsupply as int, POOL_PERCENT as int)
}

/// What round `index` gets of the public pool's allotment: 60 percent for
/// the first round and 20 percent for each of the others, rounded down.
pub open spec fn round_share(pool: int, index: int) -> int {
    percent_of(
        pool,
        if index == 0 {
            FIRST_ROUND_PERCENT as int
        } else {
            LATER_ROUND_PERCENT as int
        },
    )
}

/// The fixed price of round `index`: 0.002, 0.003 and 0.004.
pub open spec fn round_price(index: int) -> Price {
    Price {
        bits: if index == 0 {
            FIRST_ROUND_PRICE_BITS
        } else if index == 1 {
            SECOND_ROUND_PRICE_BITS
        } else {
            THIRD_ROUND_PRICE_BITS
        },
    }
}

/// The two transfers that seed the pools.
#[derive(Clone, Copy, Debug, PartialEq, Eq, Structural)]
pub struct Distribution {
    /// From the caller to the public pool.
    pub public_pool: TokenTransfer,
    /// From the caller to the reserve pool.
    pub reserve_pool: TokenTransfer,
}

impl State {
    /// The state after [`initialize`]: the identities are set, the pool
    /// totals are zero and no round has been started. The rounds and the
    /// reclaimed tokens are as they were.
    pub open spec fn initialized(self, admin: Pubkey, mint: Pubkey, payment_mint: Pubkey) -> State {
        State {
            admin,
            mint,
            payment_mint,
            pub_supply: 0,
            reserve_supply: 0,
            current_active_phase: None,
            ..self
        }
    }

    /// Round `index` after a distribution of `totalsupply`: it has its price
    /// and its share; whether it is active, what it has sold and its window
    /// are as they were.
    pub open spec fn distributed_round(self, totalsupply: u64, index: int) -> Round {
        Round {
            price: round_price(index),
            balance: round_share(pool_share(totalsupply), index) as u64,
            ..self.rounds[index]
        }
    }

    /// The state after [`dogdistribution`] of `totalsupply`.
    pub open spec fn distributed(self, totalsupply: u64) -> State {
        State {
            pub_supply: pool_share(totalsupply) as u64,
            reserve_supply: pool_share(totalsupply) as u64,
            rounds: [
                self.distributed_round(totalsupply, 0),
                self.distributed_round(totalsupply, 1),
                self.distributed_round(totalsupply, 2),
            ],
            ..self
        }
    }

    /// Whether the shares of a distribution of `totalsupply` fit the
    /// counters beside what the rounds have sold and what has been
    /// reclaimed. It holds whenever nothing has been sold or reclaimed yet.
    pub open spec fn distribution_fits(self, totalsupply: u64) -> bool {
        &&& forall|i: int|
            0 <= i < 3 ==> round_share(pool_share(totalsupply), i) + (
            #[trigger] self.rounds[i]).tokens_sold <= u64::MAX
        &&& self.admin_remaining_tokens + round_share(pool_share(totalsupply), 2) <= u64::MAX
    }
}

/// Writes the first state of the sale: who administers it and which tokens
/// it deals in. The pool totals are set to zero and no round counts as
/// started.
pub fn initialize(ctx: &mut Initialize)
    ensures
        final(ctx).state == old(ctx).state.initialized(
            old(ctx).admin,
            old(ctx).mint,
            old(ctx).payment_mint,
        ),
        final(ctx).admin == old(ctx).admin,
        final(ctx).mint == old(ctx).mint,
        final(ctx).payment_mint == old(ctx).payment_mint,
        old(ctx).state.is_blank() ==> final(ctx).state.wf(),
{
    ctx.state.admin = ctx.admin;
    ctx.state.mint = ctx.mint;
    ctx.state.payment_mint = ctx.payment_mint;
    ctx.state.pub_supply = 0;
    ctx.state.reserve_supply = 0;
    ctx.state.current_active_phase = None;
}

/// Splits `totalsupply` between the pools and the public pool's half between
/// the rounds, sets the rounds' prices, and orders the two transfers that
/// seed the pools.
///
/// Each pool gets half of the total and the rounds get 60, 20 and 20 percent
/// of the public pool's half, each share rounded down. The rounds' balances
/// are entries in the books: only the pools receive tokens. The operation
/// does not ask who calls it, and it can be repeated: each call splits anew
/// and orders the transfers again.
///
/// The total must be small enough for fifty times its value to fit the
/// counter.
pub fn dogdistribution(ctx: &mut Distoken, totalsupply: u64) -> (transfers: Distribution)
    requires
        totalsupply * POOL_PERCENT <= u64::MAX,
    ensures
        final(ctx).state == old(ctx).state.distributed(totalsupply),
        final(ctx).admin == old(ctx).admin,
        transfers.public_pool == (TokenTransfer {
            from: Custody::AdminSaleTokens,
            to: Custody::PublicPool,
            authority: Authority::Signer,
            amount: pool_share(totalsupply) as u64,
        }),
        transfers.reserve_pool == (TokenTransfer {
            from: Custody::AdminSaleTokens,
            to: Custody::ReservePool,
            authority: Authority::Signer,
            amount: pool_share(totalsupply) as u64,
        }),
        2 * pool_share(totalsupply) <= totalsupply,
        final(ctx).state.unsold() <= pool_share(totalsupply),
        old(ctx).state.wf() && old(ctx).state.distribution_fits(totalsupply)
            ==> final(ctx).state.wf(),
{
    let pub_supply: u64 = totalsupply * POOL_PERCENT / 100;
    let reserve_supply: u64 = totalsupply * POOL_PERCENT / 100;
    ctx.state.pub_supply = pub_supply;
    ctx.state.reserve_supply = reserve_supply;

    let first: u64 = pub_supply * FIRST_ROUND_PERCENT / 100;
    let second: u64 = pub_supply * LATER_ROUND_PERCENT / 100;
    let third: u64 = pub_supply * LATER_ROUND_PERCENT / 100;
    ctx.state.rounds[0].price = Price { bits: FIRST_ROUND_PRICE_BITS };
    ctx.state.rounds[1].price = Price { bits: SECOND_ROUND_PRICE_BITS };
    ctx.state.rounds[2].price = Price { bits: THIRD_ROUND_PRICE_BITS };
    ctx.state.rounds[0].balance = first;
    ctx.state.rounds[1].balance = second;
    ctx.state.rounds[2].balance = third;
    proof {
        assert(ctx.state.rounds =~= old(ctx).state.distributed(totalsupply).rounds);
    }

    Distribution {
        public_pool: TokenTransfer {
            from: Custody::AdminSaleTokens,
            to: Custody::PublicPool,
            authority: Authority::Signer,
            amount: pub_supply,
        },
        reserve_pool: TokenTransfer {
            from: Custody::AdminSaleTokens,
            to: Custody::ReservePool,
            authority: Authority::Signer,
            amount: reserve_supply,
        },
    }
}

} // verus!
