//! Sweeping the pools back to the administrator.
use vstd::prelude::*;
use crate::accounts::{WithdrawPublicPoolTokens, WithdrawRemainingTokens, WithdrawReservePoolTokens};
use crate::error::CustomError;
use crate::ledger::{Authority, Custody, TokenTransfer};
use crate::state::{Round, State, LAST_ROUND};

verus! {

/// The transfers of a full sweep. A pool that holds nothing gets none.
#[derive(Clone, Copy, Debug, PartialEq, Eq)]
pub struct Withdrawal {
    /// From the public pool to the administrator.
    pub public_pool: Option<TokenTransfer>,
    /// From the reserve pool to the administrator.
    pub reserve_pool: Option<TokenTransfer>,
}

/// The transfer that empties a pool holding `balance`: the whole balance,
/// to the administrator, on the pool's delegated authority. A pool that
/// holds nothing is left alone.
pub open spec fn sweep_of(pool: Custody, authority: Authority, balance: u64) -> Option<
    TokenTransfer,
> {
    if balance > 0 {
        Some(TokenTransfer { from: pool, to: Custody::AdminSaleTokens, authority, amount: balance })
    } else {
        None
    }
}

impl State {
    /// Whether the last round is the one started last and still active.
    pub open spec fn last_round_running(self) -> bool {
        self.current_active_phase == Some(LAST_ROUND) && self.rounds[LAST_ROUND as int].active
    }

    /// The state after the last round, if it is still running, has been
    /// closed at time `now`: it is inactive and ends at `now`, and what it
    /// had left to sell is counted as reclaimed by the administrator.
    pub open spec fn last_round_reclaimed(self, now: i64) -> State {
        if self.last_round_running() {
            State {
                admin_remaining_tokens: (self.admin_remaining_tokens
                    + self.rounds[LAST_ROUND as int].balance) as u64,
                ..self.with_round(
                    LAST_ROUND as int,
                    Round {
                        active: false,
                        end_time: now,
                        balance: 0,
                        ..self.rounds[LAST_ROUND as int]
                    },
                )
            }
        } else {
            self
        }
    }

    /// The state after the public pool, holding `balance`, has been swept:
    /// its total is zero, unless the pool held nothing.
    pub open spec fn public_pool_swept(self, balance: u64) -> State {
        if balance > 0 {
            State { pub_supply: 0, ..self }
        } else {
            self
        }
    }

    /// The state after the reserve pool, holding `balance`, has been swept:
    /// its total is zero, unless the pool held nothing.
    pub open spec fn reserve_pool_swept(self, balance: u64) -> State {
        if balance > 0 {
            State { reserve_supply: 0, ..self }
        } else {
            self
        }
    }
}

/// Orders the transfer that empties the public pool.
fn sweep_public_pool(balance: u64) -> (transfer: Option<TokenTransfer>)
    ensures
        transfer == sweep_of(Custody::PublicPool, Authority::PublicPool, balance),
{
    if balance > 0 {
        Some(
            TokenTransfer {
                from: Custody::PublicPool,
                to: Custody::AdminSaleTokens,
                authority: Authority::PublicPool,
                amount: balance,
            },
        )
    } else {
        None
    }
}

/// Orders the transfer that empties the reserve pool.
fn sweep_reserve_pool(balance: u64) -> (transfer: Option<TokenTransfer>)
    ensures
        transfer == sweep_of(Custody::ReservePool, Authority::ReservePool, balance),
{
    if balance > 0 {
        Some(
            TokenTransfer {
                from: Custody::ReservePool,
                to: Custody::AdminSaleTokens,
                authority: Authority::ReservePool,
                amount: balance,
            },
        )
    } else {
        None
    }
}

/// Sweeps both pools to the administrator at time `now`, and closes the last
/// round if it is still running.
///
/// Only the administrator may do so. What the last round had left to sell is
/// counted as reclaimed, not as part of the public pool. Each pool's whole
/// balance is transferred and its total set to zero; a pool that holds
/// nothing is left alone, which is no failure.
pub fn withdraw_remaining_tokens(ctx: &mut WithdrawRemainingTokens, now: i64) -> (result: Result<
    Withdrawal,
    CustomError,
>)
    requires
        old(ctx).state.wf(),
    ensures
        match result {
            Ok(transfers) => {
                &&& old(ctx).admin == old(ctx).state.admin
                &&& final(ctx).state == old(ctx).state.last_round_reclaimed(now).public_pool_swept(
                    old(ctx).pubsup_balance,
                ).reserve_pool_swept(old(ctx).reserve_balance)
                &&& transfers.public_pool == sweep_of(
                    Custody::PublicPool,
                    Authority::PublicPool,
                    old(ctx).pubsup_balance,
                )
                &&& transfers.reserve_pool == sweep_of(
                    Custody::ReservePool,
                    Authority::ReservePool,
                    old(ctx).reserve_balance,
                )
            },
            Err(error) => {
                &&& old(ctx).admin != old(ctx).state.admin
                &&& error == CustomError::Unauthorized
                &&& final(ctx).state == old(ctx).state
            },
        },
        final(ctx).admin == old(ctx).admin,
        final(ctx).pubsup_balance == old(ctx).pubsup_balance,
        final(ctx).reserve_balance == old(ctx).reserve_balance,
        final(ctx).state.wf(),
{
    if ctx.admin != ctx.state.admin {
        return Err(CustomError::Unauthorized);
    }
    let last = LAST_ROUND as usize;
    if ctx.state.current_active_phase == Some(LAST_ROUND) && ctx.state.rounds[last].active {
        let unsold = ctx.state.rounds[last].balance;
        ctx.state.rounds[last].active = false;
        ctx.state.rounds[last].end_time = now;
        ctx.state.admin_remaining_tokens = ctx.state.admin_remaining_tokens + unsold;
        ctx.state.rounds[last].balance = 0;
    }
    proof {
        assert(ctx.state.rounds =~= old(ctx).state.last_round_reclaimed(now).rounds);
    }
    let public_pool = sweep_public_pool(ctx.pubsup_balance);
    if public_pool.is_some() {
        ctx.state.pub_supply = 0;
    }
    let reserve_pool = sweep_reserve_pool(ctx.reserve_balance);
    if reserve_pool.is_some() {
        ctx.state.reserve_supply = 0;
    }
    Ok(Withdrawal { public_pool, reserve_pool })
}

/// Sweeps the public pool to the administrator.
///
/// Only the administrator may do so. The pool's whole balance is transferred
/// and its total set to zero; if the pool holds nothing, nothing is
/// transferred and nothing changes, which is no failure.
pub fn withdraw_public_pool_tokens(ctx: &mut WithdrawPublicPoolTokens) -> (result: Result<
    Option<TokenTransfer>,
    CustomError,
>)
    ensures
        match result {
            Ok(transfer) => {
                &&& old(ctx).admin == old(ctx).state.admin
                &&& final(ctx).state == old(ctx).state.public_pool_swept(old(ctx).pubsup_balance)
                &&& transfer == sweep_of(
                    Custody::PublicPool,
                    Authority::PublicPool,
                    old(ctx).pubsup_balance,
                )
            },
            Err(error) => {
                &&& old(ctx).admin != old(ctx).state.admin
                &&& error == CustomError::Unauthorized
                &&& final(ctx).state == old(ctx).state
            },
        },
        final(ctx).admin == old(ctx).admin,
        final(ctx).pubsup_balance == old(ctx).pubsup_balance,
        old(ctx).state.wf() ==> final(ctx).state.wf(),
{
    if ctx.admin != ctx.state.admin {
        return Err(CustomError::Unauthorized);
    }
    let transfer = sweep_public_pool(ctx.pubsup_balance);
    if transfer.is_some() {
        ctx.state.pub_supply = 0;
    }
    Ok(transfer)
}

/// Sweeps the reserve pool to the administrator.
///
/// Only the administrator may do so. The pool's whole balance is transferred
/// and its total set to zero; if the pool holds nothing, nothing is
/// transferred and nothing changes, which is no failure.
pub fn withdraw_reserve_pool_tokens(ctx: &mut WithdrawReservePoolTokens) -> (result: Result<
    Option<TokenTransfer>,
    CustomError,
>)
    ensures
        match result {
            Ok(transfer) => {
                &&& old(ctx).admin == old(ctx).state.admin
                &&& final(ctx).state == old(ctx).state.reserve_pool_swept(
                    old(ctx).reserve_balance,
                )
                &&& transfer == sweep_of(
                    Custody::ReservePool,
                    Authority::ReservePool,
                    old(ctx).reserve_balance,
                )
            },
            Err(error) => {
                &&& old(ctx).admin != old(ctx).state.admin
                &&& error == CustomError::Unauthorized
                &&& final(ctx).state == old(ctx).state
            },
        },
        final(ctx).admin == old(ctx).admin,
        final(ctx).reserve_balance == old(ctx).reserve_balance,
        old(ctx).state.wf() ==> final(ctx).state.wf(),
{
    if ctx.admin != ctx.state.admin {
        return Err(CustomError::Unauthorized);
    }
    let transfer = sweep_reserve_pool(ctx.reserve_balance);
    if transfer.is_some() {
        ctx.state.reserve_supply = 0;
    }
    Ok(transfer)
}

} // verus!
