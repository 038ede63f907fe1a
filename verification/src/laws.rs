//! What holds of the sale across several operations.
//!
//! Each law is stated over the functions that the operations' contracts are
//! written in, and proved from their definitions.
use vstd::prelude::*;
use crate::error::CustomError;
use crate::ledger::{Authority, Custody};
use crate::state::{Pubkey, State};
use crate::vesting::{Purchase, VestingView, VESTING_DELAY};
use crate::withdraw::sweep_of;

verus! {

/// A purchase that goes through takes no more than the round has, and takes
/// exactly that much from the round's balance and adds it to what the round
/// has sold. Every other round and the pool totals stay as they are.
pub proof fn lemma_purchase_debits_exactly(state: State, round: u8, now: i64, receivable: u64)
    requires
        state.wf(),
        state.purchase_refusal(round, now, receivable) is None,
    ensures
        receivable <= state.rounds[round as int].balance,
        state.sold(round, receivable).rounds[round as int].balance
            == state.rounds[round as int].balance - receivable,
        state.sold(round, receivable).rounds[round as int].tokens_sold
            == state.rounds[round as int].tokens_sold + receivable,
        forall|i: int|
            0 <= i < 3 && i != round ==> state.sold(round, receivable).rounds[i]
                == state.rounds[i],
        state.sold(round, receivable).pub_supply == state.pub_supply,
        state.sold(round, receivable).reserve_supply == state.reserve_supply,
        state.sold(round, receivable).wf(),
{
}

/// Rounds are started in strictly increasing order: once `round` has been
/// started, the administrator can start neither `round` again nor any round
/// before it, at whatever time.
pub proof fn lemma_round_order_increases(
    state: State,
    caller: Pubkey,
    round: u8,
    now: i64,
    next: u8,
)
    requires
        state.start_round_refusal(caller, round) is None,
        next <= round,
    ensures
        state.round_started(round, now).start_round_refusal(state.admin, next) == Some(
            CustomError::InvalidRoundOrder,
        ),
{
}

/// A round that is started comes after the round that was started before it,
/// and is then the round started last.
pub proof fn lemma_started_round_comes_later(state: State, caller: Pubkey, round: u8, now: i64)
    requires
        state.start_round_refusal(caller, round) is None,
    ensures
        state.current_active_phase is Some ==> state.current_active_phase->0 < round,
        state.round_started(round, now).current_active_phase == Some(round),
{
}

/// Starting a round creates and destroys no tokens. What the closed round
/// had left to sell is added to the public pool's total and taken from the
/// round, every other round keeps its balance, and so the pool's total and
/// the rounds' balances add up to what they added up to before.
pub proof fn lemma_advance_conserves_tokens(state: State, caller: Pubkey, round: u8, now: i64)
    requires
        state.wf(),
        state.start_round_refusal(caller, round) is None,
    ensures
        state.round_started(round, now).public_tokens() == state.public_tokens(),
        match state.current_active_phase {
            Some(closed) => {
                &&& state.round_started(round, now).pub_supply == state.pub_supply
                    + state.rounds[closed as int].balance
                &&& state.round_started(round, now).rounds[closed as int].balance == 0
                &&& forall|i: int|
                    0 <= i < 3 && i != closed ==> state.round_started(round, now).rounds[i].balance
                        == state.rounds[i].balance
            },
            None => {
                &&& state.round_started(round, now).pub_supply == state.pub_supply
                &&& forall|i: int|
                    0 <= i < 3 ==> state.round_started(round, now).rounds[i].balance
                        == state.rounds[i].balance
            },
        },
        state.round_started(round, now).reserve_supply == state.reserve_supply,
        state.round_started(round, now).admin_remaining_tokens == state.admin_remaining_tokens,
{
}

/// A purchase is paid out at most once. After a claim of it has gone
/// through, every further claim of it is refused, whatever the time; at any
/// time not before the first claim the refusal is `AlreadyClaimed`.
pub proof fn lemma_claim_at_most_once(
    ledger: VestingView,
    purchase_index: u64,
    now: i64,
    later: i64,
)
    requires
        ledger.claim_refusal(purchase_index, now) is None,
    ensures
        ledger.claimed(purchase_index as int).claim_refusal(purchase_index, later) is Some,
        later >= now ==> ledger.claimed(purchase_index as int).claim_refusal(purchase_index, later)
            == Some(CustomError::AlreadyClaimed),
{
}

/// A recorded purchase changes in its flag alone, and the flag is never
/// taken back. A new purchase leaves every entry of the ledger as it is. A
/// claim leaves the amount, the start time and the round of every entry as
/// they are; it sets the flag of the purchase claimed and keeps all others.
/// So what has been claimed stays claimed, whatever is bought or claimed
/// afterwards.
pub proof fn lemma_purchases_are_write_once(
    ledger: VestingView,
    purchase_index: int,
    other: int,
    buyer: Pubkey,
    purchase: Purchase,
)
    requires
        0 <= purchase_index < ledger.purchases.len(),
        0 <= other < ledger.purchases.len(),
    ensures
        ledger.recorded(buyer, purchase).purchases[purchase_index]
            == ledger.purchases[purchase_index],
        ledger.recorded(buyer, purchase).purchases.len() == ledger.purchases.len() + 1,
        ledger.claimed(other).purchases.len() == ledger.purchases.len(),
        ledger.claimed(other).purchases[purchase_index] == (Purchase {
            claimed: ledger.purchases[purchase_index].claimed || purchase_index == other,
            ..ledger.purchases[purchase_index]
        }),
{
}

/// What a round has left never grows and what it has sold never shrinks,
/// whether tokens are bought, a round is started or the pools are swept.
/// Only a distribution sets the balances anew.
pub proof fn lemma_round_counters_are_monotone(
    state: State,
    round: u8,
    now: i64,
    receivable: u64,
    balance: u64,
    i: int,
)
    requires
        state.wf(),
        0 <= i < 3,
    ensures
        state.purchase_refusal(round, now, receivable) is None ==> {
            &&& state.sold(round, receivable).rounds[i].balance <= state.rounds[i].balance
            &&& state.sold(round, receivable).rounds[i].tokens_sold >= state.rounds[i].tokens_sold
        },
        state.start_round_refusal(state.admin, round) is None ==> {
            &&& state.round_started(round, now).rounds[i].balance <= state.rounds[i].balance
            &&& state.round_started(round, now).rounds[i].tokens_sold
                == state.rounds[i].tokens_sold
        },
        state.last_round_reclaimed(now).rounds[i].balance <= state.rounds[i].balance,
        state.last_round_reclaimed(now).rounds[i].tokens_sold == state.rounds[i].tokens_sold,
        state.public_pool_swept(balance).rounds[i] == state.rounds[i],
        state.reserve_pool_swept(balance).rounds[i] == state.rounds[i],
{
}

/// The vesting delay gates a claim. Before [`VESTING_DELAY`] seconds have
/// passed since the purchase, a claim is refused with
/// `VestingPeriodNotEnded`; from that moment on, a claim of an unclaimed
/// purchase goes through.
pub proof fn lemma_claim_waits_for_vesting(ledger: VestingView, purchase_index: u64, now: i64)
    requires
        purchase_index < ledger.purchases.len(),
    ensures
        now < ledger.purchases[purchase_index as int].start_time + VESTING_DELAY
            ==> ledger.claim_refusal(purchase_index, now) == Some(
            CustomError::VestingPeriodNotEnded,
        ),
        now >= ledger.purchases[purchase_index as int].start_time + VESTING_DELAY
            && !ledger.purchases[purchase_index as int].claimed ==> ledger.claim_refusal(
            purchase_index,
            now,
        ) is None,
{
}

/// Sweeping a pool that holds nothing orders no transfer and changes
/// nothing; it is no failure.
pub proof fn lemma_empty_pool_sweep(state: State, pool: Custody, authority: Authority)
    ensures
        sweep_of(pool, authority, 0) is None,
        state.public_pool_swept(0) == state,
        state.reserve_pool_swept(0) == state,
{
}

} // verus!
