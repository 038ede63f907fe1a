//! The sale from its set-up to the last withdrawal.

use presale::distribution::Distribution;
use presale::{
    dogdistribution, initialize, purchasenow, record_purchase, start_round, Authority, Balance,
    Custody, CustomError, Distoken, Initialize, Price, Pubkey, Purchase, Purchasenow, Round,
    StartRound, State, TokenTransfer, Vesting,
};

fn key(tag: u8) -> Pubkey {
    Pubkey { bytes: [tag; 32] }
}

fn admin() -> Pubkey {
    key(1)
}

fn buyer() -> Pubkey {
    key(7)
}

/// A sale that has been initialised by `admin()`.
fn fresh_sale() -> State {
    let mut ctx = Initialize {
        admin: admin(),
        mint: key(2),
        payment_mint: key(3),
        state: State::zeroed(),
    };
    initialize(&mut ctx);
    ctx.state
}

/// A sale with `totalsupply` distributed.
fn distributed_sale(totalsupply: u64) -> State {
    let mut ctx = Distoken { admin: admin(), state: fresh_sale() };
    dogdistribution(&mut ctx, totalsupply);
    ctx.state
}

fn start(state: State, caller: Pubkey, round: u8, now: i64) -> (State, Result<(), CustomError>) {
    let mut ctx = StartRound { admin: caller, state };
    let result = start_round(&mut ctx, round, now);
    (ctx.state, result)
}

fn buy(
    state: State,
    vesting: Vesting,
    pay_amount: u64,
    round: u8,
    now: i64,
) -> (Purchasenow, Result<TokenTransfer, CustomError>) {
    let mut ctx = Purchasenow {
        buyer: buyer(),
        mint_decimals: 6,
        payment_mint_decimals: 6,
        state,
        vesting,
    };
    let result = purchasenow(&mut ctx, pay_amount, round, now);
    (ctx, result)
}

#[test]
fn pubkeys_compare_by_their_bytes() {
    assert_eq!(key(1), key(1));
    assert_ne!(key(1), key(2));
    let mut other = key(1);
    other.bytes[31] = 0;
    assert_ne!(key(1), other);
    assert_eq!(Pubkey::zeroed(), key(0));
}

#[test]
fn zeroed_state_is_blank_and_well_formed() {
    let state = State::zeroed();
    assert_eq!(state.admin, key(0));
    assert_eq!(state.pub_supply, 0);
    assert_eq!(state.reserve_supply, 0);
    assert_eq!(state.current_active_phase, None);
    assert_eq!(state.admin_remaining_tokens, 0);
    for round in state.rounds {
        assert_eq!(round, Round::zeroed());
        assert!(!round.active);
        assert_eq!(round.price, Price { bits: 0 });
    }
    assert!(state.is_wf());
}

#[test]
fn balance_record_holds_a_balance() {
    assert_eq!(Balance { balance: 5 }.balance, 5);
}

#[test]
fn initialize_sets_identities_and_resets_totals() {
    let mut state = State::zeroed();
    state.pub_supply = 9;
    state.reserve_supply = 9;
    state.current_active_phase = Some(1);
    state.admin_remaining_tokens = 4;
    state.rounds[1].balance = 11;
    let mut ctx = Initialize { admin: admin(), mint: key(2), payment_mint: key(3), state };
    initialize(&mut ctx);
    assert_eq!(ctx.state.admin, admin());
    assert_eq!(ctx.state.mint, key(2));
    assert_eq!(ctx.state.payment_mint, key(3));
    assert_eq!(ctx.state.pub_supply, 0);
    assert_eq!(ctx.state.reserve_supply, 0);
    assert_eq!(ctx.state.current_active_phase, None);
    // The rounds and the reclaimed tokens are not touched.
    assert_eq!(ctx.state.admin_remaining_tokens, 4);
    assert_eq!(ctx.state.rounds[1].balance, 11);
    assert!(fresh_sale().is_wf());
}

#[test]
fn distribution_of_a_million() {
    let mut ctx = Distoken { admin: admin(), state: fresh_sale() };
    let transfers = dogdistribution(&mut ctx, 1_000_000);
    assert_eq!(ctx.state.pub_supply, 500_000);
    assert_eq!(ctx.state.reserve_supply, 500_000);
    assert_eq!(ctx.state.rounds[0].balance, 300_000);
    assert_eq!(ctx.state.rounds[1].balance, 100_000);
    assert_eq!(ctx.state.rounds[2].balance, 100_000);
    assert_eq!(ctx.state.rounds[0].price, Price { bits: 0.002f64.to_bits() });
    assert_eq!(ctx.state.rounds[1].price, Price { bits: 0.003f64.to_bits() });
    assert_eq!(ctx.state.rounds[2].price, Price { bits: 0.004f64.to_bits() });
    assert_eq!(
        transfers,
        Distribution {
            public_pool: TokenTransfer {
                from: Custody::AdminSaleTokens,
                to: Custody::PublicPool,
                authority: Authority::Signer,
                amount: 500_000,
            },
            reserve_pool: TokenTransfer {
                from: Custody::AdminSaleTokens,
                to: Custody::ReservePool,
                authority: Authority::Signer,
                amount: 500_000,
            },
        }
    );
    assert!(ctx.state.is_wf());
    assert_eq!(ctx.admin, admin());
}

#[test]
fn distribution_rounds_every_share_down() {
    // Half of 1999 is 999, and one token stays with the caller. Of 999 the
    // rounds get 599, 199 and 199, which leaves two unassigned.
    let state = distributed_sale(1999);
    assert_eq!(state.pub_supply, 999);
    assert_eq!(state.reserve_supply, 999);
    assert_eq!(state.rounds[0].balance, 599);
    assert_eq!(state.rounds[1].balance, 199);
    assert_eq!(state.rounds[2].balance, 199);

    let state = distributed_sale(1);
    assert_eq!(state.pub_supply, 0);
    assert_eq!(state.rounds[0].balance, 0);

    let state = distributed_sale(0);
    assert_eq!(state.pub_supply, 0);
    assert_eq!(state.reserve_supply, 0);
}

#[test]
fn distribution_of_the_largest_total() {
    let total = u64::MAX / 50;
    let state = distributed_sale(total);
    assert_eq!(state.pub_supply, 184467440737095516);
    assert_eq!(state.reserve_supply, 184467440737095516);
    assert_eq!(state.rounds[0].balance, 110680464442257309);
    assert_eq!(state.rounds[1].balance, 36893488147419103);
    assert_eq!(state.rounds[2].balance, 36893488147419103);
    assert!(state.is_wf());
}

#[test]
fn distribution_can_be_repeated_and_asks_for_no_caller() {
    let mut ctx = Distoken { admin: key(9), state: distributed_sale(1_000_000) };
    ctx.state.rounds[0].tokens_sold = 77;
    ctx.state.rounds[0].active = true;
    ctx.state.current_active_phase = Some(0);
    let transfers = dogdistribution(&mut ctx, 2_000);
    assert_eq!(transfers.public_pool.amount, 1_000);
    assert_eq!(transfers.reserve_pool.amount, 1_000);
    assert_eq!(ctx.state.pub_supply, 1_000);
    assert_eq!(ctx.state.rounds[0].balance, 600);
    assert_eq!(ctx.state.rounds[1].balance, 200);
    // What the rounds have sold, and which is active, stays.
    assert_eq!(ctx.state.rounds[0].tokens_sold, 77);
    assert!(ctx.state.rounds[0].active);
    assert_eq!(ctx.state.current_active_phase, Some(0));
    assert_eq!(ctx.state.admin, admin());
}

#[test]
fn start_round_opens_a_window_of_one_day() {
    let (state, result) = start(distributed_sale(1_000_000), admin(), 0, 1_700_000_000);
    assert_eq!(result, Ok(()));
    assert_eq!(state.current_active_phase, Some(0));
    assert!(state.rounds[0].active);
    assert_eq!(state.rounds[0].start_time, 1_700_000_000);
    assert_eq!(state.rounds[0].end_time, 1_700_086_400);
    assert!(!state.rounds[1].active);
    assert!(!state.rounds[2].active);
    assert_eq!(state.pub_supply, 500_000);
    assert_eq!(state.rounds[0].balance, 300_000);
    assert!(state.is_wf());
}

#[test]
fn start_round_refuses_a_stranger() {
    let before = distributed_sale(1_000_000);
    let (state, result) = start(before, buyer(), 0, 10);
    assert_eq!(result, Err(CustomError::Unauthorized));
    assert_eq!(state, before);
    // The caller is asked about before the round is.
    let (_, result) = start(before, buyer(), 9, 10);
    assert_eq!(result, Err(CustomError::Unauthorized));
}

#[test]
fn start_round_refuses_a_round_that_is_not_there() {
    let before = distributed_sale(1_000_000);
    for round in [3u8, 4, 200, 255] {
        let (state, result) = start(before, admin(), round, 10);
        assert_eq!(result, Err(CustomError::InvalidRound));
        assert_eq!(state, before);
    }
}

#[test]
fn start_round_one_then_zero_fails() {
    let (state, result) = start(distributed_sale(1_000_000), admin(), 1, 100);
    assert_eq!(result, Ok(()));
    let (after, result) = start(state, admin(), 0, 200);
    assert_eq!(result, Err(CustomError::InvalidRoundOrder));
    assert_eq!(after, state);
}

#[test]
fn start_round_zero_twice_fails() {
    let (state, result) = start(distributed_sale(1_000_000), admin(), 0, 100);
    assert_eq!(result, Ok(()));
    let (after, result) = start(state, admin(), 0, 200);
    assert_eq!(result, Err(CustomError::InvalidRoundOrder));
    assert_eq!(after, state);
}

#[test]
fn first_round_to_start_can_be_any() {
    for round in 0..3u8 {
        let (state, result) = start(distributed_sale(1_000_000), admin(), round, 5);
        assert_eq!(result, Ok(()));
        assert_eq!(state.current_active_phase, Some(round));
        // Nothing was active, so nothing is swept.
        assert_eq!(state.pub_supply, 500_000);
    }
}

#[test]
fn rounds_can_be_skipped_but_not_revisited() {
    let (state, result) = start(distributed_sale(1_000_000), admin(), 0, 5);
    assert_eq!(result, Ok(()));
    let (state, result) = start(state, admin(), 2, 6);
    assert_eq!(result, Ok(()));
    for round in 0..3u8 {
        let (_, result) = start(state, admin(), round, 7);
        assert_eq!(result, Err(CustomError::InvalidRoundOrder));
    }
}

#[test]
fn advancing_sweeps_the_unsold_balance_into_the_pool() {
    let (state, _) = start(distributed_sale(1_000_000), admin(), 0, 100);
    let (ctx, result) = buy(state, Vesting::empty(), 200, 0, 150);
    assert!(result.is_ok());
    let before = ctx.state;
    assert_eq!(before.rounds[0].balance, 200_000);

    let (after, result) = start(before, admin(), 1, 300);
    assert_eq!(result, Ok(()));
    // The closed round: inactive, ended now, emptied into the pool's total.
    assert!(!after.rounds[0].active);
    assert_eq!(after.rounds[0].end_time, 300);
    assert_eq!(after.rounds[0].balance, 0);
    assert_eq!(after.rounds[0].tokens_sold, 100_000);
    assert_eq!(after.rounds[0].start_time, 100);
    assert_eq!(after.pub_supply, 700_000);
    // The new round: active from now for a day, with its own allotment.
    assert!(after.rounds[1].active);
    assert_eq!(after.rounds[1].start_time, 300);
    assert_eq!(after.rounds[1].end_time, 86_700);
    assert_eq!(after.rounds[1].balance, 100_000);
    assert_eq!(after.rounds[2].balance, 100_000);
    assert_eq!(after.current_active_phase, Some(1));
    assert_eq!(after.reserve_supply, 500_000);
    // Nothing was created or destroyed.
    let total = |s: &State| s.pub_supply + s.rounds.iter().map(|r| r.balance).sum::<u64>();
    assert_eq!(total(&after), total(&before));
    assert_eq!(total(&after), 900_000);
    assert!(after.is_wf());
}

#[test]
fn exactly_one_round_is_active_after_each_start() {
    let mut state = distributed_sale(1_000_000);
    for round in 0..3u8 {
        let (next, result) = start(state, admin(), round, 1000 * round as i64);
        assert_eq!(result, Ok(()));
        state = next;
        let active: Vec<usize> = (0..3).filter(|&i| state.rounds[i].active).collect();
        assert_eq!(active, vec![round as usize]);
    }
}

#[test]
fn start_round_at_the_end_of_time() {
    let now = i64::MAX - 86_400;
    let (state, result) = start(distributed_sale(10), admin(), 0, now);
    assert_eq!(result, Ok(()));
    assert_eq!(state.rounds[0].end_time, i64::MAX);
    let (state, result) = start(distributed_sale(10), admin(), 0, i64::MIN);
    assert_eq!(result, Ok(()));
    assert_eq!(state.rounds[0].end_time, i64::MIN + 86_400);
}

#[test]
fn purchase_scenario_of_a_million() {
    let (state, result) = start(distributed_sale(1_000_000), admin(), 0, 100);
    assert_eq!(result, Ok(()));

    // 2000 at 0.002 would buy a million, more than the round's 300000.
    let (ctx, result) = buy(state, Vesting::empty(), 2000, 0, 150);
    assert_eq!(result, Err(CustomError::InsufficientRoundBalance));
    assert_eq!(ctx.state, state);
    assert!(ctx.vesting.purchases.is_empty());

    // 200 buys 100000.
    let (ctx, result) = buy(state, Vesting::empty(), 200, 0, 150);
    assert_eq!(
        result,
        Ok(TokenTransfer {
            from: Custody::BuyerPaymentTokens,
            to: Custody::AdminPaymentTokens,
            authority: Authority::Signer,
            amount: 200,
        })
    );
    assert_eq!(ctx.state.rounds[0].balance, 200_000);
    assert_eq!(ctx.state.rounds[0].tokens_sold, 100_000);
    assert_eq!(ctx.state.pub_supply, 500_000);
    assert_eq!(ctx.vesting.owner, buyer());
    assert_eq!(
        ctx.vesting.purchases,
        vec![Purchase { amount: 100_000, start_time: 150, round: 0, claimed: false }]
    );
    assert!(ctx.state.is_wf());
}

#[test]
fn purchase_debits_exactly_what_it_credits() {
    let (mut state, _) = start(distributed_sale(1_000_000), admin(), 0, 100);
    let mut vesting = Vesting::empty();
    let mut sold = 0u64;
    for pay in [1u64, 7, 13, 200, 99, 250] {
        let before = state.rounds[0].balance;
        let (ctx, result) = buy(state, vesting, pay, 0, 150);
        assert!(result.is_ok());
        let bought = ctx.vesting.purchases.last().unwrap().amount;
        assert_eq!(bought, pay * 500);
        assert!(bought <= before);
        assert_eq!(ctx.state.rounds[0].balance, before - bought);
        sold += bought;
        assert_eq!(ctx.state.rounds[0].tokens_sold, sold);
        state = ctx.state;
        vesting = ctx.vesting;
    }
    assert_eq!(vesting.purchases.len(), 6);
    assert_eq!(state.rounds[0].balance + state.rounds[0].tokens_sold, 300_000);
}

#[test]
fn purchase_can_take_the_whole_balance_and_then_no_more() {
    let (state, _) = start(distributed_sale(1_000_000), admin(), 0, 100);
    let (ctx, result) = buy(state, Vesting::empty(), 600, 0, 150);
    assert!(result.is_ok());
    assert_eq!(ctx.state.rounds[0].balance, 0);
    assert_eq!(ctx.state.rounds[0].tokens_sold, 300_000);
    // An empty round refuses every payment, even one that buys nothing.
    let sold_out = ctx.state;
    let (ctx, result) = buy(sold_out, ctx.vesting, 0, 0, 160);
    assert_eq!(result, Err(CustomError::InsufficientRoundBalance));
    assert_eq!(ctx.state, sold_out);
    assert_eq!(ctx.vesting.purchases.len(), 1);
}

#[test]
fn purchase_of_one_token_too_many_fails() {
    let (state, _) = start(distributed_sale(1_000_000), admin(), 0, 100);
    let (ctx, result) = buy(state, Vesting::empty(), 601, 0, 150);
    assert_eq!(result, Err(CustomError::InsufficientRoundBalance));
    assert_eq!(ctx.state, state);
}

#[test]
fn purchase_that_buys_nothing_is_recorded() {
    let (state, _) = start(distributed_sale(1_000_000), admin(), 0, 100);
    let (ctx, result) = buy(state, Vesting::empty(), 0, 0, 150);
    assert_eq!(result.map(|t| t.amount), Ok(0));
    assert_eq!(ctx.state.rounds[0].balance, 300_000);
    assert_eq!(
        ctx.vesting.purchases,
        vec![Purchase { amount: 0, start_time: 150, round: 0, claimed: false }]
    );
}

#[test]
fn purchase_in_a_round_that_is_not_there_fails() {
    let (state, _) = start(distributed_sale(1_000_000), admin(), 0, 100);
    for round in [3u8, 17, 255] {
        let (ctx, result) = buy(state, Vesting::empty(), 200, round, 150);
        assert_eq!(result, Err(CustomError::InvalidRound));
        assert_eq!(ctx.state, state);
        assert!(ctx.vesting.purchases.is_empty());
    }
}

#[test]
fn purchase_in_a_round_that_is_not_active_fails() {
    let state = distributed_sale(1_000_000);
    let (_, result) = buy(state, Vesting::empty(), 200, 0, 150);
    assert_eq!(result, Err(CustomError::RoundExpired));
    let (state, _) = start(state, admin(), 0, 100);
    let (_, result) = buy(state, Vesting::empty(), 200, 1, 150);
    assert_eq!(result, Err(CustomError::RoundExpired));
    // A round that has been closed takes no purchase either.
    let (state, _) = start(state, admin(), 1, 200);
    let (_, result) = buy(state, Vesting::empty(), 200, 0, 250);
    assert_eq!(result, Err(CustomError::RoundExpired));
}

#[test]
fn purchase_window_includes_its_last_second() {
    let (state, _) = start(distributed_sale(1_000_000), admin(), 0, 100);
    let end = state.rounds[0].end_time;
    assert_eq!(end, 86_500);
    let (_, result) = buy(state, Vesting::empty(), 200, 0, end);
    assert!(result.is_ok());
    let (ctx, result) = buy(state, Vesting::empty(), 200, 0, end + 1);
    assert_eq!(result, Err(CustomError::RoundExpired));
    assert_eq!(ctx.state, state);
    // The window's start is not asked about.
    let (_, result) = buy(state, Vesting::empty(), 200, 0, 0);
    assert!(result.is_ok());
}

#[test]
fn purchase_before_distribution_finds_nothing_to_sell() {
    let (state, result) = start(fresh_sale(), admin(), 0, 100);
    assert_eq!(result, Ok(()));
    let (_, result) = buy(state, Vesting::empty(), 200, 0, 150);
    assert_eq!(result, Err(CustomError::InsufficientRoundBalance));
}

#[test]
fn purchase_at_the_later_prices() {
    let (state, _) = start(distributed_sale(1_000_000), admin(), 1, 100);
    let (ctx, result) = buy(state, Vesting::empty(), 300, 1, 150);
    assert!(result.is_ok());
    assert_eq!(ctx.vesting.purchases[0].amount, 100_000);
    assert_eq!(ctx.vesting.purchases[0].round, 1);
    assert_eq!(ctx.state.rounds[1].balance, 0);

    let (state, _) = start(distributed_sale(1_000_000), admin(), 2, 100);
    let (ctx, result) = buy(state, Vesting::empty(), 1, 2, 150);
    assert!(result.is_ok());
    assert_eq!(ctx.vesting.purchases[0].amount, 250);
    assert_eq!(ctx.state.rounds[2].balance, 99_750);
}

#[test]
fn purchase_uses_the_decimal_places_of_both_tokens() {
    let (state, _) = start(distributed_sale(1_000_000), admin(), 0, 100);
    let mut ctx = Purchasenow {
        buyer: buyer(),
        mint_decimals: 9,
        payment_mint_decimals: 6,
        state,
        vesting: Vesting::empty(),
    };
    // One payment unit buys 500 tokens, a thousand times as many units.
    assert_eq!(
        purchasenow(&mut ctx, 1, 0, 150),
        Err(CustomError::InsufficientRoundBalance)
    );
    ctx.mint_decimals = 6;
    ctx.payment_mint_decimals = 9;
    assert!(purchasenow(&mut ctx, 2000, 0, 150).is_ok());
    assert_eq!(ctx.vesting.purchases[0].amount, 1_000);
    assert_eq!(ctx.mint_decimals, 6);
    assert_eq!(ctx.payment_mint_decimals, 9);
    assert_eq!(ctx.buyer, buyer());
}

#[test]
fn purchases_are_appended_in_order_and_set_the_owner() {
    let (state, _) = start(distributed_sale(1_000_000), admin(), 0, 100);
    let mut vesting = Vesting::empty();
    assert_eq!(vesting.owner, key(0));
    vesting.purchases.push(Purchase { amount: 5, start_time: 1, round: 0, claimed: true });
    let (ctx, result) = buy(state, vesting, 2, 0, 150);
    assert!(result.is_ok());
    let (ctx, result) = buy(ctx.state, ctx.vesting, 4, 0, 151);
    assert!(result.is_ok());
    assert_eq!(ctx.vesting.owner, buyer());
    assert_eq!(
        ctx.vesting.purchases,
        vec![
            Purchase { amount: 5, start_time: 1, round: 0, claimed: true },
            Purchase { amount: 1_000, start_time: 150, round: 0, claimed: false },
            Purchase { amount: 2_000, start_time: 151, round: 0, claimed: false },
        ]
    );
}

#[test]
fn record_purchase_sells_the_amount_it_is_given() {
    let (state, _) = start(distributed_sale(1_000_000), admin(), 0, 100);
    let mut ctx = Purchasenow {
        buyer: buyer(),
        mint_decimals: 6,
        payment_mint_decimals: 6,
        state,
        vesting: Vesting::empty(),
    };
    assert_eq!(
        record_purchase(&mut ctx, 1, 0, 150, 300_001),
        Err(CustomError::InsufficientRoundBalance)
    );
    assert_eq!(ctx.state, state);
    let transfer = record_purchase(&mut ctx, 1, 0, 150, 300_000).unwrap();
    assert_eq!(transfer.amount, 1);
    assert_eq!(ctx.state.rounds[0].balance, 0);
    assert_eq!(ctx.state.rounds[0].tokens_sold, 300_000);
    assert_eq!(ctx.vesting.purchases[0].amount, 300_000);
}

#[test]
fn state_invariant_is_checked_field_by_field() {
    let good = distributed_sale(1_000_000);
    assert!(good.is_wf());

    let mut state = good;
    state.current_active_phase = Some(3);
    assert!(!state.is_wf());

    let mut state = good;
    state.rounds[1].active = true;
    assert!(!state.is_wf());
    state.current_active_phase = Some(1);
    assert!(state.is_wf());
    state.rounds[2].active = true;
    assert!(!state.is_wf());

    let mut state = good;
    state.rounds[0].tokens_sold = u64::MAX;
    assert!(!state.is_wf());
    state.rounds[0].tokens_sold = u64::MAX - 300_000;
    assert!(state.is_wf());

    let mut state = good;
    state.pub_supply = u64::MAX - 499_999;
    assert!(!state.is_wf());
    state.pub_supply = u64::MAX - 500_000;
    assert!(state.is_wf());

    let mut state = good;
    state.admin_remaining_tokens = u64::MAX - 99_999;
    assert!(!state.is_wf());
    state.admin_remaining_tokens = u64::MAX - 100_000;
    assert!(state.is_wf());
}
