//! Claims against the vesting ledger.

use presale::vesting::{LEDGER_HEADER_SIZE, MAX_PURCHASES, PURCHASE_SIZE, VESTING_DELAY};
use presale::{
    claim, purchasenow, Authority, Claim, Custody, CustomError, Pubkey, Purchase, Purchasenow,
    State, TokenTransfer, Vesting,
};

fn claimant() -> Pubkey {
    Pubkey { bytes: [7; 32] }
}

fn ledger(purchases: Vec<Purchase>) -> Claim {
    Claim { claimant: claimant(), vesting: Vesting { owner: claimant(), purchases } }
}

fn bought(amount: u64, start_time: i64) -> Purchase {
    Purchase { amount, start_time, round: 0, claimed: false }
}

#[test]
fn claim_pays_out_from_the_public_pool() {
    let mut ctx = ledger(vec![bought(100_000, 1_000)]);
    let result = claim(&mut ctx, 0, 0, 1_300);
    assert_eq!(
        result,
        Ok(TokenTransfer {
            from: Custody::PublicPool,
            to: Custody::ClaimantSaleTokens,
            authority: Authority::PublicPool,
            amount: 100_000,
        })
    );
    assert_eq!(
        ctx.vesting.purchases,
        vec![Purchase { amount: 100_000, start_time: 1_000, round: 0, claimed: true }]
    );
    assert_eq!(ctx.vesting.owner, claimant());
    assert_eq!(ctx.claimant, claimant());
}

#[test]
fn claim_twice_is_refused_the_second_time() {
    let mut ctx = ledger(vec![bought(100_000, 1_000)]);
    assert!(claim(&mut ctx, 0, 0, 1_300).is_ok());
    let after_first = ctx.clone();
    assert_eq!(claim(&mut ctx, 0, 0, 1_300), Err(CustomError::AlreadyClaimed));
    assert_eq!(claim(&mut ctx, 0, 0, 9_999_999), Err(CustomError::AlreadyClaimed));
    assert_eq!(ctx, after_first);
}

#[test]
fn claim_waits_for_the_vesting_delay() {
    assert_eq!(VESTING_DELAY, 300);
    let mut ctx = ledger(vec![bought(5, 1_000)]);
    let before = ctx.clone();
    for now in [i64::MIN, 0, 1_000, 1_298, 1_299] {
        assert_eq!(claim(&mut ctx, 0, 0, now), Err(CustomError::VestingPeriodNotEnded));
        assert_eq!(ctx, before);
    }
    // Exactly at the delay it goes through.
    assert!(claim(&mut ctx, 0, 0, 1_300).is_ok());
    // And any time after.
    let mut ctx = ledger(vec![bought(5, 1_000)]);
    assert!(claim(&mut ctx, 0, 0, 1_301).is_ok());
    let mut ctx = ledger(vec![bought(5, 1_000)]);
    assert!(claim(&mut ctx, 0, 0, i64::MAX).is_ok());
}

#[test]
fn claim_asks_for_the_delay_before_the_flag() {
    let mut ctx = ledger(vec![Purchase { amount: 5, start_time: 1_000, round: 0, claimed: true }]);
    assert_eq!(claim(&mut ctx, 0, 0, 1_299), Err(CustomError::VestingPeriodNotEnded));
    assert_eq!(claim(&mut ctx, 0, 0, 1_300), Err(CustomError::AlreadyClaimed));
}

#[test]
fn claim_of_a_purchase_that_is_not_there_fails() {
    let mut ctx = ledger(vec![]);
    assert_eq!(claim(&mut ctx, 0, 0, 5_000), Err(CustomError::InvalidPurchaseId));
    let mut ctx = ledger(vec![bought(1, 0), bought(2, 0)]);
    let before = ctx.clone();
    for index in [2u64, 3, 1 << 32, u64::MAX] {
        assert_eq!(claim(&mut ctx, 0, index, 5_000), Err(CustomError::InvalidPurchaseId));
        assert_eq!(ctx, before);
    }
}

#[test]
fn claims_touch_only_their_own_purchase() {
    let mut ctx = ledger(vec![bought(10, 100), bought(20, 200), bought(30, 300)]);
    assert_eq!(claim(&mut ctx, 0, 1, 500).map(|t| t.amount), Ok(20));
    assert_eq!(
        ctx.vesting.purchases,
        vec![
            bought(10, 100),
            Purchase { amount: 20, start_time: 200, round: 0, claimed: true },
            bought(30, 300),
        ]
    );
    // The third has not vested yet, the first has.
    assert_eq!(claim(&mut ctx, 0, 2, 599), Err(CustomError::VestingPeriodNotEnded));
    assert_eq!(claim(&mut ctx, 0, 0, 599).map(|t| t.amount), Ok(10));
    assert_eq!(claim(&mut ctx, 0, 2, 600).map(|t| t.amount), Ok(30));
    assert!(ctx.vesting.purchases.iter().all(|p| p.claimed));
    for index in 0..3 {
        assert_eq!(claim(&mut ctx, 0, index, 10_000), Err(CustomError::AlreadyClaimed));
    }
}

#[test]
fn claim_does_not_read_the_round() {
    for round in [0u8, 1, 2, 3, 255] {
        let mut ctx = ledger(vec![Purchase { amount: 9, start_time: 0, round: 2, claimed: false }]);
        assert_eq!(claim(&mut ctx, round, 0, 300).map(|t| t.amount), Ok(9));
    }
}

#[test]
fn claim_of_an_empty_purchase_orders_an_empty_transfer() {
    let mut ctx = ledger(vec![bought(0, 0)]);
    assert_eq!(claim(&mut ctx, 0, 0, 300).map(|t| t.amount), Ok(0));
    assert!(ctx.vesting.purchases[0].claimed);
}

#[test]
fn vesting_of_a_purchase_near_the_end_of_time() {
    // The delay ends beyond the clock's range: such a purchase never vests,
    // and asking is no overflow.
    let late = bought(1, i64::MAX - 299);
    assert!(!late.is_vested(i64::MAX));
    let mut ctx = ledger(vec![late]);
    assert_eq!(claim(&mut ctx, 0, 0, i64::MAX), Err(CustomError::VestingPeriodNotEnded));
    let just = bought(1, i64::MAX - 300);
    assert!(just.is_vested(i64::MAX));
    assert!(!just.is_vested(i64::MAX - 1));
    let early = bought(1, i64::MIN);
    assert!(early.is_vested(i64::MIN + 300));
    assert!(!early.is_vested(i64::MIN + 299));
}

#[test]
fn purchase_then_claim() {
    let mut state = State::zeroed();
    state.rounds[0].active = true;
    state.rounds[0].end_time = 10_000;
    state.rounds[0].balance = 1_000_000;
    state.rounds[0].price.bits = 0.002f64.to_bits();
    state.current_active_phase = Some(0);
    let mut buy = Purchasenow {
        buyer: claimant(),
        mint_decimals: 6,
        payment_mint_decimals: 6,
        state,
        vesting: Vesting::empty(),
    };
    assert!(purchasenow(&mut buy, 10, 0, 5_000).is_ok());
    let mut ctx = Claim { claimant: claimant(), vesting: buy.vesting };
    assert_eq!(claim(&mut ctx, 0, 0, 5_299), Err(CustomError::VestingPeriodNotEnded));
    assert_eq!(claim(&mut ctx, 0, 0, 5_300).map(|t| t.amount), Ok(5_000));
    assert_eq!(claim(&mut ctx, 0, 0, 5_301), Err(CustomError::AlreadyClaimed));
}

#[test]
fn ledger_holds_what_fits_its_bytes() {
    assert_eq!(Vesting::MAX_SIZE, 8 + 32 + (8 + 8 + 1) * 100);
    assert_eq!(LEDGER_HEADER_SIZE, 8 + 32 + 4);
    assert_eq!(PURCHASE_SIZE, 8 + 8 + 1 + 1);
    assert_eq!(MAX_PURCHASES, (8 + Vesting::MAX_SIZE - LEDGER_HEADER_SIZE) / PURCHASE_SIZE);
    assert_eq!(MAX_PURCHASES, 94);
    assert!(LEDGER_HEADER_SIZE + (MAX_PURCHASES + 1) * PURCHASE_SIZE > 8 + Vesting::MAX_SIZE);
}

#[test]
fn ledger_fills_up_to_its_capacity() {
    let mut state = State::zeroed();
    state.rounds[0].active = true;
    state.rounds[0].end_time = 10_000;
    state.rounds[0].balance = 1_000_000;
    state.rounds[0].price.bits = 0.002f64.to_bits();
    state.current_active_phase = Some(0);
    let mut ctx = Purchasenow {
        buyer: claimant(),
        mint_decimals: 6,
        payment_mint_decimals: 6,
        state,
        vesting: Vesting::empty(),
    };
    let mut count = 0;
    while ctx.vesting.can_record() {
        assert!(purchasenow(&mut ctx, 1, 0, 5_000).is_ok());
        count += 1;
    }
    assert_eq!(count, MAX_PURCHASES);
    assert_eq!(ctx.vesting.purchases.len(), 94);
    assert_eq!(ctx.state.rounds[0].tokens_sold, 94 * 500);
    assert!(!ctx.vesting.can_record());
}

#[test]
fn empty_ledger_has_room() {
    let ledger = Vesting::empty();
    assert!(ledger.purchases.is_empty());
    assert!(ledger.can_record());
    assert_eq!(ledger.owner, Pubkey::zeroed());
}
