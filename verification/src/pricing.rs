//! What a payment buys.
//!
//! A price is a binary64 number, and the tokens owed for a payment are
//! defined by binary64 arithmetic: the payment is converted to a number and
//! divided by the price, the quotient is multiplied by the ratio of the two
//! tokens' units, and the product is cut off at the point. Each step rounds
//! to the nearest number, ties to even. Exact rational arithmetic would
//! give other amounts for some payments, so the steps and their roundings
//! are kept as they are.
use vstd::prelude::*;
use crate::binary64::model::{from_integer, product, quotient, truncated, INFINITY_BITS};
use crate::binary64::ops::{divide, from_u64, multiply, to_u64};
use crate::state::Price;

verus! {

/// The largest number of decimal places of a token: with more, one whole
/// token does not fit the counter.
pub const MAX_DECIMALS: u8 = 19;

/// Ten to the power of `decimals`: the units that make up one whole token.
pub open spec fn power_of_ten(decimals: nat) -> nat
    decreases decimals,
{
    if decimals == 0 {
        1
    } else {
        10 * power_of_ten((decimals - 1) as nat)
    }
}

/// One whole token of at most [`MAX_DECIMALS`] decimal places fits 64 bits.
pub proof fn lemma_power_of_ten_fits(decimals: nat)
    requires
        decimals <= MAX_DECIMALS,
    ensures
        1 <= power_of_ten(decimals) <= 10_000_000_000_000_000_000u64,
{
    reveal_with_fuel(power_of_ten, 20);
}

/// The units that make up one whole token with `decimals` decimal places.
pub fn one_token(decimals: u8) -> (units: u64)
    requires
        decimals <= MAX_DECIMALS,
    ensures
        units == power_of_ten(decimals as nat),
        units >= 1,
{
    let mut units: u64 = 1;
    let mut i: u8 = 0;
    while i < decimals
        invariant
            i <= decimals <= MAX_DECIMALS,
            units == power_of_ten(i as nat),
        decreases decimals - i,
    {
        proof {
            lemma_power_of_ten_fits((i + 1) as nat);
        }
        units = units * 10;
        i = i + 1;
    }
    proof {
        lemma_power_of_ten_fits(decimals as nat);
    }
    units
}

/// The tokens owed for a payment of `pay_amount` at `price`, where the token
/// on sale has `mint_decimals` decimal places and the payment token
/// `payment_mint_decimals`.
///
/// For a price that is a positive number: the payment divided by the price,
/// times the ratio of one whole token on sale to one whole payment token,
/// cut off at the point; the largest amount there is where the result is
/// beyond it. The other prices give what binary64 arithmetic gives for
/// them. Division by zero gives infinity, and so the largest amount, but
/// zero divided by zero is no number and gives nothing. A negative price,
/// an infinite one and one that is no number give nothing.
pub open spec fn receivable(
    pay_amount: u64,
    price: Price,
    mint_decimals: u8,
    payment_mint_decimals: u8,
) -> u64 {
    if price.bits == 0 {
        if pay_amount == 0 {
            0
        } else {
            u64::MAX
        }
    } else if price.bits >= INFINITY_BITS {
        0
    } else {
        truncated(
            product(
                quotient(from_integer(pay_amount), price.bits),
                quotient(
                    from_integer(power_of_ten(mint_decimals as nat) as u64),
                    from_integer(power_of_ten(payment_mint_decimals as nat) as u64),
                ),
            ),
        )
    }
}

/// Computes [`receivable`].
pub fn receivable_amount(
    pay_amount: u64,
    price: Price,
    mint_decimals: u8,
    payment_mint_decimals: u8,
) -> (amount: u64)
    requires
        mint_decimals <= MAX_DECIMALS,
        payment_mint_decimals <= MAX_DECIMALS,
    ensures
        amount == receivable(pay_amount, price, mint_decimals, payment_mint_decimals),
{
    if price.bits == 0 {
        return if pay_amount == 0 {
            0
        } else {
            u64::MAX
        };
    }
    if price.bits >= INFINITY_BITS {
        return 0;
    }
    let tokens = divide(from_u64(pay_amount), price.bits);
    let one_sale_token = from_u64(one_token(mint_decimals));
    let one_payment_token = from_u64(one_token(payment_mint_decimals));
    let scale = divide(one_sale_token, one_payment_token);
    to_u64(multiply(tokens, scale))
}

} // verus!
