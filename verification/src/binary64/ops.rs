//! Conversion, division and multiplication on bit patterns.
use vstd::prelude::*;
use vstd::arithmetic::power2::{lemma2_to64, lemma2_to64_rest, lemma_pow2_adds, pow2};
use crate::binary64::lemmas::{
    lemma_bit_len_at_most, lemma_pow2_increases, lemma_quotient_bound, lemma_shifted_at_least,
    lemma_shifted_below,
};
use crate::binary64::model::{
    bit_len, exponent, from_integer, is_finite, product, quotient, significand, truncated,
    HIDDEN_BIT, INFINITY_BITS, MIN_EXPONENT, NAN_BITS, SIGNIFICAND_BOUND,
};
use crate::binary64::rounding::{power_of_two, round_ratio};

verus! {

/// Splits a finite number that is zero or positive into its significand and
/// the exponent of its unit in the last place.
pub fn decode(bits: u64) -> (parts: (u64, i32))
    requires
        is_finite(bits),
    ensures
        parts.0 == significand(bits),
        parts.1 == exponent(bits),
        parts.0 < SIGNIFICAND_BOUND,
        MIN_EXPONENT <= parts.1 <= 971,
        parts.1 > MIN_EXPONENT ==> parts.0 >= HIDDEN_BIT,
        parts.0 == 0 <==> bits == 0,
{
    if bits < HIDDEN_BIT {
        (bits, MIN_EXPONENT)
    } else {
        let field: u64 = bits / HIDDEN_BIT;
        (bits % HIDDEN_BIT + HIDDEN_BIT, field as i32 - 1 + MIN_EXPONENT)
    }
}

/// Converts an integer to the nearest number, ties to even. The result is
/// finite, and zero only for zero.
pub fn from_u64(value: u64) -> (bits: u64)
    ensures
        bits == from_integer(value),
        is_finite(bits),
        bits == 0 <==> value == 0,
{
    proof {
        lemma2_to64();
        lemma_pow2_increases(64, 106);
        reveal_with_fuel(bit_len, 2);
        lemma_bit_len_at_most(value as nat, 64);
    }
    round_ratio(value as u128, 1, 0)
}

/// Divides a finite number by a finite number other than zero, both zero
/// or positive. The result is zero or positive, finite or infinite.
pub fn divide(a: u64, b: u64) -> (bits: u64)
    requires
        is_finite(a),
        is_finite(b),
        b != 0,
    ensures
        bits == quotient(a, b),
        bits <= INFINITY_BITS,
{
    let (a_significand, a_exponent) = decode(a);
    let (b_significand, b_exponent) = decode(b);
    proof {
        lemma2_to64_rest();
        lemma_pow2_increases(53, 106);
    }
    round_ratio(a_significand as u128, b_significand as u128, a_exponent - b_exponent)
}

/// Multiplies two numbers, each finite and zero or positive, or positive
/// infinity. The result is such a number, or no number.
pub fn multiply(a: u64, b: u64) -> (bits: u64)
    requires
        a <= INFINITY_BITS,
        b <= INFINITY_BITS,
    ensures
        bits == product(a, b),
        bits <= INFINITY_BITS || bits == NAN_BITS,
{
    if (a == INFINITY_BITS && b == 0) || (a == 0 && b == INFINITY_BITS) {
        return NAN_BITS;
    }
    if a == INFINITY_BITS || b == INFINITY_BITS {
        return INFINITY_BITS;
    }
    let (a_significand, a_exponent) = decode(a);
    let (b_significand, b_exponent) = decode(b);
    proof {
        lemma2_to64_rest();
        lemma_pow2_adds(53, 53);
        assert(a_significand * b_significand < pow2(53) * pow2(53)) by (nonlinear_arith)
            requires
                a_significand < pow2(53),
                b_significand < pow2(53),
        ;
    }
    round_ratio(a_significand as u128 * b_significand as u128, 1, a_exponent + b_exponent)
}

/// Cuts a number off at the point and converts it to an integer: what is
/// too large for the integers gives the largest, and what is no number
/// gives zero.
pub fn to_u64(bits: u64) -> (value: u64)
    requires
        bits <= INFINITY_BITS || bits == NAN_BITS,
    ensures
        value == truncated(bits),
{
    if bits > INFINITY_BITS {
        return 0;
    }
    if bits == INFINITY_BITS {
        return u64::MAX;
    }
    let (digits, unit) = decode(bits);
    proof {
        lemma2_to64();
        lemma2_to64_rest();
    }
    if unit >= 12 {
        proof {
            lemma_shifted_at_least(digits as nat, 52, unit as nat);
            lemma_pow2_increases(64, 52 + unit as nat);
        }
        u64::MAX
    } else if unit >= 0 {
        proof {
            lemma_shifted_below(digits as nat, 53, unit as nat);
        }
        let whole: u128 = digits as u128 * power_of_two(unit as u32);
        whole as u64
    } else if unit <= -64 {
        proof {
            lemma_pow2_increases(53, (-unit) as nat);
            lemma_quotient_bound(digits as nat, 1 * pow2((-unit) as nat), 1);
        }
        0
    } else {
        let whole: u128 = digits as u128 / power_of_two((-unit) as u32);
        whole as u64
    }
}

} // verus!
