//! Rounding a scaled quotient of integers to the nearest number.
use vstd::prelude::*;
use vstd::arithmetic::power2::{lemma2_to64, lemma2_to64_rest, lemma_pow2_unfold, pow2};
use crate::binary64::lemmas::{
    lemma_bit_len_at_most, lemma_bit_len_bounds, lemma_pow2_128, lemma_pow2_increases,
    lemma_scaled_at_least, lemma_scaled_below, lemma_scaled_fits,
    lemma_scaled_floor_at_most_doubles, lemma_tiny_rounds_to_zero, lemma_ulp_exponent_unique,
    lemma_zero_rounds_to_zero,
};
use crate::binary64::model::{
    bit_len, nearest_binary64, scaled_den, scaled_num, HIDDEN_BIT, INFINITY_BITS, MIN_EXPONENT,
};

verus! {

/// Two to the power of `exponent`.
pub fn power_of_two(exponent: u32) -> (power: u128)
    requires
        exponent < 128,
    ensures
        power == pow2(exponent as nat),
{
    let mut power: u128 = 1;
    let mut i: u32 = 0;
    proof {
        lemma2_to64();
    }
    while i < exponent
        invariant
            i <= exponent < 128,
            power == pow2(i as nat),
        decreases exponent - i,
    {
        proof {
            lemma_pow2_unfold((i + 1) as nat);
            lemma_pow2_increases((i + 1) as nat, 127);
            lemma_pow2_128();
        }
        power = power * 2;
        i = i + 1;
    }
    power
}

/// Computes [`bit_len`].
pub fn bit_length(n: u128) -> (length: u32)
    ensures
        length == bit_len(n as nat),
        length <= 128,
{
    let mut length: u32 = 0;
    let mut rest: u128 = n;
    proof {
        lemma_pow2_128();
        lemma_bit_len_at_most(n as nat, 128);
    }
    while rest > 0
        invariant
            bit_len(n as nat) == length + bit_len(rest as nat),
            bit_len(n as nat) <= 128,
        decreases rest,
    {
        rest = rest / 2;
        length = length + 1;
    }
    length
}

/// `n * 2^shift` and `d`, or `n` and `d * 2^-shift`: numerator and
/// denominator of `n / d * 2^shift`.
fn scale(n: u128, d: u128, shift: i32) -> (parts: (u128, u128))
    requires
        -128 < shift < 128,
        scaled_num(n as nat, shift as int) < pow2(128),
        scaled_den(d as nat, shift as int) < pow2(128),
    ensures
        parts.0 == scaled_num(n as nat, shift as int),
        parts.1 == scaled_den(d as nat, shift as int),
{
    proof {
        lemma_pow2_128();
    }
    if shift >= 0 {
        let factor = power_of_two(shift as u32);
        (n * factor, d)
    } else {
        let factor = power_of_two((-shift) as u32);
        (n, d * factor)
    }
}

/// The bit pattern of the binary64 number nearest to `n / d * 2^x`, ties to
/// even.
///
/// The bit lengths of `n` and `d` place the leading bit of the value within
/// one position. The value is divided out in the unit that suits the higher
/// of the two positions, and once more in the next finer unit if the
/// quotient comes out one bit short. Below the normal numbers the unit is
/// the least there is; a value under a quarter of it is zero, and is not
/// divided out at all.
///
/// The bounds on `x` leave room for the difference and the sum of any two
/// exponents.
pub fn round_ratio(n: u128, d: u128, x: i32) -> (bits: u64)
    requires
        n < pow2(106),
        0 < d < pow2(64),
        -8192 <= x <= 8192,
    ensures
        bits == nearest_binary64(n as nat, d as nat, x as int),
        bits <= INFINITY_BITS,
        n == 0 ==> bits == 0,
        n > 0 && -1021 <= bit_len(n as nat) - bit_len(d as nat) + x <= 1022 ==> HIDDEN_BIT <= bits
            < INFINITY_BITS,
{
    if n == 0 {
        proof {
            lemma_zero_rounds_to_zero(d as nat, x as int);
        }
        return 0;
    }
    let n_bits = bit_length(n);
    let d_bits = bit_length(d);
    proof {
        lemma_bit_len_bounds(n as nat);
        lemma_bit_len_bounds(d as nat);
        lemma_bit_len_at_most(n as nat, 106);
        lemma_bit_len_at_most(d as nat, 64);
    }
    let n_length: i32 = n_bits as i32;
    let d_length: i32 = d_bits as i32;
    // `n / d` lies between two to the power of `lead - 1` and of `lead + 1`.
    let lead: i32 = n_length - d_length;
    let ideal: i32 = lead + x - 52;
    let mut ulp: i32 = if ideal < MIN_EXPONENT {
        MIN_EXPONENT
    } else {
        ideal
    };
    // In units of `2^ulp` the value is `n / d * 2^shift`.
    let mut shift: i32 = x - ulp;
    if shift < -(lead + 2) {
        proof {
            lemma_tiny_rounds_to_zero(n as nat, d as nat, n_bits as nat, d_bits as nat, x as int);
        }
        return 0;
    }
    proof {
        lemma_scaled_below(n as nat, d as nat, n_bits as nat, d_bits as nat, shift as int, 53);
        lemma_scaled_fits(n as nat, d as nat, n_bits as nat, d_bits as nat, shift as int);
    }
    let first = scale(n, d, shift);
    let mut num: u128 = first.0;
    let mut den: u128 = first.1;
    if ulp > MIN_EXPONENT && num / den < HIDDEN_BIT as u128 {
        // The leading bit is at the lower position: one more bit of the
        // quotient belongs to the significand.
        proof {
            lemma2_to64_rest();
            lemma_scaled_floor_at_most_doubles(n as nat, d as nat, shift as int, pow2(52));
            lemma_scaled_at_least(
                n as nat,
                d as nat,
                n_bits as nat,
                d_bits as nat,
                shift + 1,
                52,
            );
            lemma_scaled_fits(n as nat, d as nat, n_bits as nat, d_bits as nat, shift + 1);
        }
        ulp = ulp - 1;
        shift = shift + 1;
        let second = scale(n, d, shift);
        num = second.0;
        den = second.1;
    }
    proof {
        lemma2_to64_rest();
        lemma_ulp_exponent_unique(n as nat, d as nat, x as int, ulp as int);
    }
    let q: u128 = num / den;
    let r: u128 = num % den;
    // Up if the remainder is more than half the divisor, or half of it with
    // an odd quotient.
    let up = r > den - r || (r == den - r && q % 2 == 1);
    let significand: u128 = if up {
        q + 1
    } else {
        q
    };
    // The exponent field, less one for a significand with its leading bit,
    // which the sum below carries into the field.
    let biased: i32 = ulp - MIN_EXPONENT;
    if biased >= 2047 {
        return INFINITY_BITS;
    }
    let bits: u64 = biased as u64 * HIDDEN_BIT + significand as u64;
    if bits >= INFINITY_BITS {
        INFINITY_BITS
    } else {
        bits
    }
}

} // verus!
