//! Proofs about powers of two, scaled quotients and rounding.
use vstd::prelude::*;
use vstd::arithmetic::div_mod::{
    lemma_fundamental_div_mod, lemma_fundamental_div_mod_converse, lemma_mod_pos_bound,
    lemma_small_mod,
};
use vstd::arithmetic::power2::{
    lemma2_to64, lemma2_to64_rest, lemma_pow2_adds, lemma_pow2_pos, lemma_pow2_strictly_increases,
    lemma_pow2_unfold, pow2,
};
use crate::binary64::model::{
    bit_len, encoded, exponent, is_finite, is_ulp_exponent, nearest_binary64, nearest_even,
    scaled_den, scaled_floor, scaled_num, significand, ulp_exponent, HIDDEN_BIT, INFINITY_BITS,
    MIN_EXPONENT, SIGNIFICAND_BOUND,
};

verus! {

/// Powers of two grow with the exponent.
pub proof fn lemma_pow2_increases(a: nat, b: nat)
    requires
        a <= b,
    ensures
        pow2(a) <= pow2(b),
{
    if a < b {
        lemma_pow2_strictly_increases(a, b);
    }
}

/// Two to the power of 128, one more than the largest `u128`.
pub proof fn lemma_pow2_128()
    ensures
        pow2(128) == 0x1_0000_0000_0000_0000_0000_0000_0000_0000,
        pow2(127) == 0x8000_0000_0000_0000_0000_0000_0000_0000,
{
    lemma2_to64_rest();
    lemma_pow2_adds(64, 64);
    lemma_pow2_adds(64, 63);
}

/// A quotient, rounded down, lies below a bound exactly if the numerator
/// lies below the bound's multiple of the denominator.
pub proof fn lemma_quotient_bound(num: nat, den: nat, bound: nat)
    requires
        den > 0,
    ensures
        num < bound * den <==> num / den < bound,
{
    assert(num == den * (num / den) + num % den && 0 <= num % den < den) by {
        lemma_fundamental_div_mod(num as int, den as int);
        lemma_mod_pos_bound(num as int, den as int);
    }
    let q = num / den;
    let r = num % den;
    assert(num < bound * den <==> q < bound) by (nonlinear_arith)
        requires
            num == den * q + r,
            0 <= r < den,
            den > 0,
    ;
}

/// A product of a number below a power of two with a power of two lies
/// below the power of two of the exponents' sum.
pub proof fn lemma_shifted_below(n: nat, length: nat, shift: nat)
    requires
        n < pow2(length),
    ensures
        n * pow2(shift) < pow2(length + shift),
{
    lemma_pow2_adds(length, shift);
    lemma_pow2_pos(shift);
    assert(n * pow2(shift) < pow2(length) * pow2(shift)) by (nonlinear_arith)
        requires
            n < pow2(length),
            pow2(shift) > 0,
    ;
}

/// A product of a number that is at least a power of two with a power of
/// two is at least the power of two of the exponents' sum.
pub proof fn lemma_shifted_at_least(n: nat, length: nat, shift: nat)
    requires
        n >= pow2(length),
    ensures
        n * pow2(shift) >= pow2(length + shift),
{
    lemma_pow2_adds(length, shift);
    lemma_pow2_pos(shift);
    assert(n * pow2(shift) >= pow2(length) * pow2(shift)) by (nonlinear_arith)
        requires
            n >= pow2(length),
            pow2(shift) > 0,
    ;
}

/// A number lies below two to the power of its number of bits, and not
/// below the power before that.
pub proof fn lemma_bit_len_bounds(n: nat)
    ensures
        n < pow2(bit_len(n)),
        n > 0 ==> bit_len(n) >= 1 && n >= pow2((bit_len(n) - 1) as nat),
    decreases n,
{
    lemma2_to64();
    if n > 0 {
        lemma_bit_len_bounds(n / 2);
        lemma_pow2_unfold(bit_len(n));
        if n / 2 > 0 {
            lemma_pow2_unfold((bit_len(n) - 1) as nat);
        }
    }
}

/// A number below two to the power of `length` has at most `length` bits.
pub proof fn lemma_bit_len_at_most(n: nat, length: nat)
    requires
        n < pow2(length),
    ensures
        bit_len(n) <= length,
{
    lemma_bit_len_bounds(n);
    if bit_len(n) > length {
        lemma_pow2_increases(length, (bit_len(n) - 1) as nat);
    }
}

/// Raising the shift by one at least doubles the rounded-down value.
pub proof fn lemma_scaled_floor_doubles(n: nat, d: nat, shift: int)
    requires
        d > 0,
    ensures
        scaled_floor(n, d, shift + 1) >= 2 * scaled_floor(n, d, shift),
        scaled_num(n, shift + 1) * scaled_den(d, shift) == 2 * scaled_num(n, shift) * scaled_den(
            d,
            shift + 1,
        ),
        scaled_den(d, shift) > 0,
        scaled_den(d, shift + 1) > 0,
{
    let num = scaled_num(n, shift);
    let den = scaled_den(d, shift);
    let num1 = scaled_num(n, shift + 1);
    let den1 = scaled_den(d, shift + 1);
    if shift >= 0 {
        lemma_pow2_unfold((shift + 1) as nat);
        assert(num1 == 2 * num) by (nonlinear_arith)
            requires
                num1 == n * pow2((shift + 1) as nat),
                num == n * pow2(shift as nat),
                pow2((shift + 1) as nat) == 2 * pow2(shift as nat),
        ;
    } else {
        lemma_pow2_pos((-shift) as nat);
        lemma_pow2_unfold((-shift) as nat);
        lemma2_to64();
        assert(num1 == num) by (nonlinear_arith)
            requires
                shift < 0,
                num == n,
                shift + 1 == 0 ==> num1 == n * pow2(0),
                shift + 1 < 0 ==> num1 == n,
                pow2(0) == 1,
        ;
        assert(den == 2 * den1) by (nonlinear_arith)
            requires
                shift < 0,
                den == d * pow2((-shift) as nat),
                shift + 1 == 0 ==> den1 == d,
                shift + 1 < 0 ==> den1 == d * pow2((-shift - 1) as nat),
                pow2((-shift) as nat) == 2 * pow2((-shift - 1) as nat),
                shift + 1 == 0 ==> pow2((-shift - 1) as nat) == 1,
        ;
        assert(den1 > 0) by (nonlinear_arith)
            requires
                den == 2 * den1,
                den == d * pow2((-shift) as nat),
                d > 0,
                pow2((-shift) as nat) > 0,
        ;
    }
    assert(num1 * den == 2 * num * den1) by (nonlinear_arith)
        requires
            (num1 == 2 * num && den1 == den) || (num1 == num && den == 2 * den1),
    ;
    let q = num / den;
    assert(num >= q * den) by {
        lemma_fundamental_div_mod(num as int, den as int);
        lemma_mod_pos_bound(num as int, den as int);
        assert(q * den == den * q) by (nonlinear_arith);
    }
    assert(num1 >= (2 * q) * den1) by (nonlinear_arith)
        requires
            num >= q * den,
            (num1 == 2 * num && den1 == den) || (num1 == num && den == 2 * den1),
    ;
    if num1 / den1 < 2 * q {
        lemma_quotient_bound(num1, den1, 2 * q);
    }
}

/// If `n / d * 2^shift` lies below a bound, it lies below twice the bound
/// with the shift raised by one.
pub proof fn lemma_scaled_floor_at_most_doubles(n: nat, d: nat, shift: int, bound: nat)
    requires
        d > 0,
        scaled_floor(n, d, shift) < bound,
    ensures
        scaled_floor(n, d, shift + 1) < 2 * bound,
{
    let num = scaled_num(n, shift);
    let den = scaled_den(d, shift);
    let num1 = scaled_num(n, shift + 1);
    let den1 = scaled_den(d, shift + 1);
    lemma_scaled_floor_doubles(n, d, shift);
    lemma_quotient_bound(num, den, bound);
    assert(num1 < (2 * bound) * den1) by (nonlinear_arith)
        requires
            num1 * den == 2 * num * den1,
            num < bound * den,
            den > 0,
            den1 > 0,
    ;
    lemma_quotient_bound(num1, den1, 2 * bound);
}

/// The rounded-down value grows with the shift.
pub proof fn lemma_scaled_floor_increases(n: nat, d: nat, low: int, high: int)
    requires
        d > 0,
        low <= high,
    ensures
        scaled_floor(n, d, low) <= scaled_floor(n, d, high),
    decreases high - low,
{
    if low < high {
        lemma_scaled_floor_increases(n, d, low, high - 1);
        lemma_scaled_floor_doubles(n, d, high - 1);
    }
}

/// A value has one exponent of the unit in the last place.
pub proof fn lemma_ulp_exponent_unique(n: nat, d: nat, x: int, ulp: int)
    requires
        d > 0,
        is_ulp_exponent(n, d, x, ulp),
    ensures
        ulp_exponent(n, d, x) == ulp,
{
    let other = ulp_exponent(n, d, x);
    if other < ulp {
        // In the smaller unit the value is at least twice as large.
        lemma_scaled_floor_increases(n, d, x - ulp + 1, x - other);
        lemma_scaled_floor_doubles(n, d, x - ulp);
    } else if ulp < other {
        lemma_scaled_floor_increases(n, d, x - other + 1, x - ulp);
        lemma_scaled_floor_doubles(n, d, x - other);
    }
}

/// With `n` of at most `n_length` bits and `d` of at least `d_length`
/// bits, `n / d * 2^shift` lies below two to the power of
/// `shift + n_length - (d_length - 1)`, and below every higher power.
pub proof fn lemma_scaled_below(n: nat, d: nat, n_length: nat, d_length: nat, shift: int, bound: nat)
    requires
        n < pow2(n_length),
        d_length >= 1,
        d >= pow2((d_length - 1) as nat),
        shift + n_length - (d_length - 1) <= bound,
    ensures
        scaled_num(n, shift) < pow2(bound) * scaled_den(d, shift),
        scaled_den(d, shift) > 0,
        scaled_floor(n, d, shift) < pow2(bound),
{
    let num = scaled_num(n, shift);
    let den = scaled_den(d, shift);
    if shift >= 0 {
        lemma_shifted_below(n, n_length, shift as nat);
        lemma_pow2_increases(n_length + shift as nat, bound + (d_length - 1) as nat);
        lemma_pow2_adds(bound, (d_length - 1) as nat);
        lemma_pow2_pos(bound);
        assert(pow2(bound) * pow2((d_length - 1) as nat) <= pow2(bound) * d) by (nonlinear_arith)
            requires
                d >= pow2((d_length - 1) as nat),
                pow2(bound) > 0,
        ;
    } else {
        let back = (-shift) as nat;
        lemma_shifted_at_least(d, (d_length - 1) as nat, back);
        lemma_pow2_increases(n_length, bound + ((d_length - 1) as nat + back));
        lemma_pow2_adds(bound, (d_length - 1) as nat + back);
        assert(pow2(bound) * pow2((d_length - 1) as nat + back) <= pow2(bound) * den)
            by (nonlinear_arith)
            requires
                den >= pow2((d_length - 1) as nat + back),
                pow2(bound) > 0,
        ;
    }
    lemma_quotient_bound(num, den, pow2(bound));
}

/// With `n` of at least `n_length` bits and `d` of at most `d_length`
/// bits, `n / d * 2^shift` is at least two to the power of
/// `shift + (n_length - 1) - d_length`, and at least every lower power.
pub proof fn lemma_scaled_at_least(
    n: nat,
    d: nat,
    n_length: nat,
    d_length: nat,
    shift: int,
    bound: nat,
)
    requires
        n_length >= 1,
        n >= pow2((n_length - 1) as nat),
        0 < d < pow2(d_length),
        shift + (n_length - 1) - d_length >= bound,
    ensures
        scaled_num(n, shift) >= pow2(bound) * scaled_den(d, shift),
        scaled_den(d, shift) > 0,
        scaled_floor(n, d, shift) >= pow2(bound),
{
    let num = scaled_num(n, shift);
    let den = scaled_den(d, shift);
    lemma_pow2_pos(bound);
    if shift >= 0 {
        lemma_shifted_at_least(n, (n_length - 1) as nat, shift as nat);
        lemma_pow2_increases(bound + d_length, (n_length - 1) as nat + shift as nat);
        lemma_pow2_adds(bound, d_length);
        assert(pow2(bound) * d <= pow2(bound) * pow2(d_length)) by (nonlinear_arith)
            requires
                d < pow2(d_length),
                pow2(bound) > 0,
        ;
    } else {
        let back = (-shift) as nat;
        lemma_shifted_below(d, d_length, back);
        lemma_pow2_pos(back);
        assert(den > 0) by (nonlinear_arith)
            requires
                den == d * pow2(back),
                d > 0,
                pow2(back) > 0,
        ;
        lemma_pow2_increases(bound + (d_length + back), (n_length - 1) as nat);
        lemma_pow2_adds(bound, d_length + back);
        assert(pow2(bound) * den <= pow2(bound) * pow2(d_length + back)) by (nonlinear_arith)
            requires
                den < pow2(d_length + back),
                pow2(bound) > 0,
        ;
    }
    lemma_quotient_bound(num, den, pow2(bound));
}

/// The numerator and the denominator of `n / d * 2^shift` fit 128 bits as
/// long as the shift keeps the value below 54 bits and above a quarter.
pub proof fn lemma_scaled_fits(n: nat, d: nat, n_length: nat, d_length: nat, shift: int)
    requires
        n < pow2(n_length),
        0 < d < pow2(d_length),
        n_length <= 106,
        d_length <= 64,
        -(n_length - d_length + 2) <= shift <= 53 - (n_length - d_length),
    ensures
        scaled_num(n, shift) < pow2(128),
        scaled_den(d, shift) < pow2(128),
{
    lemma_pow2_increases(n_length, 128);
    lemma_pow2_increases(d_length, 128);
    if shift >= 0 {
        lemma_shifted_below(n, n_length, shift as nat);
        lemma_pow2_increases(n_length + shift as nat, 128);
    } else {
        lemma_shifted_below(d, d_length, (-shift) as nat);
        lemma_pow2_increases(d_length + (-shift) as nat, 128);
    }
}

/// Zero rounds to zero.
pub proof fn lemma_zero_rounds_to_zero(d: nat, x: int)
    requires
        d > 0,
    ensures
        nearest_binary64(0, d, x) == 0,
{
    let shift = x - MIN_EXPONENT;
    lemma_scaled_floor_doubles(0, d, shift);
    lemma_ulp_exponent_unique(0, d, x, MIN_EXPONENT as int);
}

/// What lies below a quarter of the least unit rounds to zero.
pub proof fn lemma_tiny_rounds_to_zero(n: nat, d: nat, n_length: nat, d_length: nat, x: int)
    requires
        n < pow2(n_length),
        d_length >= 1,
        d >= pow2((d_length - 1) as nat),
        x - MIN_EXPONENT + n_length - (d_length - 1) <= -1,
    ensures
        nearest_binary64(n, d, x) == 0,
{
    let shift = x - MIN_EXPONENT;
    let num = scaled_num(n, shift);
    let den = scaled_den(d, shift);
    let num1 = scaled_num(n, shift + 1);
    let den1 = scaled_den(d, shift + 1);
    lemma2_to64();
    lemma_scaled_below(n, d, n_length, d_length, shift + 1, 0);
    lemma_scaled_floor_doubles(n, d, shift);
    assert(2 * num < den) by (nonlinear_arith)
        requires
            num1 * den == 2 * num * den1,
            num1 < 1 * den1,
            den > 0,
            den1 > 0,
    ;
    assert(num % den == num) by {
        lemma_small_mod(num, den);
    }
    lemma_ulp_exponent_unique(n, d, x, MIN_EXPONENT as int);
}

/// Rounding to the nearest integer is off by at most a half.
pub proof fn lemma_nearest_even_is_nearest(num: nat, den: nat)
    requires
        den > 0,
    ensures
        2 * (nearest_even(num, den) * den - num) <= den,
        2 * (num - nearest_even(num, den) * den) <= den,
{
    let q = num / den;
    let r = num % den;
    assert(num == den * q + r && 0 <= r < den) by {
        lemma_fundamental_div_mod(num as int, den as int);
        lemma_mod_pos_bound(num as int, den as int);
    }
    let m = nearest_even(num, den);
    assert(2 * (m * den - num) <= den && 2 * (num - m * den) <= den) by (nonlinear_arith)
        requires
            num == den * q + r,
            0 <= r < den,
            (m == q + 1 && 2 * r >= den) || (m == q && 2 * r <= den),
    ;
}

/// A number that binary64 holds rounds to itself: taking a finite number
/// apart and rounding its significand at its exponent gives the number
/// back.
pub proof fn lemma_rounding_keeps_numbers(bits: u64)
    requires
        is_finite(bits),
    ensures
        nearest_binary64(significand(bits), 1, exponent(bits)) == bits,
{
    let digits = significand(bits);
    let unit = exponent(bits);
    lemma2_to64();
    assert(scaled_num(digits, 0) == digits && scaled_den(1, 0) == 1) by (nonlinear_arith)
        requires
            scaled_num(digits, 0) == digits * pow2(0),
            scaled_den(1, 0) == 1,
            pow2(0) == 1,
    ;
    lemma_ulp_exponent_unique(digits, 1, unit, unit);
}

/// The pattern that a rounded significand is given stands for the rounded
/// value: taken apart again, it has the same significand at the same
/// exponent, or, where rounding has carried into a 54th bit, half the
/// significand at the next exponent.
pub proof fn lemma_encoded_denotes_the_value(rounded: nat, ulp: int)
    requires
        ulp >= MIN_EXPONENT,
        rounded <= SIGNIFICAND_BOUND,
        ulp == MIN_EXPONENT || rounded >= HIDDEN_BIT,
        encoded(rounded, ulp) < INFINITY_BITS,
    ensures
        rounded < SIGNIFICAND_BOUND ==> significand(encoded(rounded, ulp)) == rounded && exponent(
            encoded(rounded, ulp),
        ) == ulp,
        rounded == SIGNIFICAND_BOUND ==> significand(encoded(rounded, ulp)) == HIDDEN_BIT
            && exponent(encoded(rounded, ulp)) == ulp + 1,
{
    let field = ulp - MIN_EXPONENT;
    let bits = field * HIDDEN_BIT + rounded;
    if rounded >= HIDDEN_BIT {
        let fraction = rounded - HIDDEN_BIT;
        if rounded < SIGNIFICAND_BOUND {
            assert(bits == HIDDEN_BIT * (field + 1) + fraction);
            lemma_fundamental_div_mod_converse(
                bits,
                HIDDEN_BIT as int,
                field + 1,
                fraction,
            );
        } else {
            assert(bits == HIDDEN_BIT * (field + 2) + 0);
            lemma_fundamental_div_mod_converse(
                bits,
                HIDDEN_BIT as int,
                field + 2,
                0,
            );
        }
    }
}

} // verus!
