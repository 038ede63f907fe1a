//! What the operations compute, as mathematics.
//!
//! A finite number that is zero or positive is a significand of at most 53
//! bits times a power of two. The operations are defined by one function,
//! [`nearest_binary64`], which rounds a quotient of two naturals, scaled by
//! a power of two, to the nearest such number.
use vstd::prelude::*;
use vstd::arithmetic::power2::pow2;

verus! {

/// The least exponent of a unit in the last place: that of the subnormal
/// numbers.
pub const MIN_EXPONENT: i32 = -1074;

/// Two to the power of 52: the significand's implicit leading bit.
pub const HIDDEN_BIT: u64 = 0x10_0000_0000_0000;

/// Two to the power of 53: the bound of a significand.
pub const SIGNIFICAND_BOUND: u64 = 0x20_0000_0000_0000;

/// The bit pattern of positive infinity. The patterns of the finite numbers
/// that are zero or positive lie below it.
pub const INFINITY_BITS: u64 = 0x7FF0_0000_0000_0000;

/// The bit pattern that stands for the results that are no number.
pub const NAN_BITS: u64 = 0x7FF8_0000_0000_0000;

/// Whether `bits` is the pattern of a finite number that is zero or
/// positive.
pub open spec fn is_finite(bits: u64) -> bool {
    bits < INFINITY_BITS
}

/// The significand of a finite number that is zero or positive: the
/// fraction bits, with the implicit leading bit unless the number is
/// subnormal.
pub open spec fn significand(bits: u64) -> nat {
    if bits < HIDDEN_BIT {
        bits as nat
    } else {
        (bits % HIDDEN_BIT + HIDDEN_BIT) as nat
    }
}

/// The exponent of the unit in the last place of a finite number that is
/// zero or positive. The number is `significand(bits) * 2^exponent(bits)`.
pub open spec fn exponent(bits: u64) -> int {
    if bits < HIDDEN_BIT {
        MIN_EXPONENT as int
    } else {
        bits / HIDDEN_BIT - 1 + MIN_EXPONENT
    }
}

/// The numerator of `n / d * 2^shift`, written as a quotient of naturals.
pub open spec fn scaled_num(n: nat, shift: int) -> nat {
    if shift >= 0 {
        n * pow2(shift as nat)
    } else {
        n
    }
}

/// The denominator of `n / d * 2^shift`, written as a quotient of naturals.
pub open spec fn scaled_den(d: nat, shift: int) -> nat {
    if shift >= 0 {
        d
    } else {
        d * pow2((-shift) as nat)
    }
}

/// `n / d * 2^shift`, rounded down.
pub open spec fn scaled_floor(n: nat, d: nat, shift: int) -> nat {
    scaled_num(n, shift) / scaled_den(d, shift)
}

/// The integer nearest to `num / den`; of two that are equally near, the
/// even one.
pub open spec fn nearest_even(num: nat, den: nat) -> nat {
    let q = num / den;
    let r = num % den;
    if 2 * r > den || (2 * r == den && q % 2 == 1) {
        q + 1
    } else {
        q
    }
}

/// Whether `ulp` is the exponent of the unit in the last place of the number
/// that `n / d * 2^x` rounds to: measured in that unit the value takes at
/// most 53 bits, and exactly 53 unless the unit is the least there is.
pub open spec fn is_ulp_exponent(n: nat, d: nat, x: int, ulp: int) -> bool {
    &&& ulp >= MIN_EXPONENT
    &&& scaled_floor(n, d, x - ulp) < SIGNIFICAND_BOUND
    &&& ulp == MIN_EXPONENT || scaled_floor(n, d, x - ulp) >= HIDDEN_BIT
}

/// The exponent of the unit in the last place for `n / d * 2^x`. There is
/// exactly one, see [`crate::binary64::lemmas::lemma_ulp_exponent_unique`].
pub open spec fn ulp_exponent(n: nat, d: nat, x: int) -> int {
    choose|ulp: int| is_ulp_exponent(n, d, x, ulp)
}

/// The bit pattern of `significand * 2^ulp`, for a significand of at most
/// 53 bits, or of two to the power of 53; infinity where that is beyond the
/// finite numbers. A significand without the leading bit belongs to a
/// subnormal number, whose exponent field is zero; where rounding has
/// carried into a 54th bit, the sum below steps to the next exponent with a
/// zero fraction, as it must.
pub open spec fn encoded(significand: nat, ulp: int) -> u64 {
    let bits = (ulp - MIN_EXPONENT) * HIDDEN_BIT + significand;
    if bits >= INFINITY_BITS {
        INFINITY_BITS
    } else {
        bits as u64
    }
}

/// The bit pattern of the binary64 number nearest to `n / d * 2^x`, ties to
/// even: positive infinity if the value is too large, zero if it is too
/// small.
pub open spec fn nearest_binary64(n: nat, d: nat, x: int) -> u64 {
    let ulp = ulp_exponent(n, d, x);
    encoded(nearest_even(scaled_num(n, x - ulp), scaled_den(d, x - ulp)), ulp)
}

/// The number nearest to the integer `value`.
pub open spec fn from_integer(value: u64) -> u64 {
    nearest_binary64(value as nat, 1, 0)
}

/// The quotient of a finite number `a` by a finite number `b` other than
/// zero, both zero or positive, correctly rounded.
pub open spec fn quotient(a: u64, b: u64) -> u64 {
    nearest_binary64(significand(a), significand(b), exponent(a) - exponent(b))
}

/// The product of `a` and `b`, each a finite number that is zero or
/// positive, or positive infinity, correctly rounded. Infinity times a
/// number other than zero is infinity; infinity times zero is no number.
pub open spec fn product(a: u64, b: u64) -> u64 {
    if (a == INFINITY_BITS && b == 0) || (a == 0 && b == INFINITY_BITS) {
        NAN_BITS
    } else if a == INFINITY_BITS || b == INFINITY_BITS {
        INFINITY_BITS
    } else {
        nearest_binary64(significand(a) * significand(b), 1, exponent(a) + exponent(b))
    }
}

/// The integer part of a number that is zero or positive, as an unsigned
/// 64-bit integer: the largest one for infinity and for every number too
/// large for such an integer, zero for what is no number.
pub open spec fn truncated(bits: u64) -> u64 {
    if bits > INFINITY_BITS {
        0
    } else if bits == INFINITY_BITS {
        u64::MAX
    } else {
        let whole = scaled_floor(significand(bits), 1, exponent(bits));
        if whole > u64::MAX {
            u64::MAX
        } else {
            whole as u64
        }
    }
}

/// The number of bits of `n`: the least `length` with `n` below two to the
/// power of `length`.
pub open spec fn bit_len(n: nat) -> nat
    decreases n,
{
    if n == 0 {
        0
    } else {
        1 + bit_len(n / 2)
    }
}

} // verus!
