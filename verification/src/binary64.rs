//! IEEE 754 binary64 arithmetic on bit patterns, in integers.
//!
//! Prices are binary64 numbers, and what a payment buys is defined by
//! binary64 division and multiplication. This module computes those
//! operations on the numbers' bit patterns with integer arithmetic alone, and
//! proves that each result is the correctly rounded one: the representable
//! number nearest to the exact result, the one with the even significand
//! where two are equally near.
//!
//! Only what the sale needs is here: numbers that are zero or positive,
//! and positive infinity.
//!
//! - [`model`] defines the results.
//! - [`rounding`] rounds a quotient of integers, scaled by a power of two.
//! - [`ops`] builds conversion, division and multiplication on it.
//! - [`lemmas`] holds the proofs.
pub mod lemmas;
pub mod model;
pub mod ops;
pub mod rounding;

pub use model::{HIDDEN_BIT, INFINITY_BITS, MIN_EXPONENT, NAN_BITS, SIGNIFICAND_BOUND};
pub use ops::{decode, divide, from_u64, multiply, to_u64};
pub use rounding::{bit_length, power_of_two, round_ratio};
