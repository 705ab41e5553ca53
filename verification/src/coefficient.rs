//! Fixed-point coefficients.
//!
//! Sensitivities and the learning rate are fractions such as `0.4` or `0.003`.
//! They are held as a whole number of millionths, so every step of the
//! brightness arithmetic is exact.

use vstd::prelude::*;

verus! {

/// How many units of a [`Coefficient`] make up the multiplier `1.0`.
pub const SCALE: i64 = 1_000_000;

/// The sensitivity that the light zone starts with: `0.4`.
pub const DEFAULT_LIGHT_SENSITIVITY: i64 = 400_000;

/// The sensitivity that the mid zone starts with: `0.4`. It is also what any
/// zone falls back to when learning drives its sensitivity below zero.
pub const DEFAULT_MID_SENSITIVITY: i64 = 400_000;

/// The sensitivity that the dark zone starts with: `0.4`.
pub const DEFAULT_DARK_SENSITIVITY: i64 = 400_000;

/// The learning coefficient a fresh configuration starts with: `0.003`.
pub const DEFAULT_LEARNING_COEFFICIENT: i64 = 3_000;

/// A multiplier, counted in millionths: `Coefficient { millionths: 400_000 }`
/// stands for `0.4`. No range is enforced; sensitivities are conventionally
/// non-negative.
#[derive(Clone, Copy, Debug, PartialEq, Eq, Structural)]
pub struct Coefficient {
    pub millionths: i64,
}

} // verus!
