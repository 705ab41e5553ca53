//! From a raw estimate and a sensitivity to a display brightness.
//!
//! The target is `raw * coefficient`, rounded down and kept within
//! `0..=100` percent.

use vstd::prelude::*;
use vstd::arithmetic::div_mod::{
    lemma_div_denominator,
    lemma_fundamental_div_mod,
    lemma_hoist_over_denominator,
};
use crate::coefficient::{Coefficient, SCALE};
use crate::estimate::Estimate;

verus! {

/// The brightest a display can be set, in percent.
pub const MAX_BRIGHTNESS: u8 = 100;

/// The mean `sum / count` times the coefficient of `millionths` millionths,
/// rounded down to a whole number.
pub open spec fn scaled_floor(sum: nat, count: nat, millionths: int) -> int {
    (sum * millionths) / (count * SCALE)
}

/// The display brightness for the mean `sum / count` under a coefficient:
/// their product rounded down, but at most 100. A product below zero, which
/// only a negative coefficient can give, counts as 0.
pub open spec fn target_for(sum: nat, count: nat, millionths: int) -> int {
    let product = scaled_floor(sum, count, millionths);
    if product < 0 {
        0
    } else if product > MAX_BRIGHTNESS {
        MAX_BRIGHTNESS as int
    } else {
        product
    }
}

/// The target is a percentage whatever the inputs. Where neither the mean nor
/// the coefficient is negative, neither is their product, and the target is
/// the smaller of 100 and the product rounded down.
pub proof fn lemma_target_is_percentage(sum: nat, count: nat, millionths: int)
    ensures
        0 <= target_for(sum, count, millionths) <= 100,
        count > 0 && millionths >= 0 ==> scaled_floor(sum, count, millionths) >= 0 && target_for(
            sum,
            count,
            millionths,
        ) == if scaled_floor(sum, count, millionths) <= 100 {
            scaled_floor(sum, count, millionths)
        } else {
            100
        },
{
    if count > 0 && millionths >= 0 {
        let x = sum * millionths;
        let d = count * SCALE;
        assert(x >= 0 && d > 0) by (nonlinear_arith)
            requires
                x == sum * millionths,
                d == count * SCALE,
                millionths >= 0,
                count > 0,
        ;
        lemma_fundamental_div_mod(x, d);
        assert(x / d >= 0) by (nonlinear_arith)
            requires
                x >= 0,
                d > 0,
                x == d * (x / d) + x % d,
                0 <= x % d < d,
        ;
    }
}

/// A coefficient that is not positive never gives a positive product.
proof fn lemma_scaled_floor_nonpositive(sum: nat, count: nat, millionths: int)
    requires
        count > 0,
        millionths <= 0,
    ensures
        scaled_floor(sum, count, millionths) <= 0,
{
    let x = sum * millionths;
    let d = count * SCALE;
    assert(x <= 0 && d > 0) by (nonlinear_arith)
        requires
            x == sum * millionths,
            d == count * SCALE,
            millionths <= 0,
            count > 0,
    ;
    lemma_fundamental_div_mod(x, d);
    assert(x / d <= 0) by (nonlinear_arith)
        requires
            x <= 0,
            d > 0,
            x == d * (x / d) + x % d,
            0 <= x % d < d,
    ;
}

/// The product can be taken in two steps that keep every intermediate value
/// small: first the whole part and the remainder of the mean, then the scale.
proof fn lemma_scaled_floor_split(sum: nat, count: nat, millionths: int)
    requires
        count > 0,
        millionths >= 0,
    ensures
        scaled_floor(sum, count, millionths) == ((sum / count) * millionths + ((sum % count)
            * millionths) / (count as int)) / (SCALE as int),
{
    let whole = sum as int / count as int;
    let rest = sum as int % count as int;
    lemma_fundamental_div_mod(sum as int, count as int);
    assert(sum * millionths == rest * millionths + (whole * millionths) * count
        && sum * millionths >= 0 && rest * millionths >= 0) by (nonlinear_arith)
        requires
            sum == count * whole + rest,
            0 <= rest,
            millionths >= 0,
    ;
    lemma_hoist_over_denominator(rest * millionths, whole * millionths, count);
    lemma_div_denominator(sum * millionths, count as int, SCALE as int);
}

/// The display brightness, in percent, for a raw estimate under the
/// sensitivity of its zone.
pub fn target_brightness(raw: &Estimate, sensitivity: Coefficient) -> (target: u8)
    ensures
        target == target_for(raw.sum() as nat, raw.count() as nat, sensitivity.millionths as int),
        target <= MAX_BRIGHTNESS,
{
    let sum = raw.sum();
    let count = raw.count() as u128;
    if sensitivity.millionths <= 0 {
        proof {
            lemma_scaled_floor_nonpositive(
                sum as nat,
                count as nat,
                sensitivity.millionths as int,
            );
        }
        return 0;
    }
    let factor = sensitivity.millionths as u128;
    let whole = sum / count;
    let rest = sum % count;
    proof {
        lemma_scaled_floor_split(sum as nat, count as nat, factor as int);
        crate::estimate::lemma_mean_level_is_a_byte(sum as nat, count as nat);
        assert(whole * factor <= 255 * 0x8000_0000_0000_0000 && rest * factor
            <= 0x1_0000_0000_0000_0000 * 0x8000_0000_0000_0000) by (nonlinear_arith)
            requires
                whole <= 255,
                rest <= 0x1_0000_0000_0000_0000,
                factor <= 0x8000_0000_0000_0000,
        ;
    }
    let product = (whole * factor + (rest * factor) / count) / (SCALE as u128);
    if product > MAX_BRIGHTNESS as u128 {
        MAX_BRIGHTNESS
    } else {
        product as u8
    }
}

} // verus!
