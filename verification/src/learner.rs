//! Adjusting a sensitivity after a manual change of the brightness.
//!
//! When the display is found at another brightness than the one that was set,
//! somebody has corrected it. The sensitivity of the zone that produced the
//! target is moved against the error, in proportion to it.

use vstd::prelude::*;
use crate::coefficient::{Coefficient, DEFAULT_MID_SENSITIVITY};
use crate::config::{default_config, get_sensitivity, Config};
use crate::estimate::Estimate;
use crate::zones::Zone;

verus! {

/// By how much the brightness that was set exceeds the one that was found.
pub open spec fn brightness_error(target: u8, actual: u8) -> int {
    target - actual
}

/// The sensitivity after one correction, before any bound is applied:
/// `sensitivity - error * learning`, all in millionths.
pub open spec fn corrected(sensitivity: int, target: u8, actual: u8, learning: int) -> int {
    sensitivity - brightness_error(target, actual) * learning
}

/// The sensitivity that learning leaves behind.
///
/// Nothing changes when the display is at the brightness that was set.
/// Otherwise the sensitivity is corrected; a result below zero is replaced by
/// the default sensitivity of the mid zone, whichever zone is being adjusted,
/// and one beyond the largest coefficient stays at the largest coefficient.
pub open spec fn learned(sensitivity: Coefficient, target: u8, actual: u8, learning: Coefficient)
    -> Coefficient {
    let moved = corrected(
        sensitivity.millionths as int,
        target,
        actual,
        learning.millionths as int,
    );
    if actual == target {
        sensitivity
    } else if moved < 0 {
        Coefficient { millionths: DEFAULT_MID_SENSITIVITY }
    } else if moved > i64::MAX {
        Coefficient { millionths: i64::MAX }
    } else {
        Coefficient { millionths: moved as i64 }
    }
}

/// Learning leaves a sensitivity alone when the display is at the brightness
/// that was set. With a positive learning coefficient it is corrective
/// otherwise: a display brighter than the target raises the sensitivity (as
/// long as there is a larger coefficient to move to), and a darker display
/// lowers it (as long as the corrected value is not below zero).
pub proof fn lemma_learning_is_corrective(
    sensitivity: Coefficient,
    target: u8,
    actual: u8,
    learning: Coefficient,
)
    requires
        learning.millionths > 0,
    ensures
        actual == target ==> learned(sensitivity, target, actual, learning) == sensitivity,
        actual > target && sensitivity.millionths < i64::MAX ==> learned(
            sensitivity,
            target,
            actual,
            learning,
        ).millionths > sensitivity.millionths,
        actual > target ==> learned(sensitivity, target, actual, learning).millionths
            >= sensitivity.millionths,
        actual < target && corrected(
            sensitivity.millionths as int,
            target,
            actual,
            learning.millionths as int,
        ) >= 0 ==> learned(sensitivity, target, actual, learning).millionths
            < sensitivity.millionths,
{
    let error = brightness_error(target, actual);
    let rate = learning.millionths as int;
    if actual > target {
        assert(error * rate < 0) by (nonlinear_arith)
            requires
                error < 0,
                rate > 0,
        ;
    }
    if actual < target {
        assert(error * rate > 0) by (nonlinear_arith)
            requires
                error > 0,
                rate > 0,
        ;
    }
}

/// A correction that would leave a sensitivity below zero leaves the default
/// sensitivity of the mid zone instead: the fixed value of a fresh
/// configuration, not the mid sensitivity that the running configuration
/// holds at the time.
pub proof fn lemma_negative_resets_to_default(
    config: Config,
    zone: Zone,
    target: u8,
    actual: u8,
)
    requires
        actual != target,
        corrected(
            config.sensitivity_of(zone).millionths as int,
            target,
            actual,
            config.learning_coefficient.millionths as int,
        ) < 0,
    ensures
        learned(config.sensitivity_of(zone), target, actual, config.learning_coefficient)
            == default_config().mid_sensitivity,
        learned(
            config.sensitivity_of(zone),
            target,
            actual,
            config.learning_coefficient,
        ).millionths == 400_000,
{
}

/// What learning never leaves behind: a sensitivity below zero, unless the
/// display was at its target and the sensitivity was below zero before.
pub proof fn lemma_learned_is_not_negative(
    sensitivity: Coefficient,
    target: u8,
    actual: u8,
    learning: Coefficient,
)
    requires
        actual != target,
    ensures
        learned(sensitivity, target, actual, learning).millionths >= 0,
{
}

/// Corrects one sensitivity for the brightness that was set and the one that
/// the display was found at.
pub fn adjust(sensitivity: &mut Coefficient, target: u8, actual: u8, learning: Coefficient)
    ensures
        *final(sensitivity) == learned(*old(sensitivity), target, actual, learning),
{
    if actual == target {
        return ;
    }
    let error: i128 = target as i128 - actual as i128;
    let rate: i128 = learning.millionths as i128;
    assert(-255 * 0x8000_0000_0000_0000 <= error * rate <= 255 * 0x8000_0000_0000_0000)
        by (nonlinear_arith)
        requires
            -255 <= error <= 255,
            -0x8000_0000_0000_0000 <= rate <= 0x8000_0000_0000_0000,
    ;
    let moved: i128 = sensitivity.millionths as i128 - error * rate;
    if moved < 0 {
        *sensitivity = Coefficient { millionths: DEFAULT_MID_SENSITIVITY };
    } else if moved > i64::MAX as i128 {
        *sensitivity = Coefficient { millionths: i64::MAX };
    } else {
        *sensitivity = Coefficient { millionths: moved as i64 };
    }
}

/// One step of learning: compares the brightness that was set for `raw` with
/// the one the display was found at, and corrects the sensitivity of the zone
/// of `raw` if they differ. Says whether they differed, that is, whether the
/// configuration is to be stored again.
pub fn learn(config: &mut Config, raw: &Estimate, target: u8, actual: u8) -> (overridden: bool)
    ensures
        overridden == (actual != target),
        *final(config) == old(config).with_sensitivity(
            raw.zone(),
            learned(
                old(config).sensitivity_of(raw.zone()),
                target,
                actual,
                old(config).learning_coefficient,
            ),
        ),
{
    let learning = config.learning_coefficient;
    let sensitivity = get_sensitivity(raw, config);
    adjust(sensitivity, target, actual, learning);
    actual != target
}

} // verus!
