//! The three sensitivity zones and the thresholds that separate them.

use vstd::prelude::*;

verus! {

/// Highest brightness level that still counts as dark.
pub const DARK_MAX: u8 = 84;

/// Highest brightness level that still counts as mid; everything above is light.
pub const MID_MAX: u8 = 169;

/// One of the three buckets that partition the brightness levels `0..=255`.
#[derive(Clone, Copy, Debug, PartialEq, Eq, Structural)]
pub enum Zone {
    Dark,
    Mid,
    Light,
}

impl Zone {
    /// The zone a brightness level belongs to.
    pub open spec fn of_level(level: u8) -> Zone {
        if level <= DARK_MAX {
            Zone::Dark
        } else if level <= MID_MAX {
            Zone::Mid
        } else {
            Zone::Light
        }
    }

    /// Classifies a brightness level.
    pub fn classify(level: u8) -> (zone: Zone)
        ensures
            zone == Zone::of_level(level),
    {
        if level <= DARK_MAX {
            Zone::Dark
        } else if level <= MID_MAX {
            Zone::Mid
        } else {
            Zone::Light
        }
    }
}

/// Every level lies in exactly one zone: dark is `0..=84`, mid is `85..=169`
/// and light is `170..=255`.
pub proof fn lemma_zones_partition_levels(level: u8)
    ensures
        Zone::of_level(level) == Zone::Dark <==> 0 <= level <= 84,
        Zone::of_level(level) == Zone::Mid <==> 85 <= level <= 169,
        Zone::of_level(level) == Zone::Light <==> 170 <= level <= 255,
{
}

} // verus!
