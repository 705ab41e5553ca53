//! The configuration that the control loop runs on and adjusts.

use vstd::prelude::*;
use crate::coefficient::{
    Coefficient,
    DEFAULT_DARK_SENSITIVITY,
    DEFAULT_LEARNING_COEFFICIENT,
    DEFAULT_LIGHT_SENSITIVITY,
    DEFAULT_MID_SENSITIVITY,
};
use crate::estimate::Estimate;
use crate::zones::Zone;

verus! {

/// Settings of the control loop. The three sensitivities form the profile that
/// learning adjusts; everything else stays fixed while the loop runs.
#[derive(Clone, Copy, Debug, PartialEq, Eq, Structural)]
pub struct Config {
    /// Index of the camera device.
    pub camera: u32,
    /// Seconds to wait between two cycles.
    pub delay: u64,
    pub light_sensitivity: Coefficient,
    pub mid_sensitivity: Coefficient,
    pub dark_sensitivity: Coefficient,
    /// Whether manual brightness changes adjust the sensitivities.
    pub adaptive_sensitivity: bool,
    /// How strongly one observed override moves a sensitivity.
    pub learning_coefficient: Coefficient,
    /// Distance between two sampled bytes of a frame.
    pub step: usize,
}

impl Config {
    /// The sensitivity that the profile holds for `zone`.
    pub open spec fn sensitivity_of(self, zone: Zone) -> Coefficient {
        match zone {
            Zone::Dark => self.dark_sensitivity,
            Zone::Mid => self.mid_sensitivity,
            Zone::Light => self.light_sensitivity,
        }
    }

    /// This configuration with the sensitivity of `zone` replaced.
    pub open spec fn with_sensitivity(self, zone: Zone, value: Coefficient) -> Config {
        match zone {
            Zone::Dark => Config { dark_sensitivity: value, ..self },
            Zone::Mid => Config { mid_sensitivity: value, ..self },
            Zone::Light => Config { light_sensitivity: value, ..self },
        }
    }

    /// The sensitivity that the profile holds for `zone`.
    pub fn sensitivity(&self, zone: Zone) -> (sensitivity: Coefficient)
        ensures
            sensitivity == self.sensitivity_of(zone),
    {
        match zone {
            Zone::Dark => self.dark_sensitivity,
            Zone::Mid => self.mid_sensitivity,
            Zone::Light => self.light_sensitivity,
        }
    }

    /// A mutable handle to the sensitivity of `zone`. Whatever is written
    /// through it becomes that zone's sensitivity; nothing else changes.
    pub fn sensitivity_mut(&mut self, zone: Zone) -> (handle: &mut Coefficient)
        ensures
            *handle == old(self).sensitivity_of(zone),
            *final(self) == old(self).with_sensitivity(zone, *final(handle)),
    {
        match zone {
            Zone::Dark => &mut self.dark_sensitivity,
            Zone::Mid => &mut self.mid_sensitivity,
            Zone::Light => &mut self.light_sensitivity,
        }
    }
}

/// A mutable handle to the sensitivity of the zone that a raw estimate falls
/// into. Whatever is written through it becomes that zone's sensitivity;
/// nothing else in the configuration changes.
pub fn get_sensitivity<'a>(raw: &Estimate, config: &'a mut Config) -> (sensitivity:
    &'a mut Coefficient)
    ensures
        *sensitivity == old(config).sensitivity_of(raw.zone()),
        *final(config) == old(config).with_sensitivity(raw.zone(), *final(sensitivity)),
{
    config.sensitivity_mut(raw.zone())
}

/// Writing a sensitivity and reading it back gives what was written, and the
/// other two zones keep theirs.
pub proof fn lemma_sensitivities_are_independent(
    config: Config,
    zone: Zone,
    other: Zone,
    value: Coefficient,
)
    ensures
        config.with_sensitivity(zone, value).sensitivity_of(zone) == value,
        other != zone ==> config.with_sensitivity(zone, value).sensitivity_of(other)
            == config.sensitivity_of(other),
        config.with_sensitivity(zone, config.sensitivity_of(zone)) == config,
{
}

/// The configuration that a first run starts with.
pub open spec fn default_config() -> Config {
    Config {
        camera: 0,
        delay: 60,
        light_sensitivity: Coefficient { millionths: DEFAULT_LIGHT_SENSITIVITY },
        mid_sensitivity: Coefficient { millionths: DEFAULT_MID_SENSITIVITY },
        dark_sensitivity: Coefficient { millionths: DEFAULT_DARK_SENSITIVITY },
        adaptive_sensitivity: true,
        learning_coefficient: Coefficient { millionths: DEFAULT_LEARNING_COEFFICIENT },
        step: 64,
    }
}

impl Default for Config {
    fn default() -> (config: Config)
        ensures
            config == default_config(),
    {
        Config {
            camera: 0,
            delay: 60,
            light_sensitivity: Coefficient { millionths: DEFAULT_LIGHT_SENSITIVITY },
            mid_sensitivity: Coefficient { millionths: DEFAULT_MID_SENSITIVITY },
            dark_sensitivity: Coefficient { millionths: DEFAULT_DARK_SENSITIVITY },
            adaptive_sensitivity: true,
            learning_coefficient: Coefficient { millionths: DEFAULT_LEARNING_COEFFICIENT },
            step: 64,
        }
    }
}

} // verus!
