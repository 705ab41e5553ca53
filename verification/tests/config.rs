use rlight::coefficient::{
    Coefficient, DEFAULT_DARK_SENSITIVITY, DEFAULT_LEARNING_COEFFICIENT,
    DEFAULT_LIGHT_SENSITIVITY, DEFAULT_MID_SENSITIVITY, SCALE,
};
use rlight::config::{get_sensitivity, Config};
use rlight::estimate::Estimate;
use rlight::zones::Zone;

#[test]
fn default_config_values() {
    let config = Config::default();
    assert_eq!(config.camera, 0);
    assert_eq!(config.delay, 60);
    assert_eq!(config.light_sensitivity, Coefficient { millionths: 400_000 });
    assert_eq!(config.mid_sensitivity, Coefficient { millionths: 400_000 });
    assert_eq!(config.dark_sensitivity, Coefficient { millionths: 400_000 });
    assert!(config.adaptive_sensitivity);
    assert_eq!(config.learning_coefficient, Coefficient { millionths: 3_000 });
    assert_eq!(config.step, 64);
}

#[test]
fn coefficient_constants() {
    assert_eq!(SCALE, 1_000_000);
    assert_eq!(DEFAULT_LIGHT_SENSITIVITY, 400_000);
    assert_eq!(DEFAULT_MID_SENSITIVITY, 400_000);
    assert_eq!(DEFAULT_DARK_SENSITIVITY, 400_000);
    assert_eq!(DEFAULT_LEARNING_COEFFICIENT, 3_000);
}

#[test]
fn sensitivity_is_looked_up_by_zone() {
    let config = Config {
        dark_sensitivity: Coefficient { millionths: 1 },
        mid_sensitivity: Coefficient { millionths: 2 },
        light_sensitivity: Coefficient { millionths: 3 },
        ..Config::default()
    };
    assert_eq!(config.sensitivity(Zone::Dark).millionths, 1);
    assert_eq!(config.sensitivity(Zone::Mid).millionths, 2);
    assert_eq!(config.sensitivity(Zone::Light).millionths, 3);
}

#[test]
fn sensitivity_handle_writes_one_zone() {
    let mut config = Config::default();
    *config.sensitivity_mut(Zone::Mid) = Coefficient { millionths: 7 };
    assert_eq!(config, Config { mid_sensitivity: Coefficient { millionths: 7 }, ..Config::default() });
    *config.sensitivity_mut(Zone::Dark) = Coefficient { millionths: 8 };
    *config.sensitivity_mut(Zone::Light) = Coefficient { millionths: 9 };
    assert_eq!(config.dark_sensitivity.millionths, 8);
    assert_eq!(config.mid_sensitivity.millionths, 7);
    assert_eq!(config.light_sensitivity.millionths, 9);
}

#[test]
fn get_sensitivity_resolves_the_zone_of_the_estimate() {
    let mut config = Config {
        dark_sensitivity: Coefficient { millionths: 100_000 },
        mid_sensitivity: Coefficient { millionths: 200_000 },
        light_sensitivity: Coefficient { millionths: 300_000 },
        ..Config::default()
    };
    assert_eq!(get_sensitivity(&Estimate::from_level(84), &mut config).millionths, 100_000);
    assert_eq!(get_sensitivity(&Estimate::from_level(85), &mut config).millionths, 200_000);
    assert_eq!(get_sensitivity(&Estimate::from_level(169), &mut config).millionths, 200_000);
    assert_eq!(get_sensitivity(&Estimate::from_level(170), &mut config).millionths, 300_000);
    let raw = Estimate::from_level(200);
    let handle = get_sensitivity(&raw, &mut config);
    handle.millionths -= 30_000;
    let again = get_sensitivity(&raw, &mut config);
    assert_eq!(again.millionths, 270_000);
    assert_eq!(config.light_sensitivity.millionths, 270_000);
    assert_eq!(config.dark_sensitivity.millionths, 100_000);
    assert_eq!(config.mid_sensitivity.millionths, 200_000);
}
