use rlight::estimate::Estimate;
use rlight::zones::{Zone, DARK_MAX, MID_MAX};

#[test]
fn zone_boundaries_are_exact() {
    assert_eq!(Zone::classify(0), Zone::Dark);
    assert_eq!(Zone::classify(84), Zone::Dark);
    assert_eq!(Zone::classify(85), Zone::Mid);
    assert_eq!(Zone::classify(169), Zone::Mid);
    assert_eq!(Zone::classify(170), Zone::Light);
    assert_eq!(Zone::classify(255), Zone::Light);
}

#[test]
fn zone_thresholds_are_named() {
    assert_eq!(DARK_MAX, 84);
    assert_eq!(MID_MAX, 169);
}

#[test]
fn zones_partition_every_level() {
    let mut dark = 0;
    let mut mid = 0;
    let mut light = 0;
    for level in 0..=255u8 {
        let expected = match level {
            0..=84 => Zone::Dark,
            85..=169 => Zone::Mid,
            170..=255 => Zone::Light,
        };
        assert_eq!(Zone::classify(level), expected);
        match Zone::classify(level) {
            Zone::Dark => dark += 1,
            Zone::Mid => mid += 1,
            Zone::Light => light += 1,
        }
    }
    assert_eq!((dark, mid, light), (85, 85, 86));
}

#[test]
fn zone_of_an_estimate_is_the_zone_of_its_whole_level() {
    assert_eq!(Estimate::from_level(50).zone(), Zone::Dark);
    assert_eq!(Estimate::from_level(200).zone(), Zone::Light);
    assert_eq!(Estimate::from_level(100).zone(), Zone::Mid);
    // 84.5 is still dark, 169.99 is still mid
    assert_eq!(Estimate::new(169, 2).unwrap().zone(), Zone::Dark);
    assert_eq!(Estimate::new(170, 2).unwrap().zone(), Zone::Mid);
    assert_eq!(Estimate::new(16_999, 100).unwrap().zone(), Zone::Mid);
    assert_eq!(Estimate::new(17_000, 100).unwrap().zone(), Zone::Light);
}
