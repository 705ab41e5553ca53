use rlight::estimate::Estimate;

#[test]
fn estimate_needs_at_least_one_byte() {
    assert_eq!(Estimate::new(0, 0), None);
    assert_eq!(Estimate::new(5, 0), None);
}

#[test]
fn estimate_cannot_exceed_the_largest_byte() {
    assert_eq!(Estimate::new(256, 1), None);
    assert_eq!(Estimate::new(511, 2), None);
    assert!(Estimate::new(255, 1).is_some());
    assert!(Estimate::new(510, 2).is_some());
    assert_eq!(Estimate::new(u128::MAX, usize::MAX), None);
}

#[test]
fn estimate_keeps_its_parts() {
    let estimate = Estimate::new(301, 4).unwrap();
    assert_eq!(estimate.sum(), 301);
    assert_eq!(estimate.count(), 4);
    assert_eq!(estimate.level(), 75);
}

#[test]
fn estimate_from_a_level_is_that_level() {
    for level in 0..=255u8 {
        let estimate = Estimate::from_level(level);
        assert_eq!(estimate.level(), level);
        assert_eq!(estimate.sum(), level as u128);
        assert_eq!(estimate.count(), 1);
        assert_eq!(Some(estimate), Estimate::new(level as u128, 1));
    }
}

#[test]
fn estimate_of_the_most_bytes_there_can_be() {
    let estimate = Estimate::new(255 * usize::MAX as u128, usize::MAX).unwrap();
    assert_eq!(estimate.level(), 255);
    let estimate = Estimate::new(255 * usize::MAX as u128 - 1, usize::MAX).unwrap();
    assert_eq!(estimate.level(), 254);
}
