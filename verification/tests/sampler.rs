use rlight::estimate::Estimate;
use rlight::sampler::{calc_average, SampleError, SampleIndexSet};

fn filtered(frame_len: usize, step: usize) -> Vec<usize> {
    (0..frame_len).filter(|x| x % step == 0).collect()
}

#[test]
fn offsets_of_ten_bytes_with_step_four() {
    let samples = SampleIndexSet::new(10, 4);
    assert_eq!(samples.offsets(), &vec![0, 4, 8]);
    assert_eq!(samples.len(), 3);
    assert_eq!(samples.frame_len(), 10);
    assert_eq!(samples.step(), 4);
}

#[test]
fn offsets_stop_below_an_exact_multiple() {
    let samples = SampleIndexSet::new(8, 4);
    assert_eq!(samples.offsets(), &vec![0, 4]);
    let samples = SampleIndexSet::new(9, 4);
    assert_eq!(samples.offsets(), &vec![0, 4, 8]);
}

#[test]
fn offsets_with_step_one_cover_the_frame() {
    let samples = SampleIndexSet::new(5, 1);
    assert_eq!(samples.offsets(), &vec![0, 1, 2, 3, 4]);
}

#[test]
fn offsets_with_a_step_beyond_the_frame_hold_only_zero() {
    let samples = SampleIndexSet::new(3, 64);
    assert_eq!(samples.offsets(), &vec![0]);
    let samples = SampleIndexSet::new(1, 1);
    assert_eq!(samples.offsets(), &vec![0]);
}

#[test]
fn offsets_of_an_empty_frame_are_empty() {
    let samples = SampleIndexSet::new(0, 64);
    assert!(samples.offsets().is_empty());
    assert_eq!(samples.len(), 0);
}

#[test]
fn offsets_are_the_multiples_of_the_step() {
    for frame_len in 0..70usize {
        for step in 1..20usize {
            let samples = SampleIndexSet::new(frame_len, step);
            assert_eq!(samples.offsets(), &filtered(frame_len, step));
        }
    }
}

#[test]
fn offsets_count_is_the_length_over_the_step_rounded_up() {
    for frame_len in 0..200usize {
        for step in 1..30usize {
            let samples = SampleIndexSet::new(frame_len, step);
            assert_eq!(samples.len(), (frame_len + step - 1) / step);
        }
    }
    assert_eq!(SampleIndexSet::new(640 * 480 * 2, 64).len(), 9600);
}

#[test]
fn offsets_start_at_zero_end_below_the_length_and_increase() {
    for frame_len in 1..120usize {
        for step in 1..25usize {
            let samples = SampleIndexSet::new(frame_len, step);
            let offsets = samples.offsets();
            assert_eq!(offsets[0], 0);
            assert!(*offsets.last().unwrap() < frame_len);
            assert!(offsets.windows(2).all(|pair| pair[0] < pair[1]));
        }
    }
}

#[test]
fn offsets_near_the_largest_length_do_not_wrap() {
    let samples = SampleIndexSet::new(usize::MAX, usize::MAX);
    assert_eq!(samples.offsets(), &vec![0]);
    let samples = SampleIndexSet::new(usize::MAX, usize::MAX - 1);
    assert_eq!(samples.offsets(), &vec![0, usize::MAX - 1]);
    let samples = SampleIndexSet::new(usize::MAX, usize::MAX / 2);
    assert_eq!(samples.offsets(), &vec![0, usize::MAX / 2, usize::MAX - 1]);
}

#[test]
fn average_of_the_sampled_bytes() {
    let frame = [10u8, 20, 30, 40, 50, 60, 70, 80, 90, 100];
    let samples = SampleIndexSet::new(frame.len(), 4);
    let estimate = calc_average(&frame, &samples).unwrap();
    assert_eq!(estimate.sum(), 150);
    assert_eq!(estimate.count(), 3);
    assert_eq!(estimate.level(), 50);
    assert_eq!(Some(estimate), Estimate::new(150, 3));
}

#[test]
fn average_is_cut_down_to_a_whole_level() {
    let frame = [1u8, 2];
    let samples = SampleIndexSet::new(2, 1);
    let estimate = calc_average(&frame, &samples).unwrap();
    assert_eq!(estimate.sum(), 3);
    assert_eq!(estimate.count(), 2);
    assert_eq!(estimate.level(), 1);
}

#[test]
fn average_ignores_bytes_between_the_offsets() {
    let samples = SampleIndexSet::new(6, 2);
    let quiet = [50u8, 0, 50, 0, 50, 0];
    let noisy = [50u8, 255, 50, 255, 50, 255];
    assert_eq!(calc_average(&quiet, &samples), calc_average(&noisy, &samples));
    assert_eq!(calc_average(&quiet, &samples).unwrap().level(), 50);
}

#[test]
fn average_does_not_depend_on_the_order_of_the_sampled_bytes() {
    let samples = SampleIndexSet::new(6, 2);
    let first = [7u8, 99, 200, 99, 31, 99];
    let second = [31u8, 1, 7, 2, 200, 3];
    let third = [200u8, 0, 31, 0, 7, 0];
    let expected = Estimate::new(238, 3).unwrap();
    assert_eq!(calc_average(&first, &samples), Ok(expected));
    assert_eq!(calc_average(&second, &samples), Ok(expected));
    assert_eq!(calc_average(&third, &samples), Ok(expected));
}

#[test]
fn average_moves_with_a_sampled_byte() {
    let samples = SampleIndexSet::new(5, 2);
    let before = [10u8, 0, 20, 0, 30];
    let after = [10u8, 0, 65, 0, 30];
    let sum_before = calc_average(&before, &samples).unwrap().sum();
    let sum_after = calc_average(&after, &samples).unwrap().sum();
    assert_eq!(sum_before, 60);
    assert_eq!(sum_after, sum_before + 45);
}

#[test]
fn average_of_sums_is_additive() {
    let samples = SampleIndexSet::new(4, 1);
    let front = [3u8, 5, 0, 0];
    let back = [0u8, 0, 11, 13];
    let both = [3u8, 5, 11, 13];
    let sum = |frame: &[u8]| calc_average(frame, &samples).unwrap().sum();
    assert_eq!(sum(&both), sum(&front) + sum(&back));
    assert_eq!(sum(&both), 32);
}

#[test]
fn average_stays_within_a_byte() {
    let samples = SampleIndexSet::new(1000, 7);
    let bright = vec![255u8; 1000];
    let estimate = calc_average(&bright, &samples).unwrap();
    assert_eq!(estimate.count(), 143);
    assert_eq!(estimate.sum(), 255 * 143);
    assert_eq!(estimate.level(), 255);
    let dark = vec![0u8; 1000];
    let estimate = calc_average(&dark, &samples).unwrap();
    assert_eq!(estimate.sum(), 0);
    assert_eq!(estimate.level(), 0);
}

#[test]
fn average_of_a_frame_of_another_length_fails() {
    let samples = SampleIndexSet::new(10, 4);
    let short = [1u8; 9];
    let long = [1u8; 11];
    assert_eq!(calc_average(&short, &samples), Err(SampleError::FrameLengthMismatch));
    assert_eq!(calc_average(&long, &samples), Err(SampleError::FrameLengthMismatch));
    assert_eq!(calc_average(&[], &samples), Err(SampleError::FrameLengthMismatch));
}

#[test]
fn average_of_an_empty_frame_fails() {
    let samples = SampleIndexSet::new(0, 4);
    assert_eq!(calc_average(&[], &samples), Err(SampleError::EmptyFrame));
    assert_eq!(calc_average(&[1], &samples), Err(SampleError::FrameLengthMismatch));
}

#[test]
fn average_is_the_same_for_the_same_frame() {
    let samples = SampleIndexSet::new(64, 3);
    let frame: Vec<u8> = (0..64u8).map(|x| x.wrapping_mul(37)).collect();
    assert_eq!(calc_average(&frame, &samples), calc_average(&frame, &samples));
}
