use hsv_pwm::accumulator::Accumulator;
use hsv_pwm::hsv_rgb_convert::UNIT;

fn level_of(samples: &[i16]) -> Option<u32> {
    let mut acc = Accumulator::new();
    for &s in samples {
        acc.add_sample(s);
    }
    acc.close_window()
}

#[test]
fn empty_window_has_no_level() {
    assert_eq!(level_of(&[]), None);
}

#[test]
fn zero_samples_give_level_zero() {
    assert_eq!(level_of(&[0; 250]), Some(0));
    assert_eq!(level_of(&[0]), Some(0));
}

#[test]
fn negative_samples_count_as_zero() {
    assert_eq!(level_of(&[-5, -1, -32768]), Some(0));
    // -100 reads as 0: mean (0 + 16065 * 2) / 3 = 10710
    assert_eq!(level_of(&[-100, 16_065, 16_065]), level_of(&[0, 16_065, 16_065]));
}

#[test]
fn mean_is_clamped_then_rescaled() {
    // mean 8032.5 is the middle of [10, 16055]
    assert_eq!(level_of(&[8_000, 8_065]), Some(UNIT / 2));
    // below the lower threshold
    assert_eq!(level_of(&[10, 9, 11, 0]), Some(0));
    assert_eq!(level_of(&[10]), Some(0));
    // at and above the upper threshold
    assert_eq!(level_of(&[16_055]), Some(UNIT));
    assert_eq!(level_of(&[16_383, 16_383]), Some(UNIT));
    assert_eq!(level_of(&[32_767]), Some(UNIT));
}

#[test]
fn level_is_rounded_down() {
    // (11 - 10) * 60000 / 16045 = 3.74
    assert_eq!(level_of(&[11]), Some(3));
    // mean 1000: (1000 - 10) * 60000 / 16045 = 3702.09
    assert_eq!(level_of(&[999, 1_001]), Some(3_702));
}

#[test]
fn close_resets_the_window() {
    let mut acc = Accumulator::new();
    acc.add_sample(16_055);
    assert_eq!(acc.close_window(), Some(UNIT));
    assert_eq!(acc.close_window(), None);
    acc.add_sample(10);
    assert_eq!(acc.close_window(), Some(0));
}
