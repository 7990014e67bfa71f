use music_player::rms_calculator::{floor_sqrt, RmsCalculator, MAX_SQUARE};

fn rms_of(window: &[i32]) -> u64 {
    let sum: u128 = window.iter().map(|s| (*s as i64 * *s as i64) as u128).sum();
    floor_sqrt(sum / window.len() as u128)
}

#[test]
fn floor_sqrt_rounds_down() {
    assert_eq!(floor_sqrt(0), 0);
    assert_eq!(floor_sqrt(1), 1);
    assert_eq!(floor_sqrt(3), 1);
    assert_eq!(floor_sqrt(4), 2);
    assert_eq!(floor_sqrt(99), 9);
    assert_eq!(floor_sqrt(100), 10);
    assert_eq!(floor_sqrt(1 << 62), 1 << 31);
    assert_eq!(floor_sqrt((1 << 62) - 1), (1 << 31) - 1);
    assert_eq!(floor_sqrt(u128::MAX), u64::MAX);
}

#[test]
fn the_largest_square_is_that_of_the_least_sample() {
    assert_eq!(MAX_SQUARE as i128, (i32::MIN as i128) * (i32::MIN as i128));
}

#[test]
fn an_empty_meter_reads_zero() {
    let meter = RmsCalculator::new(4);
    assert_eq!(meter.get_rms_value(), 0);
}

#[test]
fn a_constant_signal_reads_its_level() {
    let mut meter = RmsCalculator::new(4);
    for _ in 0..4 {
        meter.write_sample(-1000);
    }
    assert_eq!(meter.get_rms_value(), 1000);
}

#[test]
fn a_window_that_is_filling_divides_by_its_size() {
    let mut meter = RmsCalculator::new(4);
    meter.write_sample(6);
    // 36 / 4 = 9
    assert_eq!(meter.get_rms_value(), 3);
    meter.write_sample(8);
    // (36 + 64) / 4 = 25
    assert_eq!(meter.get_rms_value(), 5);
}

#[test]
fn the_meter_reads_the_last_window() {
    let samples: Vec<i32> = (0..100).map(|k| (k * 37 % 101 - 50) * 300).collect();
    for window in [1usize, 2, 7, 50, 100] {
        let mut meter = RmsCalculator::new(window);
        for (n, sample) in samples.iter().enumerate() {
            meter.write_sample(*sample);
            if n + 1 >= window {
                assert_eq!(meter.get_rms_value(), rms_of(&samples[n + 1 - window..=n]));
            }
        }
    }
}

#[test]
fn the_extremes_do_not_overflow() {
    let mut meter = RmsCalculator::new(3);
    for _ in 0..10 {
        meter.write_sample(i32::MIN);
    }
    assert_eq!(meter.get_rms_value(), 1 << 31);
    meter.write_sample(i32::MAX);
    meter.write_sample(i32::MAX);
    meter.write_sample(i32::MAX);
    assert_eq!(meter.get_rms_value(), i32::MAX as u64);
}

#[test]
fn reset_forgets_the_samples_and_keeps_the_size() {
    let mut meter = RmsCalculator::new(2);
    meter.write_sample(10);
    meter.write_sample(10);
    meter.reset();
    assert_eq!(meter.get_rms_value(), 0);
    meter.write_sample(10);
    meter.write_sample(10);
    meter.write_sample(10);
    assert_eq!(meter.get_rms_value(), 10);
}

#[test]
fn a_smaller_window_is_cut_by_the_next_write() {
    let mut meter = RmsCalculator::new(4);
    for sample in [10, 20, 30, 40] {
        meter.write_sample(sample);
    }
    meter.set_window_size(2);
    // Nothing has left yet: (100 + 400 + 900 + 1600) / 2 = 1500.
    assert_eq!(meter.get_rms_value(), 38);
    meter.write_sample(50);
    // The window is 40, 50: (1600 + 2500) / 2 = 2050.
    assert_eq!(meter.get_rms_value(), 45);
}

#[test]
fn a_larger_window_fills_up() {
    let mut meter = RmsCalculator::new(1);
    meter.write_sample(3);
    meter.set_window_size(2);
    meter.write_sample(4);
    // (9 + 16) / 2 = 12
    assert_eq!(meter.get_rms_value(), 3);
    meter.write_sample(4);
    assert_eq!(meter.get_rms_value(), 4);
}

#[test]
fn a_default_meter_has_no_window_yet() {
    let mut meter = RmsCalculator::default();
    meter.set_window_size(1);
    meter.write_sample(12);
    assert_eq!(meter.get_rms_value(), 12);
}
