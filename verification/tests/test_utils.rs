//! Data patterns and comparisons.

use i2c_slave::helpers::test_utils::{
    assert_bytes_equal, compare_bytes, compare_pattern, generate_pseudo_random,
    generate_sequential, generate_test_pattern, verify_pattern, Mismatch, Timer,
};

#[test]
fn test_generate_test_pattern() {
    let pattern = generate_test_pattern(10);
    assert_eq!(pattern.len(), 10);
    assert_eq!(pattern[0], 0);
    assert_eq!(pattern[9], 9);
}

#[test]
fn test_pattern_wraps_after_255() {
    let pattern = generate_test_pattern(258);
    assert_eq!(pattern[255], 255);
    assert_eq!(pattern[256], 0);
    assert_eq!(pattern[257], 1);
}

#[test]
fn test_generate_sequential() {
    let seq = generate_sequential(0x50, 5);
    assert_eq!(seq, vec![0x50, 0x51, 0x52, 0x53, 0x54]);
}

#[test]
fn test_generate_sequential_wrapping() {
    let seq = generate_sequential(0xFE, 3);
    assert_eq!(seq, vec![0xFE, 0xFF, 0x00]);
}

#[test]
fn test_generate_pseudo_random() {
    let data1 = generate_pseudo_random(42, 10);
    let data2 = generate_pseudo_random(42, 10);

    assert_eq!(data1, data2);

    let first = data1[0];
    assert!(data1.iter().any(|&x| x != first));
}

#[test]
fn pseudo_random_values() {
    // value = value * 13 + 7, wrapping: 42 -> 553 % 256 = 41 -> 540 % 256 = 28.
    assert_eq!(generate_pseudo_random(42, 2), vec![41, 28]);
}

#[test]
fn test_assert_bytes_equal_success() {
    let a = [1, 2, 3];
    let b = [1, 2, 3];
    assert_bytes_equal(&a, &b, "test");
}

#[test]
#[should_panic(expected = "Length mismatch")]
fn test_assert_bytes_equal_length_fail() {
    let a = [1, 2, 3];
    let b = [1, 2];
    if let Err(m) = compare_bytes(&a, &b) {
        panic!("{}", m.message("test"));
    }
}

#[test]
#[should_panic(expected = "Byte mismatch")]
fn test_assert_bytes_equal_content_fail() {
    let a = [1, 2, 3];
    let b = [1, 2, 4];
    if let Err(m) = compare_bytes(&a, &b) {
        panic!("{}", m.message("test"));
    }
}

#[test]
fn bytes_mismatch_is_reported_exactly() {
    assert_eq!(
        compare_bytes(&[1, 2, 3], &[1, 2]),
        Err(Mismatch::Length { expected_len: 2, actual_len: 3 })
    );
    let m = compare_bytes(&[1, 2, 3], &[1, 2, 4]).unwrap_err();
    assert_eq!(m, Mismatch::Byte { index: 2, expected: 4, actual: 3 });
    assert_eq!(m.message("ctx"), "ctx: Byte mismatch at index 2. Expected 0x04, got 0x03");
    assert_eq!(
        Mismatch::Length { expected_len: 2, actual_len: 3 }.message("ctx"),
        "ctx: Length mismatch. Expected 2 bytes, got 3"
    );
}

#[test]
fn test_verify_pattern_success() {
    let buffer = [5, 6, 7, 8];
    assert!(verify_pattern(&buffer, 5, "test"));
}

#[test]
#[should_panic(expected = "Pattern mismatch")]
fn test_verify_pattern_fail() {
    let buffer = [5, 6, 99, 8];
    if let Err(m) = compare_pattern(&buffer, 5) {
        panic!("{}", m.message("test"));
    }
}

#[test]
fn verify_pattern_reports_first_difference() {
    let m = compare_pattern(&[0xFF, 0x00, 0x02], 0xFF).unwrap_err();
    assert_eq!(m, Mismatch::Pattern { index: 2, expected: 0x01, actual: 0x02 });
}

#[test]
fn generated_pattern_verifies() {
    let data = generate_sequential(0xF0, 40);
    assert!(verify_pattern(&data, 0xF0, "ctx"));
    assert_eq!(compare_pattern(&data, 0xF0), Ok(()));
}

#[test]
fn test_timer() {
    let mut timer = Timer::new();
    timer.start();
    let _ = timer.elapsed();
    timer.reset();
}

#[test]
fn timer_measures_zero() {
    let mut timer = Timer::new();
    timer.start();
    assert_eq!(timer.elapsed(), std::time::Duration::from_millis(0));
}

#[test]
fn pattern_message_text() {
    let m = compare_pattern(&[0x10, 0x12], 0x10).unwrap_err();
    assert_eq!(m.message("ctx"), "ctx: Pattern mismatch at index 1. Expected 0x11, got 0x12");
    let long = Mismatch::Length { expected_len: 1234, actual_len: 0 }.message("");
    assert_eq!(long, ": Length mismatch. Expected 1234 bytes, got 0");
}
