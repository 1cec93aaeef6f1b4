//! Bus speeds.

#[test]
fn test_speed_constants() {
    const STANDARD_MODE: u32 = 100_000;  // 100 kHz
    const FAST_MODE: u32 = 400_000;      // 400 kHz
    const FAST_MODE_PLUS: u32 = 1_000_000; // 1 MHz
    assert_eq!(STANDARD_MODE, 100_000);
    assert_eq!(FAST_MODE, 400_000);
    assert_eq!(FAST_MODE_PLUS, 1_000_000);
}

#[test]
fn test_speed_calculations() {
    let standard_bit_time_us: f64 = 1_000_000.0 / 100_000.0; // 10 μs
    let fast_bit_time_us: f64 = 1_000_000.0 / 400_000.0;     // 2.5 μs
    assert!((standard_bit_time_us - 10.0).abs() < 0.01);
    assert!((fast_bit_time_us - 2.5).abs() < 0.01);
}

#[test]
fn document_i2c_speed_modes() {
}

#[test]
fn document_esp32_capabilities() {
}

#[test]
fn document_factors_affecting_speed() {
}

#[test]
fn document_speed_vs_reliability() {
}

#[test]
fn document_measuring_speed() {
}
