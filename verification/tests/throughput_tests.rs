//! Throughput arithmetic.

#[test]
fn test_theoretical_throughput() {
    let clock_hz = 400_000;
    let bits_per_byte = 9; // Including ACK
    let bytes_per_second = clock_hz / bits_per_byte;
    assert_eq!(bytes_per_second, 44_444);
}

#[test]
fn throughput_tests_test_efficiency_calculation() {
    let theoretical_bps = 44_444;
    let actual_bps = 30_000; // Example measured value
    let efficiency = (actual_bps as f32 / theoretical_bps as f32) * 100.0;
    assert!(efficiency > 50.0 && efficiency < 100.0);
}

#[test]
fn test_overhead_calculation() {
    let overhead_bits = 11; // Start + Stop + ACKs + Address
    let data_bits = 8;
    let total_bits = overhead_bits + data_bits;
    let overhead_percent = (overhead_bits as f32 / total_bits as f32) * 100.0;
    assert!(overhead_percent > 50.0);
}

#[test]
fn document_throughput_factors() {
}

#[test]
fn document_optimal_usage() {
}

#[test]
fn document_realistic_expectations() {
}

#[test]
fn document_comparison_with_other_buses() {
}

#[test]
fn document_profiling_techniques() {
}
