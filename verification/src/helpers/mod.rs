//! Software master and data-pattern utilities for exercising the drivers.

pub mod mock_master;
pub mod test_utils;

pub use mock_master::MockMaster;
pub use test_utils::{
    Mismatch, Timer, assert_bytes_equal, compare_bytes, compare_pattern, generate_pseudo_random, generate_sequential,
    generate_test_pattern, verify_pattern,
};
