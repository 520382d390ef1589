use reflink_bench::naming::{
    concurrent_label, decimal_string, sequential_label, source_file_name, target_name,
};
use std::collections::HashSet;

#[test]
fn numbers_are_written_in_decimal() {
    assert_eq!(decimal_string(0), "0");
    assert_eq!(decimal_string(7), "7");
    assert_eq!(decimal_string(10), "10");
    assert_eq!(decimal_string(1905), "1905");
    assert_eq!(decimal_string(4294967295), "4294967295");
    assert_eq!(decimal_string(u128::MAX), u128::MAX.to_string());
}

#[test]
fn sequential_targets_are_named_after_their_index() {
    let label = sequential_label();
    assert_eq!(label, "reflink");
    assert_eq!(target_name(&label, 0), "reflink_0.dat");
    assert_eq!(target_name(&label, 42), "reflink_42.dat");
    assert_eq!(target_name(&label, u32::MAX), "reflink_4294967295.dat");
}

#[test]
fn concurrent_targets_are_named_after_level_and_index() {
    assert_eq!(concurrent_label(1), "concurrent_1");
    assert_eq!(concurrent_label(128), "concurrent_128");
    assert_eq!(target_name(&concurrent_label(8), 3), "concurrent_8_3.dat");
}

#[test]
fn source_file_has_its_own_name() {
    assert_eq!(source_file_name(), "source_file.dat");
}

#[test]
fn no_two_targets_share_a_name() {
    let mut names = HashSet::new();
    let mut labels = vec![sequential_label()];
    for &workers in &[1u32, 2, 4, 8, 16, 32, 64, 128] {
        labels.push(concurrent_label(workers));
    }
    for label in &labels {
        for index in 0..300 {
            assert!(names.insert(target_name(label, index)));
        }
    }
    assert_eq!(names.len(), 9 * 300);
    assert!(!names.contains(&source_file_name()));
}

#[test]
fn labels_that_run_into_the_index_stay_apart() {
    assert_ne!(target_name("concurrent_1", 28), target_name("concurrent_12", 8));
    assert_ne!(target_name("a_1", 1), target_name("a", 11));
    assert_eq!(target_name("a_1", 1), "a_1_1.dat");
}
