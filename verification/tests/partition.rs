use reflink_bench::partition::{operations_per_worker, partition, worker_range, WorkRange};

fn sizes(ranges: &[WorkRange]) -> Vec<u32> {
    ranges.iter().map(|r| r.len()).collect()
}

#[test]
fn ten_operations_on_four_workers() {
    let ranges = partition(10, 4);
    assert_eq!(sizes(&ranges), vec![3, 3, 3, 1]);
    assert_eq!(
        ranges,
        vec![
            WorkRange { start: 0, end: 3 },
            WorkRange { start: 3, end: 6 },
            WorkRange { start: 6, end: 9 },
            WorkRange { start: 9, end: 10 },
        ]
    );
    let total: u32 = sizes(&ranges).iter().sum();
    assert_eq!(total, 10);
}

#[test]
fn share_is_rounded_up() {
    assert_eq!(operations_per_worker(10, 4), 3);
    assert_eq!(operations_per_worker(8, 4), 2);
    assert_eq!(operations_per_worker(1, 128), 1);
    assert_eq!(operations_per_worker(0, 7), 0);
    assert_eq!(operations_per_worker(1000, 1), 1000);
    assert_eq!(operations_per_worker(u32::MAX, u32::MAX), 1);
    assert_eq!(operations_per_worker(u32::MAX, 2), 1 << 31);
}

#[test]
fn every_level_covers_every_operation_once() {
    for &workers in &[1u32, 2, 4, 8, 16, 32, 64, 128] {
        for &count in &[0u32, 1, 2, 3, 7, 10, 100, 127, 128, 129, 1000, 4097] {
            let ranges = partition(count, workers);
            assert_eq!(ranges.len(), workers as usize);
            let mut owners = vec![0u32; count as usize];
            for range in &ranges {
                assert!(range.start <= range.end);
                assert!(range.end <= count);
                for index in range.start..range.end {
                    owners[index as usize] += 1;
                }
            }
            assert!(owners.iter().all(|&n| n == 1), "{} on {}", count, workers);
            assert_eq!(ranges[0].start, 0);
            assert_eq!(ranges[ranges.len() - 1].end, count);
            for pair in ranges.windows(2) {
                assert_eq!(pair[0].end, pair[1].start);
            }
        }
    }
}

#[test]
fn workers_beyond_the_last_operation_are_idle() {
    let ranges = partition(10, 128);
    for (worker, range) in ranges.iter().enumerate() {
        if worker < 10 {
            assert_eq!(*range, WorkRange { start: worker as u32, end: worker as u32 + 1 });
            assert!(!range.is_empty());
        } else {
            assert_eq!(*range, WorkRange { start: 10, end: 10 });
            assert!(range.is_empty());
            assert_eq!(range.len(), 0);
        }
    }
}

#[test]
fn last_worker_takes_the_remainder() {
    assert_eq!(worker_range(10, 4, 3), WorkRange { start: 9, end: 10 });
    assert_eq!(worker_range(100, 8, 7), WorkRange { start: 91, end: 100 });
    assert_eq!(worker_range(100, 8, 0), WorkRange { start: 0, end: 13 });
    assert_eq!(worker_range(9, 4, 3), WorkRange { start: 9, end: 9 });
}

#[test]
fn widest_inputs_do_not_overflow() {
    let last = worker_range(u32::MAX, u32::MAX, u32::MAX - 1);
    assert_eq!(last, WorkRange { start: u32::MAX - 1, end: u32::MAX });
    let beyond = worker_range(5, 2, u32::MAX);
    assert_eq!(beyond, WorkRange { start: 5, end: 5 });
    let half = worker_range(u32::MAX, 2, 1);
    assert_eq!(half, WorkRange { start: 1 << 31, end: u32::MAX });
}

#[test]
fn a_range_that_ends_before_it_starts_is_empty() {
    let range = WorkRange { start: 5, end: 2 };
    assert_eq!(range.len(), 0);
    assert!(range.is_empty());
}
