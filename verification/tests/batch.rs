use moprs_sync::batch::{BatchAccumulator, BATCH_CAPACITY};

#[test]
fn capacity_is_one_thousand() {
    assert_eq!(BATCH_CAPACITY, 1000);
}

#[test]
fn new_accumulator_is_empty() {
    let accumulator: BatchAccumulator<u32> = BatchAccumulator::new();
    assert_eq!(accumulator.len(), 0);
    assert!(accumulator.is_empty());
    assert!(!accumulator.is_ready());
    assert!(accumulator.batch().is_empty());
}

#[test]
fn push_appends_in_order() {
    let mut accumulator: BatchAccumulator<u32> = BatchAccumulator::new();
    assert!(!accumulator.push(30));
    assert!(!accumulator.push(10));
    assert!(!accumulator.push(20));
    assert_eq!(accumulator.len(), 3);
    assert!(!accumulator.is_empty());
    assert_eq!(accumulator.batch(), &vec![30, 10, 20]);
}

#[test]
fn batch_is_ready_at_capacity_and_not_before() {
    let mut accumulator: BatchAccumulator<usize> = BatchAccumulator::new();
    for item in 0..BATCH_CAPACITY - 1 {
        assert!(!accumulator.push(item));
        assert!(!accumulator.is_ready());
    }
    assert_eq!(accumulator.len(), 999);
    assert!(accumulator.push(999));
    assert!(accumulator.is_ready());
    assert_eq!(accumulator.len(), 1000);
    let expected: Vec<usize> = (0..1000).collect();
    assert_eq!(accumulator.batch(), &expected);
}

#[test]
fn take_hands_out_the_batch_and_empties_the_buffer() {
    let mut accumulator: BatchAccumulator<usize> = BatchAccumulator::new();
    for item in 0..BATCH_CAPACITY {
        accumulator.push(item);
    }
    let batch = accumulator.take();
    assert_eq!(batch.len(), 1000);
    assert_eq!(batch[0], 0);
    assert_eq!(batch[999], 999);
    assert!(accumulator.is_empty());
    assert!(!accumulator.is_ready());
    assert!(!accumulator.push(7));
    assert_eq!(accumulator.batch(), &vec![7]);
}

#[test]
fn take_of_a_partial_batch() {
    let mut accumulator: BatchAccumulator<&str> = BatchAccumulator::new();
    accumulator.push("a");
    accumulator.push("b");
    assert_eq!(accumulator.take(), vec!["a", "b"]);
    assert_eq!(accumulator.len(), 0);
    assert_eq!(accumulator.take(), Vec::<&str>::new());
}

#[test]
fn reset_clears_the_buffer() {
    let mut accumulator: BatchAccumulator<usize> = BatchAccumulator::new();
    for item in 0..BATCH_CAPACITY {
        accumulator.push(item);
    }
    assert!(accumulator.is_ready());
    accumulator.reset();
    assert!(accumulator.is_empty());
    assert!(!accumulator.is_ready());
    for item in 0..BATCH_CAPACITY - 1 {
        assert!(!accumulator.push(item));
    }
    assert!(accumulator.push(0));
}
