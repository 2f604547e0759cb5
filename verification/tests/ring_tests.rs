use tuner_core::ring::InputRing;

fn ramp(capacity: usize) -> InputRing<u32> {
    let mut ring = InputRing::new(capacity, 0u32);
    for i in 0..capacity {
        ring.store(i, 100 + i as u32);
    }
    ring
}

#[test]
fn ring_starts_silent_at_position_zero() {
    let ring = InputRing::new(5, 7u8);
    assert_eq!(ring.capacity(), 5);
    assert_eq!(ring.write_pos(), 0);
    for i in 0..5 {
        assert_eq!(ring.load(i), 7);
    }
}

#[test]
fn ring_without_slots() {
    let ring = InputRing::new(0, 0u8);
    assert_eq!(ring.capacity(), 0);
    assert_eq!(ring.write_pos(), 0);
}

#[test]
fn ring_seek_reduces_the_position() {
    let mut ring = ramp(8);
    ring.seek(3);
    assert_eq!(ring.write_pos(), 3);
    ring.seek(8);
    assert_eq!(ring.write_pos(), 0);
    ring.seek(21);
    assert_eq!(ring.write_pos(), 5);
    ring.seek(usize::MAX);
    assert_eq!(ring.write_pos(), usize::MAX % 8);
}

#[test]
fn ring_store_then_load() {
    let mut ring = InputRing::new(4, 0.0f32);
    ring.store(2, 0.5);
    assert_eq!(ring.load(2), 0.5);
    assert_eq!(ring.load(1), 0.0);
    assert_eq!(ring.write_pos(), 0);
}

#[test]
fn ring_tail_start_without_wrap() {
    let mut ring = ramp(8);
    ring.seek(6);
    assert_eq!(ring.tail_start(4), 2);
    assert_eq!(ring.tail_start(6), 0);
    assert_eq!(ring.tail_start(0), 6);
}

#[test]
fn ring_tail_start_wraps() {
    let mut ring = ramp(8);
    ring.seek(2);
    assert_eq!(ring.tail_start(3), 7);
    assert_eq!(ring.tail_start(8), 2);
    assert_eq!(ring.tail_start(9), 1);
    assert_eq!(ring.tail_start(19), 7);
}

#[test]
fn ring_recent_ends_at_the_write_position() {
    let mut ring = ramp(8);
    ring.seek(6);
    assert_eq!(ring.recent(3), vec![103, 104, 105]);
}

#[test]
fn ring_recent_wraps_around_the_end() {
    let mut ring = ramp(8);
    ring.seek(2);
    assert_eq!(ring.recent(5), vec![105, 106, 107, 100, 101]);
}

#[test]
fn ring_recent_of_the_whole_ring() {
    let mut ring = ramp(4);
    ring.seek(1);
    assert_eq!(ring.recent(4), vec![101, 102, 103, 100]);
}

#[test]
fn ring_recent_of_more_than_the_capacity_goes_round_again() {
    let mut ring = ramp(4);
    ring.seek(1);
    // ten samples that end before slot 1: slots 3 0 1 2 3 0 1 2 3 0
    assert_eq!(
        ring.recent(10),
        vec![103, 100, 101, 102, 103, 100, 101, 102, 103, 100]
    );
}

#[test]
fn ring_recent_of_nothing() {
    let ring = ramp(4);
    assert_eq!(ring.recent(0), Vec::<u32>::new());
}

#[test]
fn ring_of_one_slot() {
    let mut ring = InputRing::new(1, 9i16);
    ring.seek(5);
    assert_eq!(ring.write_pos(), 0);
    assert_eq!(ring.recent(3), vec![9, 9, 9]);
}

#[test]
fn ring_store_block_wraps_and_moves_the_position() {
    let mut ring = ramp(8);
    ring.seek(6);
    ring.store_block(&vec![1, 2, 3, 4]);
    assert_eq!(ring.write_pos(), 2);
    assert_eq!(ring.load(6), 1);
    assert_eq!(ring.load(7), 2);
    assert_eq!(ring.load(0), 3);
    assert_eq!(ring.load(1), 4);
    assert_eq!(ring.load(2), 102);
    assert_eq!(ring.load(5), 105);
    assert_eq!(ring.recent(4), vec![1, 2, 3, 4]);
}

#[test]
fn ring_store_block_of_nothing_changes_nothing() {
    let mut ring = ramp(8);
    ring.seek(6);
    ring.store_block(&vec![]);
    assert_eq!(ring.write_pos(), 6);
    assert_eq!(ring.recent(8), vec![106, 107, 100, 101, 102, 103, 104, 105]);
}

#[test]
fn ring_store_block_longer_than_the_ring_keeps_its_end() {
    let mut ring = ramp(4);
    ring.seek(1);
    ring.store_block(&(1..=10).collect());
    assert_eq!(ring.write_pos(), 3);
    assert_eq!(ring.recent(4), vec![7, 8, 9, 10]);
}

#[test]
fn ring_store_block_that_fills_the_ring_exactly() {
    let mut ring = ramp(4);
    ring.seek(2);
    ring.store_block(&vec![9, 8, 7, 6]);
    assert_eq!(ring.write_pos(), 2);
    assert_eq!(ring.recent(4), vec![9, 8, 7, 6]);
    assert_eq!(ring.load(2), 9);
    assert_eq!(ring.load(1), 6);
}
