use whisper_stt::ring::SampleRing;

#[test]
fn push_then_pop_exact_round_trips() {
    let mut ring = SampleRing::with_capacity(8);
    let batch: Vec<i16> = vec![1, -2, 3, -4, 5];
    assert_eq!(ring.push(&batch), 5);
    assert_eq!(ring.len(), 5);
    let back = ring.pop_exact(5).expect("five samples are queued");
    assert_eq!(back, batch);
    assert_eq!(ring.len(), 0);
}

#[test]
fn full_capacity_round_trips() {
    let mut ring = SampleRing::with_capacity(4);
    let batch: Vec<i16> = vec![10, 20, 30, 40];
    assert_eq!(ring.push(&batch), 4);
    let back = ring.pop_exact(4).expect("ring was filled to capacity");
    assert_eq!(back, batch);
}

#[test]
fn overflow_drops_only_the_tail() {
    let mut ring = SampleRing::with_capacity(4);
    let batch: Vec<i16> = vec![1, 2, 3, 4, 5, 6];
    assert_eq!(ring.push(&batch), 4);
    assert_eq!(ring.len(), 4);
    // order of the retained prefix is preserved; the tail is gone
    assert_eq!(ring.pop_exact(4).unwrap(), vec![1, 2, 3, 4]);
}

#[test]
fn overflow_after_partial_fill_keeps_order() {
    let mut ring = SampleRing::with_capacity(5);
    assert_eq!(ring.push(&vec![7, 8]), 2);
    assert_eq!(ring.push(&vec![9, 10, 11, 12]), 3);
    assert_eq!(ring.pop_exact(5).unwrap(), vec![7, 8, 9, 10, 11]);
}

#[test]
fn pop_exact_fails_without_enough_samples() {
    let mut ring = SampleRing::with_capacity(8);
    ring.push(&vec![1, 2, 3]);
    assert!(ring.pop_exact(4).is_none());
    // the failed pop left the queue untouched
    assert_eq!(ring.len(), 3);
    assert_eq!(ring.pop_exact(3).unwrap(), vec![1, 2, 3]);
}

#[test]
fn capacity_is_what_it_was_created_with() {
    let ring = SampleRing::with_capacity(123);
    assert_eq!(ring.capacity(), 123);
    assert_eq!(ring.len(), 0);
}

#[test]
fn pop_is_fifo_across_batches() {
    let mut ring = SampleRing::with_capacity(16);
    ring.push(&vec![1, 2, 3]);
    ring.push(&vec![4, 5]);
    assert_eq!(ring.pop_exact(2).unwrap(), vec![1, 2]);
    ring.push(&vec![6]);
    assert_eq!(ring.pop_exact(4).unwrap(), vec![3, 4, 5, 6]);
}
