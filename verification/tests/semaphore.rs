use device_session::error::Error;
use device_session::semaphore::{SemaphoreInner, Step, Wake};

#[test]
fn new_semaphore_is_empty() {
    let s = SemaphoreInner::new();
    assert_eq!(s.count(), 0);
    assert_eq!(s.max_seen(), 0);
}

#[test]
fn produce_adds_units_and_raises_the_mark() {
    let mut s = SemaphoreInner::new();
    s.produce(3);
    assert_eq!(s.count(), 3);
    assert_eq!(s.max_seen(), 3);
    s.produce(0);
    assert_eq!(s.count(), 3);
    assert_eq!(s.max_seen(), 3);
    s.produce(2);
    assert_eq!(s.count(), 5);
    assert_eq!(s.max_seen(), 5);
}

#[test]
fn produce_saturates_at_the_largest_count() {
    let mut s = SemaphoreInner::new();
    s.produce(usize::MAX - 1);
    s.produce(5);
    assert_eq!(s.count(), usize::MAX);
    assert_eq!(s.max_seen(), usize::MAX);
    s.produce(usize::MAX);
    assert_eq!(s.count(), usize::MAX);
}

#[test]
fn try_consume_takes_one_unit_at_a_time() {
    let mut s = SemaphoreInner::new();
    assert!(!s.try_consume());
    assert_eq!(s.count(), 0);
    s.produce(2);
    assert!(s.try_consume());
    assert_eq!(s.count(), 1);
    assert!(s.try_consume());
    assert_eq!(s.count(), 0);
    assert!(!s.try_consume());
    assert_eq!(s.count(), 0);
    assert_eq!(s.max_seen(), 2);
}

#[test]
fn consume_blocks_while_the_count_is_zero() {
    let mut s = SemaphoreInner::new();
    assert_eq!(s.consume_step(Wake::Clear), Step::Block);
    // A spurious wake-up changes nothing.
    assert_eq!(s.consume_step(Wake::Clear), Step::Block);
    assert_eq!(s.count(), 0);
    s.produce(1);
    assert_eq!(s.consume_step(Wake::Clear), Step::Done(Ok(())));
    assert_eq!(s.count(), 0);
    assert_eq!(s.max_seen(), 1);
}

#[test]
fn interrupted_consume_takes_nothing() {
    let mut s = SemaphoreInner::new();
    assert_eq!(s.consume_step(Wake::Clear), Step::Block);
    assert_eq!(s.consume_step(Wake::Interrupted), Step::Done(Err(Error::Interrupted)));
    assert_eq!(s.count(), 0);
    // Even with units at hand, an interrupted wait ends the consume.
    s.produce(4);
    assert_eq!(s.consume_step(Wake::Interrupted), Step::Done(Err(Error::Interrupted)));
    assert_eq!(s.count(), 4);
    assert_eq!(s.max_seen(), 4);
}

#[test]
fn history_count_is_produced_minus_consumed() {
    let mut s = SemaphoreInner::new();
    let mut taken = 0usize;
    // produce 2, consume, produce 0, consume, consume (blocks), produce 5, consume
    s.produce(2);
    if s.try_consume() {
        taken += 1;
    }
    s.produce(0);
    if s.try_consume() {
        taken += 1;
    }
    if s.try_consume() {
        taken += 1;
    }
    s.produce(5);
    if s.try_consume() {
        taken += 1;
    }
    assert_eq!(taken, 3);
    assert_eq!(s.count(), 2 + 0 + 5 - 3);
    // The count was 2, 1, 1, 0, 0, 5, 4: its largest value is 5.
    assert_eq!(s.max_seen(), 5);
}

#[test]
fn max_seen_keeps_the_peak_after_the_count_falls() {
    let mut s = SemaphoreInner::new();
    s.produce(7);
    for _ in 0..7 {
        assert!(s.try_consume());
    }
    s.produce(3);
    assert_eq!(s.count(), 3);
    assert_eq!(s.max_seen(), 7);
}

#[test]
fn round_trip_of_k_units() {
    for k in [0usize, 1, 2, 9] {
        let mut s = SemaphoreInner::new();
        s.produce(k);
        for left in (0..k).rev() {
            assert_eq!(s.consume_step(Wake::Clear), Step::Done(Ok(())));
            assert_eq!(s.count(), left);
        }
        assert_eq!(s.consume_step(Wake::Clear), Step::Block);
        assert_eq!(s.count(), 0);
    }
}
