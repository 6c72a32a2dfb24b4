use fast_pool::duration::{decode, dur_to_ms, encode};
use fast_pool::AtomicDuration;
use std::time::Duration;

#[test]
fn test_atomic_duration_edge_cases() {
    let atomic_none = AtomicDuration::new(None);
    assert_eq!(atomic_none.get(), None);

    let atomic_some = AtomicDuration::new(Some(Duration::from_millis(100)));
    assert_eq!(atomic_some.get(), Some(Duration::from_millis(100)));

    let atomic_take = AtomicDuration::new(Some(Duration::from_millis(200)));
    let taken = atomic_take.take();
    assert_eq!(taken, Some(Duration::from_millis(200)));
    assert_eq!(atomic_take.get(), None);

    let atomic_empty = AtomicDuration::new(None);
    let taken_none = atomic_empty.take();
    assert_eq!(taken_none, None);
    assert_eq!(atomic_empty.get(), None);

    let atomic_into = AtomicDuration::new(Some(Duration::from_millis(300)));
    let inner = atomic_into.into_inner();
    assert_eq!(inner, Some(Duration::from_millis(300)));

    let atomic_store = AtomicDuration::new(Some(Duration::from_millis(400)));
    atomic_store.store(None);
    assert_eq!(atomic_store.get(), None);

    atomic_store.store(Some(Duration::from_millis(500)));
    assert_eq!(atomic_store.get(), Some(Duration::from_millis(500)));
}

#[test]
fn test_dur_to_ms_rounds_up() {
    assert_eq!(dur_to_ms(Duration::from_nanos(1)), 1);
    assert_eq!(dur_to_ms(Duration::from_nanos(1_000_000)), 1);
    assert_eq!(dur_to_ms(Duration::from_nanos(1_000_001)), 2);
    assert_eq!(dur_to_ms(Duration::from_secs(10)), 10_000);
    assert_eq!(dur_to_ms(Duration::new(1, 500_000_000)), 1_500);
    assert_eq!(dur_to_ms(Duration::ZERO), 0);
}

#[test]
fn test_dur_to_ms_saturates() {
    assert_eq!(dur_to_ms(Duration::MAX), u64::MAX);
    assert_eq!(dur_to_ms(Duration::from_secs(u64::MAX / 1000 + 1)), u64::MAX);
}

#[test]
fn test_encode_decode() {
    assert_eq!(encode(None), 0);
    assert_eq!(encode(Some(Duration::from_micros(2500))), 3);
    assert_eq!(decode(0), None);
    assert_eq!(decode(3), Some(Duration::from_millis(3)));
    assert_eq!(decode(encode(Some(Duration::from_micros(1)))), Some(Duration::from_millis(1)));
    assert_eq!(decode(encode(Some(Duration::ZERO))), None);
}

#[test]
fn test_atomic_duration_rounds_stored_value() {
    let d = AtomicDuration::new(Some(Duration::from_micros(1500)));
    assert_eq!(d.get(), Some(Duration::from_millis(2)));
    d.store(Some(Duration::from_secs(10)));
    assert_eq!(d.get(), Some(Duration::from_secs(10)));
    d.store(Some(Duration::ZERO));
    assert_eq!(d.get(), None);
}
