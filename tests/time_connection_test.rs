use fast_pool::TimeConnection;
use std::time::Duration;

#[test]
fn test_time_connection_without_timestamp() {
    let c = TimeConnection::new("conn".to_string(), false);
    assert!(!c.has_timestamp());
    assert_eq!(c.created_at_nanos, None);
    assert!(!c.is_expired(Duration::ZERO));
    assert_eq!(c.age(), Duration::ZERO);
    assert_eq!(c.age_at(u64::MAX), Duration::ZERO);
    assert_eq!(c.into_connection(), "conn");
}

#[test]
fn test_time_connection_with_timestamp() {
    let c = TimeConnection::new(5u8, true);
    assert!(c.has_timestamp());
    let created = c.created_at_nanos.unwrap();
    assert_eq!(c.age_at(created + 250), Duration::from_nanos(250));
    assert_eq!(c.age_at(created.saturating_sub(10)), Duration::ZERO);
    assert!(c.is_expired_at(created + 251, Duration::from_nanos(250)));
    assert!(!c.is_expired_at(created + 250, Duration::from_nanos(250)));
    assert!(!c.is_expired(Duration::from_secs(3600)));
}

#[test]
fn test_time_connection_expires() {
    let c = TimeConnection::new(5u8, true);
    pause(Duration::from_millis(60));
    assert!(c.is_expired(Duration::from_millis(50)));
    assert!(c.age() >= Duration::from_millis(50));
}

fn pause(d: Duration) {
    let start = std::time::Instant::now();
    while start.elapsed() <= d {
        std::hint::spin_loop();
    }
}
