use fast_pool::plugin::check_duration_manager::{lifetime_exceeded_message, DurationConnection};
use fast_pool::plugin::duration_manager::DurationConnection as OptionalStampConnection;
use fast_pool::plugin::{CheckDurationManager, CheckMode, CheckModeAtomic, CheckVerdict, DurationManager};
use std::time::Duration;

#[test]
fn test_check_mode_no_limit() {
    let mode = CheckMode::NoLimit;
    assert_eq!(mode.decide(Duration::ZERO), CheckVerdict::Delegate);
    assert_eq!(mode.decide(Duration::from_secs(3600)), CheckVerdict::Delegate);
}

#[test]
fn test_check_mode_skip_interval() {
    let mode = CheckMode::SkipInterval(Duration::from_millis(100));
    assert_eq!(mode.decide(Duration::from_millis(20)), CheckVerdict::Accept);
    assert_eq!(mode.decide(Duration::from_millis(99)), CheckVerdict::Accept);
    assert_eq!(mode.decide(Duration::from_millis(100)), CheckVerdict::Delegate);
    assert_eq!(mode.decide(Duration::from_millis(150)), CheckVerdict::Delegate);
}

#[test]
fn test_check_mode_max_lifetime() {
    let mode = CheckMode::MaxLifetime(Duration::from_millis(150));
    assert_eq!(mode.decide(Duration::from_millis(20)), CheckVerdict::Delegate);
    assert_eq!(mode.decide(Duration::from_millis(150)), CheckVerdict::Delegate);
    assert_eq!(mode.decide(Duration::from_millis(200)), CheckVerdict::Reject);
    assert_eq!(lifetime_exceeded_message(), "connection exceeded max lifetime");
}

#[test]
fn test_fresh_connection_verdicts() {
    let c = DurationConnection::new(7u32);
    assert_eq!(*c.get_ref(), 7);
    assert_eq!(*c, 7);
    assert_eq!(c.verdict(&CheckMode::NoLimit), CheckVerdict::Delegate);
    assert_eq!(c.verdict(&CheckMode::SkipInterval(Duration::from_secs(3600))), CheckVerdict::Accept);
    assert_eq!(c.verdict(&CheckMode::MaxLifetime(Duration::from_secs(3600))), CheckVerdict::Delegate);
    assert_eq!(c.into_inner(), 7);
}

#[test]
fn test_connection_mutation_through_wrapper() {
    let mut c = DurationConnection::new(String::from("conn"));
    *c.get_mut() = String::from("error");
    assert_eq!(c.get_ref(), "error");
    c.push('!');
    assert_eq!(&*c, "error!");
}

#[test]
fn test_check_duration_manager_new() {
    let m = CheckDurationManager::new(5u8, CheckMode::SkipInterval(Duration::from_millis(100)));
    assert_eq!(m.manager, 5);
    assert_eq!(m.mode.decide(Duration::from_millis(10)), CheckVerdict::Accept);
}

#[test]
fn test_check_mode_codes() {
    assert_eq!(CheckMode::NoLimit.as_i8(), 0);
    assert_eq!(CheckMode::SkipInterval(Duration::from_secs(1)).as_i8(), 1);
    assert_eq!(CheckMode::MaxLifetime(Duration::from_secs(1)).as_i8(), 2);
    assert_eq!(CheckMode::MaxLifetime(Duration::from_millis(150)).as_nanos(), 150_000_000);
    assert_eq!(CheckMode::NoLimit.as_nanos(), 0);
    assert!(matches!(CheckMode::new(0, 5), CheckMode::NoLimit));
    assert!(matches!(CheckMode::new(7, 5), CheckMode::NoLimit));
    assert!(matches!(CheckMode::new(1, 1_500_000_000), CheckMode::SkipInterval(d) if d == Duration::new(1, 500_000_000)));
    assert!(matches!(CheckMode::new(2, 42), CheckMode::MaxLifetime(d) if d == Duration::from_nanos(42)));
    assert!(matches!(CheckMode::new(2, u128::MAX), CheckMode::MaxLifetime(d) if d == Duration::MAX));
}

#[test]
fn test_check_mode_atomic_round_trip() {
    let a = CheckModeAtomic::new(CheckMode::SkipInterval(Duration::from_millis(100)));
    assert!(matches!(a.get_mode(), CheckMode::SkipInterval(d) if d == Duration::from_millis(100)));
    a.set_mode(CheckMode::MaxLifetime(Duration::from_secs(3)));
    assert!(matches!(a.get_mode(), CheckMode::MaxLifetime(d) if d == Duration::from_secs(3)));
    a.set_mode(CheckMode::NoLimit);
    assert!(matches!(a.get_mode(), CheckMode::NoLimit));
}

#[test]
fn test_duration_manager_stamps_by_mode() {
    let m = DurationManager::new(3u8, CheckMode::MaxLifetime(Duration::from_secs(60)));
    assert_eq!(*m, 3);
    assert!(matches!(m.mode.get_mode(), CheckMode::MaxLifetime(d) if d == Duration::from_secs(60)));
    let unstamped = OptionalStampConnection::new(1u8, &CheckMode::NoLimit);
    assert_eq!(unstamped.verdict(&CheckMode::SkipInterval(Duration::from_secs(60))), CheckVerdict::Delegate);
    let stamped = OptionalStampConnection::new(1u8, &CheckMode::SkipInterval(Duration::from_secs(60)));
    assert_eq!(stamped.verdict(&CheckMode::SkipInterval(Duration::from_secs(60))), CheckVerdict::Accept);
    assert_eq!(*stamped, 1);
}

#[test]
fn test_lifetime_decorator_rejects_old_resource() {
    let c = DurationConnection::new(1u8);
    pause(Duration::from_millis(200));
    assert_eq!(c.verdict(&CheckMode::MaxLifetime(Duration::from_millis(150))), CheckVerdict::Reject);
}

#[test]
fn test_skip_interval_decorator_counts_checks() {
    let c = DurationConnection::new(1u8);
    let mode = CheckMode::SkipInterval(Duration::from_millis(100));
    let mut inner_checks = 0;
    for _ in 0..10 {
        if c.verdict(&mode) == CheckVerdict::Delegate {
            inner_checks += 1;
        }
    }
    assert_eq!(inner_checks, 0);
    pause(Duration::from_millis(150));
    if c.verdict(&mode) == CheckVerdict::Delegate {
        inner_checks += 1;
    }
    assert_eq!(inner_checks, 1);
}

fn pause(d: Duration) {
    let start = std::time::Instant::now();
    while start.elapsed() <= d {
        std::hint::spin_loop();
    }
}
