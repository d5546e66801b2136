use io_reactor::{Duration, Timer, Timestamp};

fn now() -> Timestamp {
    Timestamp::now().expect("system time")
}

#[test]
fn test_wake_exact() {
    let mut tm = Timer::new();

    let now = now();
    tm.set_timeout(Duration::from_secs(8), now);
    tm.set_timeout(Duration::from_secs(9), now);
    tm.set_timeout(Duration::from_secs(10), now);

    assert_eq!(tm.remove_expired_by(now + Duration::from_secs(9)), 2);
    assert_eq!(tm.count(), 1);
}

#[test]
fn test_wake() {
    let mut tm = Timer::new();

    let now = now();
    tm.set_timeout(Duration::from_secs(8), now);
    tm.set_timeout(Duration::from_secs(16), now);
    tm.set_timeout(Duration::from_secs(64), now);
    tm.set_timeout(Duration::from_secs(72), now);

    assert_eq!(tm.remove_expired_by(now), 0);
    assert_eq!(tm.count(), 4);

    assert_eq!(tm.remove_expired_by(now + Duration::from_secs(9)), 1);
    assert_eq!(tm.count(), 3, "one timeout has expired");

    assert_eq!(tm.remove_expired_by(now + Duration::from_secs(66)), 2);
    assert_eq!(tm.count(), 1, "another two timeouts have expired");

    assert_eq!(tm.remove_expired_by(now + Duration::from_secs(96)), 1);
    assert!(!tm.has_timeouts(), "all timeouts have expired");
}

#[test]
fn test_next() {
    let mut tm = Timer::new();

    let mut now = now();
    tm.set_timeout(Duration::from_secs(3), now);
    assert_eq!(tm.next_expiring_from(now), Some(Duration::from_secs(3)));

    now.add_assign(Duration::from_secs(2));
    assert_eq!(tm.next_expiring_from(now), Some(Duration::from_secs(1)));

    now.add_assign(Duration::from_secs(1));
    assert_eq!(tm.next_expiring_from(now), Some(Duration::from_secs(0)));

    now.add_assign(Duration::from_secs(1));
    assert_eq!(tm.next_expiring_from(now), Some(Duration::from_secs(0)));

    assert_eq!(tm.remove_expired_by(now), 1);
    assert_eq!(tm.count(), 0);
    assert_eq!(tm.next_expiring_from(now), None);
}

#[test]
fn timestamp_units() {
    let time = Timestamp::from_secs(12);
    assert_eq!(time, Timestamp::from_millis(12_000));
    assert_eq!(time.as_secs(), 12);
    assert_eq!(time.into_secs(), 12);
    assert_eq!(time.as_millis(), 12_000);
    assert_eq!(Timestamp::from_millis(12_999).as_secs(), 12);
    assert_eq!(Timestamp::from(7u128), Timestamp(7));
    assert_eq!(Timestamp::from_secs(u64::MAX).0, 18_446_744_073_709_551_615_000);
}

#[test]
fn timestamp_keeps_lower_bits() {
    let time = Timestamp::from_millis((1u128 << 64) + 5);
    assert_eq!(time.as_millis(), 5);
    assert_eq!(Timestamp::from_millis((1u128 << 64) * 1000 + 7_999).as_secs(), 7);
}

#[test]
fn timestamp_from_elapsed_drops_fraction() {
    assert_eq!(
        Timestamp::from_elapsed(Duration::new(2, 3_999_999)),
        Timestamp::from_millis(2_003)
    );
    assert_eq!(Timestamp::from_elapsed(Duration::new(0, 999_999)), Timestamp::from_millis(0));
}

#[test]
fn timestamp_now_is_recent() {
    // The clock reads a moment after the start of the year 2020 and before that of 2200.
    let time = now();
    assert!(time > Timestamp::from_secs(1_577_836_800));
    assert!(time < Timestamp::from_secs(7_258_118_400));
    assert!(now() >= time);
}

#[test]
fn timestamp_arithmetic() {
    let time = Timestamp::from_millis(10_000);
    assert_eq!(time + Duration::from_millis(5), Timestamp(10_005));
    assert_eq!(time - Duration::from_millis(5), Timestamp(9_995));
    assert_eq!(time + Duration::new(0, 5_999_999), Timestamp(10_005));
    assert_eq!(time - Duration::new(0, 5_999_999), Timestamp(9_995));
    assert_eq!(time + Timestamp(1), Timestamp(10_001));
    assert_eq!(time - Timestamp(1), Timestamp(9_999));

    let mut time = time;
    time.add_assign(Duration::from_secs(1));
    assert_eq!(time, Timestamp(11_000));
    time.sub_assign(Duration::from_secs(2));
    assert_eq!(time, Timestamp(9_000));
    time.add_assign(Timestamp(7));
    assert_eq!(time, Timestamp(9_007));
    time.sub_assign(Timestamp(9_000));
    assert_eq!(time, Timestamp(7));
}

#[test]
fn duration_units() {
    let duration = Duration::new(3, 999_999_999);
    assert_eq!(duration.as_secs(), 3);
    assert_eq!(duration.subsec_nanos(), 999_999_999);
    assert_eq!(duration.as_millis(), 3_999);
    assert_eq!(Duration::from_millis(3_999), Duration::new(3, 999_000_000));
    assert_eq!(Duration::from_secs(3), Duration::new(3, 0));
    assert_eq!(Duration::from_secs(u64::MAX).as_millis(), 18_446_744_073_709_551_615_000);
}

#[test]
fn timeout_expires_in_time() {
    let mut tm = Timer::new();
    tm.set_timeout(Duration::new(1, 999_999), Timestamp(500));
    assert_eq!(tm.remove_expired_by(Timestamp(1_499)), 0);
    assert_eq!(tm.remove_expired_by(Timestamp(1_500)), 1);
    assert_eq!(tm.remove_expired_by(Timestamp(1_500)), 0);
}

#[test]
fn same_timeout_is_tracked_once() {
    let mut tm = Timer::default();
    tm.set_timeout(Duration::from_secs(2), Timestamp(0));
    tm.set_timeout(Duration::from_secs(1), Timestamp(1_000));
    assert_eq!(tm.count(), 1);
    tm.set_timeout(Duration::from_secs(1), Timestamp(1_001));
    assert_eq!(tm.count(), 2);
}

#[test]
fn removals_add_up() {
    let mut once = Timer::new();
    let mut twice = Timer::new();
    for millis in [3, 5, 5, 8, 13, 21] {
        once.set_timeout(Duration::from_millis(millis), Timestamp(0));
        twice.set_timeout(Duration::from_millis(millis), Timestamp(0));
    }
    let first = twice.remove_expired_by(Timestamp(5));
    let second = twice.remove_expired_by(Timestamp(13));
    assert_eq!((first, second), (2, 2));
    assert_eq!(once.remove_expired_by(Timestamp(13)), first + second);
    assert_eq!(once.count(), 1);
    assert_eq!(twice.count(), 1);
}

#[test]
fn waiting_makes_timeout_expire() {
    let mut tm = Timer::new();
    tm.set_timeout(Duration::from_millis(40), Timestamp(1_000));
    tm.set_timeout(Duration::from_millis(70), Timestamp(1_000));
    let time = Timestamp(1_015);
    let wait = tm.next_expiring_from(time).expect("timeouts");
    assert_eq!(wait, Duration::from_millis(25));
    assert_eq!(tm.remove_expired_by(time + Duration::from_millis(24)), 0);
    assert_eq!(tm.remove_expired_by(time + wait), 1);
    assert_eq!(tm.next_expiring_from(time + wait), Some(Duration::from_millis(30)));
    assert_eq!(tm.next_expiring_from(Timestamp(2_000)), Some(Duration::from_secs(0)));
}

#[test]
fn no_timeouts_no_waiting() {
    let mut tm = Timer::new();
    assert!(!tm.has_timeouts());
    assert_eq!(tm.next_expiring_from(Timestamp(0)), None);
    assert_eq!(tm.remove_expired_by(Timestamp(u128::MAX - 1)), 0);
    assert!(tm.can_wait_from(Timestamp(u128::MAX)));
}

#[test]
fn too_far_timeout_is_detected() {
    let mut tm = Timer::new();
    tm.set_timeout(Duration::from_secs(1), Timestamp((1u128 << 64) - 500));
    assert!(!tm.can_wait_from(Timestamp((1u128 << 64) - 1)));
    assert!(tm.can_wait_from(Timestamp(1u128 << 64)));
    assert_eq!(
        tm.next_expiring_from(Timestamp(1u128 << 64)),
        Some(Duration::from_millis(500))
    );
}

#[test]
fn waiting_for_the_first_of_many() {
    let mut tm = Timer::new();
    for secs in [16, 8, 32] {
        tm.set_timeout(Duration::from_secs(secs), Timestamp(0));
    }
    assert_eq!(tm.next_expiring_from(Timestamp(0)), Some(Duration::from_secs(8)));
    assert_eq!(tm.remove_expired_by(Timestamp::from_secs(8)), 1);
    assert_eq!(
        tm.next_expiring_from(Timestamp::from_secs(8)),
        Some(Duration::from_secs(8))
    );
}

#[test]
fn waiting_becomes_shorter() {
    let mut tm = Timer::new();

    let now = now();
    tm.set_timeout(Duration::from_secs(16), now);
    tm.set_timeout(Duration::from_secs(8), now);
    tm.set_timeout(Duration::from_secs(64), now);

    let mut later = Timestamp::now().expect("system time");
    // We need to wait 8 secs to trigger the next timeout.
    assert!(tm.next_expiring_from(later) <= Some(Duration::from_secs(8)));

    later.add_assign(Duration::from_secs(1));
    // Now we don't need to wait as long!
    assert!(tm.next_expiring_from(later).unwrap() <= Duration::from_secs(7));
    assert_eq!(
        tm.next_expiring_from(now + Duration::from_secs(3)),
        Some(Duration::from_secs(5))
    );
}

#[test]
fn everything_expires_by_the_last_moment() {
    let mut tm = Timer::new();
    tm.set_timeout(Duration::from_millis(5), Timestamp::from_millis(0));
    assert_eq!(tm.remove_expired_by(Timestamp::from_millis(u128::MAX)), 1);
    assert_eq!(tm.count(), 0);
    tm.set_timeout(Duration::from_millis(0), Timestamp(u128::MAX));
    assert_eq!(tm.remove_expired_by(Timestamp(u128::MAX - 1)), 0);
    assert_eq!(tm.remove_expired_by(Timestamp(u128::MAX)), 1);
    assert!(!tm.has_timeouts());
}

#[test]
fn duration_texts() {
    for (duration, text) in [
        (Duration::from_millis(30), "30ms"),
        (Duration::from_millis(1_500), "1.5s"),
        (Duration::from_secs(3600), "3600s"),
        (Duration::new(0, 7), "7ns"),
    ] {
        assert_eq!(duration.to_string(), text);
    }
}
