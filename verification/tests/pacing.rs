use dan::pacing::{pacing_delay, requested_timeout, socket_timeout, DEFAULT_SOCKET_TIMEOUT};
use dan::queue::OverflowPolicy;

#[test]
fn socket_timeout_defaults_to_one_second() {
    assert_eq!(DEFAULT_SOCKET_TIMEOUT, 1_000_000_000);
    assert_eq!(socket_timeout(None), 1_000_000_000);
    assert_eq!(socket_timeout(Some(250)), 250);
    assert_eq!(socket_timeout(Some(0)), 0);
}

#[test]
fn raw_timeout_of_zero_asks_for_none() {
    assert_eq!(requested_timeout(0), None);
    assert_eq!(requested_timeout(1), Some(1));
    assert_eq!(requested_timeout(u64::MAX), Some(u64::MAX));
    assert_eq!(socket_timeout(requested_timeout(0)), 1_000_000_000);
}

#[test]
fn full_queue_refuses_by_default() {
    assert_eq!(OverflowPolicy::default(), OverflowPolicy::DropNewest);
}

#[test]
fn delay_is_what_is_left_of_the_interval() {
    assert_eq!(pacing_delay(1000, 5000, 5000), 1000);
    assert_eq!(pacing_delay(1000, 5000, 5001), 999);
    assert_eq!(pacing_delay(1000, 5000, 5400), 600);
    assert_eq!(pacing_delay(1000, 5000, 5999), 1);
}

#[test]
fn no_delay_once_the_interval_has_passed() {
    assert_eq!(pacing_delay(1000, 5000, 6000), 0);
    assert_eq!(pacing_delay(1000, 5000, 6001), 0);
    assert_eq!(pacing_delay(1000, 0, u64::MAX), 0);
    assert_eq!(pacing_delay(0, 5000, 5000), 0);
}

#[test]
fn a_clock_that_ran_backwards_counts_as_no_time_passed() {
    assert_eq!(pacing_delay(1000, 5000, 4000), 1000);
    assert_eq!(pacing_delay(u64::MAX, u64::MAX, 0), u64::MAX);
}

#[test]
fn delayed_send_keeps_the_interval() {
    let interval: u64 = 750;
    let last: u64 = 10_000;
    let mut now: u64 = last;
    while now < last + 2 * interval {
        let delay = pacing_delay(interval, last, now);
        assert!(now + delay >= last + interval);
        if delay > 0 {
            assert!(now + delay - 1 < last + interval);
        }
        now += 125;
    }
}
