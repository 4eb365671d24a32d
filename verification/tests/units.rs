//! Frequency and duration values, and the waker bookkeeping.

use embedded_platform::task::WakeQueue;
use embedded_platform::task::Waker;
use embedded_platform::time::Duration;
use embedded_platform::time::Rate;
use embedded_platform::time::U32Ext;

#[test]
fn durations_are_whole_nanoseconds() {
    assert_eq!(Duration::from_nanos(750).as_nanos(), 750);
    assert_eq!(Duration::from_millis(5).as_nanos(), 5_000_000);
    assert_eq!(Duration::from_seconds(2).as_nanos(), 2_000_000_000);
}

#[test]
fn rates_round_trip_through_hertz() {
    assert_eq!(Rate::from_hz(1000).as_hz(), 1000);
    assert_eq!(48u32.hz().as_hz(), 48);
}

#[test]
fn redundant_wakeups_coalesce_in_the_queue() {
    let mut queue = WakeQueue::new();
    let w = Waker { task: 0 };
    w.wake(&mut queue);
    w.wake(&mut queue);
    assert!(queue.pending);
    assert_eq!(queue.invocations, 2);
    // The executor consumes the flag in one pass, however many wakes
    // arrived.
    queue.pending = false;
    assert!(!queue.pending);
}
