//! Timers: the tick race against the simulated interrupt, mode
//! conversions, and the infinite tick stream.

use embedded_platform::future::ContextCell;
use embedded_platform::future::Future;
use embedded_platform::sim::timer::SimTimer;
use embedded_platform::sim::timer::TICKS_PER_SECOND;
use embedded_platform::task::Context;
use embedded_platform::task::Poll;
use embedded_platform::task::WakeQueue;
use embedded_platform::task::Waker;
use embedded_platform::time::Duration;
use embedded_platform::time::Rate;
use embedded_platform::time::U32Ext;
use embedded_platform::timer::IntoOneshotTimer;
use embedded_platform::timer::IntoPeriodicTimer;
use embedded_platform::timer::Timer;
use embedded_platform::timer::TimerExt;

fn cx() -> Context {
    Context::from_waker(Waker { task: 0 })
}

#[test]
fn tick_ready_when_the_interrupt_fires_first() {
    let mut timer = SimTimer::new();
    let mut queue = WakeQueue::new();

    // The interrupt fires before anyone polls: no waker is stored, so
    // nothing is woken.
    timer.fire(&mut queue);
    assert!(!queue.pending);
    assert_eq!(queue.invocations, 0);

    // The poll consumes the pending tick and completes at once.
    match timer.poll_tick(cx()) {
        Poll::Ready(Ok(())) => {}
        _ => panic!("the tick already fired"),
    }
}

#[test]
fn tick_wakes_exactly_once_when_the_interrupt_fires_second() {
    let mut timer = SimTimer::new();
    let mut queue = WakeQueue::new();

    // The poll comes first: it suspends and stores the waker.
    match timer.poll_tick(cx()) {
        Poll::Pending => {}
        _ => panic!("nothing has fired"),
    }

    // The interrupt fires: the stored waker is invoked exactly once
    // and cleared.
    timer.fire(&mut queue);
    assert!(queue.pending);
    assert_eq!(queue.invocations, 1);

    // A subsequent poll completes; no further wake happens.
    match timer.poll_tick(cx()) {
        Poll::Ready(Ok(())) => {}
        _ => panic!("the tick fired"),
    }
    assert_eq!(queue.invocations, 1);
}

#[test]
fn periodic_stream_of_a_thousand_ticks_never_ends() {
    let timer = SimTimer::new();
    let mut periodic = timer.into_periodic_timer(Rate::from_hz(1000)).unwrap();
    let mut queue = WakeQueue::new();

    match periodic.poll_start(cx()) {
        Poll::Ready(Ok(())) => {}
        _ => panic!("arming resolves synchronously"),
    }

    let mut stream = periodic.ticks();
    let mut produced: u32 = 0;
    for _ in 0..1000 {
        // The mock hardware always reports the interval elapsed.
        stream.timer.fire(&mut queue);
        match stream.poll_next(cx()) {
            Poll::Ready(Some(Ok(()))) => produced += 1,
            Poll::Ready(None) => panic!("the stream never signals an end"),
            _ => panic!("an elapsed interval completes the poll"),
        }
    }
    assert_eq!(produced, 1000);
}

#[test]
fn periodic_conversion_computes_the_interval() {
    let timer = SimTimer::new();
    let periodic = timer.into_periodic_timer(50u32.hz()).unwrap();
    assert_eq!(periodic.interval_ticks(), TICKS_PER_SECOND / 50);
}

#[test]
fn oneshot_conversion_computes_the_interval() {
    // 2500 ns at the 1 MHz base is 2.5 ticks, truncated to 2.
    let timer = SimTimer::new();
    let oneshot = timer.into_oneshot_timer(Duration::from_nanos(2500)).unwrap();
    assert_eq!(oneshot.interval_ticks(), 2);

    // 3 ms at the 1 MHz base is exactly 3000 ticks.
    let timer = SimTimer::new();
    let oneshot = timer.into_oneshot_timer(Duration::from_millis(3)).unwrap();
    assert_eq!(oneshot.interval_ticks(), 3 * TICKS_PER_SECOND / 1000);
}

#[test]
fn tick_wrapper_drives_one_interval() {
    let mut timer = SimTimer::new();
    let mut queue = WakeQueue::new();
    let mut cell = ContextCell::new();

    match timer.poll_start(cx()) {
        Poll::Ready(Ok(())) => {}
        _ => panic!("arming resolves synchronously"),
    }

    let mut tick = timer.tick();
    match tick.poll(&mut cell, cx()) {
        Poll::Pending => {}
        _ => panic!("nothing has fired"),
    }
    tick.timer.fire(&mut queue);
    match tick.poll(&mut cell, cx()) {
        Poll::Ready(Ok(())) => {}
        _ => panic!("the tick fired"),
    }
}

#[test]
fn start_wrapper_arms_the_timer() {
    let timer = SimTimer::new();
    let mut cell = ContextCell::new();
    let mut start = timer.start();
    match start.poll(&mut cell, cx()) {
        Poll::Ready(Ok(())) => {}
        _ => panic!("arming resolves synchronously"),
    }
}
