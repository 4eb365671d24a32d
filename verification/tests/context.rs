//! The execution context cell, the suspend/resume adapter and the
//! executor, exercised against the simulated timer.

use embedded_platform::executor::Executor;
use embedded_platform::future::await_one;
use embedded_platform::future::from_generator;
use embedded_platform::future::get_task_context;
use embedded_platform::future::restore_task_context;
use embedded_platform::future::set_task_context;
use embedded_platform::future::ContextCell;
use embedded_platform::future::Future;
use embedded_platform::sim::timer::SimTimer;
use embedded_platform::task::Context;
use embedded_platform::task::Poll;
use embedded_platform::task::WakeQueue;
use embedded_platform::task::Waker;
use embedded_platform::timer::Timer;
use embedded_platform::timer::TimerExt;

#[test]
fn context_cell_restores_like_a_stack() {
    let mut cell = ContextCell::new();
    let a = Context::from_waker(Waker { task: 1 });
    let b = Context::from_waker(Waker { task: 2 });

    let prev_outer = set_task_context(&mut cell, a);
    assert!(prev_outer.is_none());

    let prev_inner = set_task_context(&mut cell, b);
    assert_eq!(prev_inner, Some(a));

    // The innermost retrieval sees the most recently installed context.
    let got = get_task_context(&mut cell);
    assert_eq!(got, b);
    restore_task_context(&mut cell, Some(got));

    restore_task_context(&mut cell, prev_inner);
    let got_outer = get_task_context(&mut cell);
    assert_eq!(got_outer, a);
    restore_task_context(&mut cell, Some(got_outer));

    restore_task_context(&mut cell, prev_outer);
    // The cell is back to its initial, empty content.
    let prev_again = set_task_context(&mut cell, b);
    assert!(prev_again.is_none());
}

#[test]
fn adapter_pending_iff_computation_yields() {
    let mut timer = SimTimer::new();
    let cx = Context::from_waker(Waker { task: 0 });
    let mut cell = ContextCell::new();
    let mut queue = WakeQueue::new();

    match timer.poll_start(cx) {
        Poll::Ready(Ok(())) => {}
        _ => panic!("arming resolves synchronously"),
    }

    // The computation awaits one tick; the adapter makes it pollable.
    let mut task = from_generator(await_one(timer.tick()));

    // The tick has not fired: the computation yields, the poll is
    // pending.
    match task.poll(&mut cell, cx) {
        Poll::Pending => {}
        _ => panic!("no tick has fired yet"),
    }

    // The simulated interrupt fires; the computation completes.
    task.0.inner.timer.fire(&mut queue);
    match task.poll(&mut cell, cx) {
        Poll::Ready(Ok(())) => {}
        _ => panic!("the tick fired"),
    }
}

#[test]
fn executor_consumes_wakes_and_drives_to_completion() {
    let mut timer = SimTimer::new();
    let mut exec = Executor::new();
    let mut cell = ContextCell::new();

    let mut task = from_generator(await_one(timer.tick()));

    match exec.step(&mut task, &mut cell) {
        Poll::Pending => {}
        _ => panic!("nothing has fired"),
    }
    assert!(!exec.woken());

    // The interrupt wakes the stored waker: the executor is told to
    // poll again.
    task.0.inner.timer.fire(&mut exec.queue);
    assert!(exec.woken());
    assert_eq!(exec.queue.invocations, 1);

    match exec.step(&mut task, &mut cell) {
        Poll::Ready(Ok(())) => {}
        _ => panic!("the tick fired"),
    }
    assert!(!exec.woken());
}

#[test]
fn polling_under_ambient_context_restores_the_cell() {
    let mut timer = SimTimer::new();
    let cx = Context::from_waker(Waker { task: 9 });
    let mut cell = ContextCell::new();

    let prev = set_task_context(&mut cell, cx);
    let mut tick = timer.tick();
    match embedded_platform::future::poll_with_tls_context(&mut tick, &mut cell) {
        Poll::Pending => {}
        _ => panic!("no tick has fired"),
    }
    // The ambient context is still installed afterwards.
    let got = get_task_context(&mut cell);
    assert_eq!(got, cx);
    restore_task_context(&mut cell, Some(got));
    restore_task_context(&mut cell, prev);
}
