//! The simulated board: one-time platform initialization and the
//! take-once discipline of the peripheral slots.

use embedded_platform::future::ContextCell;
use embedded_platform::future::Future;
use embedded_platform::platform::Boot;
use embedded_platform::platform::Platform;
use embedded_platform::platform::PlatformExt;
use embedded_platform::sim::board::SimBoard;
use embedded_platform::task::Context;
use embedded_platform::task::Poll;
use embedded_platform::task::Waker;

fn cx() -> Context {
    Context::from_waker(Waker { task: 0 })
}

#[test]
fn initialization_resolves_in_a_single_poll() {
    let mut cell = ContextCell::new();
    let mut init = SimBoard::initialize(Boot::new());
    match init.poll(&mut cell, cx()) {
        Poll::Ready(Ok(_board)) => {}
        _ => panic!("the peripheral set is acquired in one poll"),
    }
    // The boot evidence is spent: the unit never resolves again.
    match init.poll(&mut cell, cx()) {
        Poll::Pending => {}
        _ => panic!("no second acquisition in the same power-up"),
    }
}

#[test]
fn each_peripheral_comes_out_once() {
    let mut boot = Boot::new();
    let mut board = match SimBoard::poll_initialize(&mut boot, cx()) {
        Poll::Ready(Ok(board)) => board,
        _ => panic!("the peripheral set is acquired in one poll"),
    };

    // Each slot yields its peripheral exactly once; taking an
    // already-taken slot is a wiring defect, excluded by contract and
    // fatal on hardware.
    let _led = board.take_main_led();
    let _d2 = board.take_d2();
    let _d3 = board.take_d3();
    let _sda = board.take_sda();
    let _scl = board.take_scl();
    let t0 = board.take_timer0();
    let _t1 = board.take_timer1();
    // Timers leave the board in their boot configuration.
    assert_eq!(t0.interval_ticks(), 1);
}
