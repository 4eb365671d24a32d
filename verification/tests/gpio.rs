//! GPIO pins: typestate transitions, the one-shot wrappers and the
//! placeholder pin.

use embedded_platform::future::ContextCell;
use embedded_platform::future::Future;
use embedded_platform::gpio::InputPin;
use embedded_platform::gpio::InputPinExt;
use embedded_platform::gpio::IntoFloatingInputPin;
use embedded_platform::gpio::IntoOpenDrainOutputPin;
use embedded_platform::gpio::IntoPullDownInputPin;
use embedded_platform::gpio::IntoPullUpInputPin;
use embedded_platform::gpio::IntoPushPullOutputPin;
use embedded_platform::gpio::NoConnect;
use embedded_platform::gpio::OutputPin;
use embedded_platform::gpio::OutputPinExt;
use embedded_platform::sim::pin::SimPin;
use embedded_platform::task::Context;
use embedded_platform::task::Poll;
use embedded_platform::task::Waker;

fn cx() -> Context {
    Context::from_waker(Waker { task: 0 })
}

#[test]
fn pin_transition_round_trip_reads_back_the_line() {
    let mut cell = ContextCell::new();

    // Taken as a floating input, low line.
    let pin = SimPin::floating(false);

    // Converted to a push-pull output initialized high.
    let out = pin.into_push_pull_output_pin(true).unwrap();

    // Driven high (again) through the one-shot wrapper.
    let mut set = out.set(true);
    match set.poll(&mut cell, cx()) {
        Poll::Ready(Ok(())) => {}
        _ => panic!("an electrical write resolves at once"),
    }
    let out = set.into_inner();

    // Converted back to a floating input: the line state survives.
    let input = out.into_floating_input_pin().unwrap();
    let mut get = input.get();
    match get.poll(&mut cell, cx()) {
        Poll::Ready(Ok(level)) => assert!(level),
        _ => panic!("an electrical read resolves at once"),
    }
}

#[test]
fn repeating_a_transition_is_a_no_op_state_wise() {
    let pin = SimPin::floating(true);
    let once = pin.into_floating_input_pin().unwrap();
    let mut twice = once.into_floating_input_pin().unwrap();
    match twice.poll_get(cx()) {
        Poll::Ready(Ok(level)) => assert!(level),
        _ => panic!("an electrical read resolves at once"),
    }
}

#[test]
fn pull_configurations_drive_the_undriven_line() {
    let up = SimPin::floating(false).into_pull_up_input_pin().unwrap();
    let mut up = up;
    match up.poll_get(cx()) {
        Poll::Ready(Ok(level)) => assert!(level),
        _ => panic!("an electrical read resolves at once"),
    }

    let mut down = SimPin::floating(true).into_pull_down_input_pin().unwrap();
    match down.poll_get(cx()) {
        Poll::Ready(Ok(level)) => assert!(!level),
        _ => panic!("an electrical read resolves at once"),
    }
}

#[test]
fn open_drain_output_drives_its_initial_level() {
    let mut out = SimPin::floating(false).into_open_drain_output_pin(true).unwrap();
    match out.poll_set(cx(), false) {
        Poll::Ready(Ok(())) => {}
        _ => panic!("an electrical write resolves at once"),
    }
    let mut input = out.into_floating_input_pin().unwrap();
    match input.poll_get(cx()) {
        Poll::Ready(Ok(level)) => assert!(!level),
        _ => panic!("an electrical read resolves at once"),
    }
}

#[test]
fn no_connect_reports_a_fixed_level_and_swallows_writes() {
    let mut pin = NoConnect;
    match pin.poll_get(cx()) {
        Poll::Ready(Ok(level)) => assert!(!level),
        _ => panic!("the placeholder always succeeds"),
    }
    match pin.poll_set(cx(), true) {
        Poll::Ready(Ok(())) => {}
        _ => panic!("the placeholder always succeeds"),
    }
    // The write had no effect on the reported level.
    match pin.poll_get(cx()) {
        Poll::Ready(Ok(level)) => assert!(!level),
        _ => panic!("the placeholder always succeeds"),
    }
}

#[test]
fn no_connect_transitions_are_identities() {
    let pin = NoConnect;
    let pin = pin.into_floating_input_pin().unwrap();
    let pin = pin.into_pull_up_input_pin().unwrap();
    let pin = pin.into_pull_down_input_pin().unwrap();
    let pin = pin.into_open_drain_output_pin(true).unwrap();
    let mut pin = pin.into_push_pull_output_pin(false).unwrap();
    match pin.poll_set(cx(), true) {
        Poll::Ready(Ok(())) => {}
        _ => panic!("the placeholder always succeeds"),
    }
}
