//! Simulated GPIO pins with typestate configuration.
//!
//! A simulated pin remembers its line level across reconfiguration, so
//! a level driven as an output reads back after converting to an input:
//! the pad is its own loopback.

use vstd::prelude::*;

use crate::gpio::InputPin;
use crate::gpio::IntoFloatingInputPin;
use crate::gpio::IntoOpenDrainOutputPin;
use crate::gpio::IntoPullDownInputPin;
use crate::gpio::IntoPullUpInputPin;
use crate::gpio::IntoPushPullOutputPin;
use crate::gpio::OutputPin;
use crate::gpio::Pin;
use crate::sim::error::Error;
use crate::task::Context;
use crate::task::Poll;

verus! {

/// Configuration tag: input left floating.
#[derive(Clone, Copy, Debug)]
pub struct FloatingInput;

/// Configuration tag: input pulled up to the supply rail.
#[derive(Clone, Copy, Debug)]
pub struct PullUpInput;

/// Configuration tag: input pulled down to ground.
#[derive(Clone, Copy, Debug)]
pub struct PullDownInput;

/// Configuration tag: push-pull output.
#[derive(Clone, Copy, Debug)]
pub struct PushPullOutput;

/// Configuration tag: open-drain output.
#[derive(Clone, Copy, Debug)]
pub struct OpenDrainOutput;

/// The configurations in which a pin's line can be read.
pub trait InputConfig: Sized {

}

impl InputConfig for FloatingInput {

}

impl InputConfig for PullUpInput {

}

impl InputConfig for PullDownInput {

}

/// The configurations in which a pin drives its line.
pub trait OutputConfig: Sized {

}

impl OutputConfig for PushPullOutput {

}

impl OutputConfig for OpenDrainOutput {

}

/// A simulated pad, typed by its electrical configuration.  The line
/// level survives reconfiguration.
pub struct SimPin<M> {
    line: bool,
    mode: M,
}

impl<M> SimPin<M> {
    /// The level currently on the pad's line.
    pub closed spec fn line_spec(self) -> bool {
        self.line
    }
}

impl SimPin<FloatingInput> {
    /// A fresh pad in the boot configuration, with `level` on its line.
    pub fn floating(level: bool) -> (p: SimPin<FloatingInput>)
        ensures
            p.line_spec() == level,
    {
        SimPin { line: level, mode: FloatingInput }
    }
}

impl<M> Pin for SimPin<M> {
    type Error = Error;
}

impl<M: InputConfig> InputPin for SimPin<M> {
    open spec fn inv(&self) -> bool {
        true
    }

    open spec fn level(&self) -> bool {
        self.line_spec()
    }

    open spec fn always_ready(&self) -> bool {
        true
    }

    fn poll_get(&mut self, cx: Context) -> (r: Poll<Result<bool, Error>>) {
        Poll::Ready(Ok(self.line))
    }
}

impl<M: OutputConfig> OutputPin for SimPin<M> {
    open spec fn inv(&self) -> bool {
        true
    }

    open spec fn level(&self) -> bool {
        self.line_spec()
    }

    open spec fn always_ready(&self) -> bool {
        true
    }

    open spec fn connected(&self) -> bool {
        true
    }

    fn poll_set(&mut self, cx: Context, high: bool) -> (r: Poll<Result<(), Error>>) {
        self.line = high;
        Poll::Ready(Ok(()))
    }
}

impl<M> IntoFloatingInputPin for SimPin<M> {
    type FloatingInputPin = SimPin<FloatingInput>;

    /// Total, and keeps the line: converting an input to the same
    /// configuration is a no-op state-wise.
    open spec fn to_floating_input_spec(pre: Self, r: Result<
        SimPin<FloatingInput>,
        Error,
    >) -> bool {
        r matches Result::Ok(p) && p.line_spec() == pre.line_spec()
    }

    fn into_floating_input_pin(self) -> (r: Result<SimPin<FloatingInput>, Error>) {
        Ok(SimPin { line: self.line, mode: FloatingInput })
    }
}

impl<M> IntoPullUpInputPin for SimPin<M> {
    type PullUpInputPin = SimPin<PullUpInput>;

    /// Total; the pull-up drives an undriven line high.
    open spec fn to_pull_up_input_spec(pre: Self, r: Result<SimPin<PullUpInput>, Error>) -> bool {
        r matches Result::Ok(p) && p.line_spec()
    }

    fn into_pull_up_input_pin(self) -> (r: Result<SimPin<PullUpInput>, Error>) {
        Ok(SimPin { line: true, mode: PullUpInput })
    }
}

impl<M> IntoPullDownInputPin for SimPin<M> {
    type PullDownInputPin = SimPin<PullDownInput>;

    /// Total; the pull-down drives an undriven line low.
    open spec fn to_pull_down_input_spec(pre: Self, r: Result<
        SimPin<PullDownInput>,
        Error,
    >) -> bool {
        r matches Result::Ok(p) && !p.line_spec()
    }

    fn into_pull_down_input_pin(self) -> (r: Result<SimPin<PullDownInput>, Error>) {
        Ok(SimPin { line: false, mode: PullDownInput })
    }
}

impl<M> IntoOpenDrainOutputPin for SimPin<M> {
    type OpenDrainOutputPin = SimPin<OpenDrainOutput>;

    /// Total; the output drives the requested initial level at once.
    open spec fn to_open_drain_output_spec(pre: Self, initial_high: bool, r: Result<
        SimPin<OpenDrainOutput>,
        Error,
    >) -> bool {
        r matches Result::Ok(p) && p.line_spec() == initial_high
    }

    fn into_open_drain_output_pin(self, initial_high: bool) -> (r: Result<
        SimPin<OpenDrainOutput>,
        Error,
    >) {
        Ok(SimPin { line: initial_high, mode: OpenDrainOutput })
    }
}

impl<M> IntoPushPullOutputPin for SimPin<M> {
    type PushPullOutputPin = SimPin<PushPullOutput>;

    /// Total; the output drives the requested initial level at once.
    open spec fn to_push_pull_output_spec(pre: Self, initial_high: bool, r: Result<
        SimPin<PushPullOutput>,
        Error,
    >) -> bool {
        r matches Result::Ok(p) && p.line_spec() == initial_high
    }

    fn into_push_pull_output_pin(self, initial_high: bool) -> (r: Result<
        SimPin<PushPullOutput>,
        Error,
    >) {
        Ok(SimPin { line: initial_high, mode: PushPullOutput })
    }
}

} // verus!
