//! GPIO pin capability contracts, with configuration transitions checked
//! at the type level.
//!
//! A pin value is parameterized by its electrical configuration; a
//! transition consumes the old typed value and produces a new one or
//! fails with the pin's error type.  A pin cannot be read or written in
//! a configuration that does not support it, because only the matching
//! capability trait is implemented for that configuration.

use vstd::prelude::*;

use crate::task::Context;
use crate::task::Poll;

pub mod get;
pub mod set;

verus! {

/// The error type of infallible pin operations: no operation of this
/// library ever produces a value of it.
#[derive(Clone, Copy, Debug)]
pub struct NoError;

/// A hardware pin capability, whatever its configuration.
pub trait Pin: Sized {
    type Error;
}

/// A pin configured as an input: its logical line level can be read.
pub trait InputPin: Pin {
    /// The well-formedness this pin maintains.
    spec fn inv(&self) -> bool;

    /// The logical line level currently observable at the pin.
    spec fn level(&self) -> bool;

    /// Whether a read resolves immediately and successfully (true of
    /// plain electrical reads; a debounced or multiplexed pin may need
    /// to wait).
    spec fn always_ready(&self) -> bool;

    /// Read the logical line level.  Reading does not disturb the line.
    fn poll_get(&mut self, cx: Context) -> (r: Poll<Result<bool, Self::Error>>)
        requires
            old(self).inv(),
        ensures
            final(self).inv(),
            final(self).level() == old(self).level(),
            final(self).always_ready() == old(self).always_ready(),
            r matches Poll::Ready(Result::Ok(b)) ==> b == old(self).level(),
            r is Pending ==> !old(self).always_ready(),
            old(self).always_ready() ==> r matches Poll::Ready(Result::Ok(_)),
    ;
}

/// Reading a pin, as a pollable unit.
pub trait InputPinExt: InputPin {
    /// Wrap one read of this pin as a pollable unit.
    fn get(self) -> (f: get::Get<Self>)
        requires
            self.inv(),
        ensures
            f.pin == self,
    {
        get::get(self)
    }
}

impl<A: InputPin> InputPinExt for A {

}

/// A pin configured as an output: its line can be driven.
pub trait OutputPin: Pin {
    /// The well-formedness this pin maintains.
    spec fn inv(&self) -> bool;

    /// The level this pin currently drives on the line.
    spec fn level(&self) -> bool;

    /// Whether a write resolves immediately and successfully.
    spec fn always_ready(&self) -> bool;

    /// Whether the pin drives a real line: a placeholder pin accepts
    /// writes without effect.
    spec fn connected(&self) -> bool;

    /// Drive the line high or low.
    fn poll_set(&mut self, cx: Context, high: bool) -> (r: Poll<Result<(), Self::Error>>)
        requires
            old(self).inv(),
        ensures
            final(self).inv(),
            final(self).always_ready() == old(self).always_ready(),
            final(self).connected() == old(self).connected(),
            r matches Poll::Ready(Result::Ok(_)) && old(self).connected() ==> final(self).level() == high,
            r matches Poll::Ready(Result::Ok(_)) && !old(self).connected() ==> final(self).level() == old(self).level(),
            r is Pending ==> !old(self).always_ready() && final(self).level() == old(self).level(),
            old(self).always_ready() ==> r matches Poll::Ready(Result::Ok(_)),
    ;
}

/// Driving a pin, as a pollable unit.
pub trait OutputPinExt: OutputPin {
    /// Wrap one write of this pin as a pollable unit.
    fn set(self, high: bool) -> (f: set::SetLevel<Self>)
        requires
            self.inv(),
        ensures
            f.pin == self,
            f.high == high,
    {
        set::set(self, high)
    }
}

impl<A: OutputPin> OutputPinExt for A {

}

/// Reconfiguration into a floating input.
pub trait IntoFloatingInputPin: Pin {
    type FloatingInputPin: InputPin<Error = Self::Error>;

    /// How the produced pin relates to the consumed one.
    spec fn to_floating_input_spec(pre: Self, r: Result<
        Self::FloatingInputPin,
        Self::Error,
    >) -> bool;

    fn into_floating_input_pin(self) -> (r: Result<Self::FloatingInputPin, Self::Error>)
        ensures
            Self::to_floating_input_spec(self, r),
            r matches Result::Ok(p) ==> p.inv(),
    ;
}

/// Reconfiguration into an input pulled up to the supply rail.
pub trait IntoPullUpInputPin: Pin {
    type PullUpInputPin: InputPin<Error = Self::Error>;

    /// How the produced pin relates to the consumed one.
    spec fn to_pull_up_input_spec(pre: Self, r: Result<
        Self::PullUpInputPin,
        Self::Error,
    >) -> bool;

    fn into_pull_up_input_pin(self) -> (r: Result<Self::PullUpInputPin, Self::Error>)
        ensures
            Self::to_pull_up_input_spec(self, r),
            r matches Result::Ok(p) ==> p.inv(),
    ;
}

/// Reconfiguration into an input pulled down to ground.
pub trait IntoPullDownInputPin: Pin {
    type PullDownInputPin: InputPin<Error = Self::Error>;

    /// How the produced pin relates to the consumed one.
    spec fn to_pull_down_input_spec(pre: Self, r: Result<
        Self::PullDownInputPin,
        Self::Error,
    >) -> bool;

    fn into_pull_down_input_pin(self) -> (r: Result<Self::PullDownInputPin, Self::Error>)
        ensures
            Self::to_pull_down_input_spec(self, r),
            r matches Result::Ok(p) ==> p.inv(),
    ;
}

/// Reconfiguration into an open-drain output, driving an initial level.
pub trait IntoOpenDrainOutputPin: Pin {
    type OpenDrainOutputPin: OutputPin<Error = Self::Error>;

    /// How the produced pin relates to the consumed one and the initial
    /// level.
    spec fn to_open_drain_output_spec(
        pre: Self,
        initial_high: bool,
        r: Result<Self::OpenDrainOutputPin, Self::Error>,
    ) -> bool;

    fn into_open_drain_output_pin(self, initial_high: bool) -> (r: Result<
        Self::OpenDrainOutputPin,
        Self::Error,
    >)
        ensures
            Self::to_open_drain_output_spec(self, initial_high, r),
            r matches Result::Ok(p) ==> p.inv(),
    ;
}

/// Reconfiguration into a push-pull output, driving an initial level.
pub trait IntoPushPullOutputPin: Pin {
    type PushPullOutputPin: OutputPin<Error = Self::Error>;

    /// How the produced pin relates to the consumed one and the initial
    /// level.
    spec fn to_push_pull_output_spec(
        pre: Self,
        initial_high: bool,
        r: Result<Self::PushPullOutputPin, Self::Error>,
    ) -> bool;

    fn into_push_pull_output_pin(self, initial_high: bool) -> (r: Result<
        Self::PushPullOutputPin,
        Self::Error,
    >)
        ensures
            Self::to_push_pull_output_spec(self, initial_high, r),
            r matches Result::Ok(p) ==> p.inv(),
    ;
}

/// A placeholder for an unconnected pin: every operation succeeds, every
/// transition is the identity, and the reported level is fixed low.
#[derive(Clone, Copy, Debug)]
pub struct NoConnect;

impl Pin for NoConnect {
    type Error = NoError;
}

impl InputPin for NoConnect {
    open spec fn inv(&self) -> bool {
        true
    }

    open spec fn level(&self) -> bool {
        false
    }

    open spec fn always_ready(&self) -> bool {
        true
    }

    fn poll_get(&mut self, cx: Context) -> (r: Poll<Result<bool, NoError>>) {
        Poll::Ready(Ok(false))
    }
}

impl OutputPin for NoConnect {
    open spec fn inv(&self) -> bool {
        true
    }

    open spec fn level(&self) -> bool {
        false
    }

    open spec fn always_ready(&self) -> bool {
        true
    }

    open spec fn connected(&self) -> bool {
        false
    }

    fn poll_set(&mut self, cx: Context, high: bool) -> (r: Poll<Result<(), NoError>>) {
        Poll::Ready(Ok(()))
    }
}

impl IntoFloatingInputPin for NoConnect {
    type FloatingInputPin = NoConnect;

    open spec fn to_floating_input_spec(pre: Self, r: Result<NoConnect, NoError>) -> bool {
        r is Ok
    }

    fn into_floating_input_pin(self) -> (r: Result<NoConnect, NoError>) {
        Ok(self)
    }
}

impl IntoPullUpInputPin for NoConnect {
    type PullUpInputPin = NoConnect;

    open spec fn to_pull_up_input_spec(pre: Self, r: Result<NoConnect, NoError>) -> bool {
        r is Ok
    }

    fn into_pull_up_input_pin(self) -> (r: Result<NoConnect, NoError>) {
        Ok(self)
    }
}

impl IntoPullDownInputPin for NoConnect {
    type PullDownInputPin = NoConnect;

    open spec fn to_pull_down_input_spec(pre: Self, r: Result<NoConnect, NoError>) -> bool {
        r is Ok
    }

    fn into_pull_down_input_pin(self) -> (r: Result<NoConnect, NoError>) {
        Ok(self)
    }
}

impl IntoOpenDrainOutputPin for NoConnect {
    type OpenDrainOutputPin = NoConnect;

    open spec fn to_open_drain_output_spec(pre: Self, initial_high: bool, r: Result<
        NoConnect,
        NoError,
    >) -> bool {
        r is Ok
    }

    fn into_open_drain_output_pin(self, initial_high: bool) -> (r: Result<NoConnect, NoError>) {
        Ok(self)
    }
}

impl IntoPushPullOutputPin for NoConnect {
    type PushPullOutputPin = NoConnect;

    open spec fn to_push_pull_output_spec(pre: Self, initial_high: bool, r: Result<
        NoConnect,
        NoError,
    >) -> bool {
        r is Ok
    }

    fn into_push_pull_output_pin(self, initial_high: bool) -> (r: Result<NoConnect, NoError>) {
        Ok(self)
    }
}

} // verus!
