//! Driving an output pin, as a pollable unit.

use vstd::prelude::*;

use crate::future::ContextCell;
use crate::future::Future;
use crate::gpio::OutputPin;
use crate::task::Context;
use crate::task::Poll;

verus! {

/// One write of an owned output pin: completes once the line is driven.
pub struct SetLevel<A: OutputPin> {
    pub pin: A,
    pub high: bool,
}

/// Wrap one write of `high` to `pin` as a pollable unit.
pub fn set<A: OutputPin>(pin: A, high: bool) -> (f: SetLevel<A>)
    requires
        pin.inv(),
    ensures
        f.pin == pin,
        f.high == high,
{
    SetLevel { pin, high }
}

impl<A: OutputPin> SetLevel<A> {
    /// Release the pin.
    pub fn into_inner(self) -> (p: A)
        ensures
            p == self.pin,
    {
        self.pin
    }
}

impl<A: OutputPin> Future for SetLevel<A> {
    type Output = Result<(), A::Error>;

    open spec fn inv(&self) -> bool {
        self.pin.inv()
    }

    open spec fn poll_spec(pre: Self, post: Self, cx: Context, r: Poll<
        Result<(), A::Error>,
    >) -> bool {
        &&& post.high == pre.high
        &&& post.pin.always_ready() == pre.pin.always_ready()
        &&& post.pin.connected() == pre.pin.connected()
        &&& (r matches Poll::Ready(Result::Ok(_)) && pre.pin.connected() ==> post.pin.level()
            == pre.high)
        &&& (r matches Poll::Ready(Result::Ok(_)) && !pre.pin.connected() ==> post.pin.level()
            == pre.pin.level())
        &&& (r is Pending ==> !pre.pin.always_ready() && post.pin.level() == pre.pin.level())
        &&& (pre.pin.always_ready() ==> r matches Poll::Ready(Result::Ok(_)))
    }

    fn poll(&mut self, cell: &mut ContextCell, cx: Context) -> (r: Poll<
        Result<(), A::Error>,
    >) {
        self.pin.poll_set(cx, self.high)
    }
}

} // verus!
