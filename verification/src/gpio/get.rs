//! Reading an input pin, as a pollable unit.

use vstd::prelude::*;

use crate::future::ContextCell;
use crate::future::Future;
use crate::gpio::InputPin;
use crate::task::Context;
use crate::task::Poll;

verus! {

/// One read of an owned input pin: completes with the logical line
/// level.
pub struct Get<A: InputPin> {
    pub pin: A,
}

/// Wrap one read of `pin` as a pollable unit.
pub fn get<A: InputPin>(pin: A) -> (f: Get<A>)
    requires
        pin.inv(),
    ensures
        f.pin == pin,
{
    Get { pin }
}

impl<A: InputPin> Get<A> {
    /// Release the pin.
    pub fn into_inner(self) -> (p: A)
        ensures
            p == self.pin,
    {
        self.pin
    }
}

impl<A: InputPin> Future for Get<A> {
    type Output = Result<bool, A::Error>;

    open spec fn inv(&self) -> bool {
        self.pin.inv()
    }

    open spec fn poll_spec(pre: Self, post: Self, cx: Context, r: Poll<
        Result<bool, A::Error>,
    >) -> bool {
        &&& post.pin.level() == pre.pin.level()
        &&& post.pin.always_ready() == pre.pin.always_ready()
        &&& (r matches Poll::Ready(Result::Ok(b)) ==> b == pre.pin.level())
        &&& (r is Pending ==> !pre.pin.always_ready())
        &&& (pre.pin.always_ready() ==> r matches Poll::Ready(Result::Ok(_)))
    }

    fn poll(&mut self, cell: &mut ContextCell, cx: Context) -> (r: Poll<
        Result<bool, A::Error>,
    >) {
        self.pin.poll_get(cx)
    }
}

} // verus!
