//! Arming a timer, as a pollable unit.

use vstd::prelude::*;

use crate::future::ContextCell;
use crate::future::Future;
use crate::task::Context;
use crate::task::Poll;
use crate::timer::Timer;

verus! {

/// Drives the arming of an owned timer to completion.
pub struct Start<A: Timer> {
    pub timer: A,
}

/// Wrap the arming of `timer` as a pollable unit.
pub fn start<A: Timer>(timer: A) -> (f: Start<A>)
    requires
        timer.inv(),
    ensures
        f.timer == timer,
{
    Start { timer }
}

impl<A: Timer> Start<A> {
    /// Release the timer.
    pub fn into_inner(self) -> (t: A)
        ensures
            t == self.timer,
    {
        self.timer
    }
}

impl<A: Timer> Future for Start<A> {
    type Output = Result<(), A::Error>;

    open spec fn inv(&self) -> bool {
        self.timer.inv()
    }

    open spec fn poll_spec(pre: Self, post: Self, cx: Context, r: Poll<
        Result<(), A::Error>,
    >) -> bool {
        &&& post.timer.triggered() == pre.timer.triggered()
        &&& post.timer.stored_waker() == pre.timer.stored_waker()
        &&& post.timer.infallible() == pre.timer.infallible()
        &&& post.timer.start_ready() == pre.timer.start_ready()
        &&& post.timer.interval() == pre.timer.interval()
        &&& (r matches Poll::Ready(Result::Ok(_)) ==> post.timer.started())
        &&& (r matches Poll::Ready(Result::Err(_)) ==> !pre.timer.infallible())
        &&& (r is Pending ==> !pre.timer.start_ready() && post.timer.started()
            == pre.timer.started())
        &&& (pre.timer.start_ready() ==> r matches Poll::Ready(Result::Ok(_)))
    }

    fn poll(&mut self, cell: &mut ContextCell, cx: Context) -> (r: Poll<
        Result<(), A::Error>,
    >) {
        self.timer.poll_start(cx)
    }
}

} // verus!
