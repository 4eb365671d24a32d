//! Waiting for one timer tick, as a pollable unit.

use vstd::prelude::*;

use crate::future::ContextCell;
use crate::future::Future;
use crate::task::Context;
use crate::task::Poll;
use crate::timer::Timer;

verus! {

/// Waits for the next tick of an owned timer.
pub struct Tick<A: Timer> {
    pub timer: A,
}

/// Wrap one tick wait on `timer` as a pollable unit.
pub fn tick<A: Timer>(timer: A) -> (f: Tick<A>)
    requires
        timer.inv(),
    ensures
        f.timer == timer,
{
    Tick { timer }
}

impl<A: Timer> Tick<A> {
    /// Release the timer.
    pub fn into_inner(self) -> (t: A)
        ensures
            t == self.timer,
    {
        self.timer
    }
}

impl<A: Timer> Future for Tick<A> {
    type Output = Result<(), A::Error>;

    open spec fn inv(&self) -> bool {
        self.timer.inv()
    }

    open spec fn poll_spec(pre: Self, post: Self, cx: Context, r: Poll<
        Result<(), A::Error>,
    >) -> bool {
        &&& post.timer.started() == pre.timer.started()
        &&& post.timer.infallible() == pre.timer.infallible()
        &&& post.timer.interval() == pre.timer.interval()
        &&& match r {
            Poll::Ready(res) => match res {
                Result::Ok(_) => {
                    &&& pre.timer.triggered()
                    &&& !post.timer.triggered()
                    &&& post.timer.stored_waker() is None
                },
                Result::Err(_) => !pre.timer.infallible(),
            },
            Poll::Pending => {
                &&& !pre.timer.triggered()
                &&& !post.timer.triggered()
                &&& post.timer.stored_waker() == Some(cx.waker)
            },
        }
    }

    fn poll(&mut self, cell: &mut ContextCell, cx: Context) -> (r: Poll<
        Result<(), A::Error>,
    >) {
        self.timer.poll_tick(cx)
    }
}

} // verus!
