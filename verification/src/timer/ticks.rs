//! The infinite tick stream.

use vstd::prelude::*;

use crate::task::Context;
use crate::task::Poll;
use crate::timer::Timer;

verus! {

/// An infinite, restartable lazy sequence of ticks: each poll produces
/// the next interval.  Absent a hardware fault it never produces a
/// terminal end-of-stream signal; for a one-shot timer, only one tick
/// should be expected.
pub struct Ticks<A: Timer> {
    pub timer: A,
}

/// The tick stream of `timer`.
pub fn ticks<A: Timer>(timer: A) -> (s: Ticks<A>)
    requires
        timer.inv(),
    ensures
        s.timer == timer,
{
    Ticks { timer }
}

impl<A: Timer> Ticks<A> {
    /// Release the timer.
    pub fn into_inner(self) -> (t: A)
        ensures
            t == self.timer,
    {
        self.timer
    }

    /// Poll for the next tick of the stream.  The stream never signals
    /// an end: every completed poll carries an item.
    pub fn poll_next(&mut self, cx: Context) -> (r: Poll<Option<Result<(), A::Error>>>)
        requires
            old(self).timer.inv(),
        ensures
            final(self).timer.inv(),
            final(self).timer.started() == old(self).timer.started(),
            final(self).timer.infallible() == old(self).timer.infallible(),
            final(self).timer.interval() == old(self).timer.interval(),
            !(r matches Poll::Ready(item) && item is None),
            match r {
                Poll::Ready(item) => match item {
                    Some(res) => match res {
                        Result::Ok(_) => {
                            &&& old(self).timer.triggered()
                            &&& !final(self).timer.triggered()
                            &&& final(self).timer.stored_waker() is None
                        },
                        Result::Err(_) => !old(self).timer.infallible(),
                    },
                    None => false,
                },
                Poll::Pending => {
                    &&& !old(self).timer.triggered()
                    &&& !final(self).timer.triggered()
                    &&& final(self).timer.stored_waker() == Some(cx.waker)
                },
            },
    {
        match self.timer.poll_tick(cx) {
            Poll::Ready(res) => Poll::Ready(Some(res)),
            Poll::Pending => Poll::Pending,
        }
    }
}

} // verus!
