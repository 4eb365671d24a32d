//! Timer contracts: arming, waiting for a tick, and the infinite tick
//! stream.
//!
//! `poll_tick` follows the check-then-register discipline of the
//! interrupt state cell: if the tick already fired, consume it and
//! complete; otherwise store the waker and suspend.  The interrupt
//! handler marks the tick and wakes any stored waker exactly once.

use vstd::prelude::*;

use crate::task::Context;
use crate::task::Poll;
use crate::task::Waker;
use crate::time::Duration;
use crate::time::Rate;

pub mod start;
pub mod tick;
pub mod ticks;

verus! {

/// A hardware timer that raises a periodic or one-shot tick event.
pub trait Timer: Sized {
    type Error;

    /// The well-formedness this timer maintains.
    spec fn inv(&self) -> bool;

    /// Whether the timer has been armed.
    spec fn started(&self) -> bool;

    /// Whether a tick has fired and not yet been consumed.
    spec fn triggered(&self) -> bool;

    /// Whether this timer's driver is free of fault paths: such a
    /// timer never answers with an error.
    spec fn infallible(&self) -> bool;

    /// Whether arming resolves immediately and successfully (true of
    /// register-programmed timers; a driver that must negotiate with
    /// hardware may suspend).
    spec fn start_ready(&self) -> bool;

    /// The programmed interval this handle carries, in ticks of the
    /// driver's base rate.
    spec fn interval(&self) -> u32;

    /// The waker a suspended tick wait left behind, if any.
    spec fn stored_waker(&self) -> Option<Waker>;

    /// Arm the timer with its configured interval.
    fn poll_start(&mut self, cx: Context) -> (r: Poll<Result<(), Self::Error>>)
        requires
            old(self).inv(),
        ensures
            final(self).inv(),
            final(self).infallible() == old(self).infallible(),
            final(self).start_ready() == old(self).start_ready(),
            final(self).interval() == old(self).interval(),
            final(self).triggered() == old(self).triggered(),
            final(self).stored_waker() == old(self).stored_waker(),
            r matches Poll::Ready(Result::Ok(_)) ==> final(self).started(),
            r matches Poll::Ready(Result::Err(_)) ==> !old(self).infallible(),
            r is Pending ==> !old(self).start_ready() && final(self).started() == old(
                self,
            ).started(),
            old(self).start_ready() ==> r matches Poll::Ready(Result::Ok(_)),
    ;

    /// Wait for the next tick: consume an already-fired tick and
    /// complete, or store the waker and suspend — atomically with
    /// respect to the interrupt handler, so no wakeup is lost.
    fn poll_tick(&mut self, cx: Context) -> (r: Poll<Result<(), Self::Error>>)
        requires
            old(self).inv(),
        ensures
            final(self).inv(),
            final(self).started() == old(self).started(),
            final(self).infallible() == old(self).infallible(),
            final(self).start_ready() == old(self).start_ready(),
            final(self).interval() == old(self).interval(),
            match r {
                Poll::Ready(res) => match res {
                    Result::Ok(_) => {
                        &&& old(self).triggered()
                        &&& !final(self).triggered()
                        &&& final(self).stored_waker() is None
                    },
                    Result::Err(_) => !old(self).infallible(),
                },
                Poll::Pending => {
                    &&& !old(self).triggered()
                    &&& !final(self).triggered()
                    &&& final(self).stored_waker() == Some(cx.waker)
                },
            },
    ;
}

/// Tick operations as pollable units.
pub trait TimerExt: Timer {
    /// Wrap the arming of this timer as a pollable unit.
    fn start(self) -> (f: start::Start<Self>)
        requires
            self.inv(),
        ensures
            f.timer == self,
    {
        start::start(self)
    }

    /// Wrap one tick wait as a pollable unit.
    fn tick(self) -> (f: tick::Tick<Self>)
        requires
            self.inv(),
        ensures
            f.timer == self,
    {
        tick::tick(self)
    }

    /// The infinite stream of ticks: each poll waits for the next
    /// interval; the stream never ends of its own accord.
    fn ticks(self) -> (s: ticks::Ticks<Self>)
        requires
            self.inv(),
        ensures
            s.timer == self,
    {
        ticks::ticks(self)
    }
}

impl<A: Timer> TimerExt for A {

}

/// Conversion into a periodic timer ticking at a given rate.
pub trait IntoPeriodicTimer: Timer {
    type PeriodicTimer: Timer<Error = Self::Error>;

    /// The rates this timer can be programmed with.
    spec fn periodic_req(&self, rate: Rate) -> bool;

    /// How the produced timer relates to the consumed one and the rate.
    spec fn into_periodic_spec(pre: Self, rate: Rate, r: Result<
        Self::PeriodicTimer,
        Self::Error,
    >) -> bool;

    fn into_periodic_timer(self, rate: Rate) -> (r: Result<Self::PeriodicTimer, Self::Error>)
        requires
            self.inv(),
            self.periodic_req(rate),
        ensures
            Self::into_periodic_spec(self, rate, r),
            r matches Result::Ok(t) ==> t.inv(),
    ;
}

/// Conversion into a one-shot timer firing after a given delay.
pub trait IntoOneshotTimer: Timer {
    type OneshotTimer: Timer<Error = Self::Error>;

    /// The delays this timer can be programmed with.
    spec fn oneshot_req(&self, delay: Duration) -> bool;

    /// How the produced timer relates to the consumed one and the delay.
    spec fn into_oneshot_spec(pre: Self, delay: Duration, r: Result<
        Self::OneshotTimer,
        Self::Error,
    >) -> bool;

    fn into_oneshot_timer(self, delay: Duration) -> (r: Result<Self::OneshotTimer, Self::Error>)
        requires
            self.inv(),
            self.oneshot_req(delay),
        ensures
            Self::into_oneshot_spec(self, delay, r),
            r matches Result::Ok(t) ==> t.inv(),
    ;
}

} // verus!
