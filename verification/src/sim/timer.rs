//! A simulated hardware timer, driven by a simulated interrupt.
//!
//! The timer counts a programmed number of ticks of a fixed-rate base;
//! here nothing counts by itself, and the surrounding harness calls
//! `fire` where the hardware would raise the timer interrupt.

use vstd::prelude::*;

use vstd::arithmetic::div_mod::lemma_div_is_ordered;

use crate::interrupt::InterruptCell;
use crate::sim::error::Error;
use crate::task::Context;
use crate::task::Poll;
use crate::task::WakeQueue;
use crate::task::Waker;
use crate::time::Duration;
use crate::time::Rate;
use crate::timer::IntoOneshotTimer;
use crate::timer::IntoPeriodicTimer;
use crate::timer::Timer;

verus! {

/// The fixed rate of the simulated timer's tick base.
pub const TICKS_PER_SECOND: u32 = 1000000;

/// Mode tag: fires once after its programmed delay.
#[derive(Clone, Copy, Debug)]
pub struct OneShot;

/// Mode tag: fires at its programmed rate, over and over.
#[derive(Clone, Copy, Debug)]
pub struct Periodic;

/// A simulated timer, typed by its mode.
pub struct SimTimer<M> {
    ticks: u32,
    armed: bool,
    cell: InterruptCell,
    mode: M,
}

impl<M> SimTimer<M> {
    /// The programmed interval, in ticks of the base rate.
    pub closed spec fn interval_spec(self) -> u32 {
        self.ticks
    }

    /// Whether the timer has been armed.
    pub closed spec fn armed_spec(self) -> bool {
        self.armed
    }

    /// Whether a tick has fired and not yet been consumed.
    pub closed spec fn triggered_spec(self) -> bool {
        self.cell.triggered()
    }

    /// The waker a suspended tick wait left behind, if any.
    pub closed spec fn stored_spec(self) -> Option<Waker> {
        self.cell.stored()
    }

    /// The programmed interval, in ticks of the base rate.
    pub fn interval_ticks(&self) -> (t: u32)
        ensures
            t == self.interval_spec(),
    {
        self.ticks
    }

    /// The simulated hardware interrupt: marks the tick in the
    /// interrupt state cell and wakes any stored waker exactly once.
    pub fn fire(&mut self, queue: &mut WakeQueue)
        ensures
            final(self).triggered(),
            final(self).stored_waker() is None,
            final(self).started() == old(self).started(),
            final(self).interval_spec() == old(self).interval_spec(),
            old(self).stored_waker() matches Some(w) ==> final(queue).pending
                && final(queue).invocations == if old(queue).invocations < u64::MAX {
                old(queue).invocations + 1
            } else {
                u64::MAX as int
            },
            old(self).stored_waker() is None ==> *final(queue) == *old(queue),
    {
        self.cell.fire(queue);
    }
}

impl SimTimer<OneShot> {
    /// A fresh timer in the boot configuration: one-shot, a minimal
    /// interval, not armed, its interrupt state quiet.
    pub fn new() -> (t: SimTimer<OneShot>)
        ensures
            t.inv(),
            t.interval_spec() == 1,
            !t.started(),
            !t.triggered(),
            t.stored_waker() is None,
    {
        SimTimer { ticks: 1, armed: false, cell: InterruptCell::new(), mode: OneShot }
    }
}

impl<M> Timer for SimTimer<M> {
    type Error = Error;

    open spec fn inv(&self) -> bool {
        true
    }

    open spec fn started(&self) -> bool {
        self.armed_spec()
    }

    open spec fn triggered(&self) -> bool {
        self.triggered_spec()
    }

    open spec fn infallible(&self) -> bool {
        true
    }

    open spec fn start_ready(&self) -> bool {
        true
    }

    open spec fn interval(&self) -> u32 {
        self.interval_spec()
    }

    open spec fn stored_waker(&self) -> Option<Waker> {
        self.stored_spec()
    }

    fn poll_start(&mut self, cx: Context) -> (r: Poll<Result<(), Error>>) {
        self.armed = true;
        Poll::Ready(Ok(()))
    }

    fn poll_tick(&mut self, cx: Context) -> (r: Poll<Result<(), Error>>) {
        if self.cell.check_or_register(cx) {
            Poll::Ready(Ok(()))
        } else {
            Poll::Pending
        }
    }
}

impl<M> IntoPeriodicTimer for SimTimer<M> {
    type PeriodicTimer = SimTimer<Periodic>;

    open spec fn periodic_req(&self, rate: Rate) -> bool {
        rate.hz_spec() > 0
    }

    /// The interval becomes the tick count of one period at the base
    /// rate; the timer comes back unarmed, while a pending tick and
    /// stored waker carry over.
    open spec fn into_periodic_spec(pre: Self, rate: Rate, r: Result<
        SimTimer<Periodic>,
        Error,
    >) -> bool {
        &&& r matches Result::Ok(t)
        &&& r matches Result::Ok(t) ==> {
            &&& t.interval_spec() == TICKS_PER_SECOND as int / rate.hz_spec() as int
            &&& !t.started()
            &&& t.triggered() == pre.triggered()
            &&& t.stored_waker() == pre.stored_waker()
        }
    }

    fn into_periodic_timer(self, rate: Rate) -> (r: Result<SimTimer<Periodic>, Error>) {
        let ticks = TICKS_PER_SECOND / rate.as_hz();
        Ok(SimTimer { ticks, armed: false, cell: self.cell, mode: Periodic })
    }
}

impl<M> IntoOneshotTimer for SimTimer<M> {
    type OneshotTimer = SimTimer<OneShot>;

    open spec fn oneshot_req(&self, delay: Duration) -> bool {
        true
    }

    /// The interval becomes the nanosecond delay converted to base-rate
    /// ticks; the timer comes back unarmed, while a pending tick and
    /// stored waker carry over.
    open spec fn into_oneshot_spec(pre: Self, delay: Duration, r: Result<
        SimTimer<OneShot>,
        Error,
    >) -> bool {
        &&& r matches Result::Ok(t)
        &&& r matches Result::Ok(t) ==> {
            &&& t.interval_spec() == delay.nanos_spec() * TICKS_PER_SECOND / 1000000000
            &&& !t.started()
            &&& t.triggered() == pre.triggered()
            &&& t.stored_waker() == pre.stored_waker()
        }
    }

    fn into_oneshot_timer(self, delay: Duration) -> (r: Result<SimTimer<OneShot>, Error>) {
        let nanos = delay.as_nanos() as u64;
        let wide = nanos * (TICKS_PER_SECOND as u64) / 1000000000;
        proof {
            lemma_div_is_ordered(
                nanos * (TICKS_PER_SECOND as int),
                u32::MAX * (TICKS_PER_SECOND as int),
                1000000000,
            );
        }
        let ticks = wide as u32;
        Ok(SimTimer { ticks, armed: false, cell: self.cell, mode: OneShot })
    }
}

} // verus!
