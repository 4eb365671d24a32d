//! The per-peripheral interrupt state cell: the handoff point between a
//! foreground poll and the peripheral's interrupt handler.
//!
//! The cell holds a "triggered" flag and an optional stored waker.  On
//! hardware every access runs inside a critical section (interrupts
//! disabled); here each operation is a single atomic step on the cell,
//! so the check-then-register of the poll side and the mark-then-wake of
//! the interrupt side can never interleave, and no wakeup is lost.

use vstd::prelude::*;

use crate::task::Context;
use crate::task::WakeQueue;
use crate::task::Waker;

verus! {

/// Per-peripheral storage shared between the foreground poll and the
/// interrupt handler.
pub struct InterruptCell {
    triggered: bool,
    waker: Option<Waker>,
}

impl InterruptCell {
    /// Whether the hardware event has fired and not yet been consumed.
    pub closed spec fn triggered(self) -> bool {
        self.triggered
    }

    /// The waker a suspended poll left behind, if any.
    pub closed spec fn stored(self) -> Option<Waker> {
        self.waker
    }

    /// A quiet cell: no event, no waiter.
    pub fn new() -> (c: InterruptCell)
        ensures
            !c.triggered(),
            c.stored() is None,
    {
        InterruptCell { triggered: false, waker: None }
    }

    /// The cell as the foreground check-then-register leaves it: a
    /// fired event is consumed; an unfired one gets the waker stored.
    pub closed spec fn after_check(pre: InterruptCell, cx: Context) -> InterruptCell {
        if pre.triggered {
            InterruptCell { triggered: false, waker: None }
        } else {
            InterruptCell { triggered: false, waker: Some(cx.waker) }
        }
    }

    /// The cell as the interrupt handler leaves it: the event recorded,
    /// no waker stored.
    pub closed spec fn after_fire(pre: InterruptCell) -> InterruptCell {
        InterruptCell { triggered: true, waker: None }
    }

    /// The foreground side: atomically check, and register if not done.
    /// If the event already fired, consume it and report readiness with
    /// no waker left stored; otherwise store the caller's waker so the
    /// interrupt handler finds it, however the two sides race.
    pub fn check_or_register(&mut self, cx: Context) -> (ready: bool)
        ensures
            ready == old(self).triggered(),
            *final(self) == InterruptCell::after_check(*old(self), cx),
            ready ==> !final(self).triggered() && final(self).stored() is None,
            !ready ==> !final(self).triggered() && final(self).stored() == Some(cx.waker),
    {
        if self.triggered {
            self.triggered = false;
            self.waker = None;
            true
        } else {
            self.waker = Some(cx.waker);
            false
        }
    }

    /// The interrupt side: mark the event as fired and invoke the stored
    /// waker exactly once, clearing it.  With no waker stored the wake
    /// queue is left untouched: the event waits in the cell for the next
    /// poll.
    pub fn fire(&mut self, queue: &mut WakeQueue)
        ensures
            *final(self) == InterruptCell::after_fire(*old(self)),
            final(self).triggered(),
            final(self).stored() is None,
            old(self).stored() matches Some(w) ==> final(queue).pending
                && final(queue).invocations == if old(queue).invocations < u64::MAX {
                old(queue).invocations + 1
            } else {
                u64::MAX as int
            },
            old(self).stored() is None ==> *final(queue) == *old(queue),
    {
        self.triggered = true;
        let stored = self.waker;
        self.waker = None;
        match stored {
            Some(w) => w.wake(queue),
            None => (),
        }
    }
}

/// The tick race loses no wakeup and wakes no waker twice, whichever
/// side runs first.  If the event fires before the poll, the poll finds
/// it, consumes it and leaves no waker stored.  If the poll suspends
/// first, exactly its waker is stored for the handler; the handler
/// consumes the stored waker as it fires (invoking it exactly once, by
/// the contract of `fire`), so nothing remains for a later firing to
/// wake again.
pub proof fn lemma_tick_race(c: InterruptCell, cx: Context)
    ensures
        InterruptCell::after_fire(c).triggered(),
        InterruptCell::after_fire(c).stored() is None,
        InterruptCell::after_check(InterruptCell::after_fire(c), cx).stored() is None,
        !InterruptCell::after_check(InterruptCell::after_fire(c), cx).triggered(),
        !c.triggered() ==> InterruptCell::after_check(c, cx).stored() == Some(cx.waker),
        InterruptCell::after_fire(InterruptCell::after_check(c, cx)).stored() is None,
{
}

} // verus!
