//! The single-task executor: drives one top-level pollable unit, one poll
//! pass at a time.
//!
//! Between passes the processor is meant to sleep until a hardware
//! interrupt delivers a wake; that wait is hardware work and lives with
//! the surrounding program.  Each pass first consumes the pending wake,
//! coalescing any number of wakeups into a single poll, then polls the
//! task with a context whose waker re-arms the queue.

use vstd::prelude::*;

use crate::future::ContextCell;
use crate::future::Future;
use crate::task::Context;
use crate::task::Poll;
use crate::task::WakeQueue;
use crate::task::Waker;

verus! {

/// The identity of the one top-level task.
pub const MAIN_TASK: u64 = 0;

/// The context the executor polls the top-level task with.
pub open spec fn main_task_context() -> Context {
    Context { waker: Waker { task: MAIN_TASK } }
}

/// The single-task executor: owns the wake queue that interrupt handlers
/// deliver completion signals to.
pub struct Executor {
    pub queue: WakeQueue,
}

impl Executor {
    /// A fresh executor with a quiet queue.
    pub fn new() -> (e: Executor)
        ensures
            !e.queue.pending,
            e.queue.invocations == 0,
    {
        Executor { queue: WakeQueue::new() }
    }

    /// One poll pass: consume the pending wake and poll the task under the
    /// executor's context.  A task that suspends is re-polled no earlier
    /// than the next wake; the caller decides how to wait for one.
    pub fn step<F: Future>(&mut self, task: &mut F, cell: &mut ContextCell) -> (r: Poll<
        F::Output,
    >)
        requires
            old(task).inv(),
        ensures
            final(task).inv(),
            final(cell).installed() == old(cell).installed(),
            !final(self).queue.pending,
            final(self).queue.invocations == old(self).queue.invocations,
            F::poll_spec(*old(task), *final(task), main_task_context(), r),
    {
        self.queue.pending = false;
        let cx = Context::from_waker(Waker { task: MAIN_TASK });
        task.poll(cell, cx)
    }

    /// Whether a wake has been delivered since the last poll pass.
    pub fn woken(&self) -> (b: bool)
        ensures
            b == self.queue.pending,
    {
        self.queue.pending
    }
}

} // verus!
