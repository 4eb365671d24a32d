//! The vocabulary of poll-based execution: poll results, wakers and the
//! per-poll context handed to every operation.

use vstd::prelude::*;

verus! {

/// The result of polling an operation: either complete with a value, or
/// suspended until the registered waker is invoked.
#[derive(Clone, Copy, Debug)]
pub enum Poll<T> {
    Ready(T),
    Pending,
}

impl<T> Poll<T> {
    /// Whether this result carries a value.
    pub fn is_ready(&self) -> (r: bool)
        ensures
            r == (*self is Ready),
    {
        match self {
            Poll::Ready(_) => true,
            Poll::Pending => false,
        }
    }

    /// Whether this result is a suspension.
    pub fn is_pending(&self) -> (r: bool)
        ensures
            r == (*self is Pending),
    {
        match self {
            Poll::Ready(_) => false,
            Poll::Pending => true,
        }
    }
}

/// A copyable handle that, when invoked, schedules a re-poll of the task
/// that registered it.  There is a single top-level task, so the handle
/// carries only the identity of that task.
#[derive(Clone, Copy, Debug, PartialEq, Eq, Structural)]
pub struct Waker {
    pub task: u64,
}

/// The executor's wake queue, conceptually of size one: interrupt handlers
/// deliver completion signals here by invoking stored wakers, and the
/// executor consumes the pending flag before each poll pass.
///
/// `invocations` counts waker invocations; redundant wakeups cause at most
/// an extra poll, never incorrect behaviour, and the count makes the
/// "exactly once" discipline of interrupt handlers observable.
#[derive(Clone, Copy, Debug, PartialEq, Eq, Structural)]
pub struct WakeQueue {
    pub pending: bool,
    pub invocations: u64,
}

impl WakeQueue {
    /// A quiet queue: nothing woken yet.
    pub fn new() -> (q: WakeQueue)
        ensures
            !q.pending,
            q.invocations == 0,
    {
        WakeQueue { pending: false, invocations: 0 }
    }
}

impl Waker {
    /// Invoke the waker: record that the task must be re-polled.
    ///
    /// Invocation is idempotent in effect: a second invocation before the
    /// executor reacts leaves the queue pending just the same.
    pub fn wake(self, queue: &mut WakeQueue)
        ensures
            final(queue).pending,
            final(queue).invocations == if old(queue).invocations < u64::MAX {
                old(queue).invocations + 1
            } else {
                u64::MAX as int
            },
    {
        queue.pending = true;
        if queue.invocations < u64::MAX {
            queue.invocations = queue.invocations + 1;
        }
    }
}

/// The context of a single poll: the waker the polled operation must
/// register wherever it suspends.
#[derive(Clone, Copy, Debug, PartialEq, Eq, Structural)]
pub struct Context {
    pub waker: Waker,
}

impl Context {
    /// Build a context around a waker.
    pub fn from_waker(waker: Waker) -> (cx: Context)
        ensures
            cx.waker == waker,
    {
        Context { waker }
    }

    /// The waker of this context.
    pub fn waker(&self) -> (w: Waker)
        ensures
            w == self.waker,
    {
        self.waker
    }
}

} // verus!
