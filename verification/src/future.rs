//! The suspend/resume substrate: the execution context cell, the pollable
//! unit contract, and the adapter that turns a step-wise computation into
//! a pollable unit.
//!
//! No thread-local storage exists on bare hardware, so the ambient poll
//! context travels in a single-slot cell that is threaded explicitly
//! through every resume step.  Each access takes the slot's current
//! content and restores the prior content on exit, so the cell behaves
//! like a stack without storing one.

use vstd::prelude::*;

use crate::task::Context;
use crate::task::Poll;

verus! {

/// Process-wide single-slot storage for the current poll context.
///
/// Empty at boot; populated for the duration of a poll.  Every access
/// pairs a take with a restore, and an absent context on retrieval is a
/// wiring defect, excluded by precondition rather than reported.
pub struct ContextCell {
    slot: Option<Context>,
}

impl ContextCell {
    /// The currently installed context, if any.
    pub closed spec fn installed(self) -> Option<Context> {
        self.slot
    }

    /// The boot state: no context installed.
    pub fn new() -> (cell: ContextCell)
        ensures
            cell.installed() is None,
    {
        ContextCell { slot: None }
    }
}

/// Install `cx` as the ambient context and hand back the previous content,
/// which the caller must pass to `restore_task_context` on its way out.
pub fn set_task_context(cell: &mut ContextCell, cx: Context) -> (prev: Option<Context>)
    ensures
        final(cell).installed() == Some(cx),
        prev == old(cell).installed(),
{
    let prev = cell.slot;
    cell.slot = Some(cx);
    prev
}

/// Put back the content that `set_task_context` or `get_task_context`
/// displaced, restoring the cell to its prior state.
pub fn restore_task_context(cell: &mut ContextCell, prev: Option<Context>)
    ensures
        final(cell).installed() == prev,
{
    cell.slot = prev;
}

/// Take exclusive ownership of the installed context, leaving the cell
/// empty so that a reentrant retrieval without an intervening install is
/// ruled out.  Retrieval from an empty cell is a wiring defect, so the
/// precondition excludes it.
pub fn get_task_context(cell: &mut ContextCell) -> (cx: Context)
    requires
        old(cell).installed() is Some,
    ensures
        Some(cx) == old(cell).installed(),
        final(cell).installed() is None,
{
    let cx = cell.slot.unwrap();
    cell.slot = None;
    cx
}

/// A pollable unit: one poll either completes with a value or suspends
/// after arranging to be woken.
///
/// Every implementation must leave the context cell exactly as it found
/// it, and must describe its own poll transition through `poll_spec`.
pub trait Future: Sized {
    type Output;

    /// The well-formedness this unit maintains between polls.
    spec fn inv(&self) -> bool;

    /// How one poll relates the state before, the state after, the context
    /// it was polled with and the result.
    spec fn poll_spec(pre: Self, post: Self, cx: Context, r: Poll<Self::Output>) -> bool;

    fn poll(&mut self, cell: &mut ContextCell, cx: Context) -> (r: Poll<Self::Output>)
        requires
            old(self).inv(),
        ensures
            final(self).inv(),
            final(cell).installed() == old(cell).installed(),
            Self::poll_spec(*old(self), *final(self), cx, r),
    ;
}

/// What one resume step of a suspend/resume computation produced:
/// suspension, or completion with the final value.
#[derive(Debug)]
pub enum GeneratorState<R> {
    Yielded,
    Complete(R),
}

/// A suspend/resume computation: a state machine that pauses at defined
/// points and is resumed one step at a time.  The ambient context cell is
/// threaded through each step so that nested code can retrieve the poll
/// context without it appearing in every signature.
pub trait Generator: Sized {
    type Return;

    /// The well-formedness this computation maintains between steps.
    spec fn inv(&self) -> bool;

    /// How one resume step relates the state before, the state after, the
    /// ambient context it ran under and the step's outcome.
    spec fn resume_spec(
        pre: Self,
        post: Self,
        ambient: Option<Context>,
        step: GeneratorState<Self::Return>,
    ) -> bool;

    fn resume(&mut self, cell: &mut ContextCell) -> (step: GeneratorState<Self::Return>)
        requires
            old(self).inv(),
            old(cell).installed() is Some,
        ensures
            final(self).inv(),
            final(cell).installed() == old(cell).installed(),
            Self::resume_spec(
                *old(self),
                *final(self),
                old(cell).installed(),
                step,
            ),
    ;
}

/// The step a poll result corresponds to: a suspension is a yield, a
/// completed poll is a completed step.
pub open spec fn step_of_poll<R>(r: Poll<R>) -> GeneratorState<R> {
    match r {
        Poll::Ready(v) => GeneratorState::Complete(v),
        Poll::Pending => GeneratorState::Yielded,
    }
}

/// Wraps a suspend/resume computation as a pollable unit.
pub struct GenFuture<T>(pub T);

/// Wrap a suspend/resume computation in a pollable adapter.
pub fn from_generator<T: Generator>(x: T) -> (f: GenFuture<T>)
    ensures
        f.0 == x,
{
    GenFuture(x)
}

impl<T: Generator> Future for GenFuture<T> {
    type Output = T::Return;

    open spec fn inv(&self) -> bool {
        self.0.inv()
    }

    /// One poll installs the context, resumes the computation one step and
    /// restores the cell: the result is a suspension exactly when the step
    /// yielded, and carries `v` exactly when the step completed with `v`.
    open spec fn poll_spec(pre: Self, post: Self, cx: Context, r: Poll<T::Return>) -> bool {
        T::resume_spec(pre.0, post.0, Some(cx), step_of_poll(r))
    }

    fn poll(&mut self, cell: &mut ContextCell, cx: Context) -> (r: Poll<T::Return>) {
        let prev = set_task_context(cell, cx);
        let step = self.0.resume(cell);
        restore_task_context(cell, prev);
        match step {
            GeneratorState::Yielded => Poll::Pending,
            GeneratorState::Complete(x) => Poll::Ready(x),
        }
    }
}

/// The canonical one-await computation: suspends while the wrapped
/// pollable unit suspends, and completes with its output.  Deep inside,
/// it retrieves the ambient context rather than receiving it as an
/// argument — the shape of every nested suspension point.
pub struct AwaitOne<F: Future> {
    pub inner: F,
}

/// Wrap a pollable unit as the suspend/resume computation that awaits
/// it.
pub fn await_one<F: Future>(inner: F) -> (g: AwaitOne<F>)
    requires
        inner.inv(),
    ensures
        g.inner == inner,
{
    AwaitOne { inner }
}

impl<F: Future> Generator for AwaitOne<F> {
    type Return = F::Output;

    open spec fn inv(&self) -> bool {
        self.inner.inv()
    }

    /// One step is one poll of the inner unit under the ambient
    /// context: a yield exactly when it suspends, completion exactly
    /// with its value.
    open spec fn resume_spec(
        pre: Self,
        post: Self,
        ambient: Option<Context>,
        step: GeneratorState<F::Output>,
    ) -> bool {
        ambient matches Some(cx) ==> match step {
            GeneratorState::Yielded => F::poll_spec(
                pre.inner,
                post.inner,
                cx,
                Poll::Pending,
            ),
            GeneratorState::Complete(v) => F::poll_spec(
                pre.inner,
                post.inner,
                cx,
                Poll::Ready(v),
            ),
        }
    }

    fn resume(&mut self, cell: &mut ContextCell) -> (step: GeneratorState<F::Output>) {
        match poll_with_tls_context(&mut self.inner, cell) {
            Poll::Ready(v) => GeneratorState::Complete(v),
            Poll::Pending => GeneratorState::Yielded,
        }
    }
}

/// The adapter is transparent: a poll of the adapter wrapped around the
/// one-await computation is observably a poll of the wrapped unit
/// itself — same context, same result, same transition of the unit.
pub proof fn lemma_adapter_transparent<F: Future>(
    pre: GenFuture<AwaitOne<F>>,
    post: GenFuture<AwaitOne<F>>,
    cx: Context,
    r: Poll<F::Output>,
)
    requires
        <GenFuture<AwaitOne<F>> as Future>::poll_spec(pre, post, cx, r),
    ensures
        F::poll_spec(pre.0.inner, post.0.inner, cx, r),
{
    match r {
        Poll::Ready(v) => {
            assert(step_of_poll(r) == GeneratorState::Complete(v));
        },
        Poll::Pending => {
            assert(step_of_poll::<F::Output>(r) == GeneratorState::<F::Output>::Yielded);
        },
    }
}

/// Poll a pollable unit under the ambient context: take the installed
/// context, poll with it, and restore it.  The context handed to the poll
/// is exactly the one most recently installed, and the cell ends as it
/// began.
pub fn poll_with_tls_context<F: Future>(f: &mut F, cell: &mut ContextCell) -> (r: Poll<
    F::Output,
>)
    requires
        old(f).inv(),
        old(cell).installed() is Some,
    ensures
        final(f).inv(),
        final(cell).installed() == old(cell).installed(),
        old(cell).installed() matches Some(cx) ==> F::poll_spec(
            *old(f),
            *final(f),
            cx,
            r,
        ),
{
    let cx = get_task_context(cell);
    let r = f.poll(cell, cx);
    restore_task_context(cell, Some(cx));
    r
}

/// The slot content seen at the innermost point of a nest of installs:
/// starting from `outer`, each context in `installs` is installed in turn,
/// saving the displaced content as `set_task_context` does.
pub open spec fn innermost_context(outer: Option<Context>, installs: Seq<Context>) -> Option<
    Context,
>
    decreases installs.len(),
{
    if installs.len() == 0 {
        outer
    } else {
        innermost_context(Some(installs[0]), installs.skip(1))
    }
}

/// However deeply installs nest, the context retrievable at the innermost
/// point is the one most recently installed; the outer content reappears
/// only once every install has been unwound, which each paired restore
/// does exactly (`restore_task_context` puts back precisely the displaced
/// content).
pub proof fn lemma_innermost_is_most_recent(outer: Option<Context>, installs: Seq<Context>)
    requires
        installs.len() > 0,
    ensures
        innermost_context(outer, installs) == Some(installs.last()),
    decreases installs.len(),
{
    if installs.len() == 1 {
        assert(innermost_context(outer, installs) == Some(installs[0]));
    } else {
        lemma_innermost_is_most_recent(Some(installs[0]), installs.skip(1));
        assert(installs.skip(1).last() == installs.last());
    }
}

} // verus!
