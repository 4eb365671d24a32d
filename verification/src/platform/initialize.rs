//! Platform initialization, as a pollable unit.

use core::marker::PhantomData;

use vstd::prelude::*;

use crate::future::ContextCell;
use crate::future::Future;
use crate::platform::Boot;
use crate::platform::Platform;
use crate::task::Context;
use crate::task::Poll;

verus! {

/// Acquires the peripheral singleton set, claiming the boot evidence
/// it owns, and completes with the platform value.  Once resolved, the
/// evidence is spent: any further poll stays suspended, since no
/// second acquisition may happen in the same power-up.
pub struct Initialize<P: Platform> {
    boot: Option<Boot>,
    marker: PhantomData<P>,
}

impl<P: Platform> Initialize<P> {
    /// The boot evidence still waiting to be claimed, if any.
    pub closed spec fn pending_boot(self) -> Option<Boot> {
        self.boot
    }
}

/// Wrap platform initialization around the boot evidence as a pollable
/// unit.
pub fn initialize<P: Platform>(boot: Boot) -> (f: Initialize<P>)
    requires
        !boot.claimed(),
    ensures
        f.pending_boot() == Some(boot),
{
    let marker = PhantomData;
    Initialize { boot: Some(boot), marker }
}

impl<P: Platform> Future for Initialize<P> {
    type Output = Result<P, P::Error>;

    open spec fn inv(&self) -> bool {
        self.pending_boot() matches Some(b) ==> !b.claimed()
    }

    open spec fn poll_spec(pre: Self, post: Self, cx: Context, r: Poll<
        Result<P, P::Error>,
    >) -> bool {
        &&& (pre.pending_boot() is Some ==> P::initialize_spec(r))
        &&& (pre.pending_boot() is None ==> r is Pending && post == pre)
        &&& (r is Ready ==> post.pending_boot() is None)
        &&& (r matches Poll::Ready(Result::Ok(p)) ==> p.inv())
    }

    fn poll(&mut self, cell: &mut ContextCell, cx: Context) -> (r: Poll<Result<P, P::Error>>) {
        match self.boot.take() {
            None => Poll::Pending,
            Some(mut boot) => match P::poll_initialize(&mut boot, cx) {
                Poll::Pending => {
                    self.boot = Some(boot);
                    Poll::Pending
                },
                Poll::Ready(res) => Poll::Ready(res),
            },
        }
    }
}

} // verus!
