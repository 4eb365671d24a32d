//! Waiting for a transfer to finish, as a pollable unit.

use vstd::prelude::*;

use crate::future::ContextCell;
use crate::future::Future;
use crate::spi::SpiTransfer;
use crate::task::Context;
use crate::task::Poll;

verus! {

/// Drives an owned transfer to completion.
pub struct Complete<A: SpiTransfer> {
    pub transfer: A,
}

/// Wrap the completion wait of `transfer` as a pollable unit.
pub fn complete<A: SpiTransfer>(transfer: A) -> (f: Complete<A>)
    requires
        transfer.inv(),
    ensures
        f.transfer == transfer,
{
    Complete { transfer }
}

impl<A: SpiTransfer> Complete<A> {
    /// Release the transfer.
    pub fn into_inner(self) -> (t: A)
        ensures
            t == self.transfer,
    {
        self.transfer
    }
}

impl<A: SpiTransfer> Future for Complete<A> {
    type Output = Result<(), A::Error>;

    open spec fn inv(&self) -> bool {
        self.transfer.inv()
    }

    open spec fn poll_spec(pre: Self, post: Self, cx: Context, r: Poll<
        Result<(), A::Error>,
    >) -> bool {
        &&& post.transfer.infallible() == pre.transfer.infallible()
        &&& post.transfer.contents() == pre.transfer.contents()
        &&& match r {
            Poll::Ready(res) => match res {
                Result::Ok(_) => pre.transfer.done() && post.transfer.done(),
                Result::Err(_) => !pre.transfer.infallible(),
            },
            Poll::Pending => {
                &&& !pre.transfer.done()
                &&& !post.transfer.done()
                &&& post.transfer.stored_waker() == Some(cx.waker)
            },
        }
    }

    fn poll(&mut self, cell: &mut ContextCell, cx: Context) -> (r: Poll<
        Result<(), A::Error>,
    >) {
        self.transfer.poll_complete(cx)
    }
}

} // verus!
