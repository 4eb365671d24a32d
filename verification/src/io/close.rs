//! Closing a sink, as a pollable unit.

use vstd::prelude::*;

use crate::future::ContextCell;
use crate::future::Future;
use crate::task::Context;
use crate::task::Poll;

verus! {

/// Drives a sink's close to completion.
pub struct Close<A: crate::io::Write> {
    pub writer: A,
}

/// Wrap the close of `writer` as a pollable unit.
pub fn close<A: crate::io::Write>(writer: A) -> (f: Close<A>)
    requires
        writer.inv(),
    ensures
        f.writer == writer,
{
    Close { writer }
}

impl<A: crate::io::Write> Close<A> {
    /// Release the sink.
    pub fn into_inner(self) -> (w: A)
        ensures
            w == self.writer,
    {
        self.writer
    }
}

impl<A: crate::io::Write> Future for Close<A> {
    type Output = Result<(), A::Error>;

    open spec fn inv(&self) -> bool {
        self.writer.inv()
    }

    open spec fn poll_spec(pre: Self, post: Self, cx: Context, r: Poll<
        Result<(), A::Error>,
    >) -> bool {
        &&& post.writer.sunk() == pre.writer.sunk()
        &&& post.writer.always_ready() == pre.writer.always_ready()
        &&& post.writer.jammed() == pre.writer.jammed()
        &&& (r matches Poll::Ready(Result::Ok(_)) ==> post.writer.closed())
        &&& (r is Pending ==> !pre.writer.always_ready())
        &&& (pre.writer.always_ready() ==> r matches Poll::Ready(Result::Ok(_)))
    }

    fn poll(&mut self, cell: &mut ContextCell, cx: Context) -> (r: Poll<
        Result<(), A::Error>,
    >) {
        self.writer.poll_close(cx)
    }
}

} // verus!
