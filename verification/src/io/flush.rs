//! Flushing a sink, as a pollable unit.

use vstd::prelude::*;

use crate::future::ContextCell;
use crate::future::Future;
use crate::task::Context;
use crate::task::Poll;

verus! {

/// Drives a sink's flush to completion.
pub struct Flush<A: crate::io::Write> {
    pub writer: A,
}

/// Wrap the flush of `writer` as a pollable unit.
pub fn flush<A: crate::io::Write>(writer: A) -> (f: Flush<A>)
    requires
        writer.inv(),
    ensures
        f.writer == writer,
{
    Flush { writer }
}

impl<A: crate::io::Write> Flush<A> {
    /// Release the sink.
    pub fn into_inner(self) -> (w: A)
        ensures
            w == self.writer,
    {
        self.writer
    }
}

impl<A: crate::io::Write> Future for Flush<A> {
    type Output = Result<(), A::Error>;

    open spec fn inv(&self) -> bool {
        self.writer.inv()
    }

    open spec fn poll_spec(pre: Self, post: Self, cx: Context, r: Poll<
        Result<(), A::Error>,
    >) -> bool {
        &&& post.writer.sunk() == pre.writer.sunk()
        &&& post.writer.always_ready() == pre.writer.always_ready()
        &&& post.writer.jammed() == pre.writer.jammed()
        &&& post.writer.closed() == pre.writer.closed()
        &&& (r is Pending ==> !pre.writer.always_ready())
        &&& (pre.writer.always_ready() ==> r matches Poll::Ready(Result::Ok(_)))
    }

    fn poll(&mut self, cell: &mut ContextCell, cx: Context) -> (r: Poll<
        Result<(), A::Error>,
    >) {
        self.writer.poll_flush(cx)
    }
}

} // verus!
