//! A single read, as a pollable unit.

use vstd::prelude::*;

use crate::future::ContextCell;
use crate::future::Future;
use crate::task::Context;
use crate::task::Poll;

verus! {

/// One read from an owned source into an owned buffer: delivers into the
/// front of the buffer and completes with the count.
pub struct Read<A: crate::io::Read> {
    pub reader: A,
    pub buffer: Vec<u8>,
}

/// Wrap one read of `reader` into `buffer` as a pollable unit.
pub fn read<A: crate::io::Read>(reader: A, buffer: Vec<u8>) -> (f: Read<A>)
    requires
        reader.inv(),
    ensures
        f.reader == reader,
        f.buffer == buffer,
{
    Read { reader, buffer }
}

impl<A: crate::io::Read> Read<A> {
    /// Release the source and the buffer.
    pub fn into_parts(self) -> (parts: (A, Vec<u8>))
        ensures
            parts.0 == self.reader,
            parts.1 == self.buffer,
    {
        (self.reader, self.buffer)
    }
}

impl<A: crate::io::Read> Future for Read<A> {
    type Output = Result<usize, A::Error>;

    open spec fn inv(&self) -> bool {
        self.reader.inv()
    }

    open spec fn poll_spec(pre: Self, post: Self, cx: Context, r: Poll<
        Result<usize, A::Error>,
    >) -> bool {
        &&& post.buffer.len() == pre.buffer.len()
        &&& post.reader.always_ready() == pre.reader.always_ready()
        &&& crate::io::read_step(
            pre.reader.avail(),
            post.reader.avail(),
            pre.buffer@,
            post.buffer@,
            pre.reader.always_ready(),
            r,
        )
    }

    fn poll(&mut self, cell: &mut ContextCell, cx: Context) -> (r: Poll<
        Result<usize, A::Error>,
    >) {
        self.reader.poll_read(cx, &mut self.buffer)
    }
}

} // verus!
