//! A single write, as a pollable unit.

use vstd::prelude::*;

use crate::future::ContextCell;
use crate::future::Future;
use crate::task::Context;
use crate::task::Poll;

verus! {

/// One write of an owned byte sequence to an owned sink: completes with
/// how many bytes the sink accepted.
pub struct Write<A: crate::io::Write> {
    pub writer: A,
    pub bytes: Vec<u8>,
}

/// Wrap one write of `bytes` to `writer` as a pollable unit.
pub fn write<A: crate::io::Write>(writer: A, bytes: Vec<u8>) -> (f: Write<A>)
    requires
        writer.inv(),
    ensures
        f.writer == writer,
        f.bytes == bytes,
{
    Write { writer, bytes }
}

impl<A: crate::io::Write> Write<A> {
    /// Release the sink and the bytes.
    pub fn into_parts(self) -> (parts: (A, Vec<u8>))
        ensures
            parts.0 == self.writer,
            parts.1 == self.bytes,
    {
        (self.writer, self.bytes)
    }
}

impl<A: crate::io::Write> Future for Write<A> {
    type Output = Result<usize, A::Error>;

    open spec fn inv(&self) -> bool {
        self.writer.inv()
    }

    open spec fn poll_spec(pre: Self, post: Self, cx: Context, r: Poll<
        Result<usize, A::Error>,
    >) -> bool {
        &&& post.bytes == pre.bytes
        &&& post.writer.always_ready() == pre.writer.always_ready()
        &&& post.writer.jammed() == pre.writer.jammed()
        &&& crate::io::write_step(
            pre.writer.sunk(),
            post.writer.sunk(),
            pre.bytes@,
            pre.writer.jammed(),
            pre.writer.always_ready(),
            r,
        )
    }

    fn poll(&mut self, cell: &mut ContextCell, cx: Context) -> (r: Poll<
        Result<usize, A::Error>,
    >) {
        self.writer.poll_write(cx, self.bytes.as_slice())
    }
}

} // verus!
