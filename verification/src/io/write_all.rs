//! Writing a byte sequence completely, as a pollable unit.

use vstd::prelude::*;
use vstd::slice::slice_subrange;

use crate::future::ContextCell;
use crate::future::Future;
use crate::io::WriteError;
use crate::task::Context;
use crate::task::Poll;

verus! {

/// Writes an owned byte sequence to an owned sink until every byte has
/// been accepted, in order, or until the sink answers a non-empty write
/// with zero accepted bytes.
pub struct WriteAll<A: crate::io::Write> {
    pub writer: A,
    pub bytes: Vec<u8>,
    /// How many bytes at the front of `bytes` the sink has accepted.
    pub written: usize,
}

/// Wrap the complete writing of `bytes` to `writer` as a pollable unit.
pub fn write_all<A: crate::io::Write>(writer: A, bytes: Vec<u8>) -> (f: WriteAll<A>)
    requires
        writer.inv(),
    ensures
        f.writer == writer,
        f.bytes == bytes,
        f.written == 0,
{
    WriteAll { writer, bytes, written: 0 }
}

impl<A: crate::io::Write> WriteAll<A> {
    /// Release the sink and the bytes.
    pub fn into_parts(self) -> (parts: (A, Vec<u8>))
        ensures
            parts.0 == self.writer,
            parts.1 == self.bytes,
    {
        (self.writer, self.bytes)
    }
}

impl<A: crate::io::Write> Future for WriteAll<A> {
    type Output = Result<(), A::Error>;

    open spec fn inv(&self) -> bool {
        &&& self.writer.inv()
        &&& self.written <= self.bytes.len()
    }

    /// One poll performs zero or more writes: the sink accepts exactly
    /// the next bytes of the sequence, in order, once each.  The poll
    /// completes exactly when everything is accepted; against a sink that
    /// always resolves, it fails with the distinguished zero-write error
    /// exactly when the sink permanently accepts nothing.
    open spec fn poll_spec(pre: Self, post: Self, cx: Context, r: Poll<
        Result<(), A::Error>,
    >) -> bool {
        &&& post.bytes == pre.bytes
        &&& post.written >= pre.written
        &&& post.written <= post.bytes.len()
        &&& post.writer.always_ready() == pre.writer.always_ready()
        &&& post.writer.jammed() == pre.writer.jammed()
        &&& post.writer.sunk() == pre.writer.sunk() + pre.bytes@.subrange(
            pre.written as int,
            post.written as int,
        )
        &&& (pre.writer.jammed() ==> post.written == pre.written)
        &&& match r {
            Poll::Ready(res) => match res {
                Result::Ok(_) => post.written == post.bytes.len(),
                Result::Err(e) => {
                    &&& post.written < post.bytes.len()
                    &&& (pre.writer.always_ready() ==> e.is_write_zero()
                        && pre.writer.jammed())
                },
            },
            Poll::Pending => !pre.writer.always_ready(),
        }
    }

    #[verifier::loop_isolation(false)]
    fn poll(&mut self, cell: &mut ContextCell, cx: Context) -> (r: Poll<
        Result<(), A::Error>,
    >) {
        let ghost pre = *self;
        loop
            invariant
                self.writer.inv(),
                self.written <= self.bytes.len(),
                self.bytes == pre.bytes,
                self.written >= pre.written,
                self.writer.always_ready() == pre.writer.always_ready(),
                self.writer.jammed() == pre.writer.jammed(),
                self.writer.sunk() == pre.writer.sunk() + pre.bytes@.subrange(
                    pre.written as int,
                    self.written as int,
                ),
                pre.writer.jammed() ==> self.written == pre.written,
            decreases self.bytes.len() - self.written,
        {
            if self.written == self.bytes.len() {
                return Poll::Ready(Ok(()));
            }
            let ghost sunk_now = self.writer.sunk();
            let ghost written_now = self.written as int;
            let part = slice_subrange(self.bytes.as_slice(), self.written, self.bytes.len());
            match self.writer.poll_write(cx, part) {
                Poll::Ready(Ok(n)) => {
                    if n == 0 {
                        return Poll::Ready(Err(A::Error::write_zero()));
                    }
                    proof {
                        assert(part@.take(n as int) =~= pre.bytes@.subrange(
                            written_now,
                            written_now + n,
                        ));
                        assert(sunk_now + part@.take(n as int) =~= pre.writer.sunk()
                            + pre.bytes@.subrange(pre.written as int, written_now + n));
                    }
                    self.written = self.written + n;
                },
                Poll::Ready(Err(e)) => {
                    return Poll::Ready(Err(e));
                },
                Poll::Pending => {
                    return Poll::Pending;
                },
            }
        }
    }
}

} // verus!
