//! Filling a buffer completely, as a pollable unit.

use vstd::prelude::*;

use crate::future::ContextCell;
use crate::future::Future;
use crate::io::ReadError;
use crate::task::Context;
use crate::task::Poll;

verus! {

/// Reads from an owned source until an owned buffer is completely
/// filled, assembling the delivered bytes in order, or until the source
/// signals end of stream before the buffer is full.
pub struct ReadExact<A: crate::io::Read> {
    pub reader: A,
    pub buffer: Vec<u8>,
    /// How many bytes at the front of `buffer` are already assembled.
    pub filled: usize,
}

/// Wrap the complete filling of `buffer` from `reader` as a pollable
/// unit.
pub fn read_exact<A: crate::io::Read>(reader: A, buffer: Vec<u8>) -> (f: ReadExact<A>)
    requires
        reader.inv(),
    ensures
        f.reader == reader,
        f.buffer == buffer,
        f.filled == 0,
{
    ReadExact { reader, buffer, filled: 0 }
}

impl<A: crate::io::Read> ReadExact<A> {
    /// Release the source and the buffer.
    pub fn into_parts(self) -> (parts: (A, Vec<u8>))
        ensures
            parts.0 == self.reader,
            parts.1 == self.buffer,
    {
        (self.reader, self.buffer)
    }
}

impl<A: crate::io::Read> Future for ReadExact<A> {
    type Output = Result<(), A::Error>;

    open spec fn inv(&self) -> bool {
        &&& self.reader.inv()
        &&& self.filled <= self.buffer.len()
    }

    /// One poll assembles zero or more deliveries: the freshly assembled
    /// bytes are exactly the next bytes of the source, in order.  The
    /// poll completes exactly when the buffer is full; against a source
    /// that always resolves, it ends the stream with the distinguished
    /// end-of-stream error exactly when the source runs dry first.
    open spec fn poll_spec(pre: Self, post: Self, cx: Context, r: Poll<
        Result<(), A::Error>,
    >) -> bool {
        &&& post.buffer.len() == pre.buffer.len()
        &&& post.filled >= pre.filled
        &&& post.filled <= post.buffer.len()
        &&& post.filled - pre.filled <= pre.reader.avail().len()
        &&& post.reader.always_ready() == pre.reader.always_ready()
        &&& post.buffer@ == pre.buffer@.take(pre.filled as int) + pre.reader.avail().take(
            post.filled - pre.filled,
        ) + pre.buffer@.skip(post.filled as int)
        &&& post.reader.avail() == pre.reader.avail().skip(post.filled - pre.filled)
        &&& match r {
            Poll::Ready(res) => match res {
                Result::Ok(_) => post.filled == post.buffer.len(),
                Result::Err(e) => {
                    &&& post.filled < post.buffer.len()
                    &&& (pre.reader.always_ready() ==> e.is_eof() && pre.reader.avail().len()
                        < pre.buffer.len() - pre.filled)
                },
            },
            Poll::Pending => !pre.reader.always_ready(),
        }
    }

    #[verifier::loop_isolation(false)]
    fn poll(&mut self, cell: &mut ContextCell, cx: Context) -> (r: Poll<
        Result<(), A::Error>,
    >) {
        let ghost pre = *self;
        loop
            invariant
                self.reader.inv(),
                self.filled <= self.buffer.len(),
                self.buffer.len() == pre.buffer.len(),
                self.filled >= pre.filled,
                self.filled - pre.filled <= pre.reader.avail().len(),
                self.reader.always_ready() == pre.reader.always_ready(),
                self.buffer@ == pre.buffer@.take(pre.filled as int) + pre.reader.avail().take(
                    self.filled - pre.filled,
                ) + pre.buffer@.skip(self.filled as int),
                self.reader.avail() == pre.reader.avail().skip(self.filled - pre.filled),
            decreases self.buffer.len() - self.filled,
        {
            if self.filled == self.buffer.len() {
                return Poll::Ready(Ok(()));
            }
            let want = self.buffer.len() - self.filled;
            let mut tmp: Vec<u8> = vec![0u8; want];
            let ghost avail_now = self.reader.avail();
            let ghost buf_now = self.buffer@;
            let ghost filled_now = self.filled as int;
            match self.reader.poll_read(cx, &mut tmp) {
                Poll::Ready(Ok(n)) => {
                    if n == 0 {
                        proof {
                            assert(avail_now == pre.reader.avail().skip(
                                filled_now - pre.filled,
                            ));
                            assert(avail_now.len() == pre.reader.avail().len() - (filled_now
                                - pre.filled));
                            assert(avail_now.len() == 0);
                            assert(self.reader.avail() =~= avail_now);
                            assert(self.buffer@ == pre.buffer@.take(pre.filled as int)
                                + pre.reader.avail().take(self.filled - pre.filled)
                                + pre.buffer@.skip(self.filled as int));
                        }
                        return Poll::Ready(Err(A::Error::eof()));
                    }
                    let mut i: usize = 0;
                    let ghost b0 = self.buffer@;
                    let ghost rdr = self.reader;
                    while i < n
                        invariant
                            i <= n,
                            n <= tmp.len(),
                            self.reader == rdr,
                            self.filled == filled_now,
                            filled_now + n <= self.buffer.len(),
                            self.buffer.len() == b0.len(),
                            self.buffer@ == b0.take(filled_now) + tmp@.take(i as int) + b0.skip(
                                filled_now + i,
                            ),
                        decreases n - i,
                    {
                        let pos = self.filled + i;
                        self.buffer[pos] = tmp[i];
                        proof {
                            assert(self.buffer@ =~= b0.take(filled_now) + tmp@.take(
                                i + 1,
                            ) + b0.skip(filled_now + i + 1));
                        }
                        i = i + 1;
                    }
                    proof {
                        assert(avail_now.len() == pre.reader.avail().len() - (filled_now
                            - pre.filled));
                        assert(tmp@.take(n as int) =~= avail_now.take(n as int));
                        assert(avail_now.take(n as int) =~= pre.reader.avail().subrange(
                            filled_now - pre.filled,
                            filled_now - pre.filled + n,
                        ));
                        assert(b0.take(filled_now) =~= pre.buffer@.take(pre.filled as int)
                            + pre.reader.avail().take(filled_now - pre.filled));
                        assert(b0.skip(filled_now + n) =~= pre.buffer@.skip(filled_now + n));
                        assert(self.buffer@ =~= pre.buffer@.take(pre.filled as int)
                            + pre.reader.avail().take(filled_now - pre.filled + n)
                            + pre.buffer@.skip(filled_now + n));
                        assert(self.reader.avail() =~= pre.reader.avail().skip(
                            filled_now - pre.filled + n,
                        ));
                    }
                    self.filled = self.filled + n;
                },
                Poll::Ready(Err(e)) => {
                    return Poll::Ready(Err(e));
                },
                Poll::Pending => {
                    return Poll::Pending;
                },
            }
        }
    }
}

} // verus!
