//! Beginning an addressed read transaction, as a pollable unit.

use vstd::prelude::*;

use crate::future::ContextCell;
use crate::future::Future;
use crate::io::Read as IoRead;
use crate::io::Write as IoWrite;
use crate::i2c::I2cRead;
use crate::task::Context;
use crate::task::Poll;

verus! {

/// Starts an addressed read on an owned bus and completes with the
/// transaction's byte source.
pub struct BeginRead<A: I2cRead> {
    pub reader: A,
    pub address: u8,
}

/// Wrap the start of a read at `address` on `reader` as a pollable
/// unit.
pub fn begin_read<A: I2cRead>(reader: A, address: u8) -> (f: BeginRead<A>)
    requires
        reader.inv(),
    ensures
        f.reader == reader,
        f.address == address,
{
    BeginRead { reader, address }
}

impl<A: I2cRead> BeginRead<A> {
    /// Release the bus.
    pub fn into_inner(self) -> (b: A)
        ensures
            b == self.reader,
    {
        self.reader
    }
}

impl<A: I2cRead> Future for BeginRead<A> {
    type Output = Result<A::Read, A::Error>;

    open spec fn inv(&self) -> bool {
        self.reader.inv()
    }

    open spec fn poll_spec(pre: Self, post: Self, cx: Context, r: Poll<
        Result<A::Read, A::Error>,
    >) -> bool {
        &&& post.address == pre.address
        &&& A::begin_read_spec(pre.reader, post.reader, pre.address, r)
        &&& (r matches Poll::Ready(Result::Ok(h)) ==> h.inv())
    }

    fn poll(&mut self, cell: &mut ContextCell, cx: Context) -> (r: Poll<
        Result<A::Read, A::Error>,
    >) {
        self.reader.poll_begin_read(cx, self.address)
    }
}

} // verus!
