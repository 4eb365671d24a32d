//! Beginning an addressed write transaction, as a pollable unit.

use vstd::prelude::*;

use crate::future::ContextCell;
use crate::future::Future;
use crate::io::Read as IoRead;
use crate::io::Write as IoWrite;
use crate::i2c::I2cWrite;
use crate::task::Context;
use crate::task::Poll;

verus! {

/// Starts an addressed write on an owned bus and completes with the
/// transaction's byte sink.
pub struct BeginWrite<A: I2cWrite> {
    pub writer: A,
    pub address: u8,
}

/// Wrap the start of a write at `address` on `writer` as a pollable
/// unit.
pub fn begin_write<A: I2cWrite>(writer: A, address: u8) -> (f: BeginWrite<A>)
    requires
        writer.inv(),
    ensures
        f.writer == writer,
        f.address == address,
{
    BeginWrite { writer, address }
}

impl<A: I2cWrite> BeginWrite<A> {
    /// Release the bus.
    pub fn into_inner(self) -> (b: A)
        ensures
            b == self.writer,
    {
        self.writer
    }
}

impl<A: I2cWrite> Future for BeginWrite<A> {
    type Output = Result<A::Write, A::Error>;

    open spec fn inv(&self) -> bool {
        self.writer.inv()
    }

    open spec fn poll_spec(pre: Self, post: Self, cx: Context, r: Poll<
        Result<A::Write, A::Error>,
    >) -> bool {
        &&& post.address == pre.address
        &&& A::begin_write_spec(pre.writer, post.writer, pre.address, r)
        &&& (r matches Poll::Ready(Result::Ok(h)) ==> h.inv())
    }

    fn poll(&mut self, cell: &mut ContextCell, cx: Context) -> (r: Poll<
        Result<A::Write, A::Error>,
    >) {
        self.writer.poll_begin_write(cx, self.address)
    }
}

} // verus!
