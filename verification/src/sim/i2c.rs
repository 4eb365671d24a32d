//! A simulated I2C bus: one device that answers every addressed read
//! with a fixed body of bytes and swallows every addressed write into
//! the transaction's handle.

use vstd::prelude::*;
use vstd::slice::slice_index_get;

use crate::i2c::I2cBusMapping;
use crate::i2c::I2cRead;
use crate::i2c::I2cWrite;
use crate::io::Read;
use crate::io::Write;
use crate::sim::error::Error;
use crate::task::Context;
use crate::task::Poll;

verus! {

/// Copy a byte vector, element by element.
fn copy_bytes(src: &Vec<u8>) -> (out: Vec<u8>)
    ensures
        out@ == src@,
{
    let mut out: Vec<u8> = Vec::new();
    let mut i: usize = 0;
    while i < src.len()
        invariant
            i <= src.len(),
            out@ == src@.take(i as int),
        decreases src.len() - i,
    {
        let b = *slice_index_get(src.as_slice(), i);
        out.push(b);
        proof {
            assert(out@ =~= src@.take(i + 1));
        }
        i = i + 1;
    }
    proof {
        assert(out@ =~= src@);
    }
    out
}

/// Establishes the simulated bus from any pair of pins; the pins come
/// back untouched.
pub struct SimI2cMapping {
    response: Vec<u8>,
}

impl SimI2cMapping {
    /// The bytes the simulated device answers reads with.
    pub closed spec fn response_spec(self) -> Seq<u8> {
        self.response@
    }

    /// A mapping whose bus will answer reads with `response`.
    pub fn new(response: Vec<u8>) -> (m: SimI2cMapping)
        ensures
            m.response_spec() == response@,
    {
        SimI2cMapping { response }
    }
}

impl<SDA, SCL> I2cBusMapping<SDA, SCL> for SimI2cMapping {
    type Error = Error;

    type Bus = SimI2cBus;

    open spec fn inv(&self) -> bool {
        true
    }

    /// Initialization always succeeds, leaves both pins as they were,
    /// and hands out a bus carrying the configured response.
    open spec fn initialize_spec(
        pre: Self,
        post: Self,
        sda_pre: SDA,
        sda_post: SDA,
        scl_pre: SCL,
        scl_post: SCL,
        r: Poll<Result<SimI2cBus, Error>>,
    ) -> bool {
        &&& post == pre
        &&& sda_post == sda_pre
        &&& scl_post == scl_pre
        &&& r matches Poll::Ready(Result::Ok(b))
        &&& r matches Poll::Ready(Result::Ok(b)) ==> b.response_spec() == pre.response_spec()
    }

    fn poll_initialize(&mut self, cx: Context, sda: &mut SDA, scl: &mut SCL) -> (r: Poll<
        Result<SimI2cBus, Error>,
    >) {
        let response = copy_bytes(&self.response);
        Poll::Ready(Ok(SimI2cBus { response }))
    }
}

/// The simulated bus: exclusive access to the one simulated device.
pub struct SimI2cBus {
    response: Vec<u8>,
}

impl SimI2cBus {
    /// The bytes the device answers reads with.
    pub closed spec fn response_spec(self) -> Seq<u8> {
        self.response@
    }

    /// A bus whose device answers reads with `response`.
    pub fn new(response: Vec<u8>) -> (b: SimI2cBus)
        ensures
            b.response_spec() == response@,
    {
        SimI2cBus { response }
    }
}

impl I2cRead for SimI2cBus {
    type Error = Error;

    type Read = SimI2cReadHandle;

    open spec fn inv(&self) -> bool {
        true
    }

    /// Beginning a read always succeeds, whatever the address: the one
    /// device answers with the configured response, and the bus is
    /// unchanged.
    open spec fn begin_read_spec(pre: Self, post: Self, addr: u8, r: Poll<
        Result<SimI2cReadHandle, Error>,
    >) -> bool {
        &&& post == pre
        &&& r matches Poll::Ready(Result::Ok(h))
        &&& r matches Poll::Ready(Result::Ok(h)) ==> h.avail() == pre.response_spec()
    }

    fn poll_begin_read(&mut self, cx: Context, addr: u8) -> (r: Poll<
        Result<SimI2cReadHandle, Error>,
    >) {
        let data = copy_bytes(&self.response);
        let h = SimI2cReadHandle { data, pos: 0 };
        proof {
            assert(h.avail() =~= self.response@);
        }
        Poll::Ready(Ok(h))
    }
}

impl I2cWrite for SimI2cBus {
    type Error = Error;

    type Write = SimI2cWriteHandle;

    open spec fn begin_write_spec(pre: Self, post: Self, addr: u8, r: Poll<
        Result<SimI2cWriteHandle, Error>,
    >) -> bool {
        &&& post == pre
        &&& r matches Poll::Ready(Result::Ok(h))
        &&& r matches Poll::Ready(Result::Ok(h)) ==> h.sunk() == Seq::<u8>::empty()
            && !h.jammed() && !h.closed()
    }

    open spec fn inv(&self) -> bool {
        true
    }

    fn poll_begin_write(&mut self, cx: Context, addr: u8) -> (r: Poll<
        Result<SimI2cWriteHandle, Error>,
    >) {
        let h = SimI2cWriteHandle { accepted: Vec::new(), shut: false };
        proof {
            assert(h.sunk() =~= Seq::<u8>::empty());
        }
        Poll::Ready(Ok(h))
    }
}

/// A read transaction in progress: delivers the device's response.
pub struct SimI2cReadHandle {
    data: Vec<u8>,
    pos: usize,
}

impl SimI2cReadHandle {
    /// The response bytes not yet delivered.
    pub closed spec fn remaining(self) -> Seq<u8> {
        self.data@.skip(self.pos as int)
    }

    /// Structural well-formedness: the cursor in range.
    pub closed spec fn wf(self) -> bool {
        self.pos <= self.data.len()
    }
}

impl Read for SimI2cReadHandle {
    type Error = Error;

    open spec fn inv(&self) -> bool {
        self.wf()
    }

    open spec fn avail(&self) -> Seq<u8> {
        self.remaining()
    }

    open spec fn always_ready(&self) -> bool {
        true
    }

    #[verifier::loop_isolation(false)]
    fn poll_read(&mut self, cx: Context, buffer: &mut Vec<u8>) -> (r: Poll<
        Result<usize, Error>,
    >) {
        let remaining = self.data.len() - self.pos;
        let n = if remaining < buffer.len() {
            remaining
        } else {
            buffer.len()
        };
        let ghost b0 = buffer@;
        let mut i: usize = 0;
        while i < n
            invariant
                i <= n,
                n <= buffer.len(),
                self.pos + n <= self.data.len(),
                buffer.len() == b0.len(),
                buffer@ == self.data@.subrange(self.pos as int, self.pos + i) + b0.skip(i as int),
            decreases n - i,
        {
            let b = *slice_index_get(self.data.as_slice(), self.pos + i);
            buffer[i] = b;
            proof {
                assert(buffer@ =~= self.data@.subrange(self.pos as int, self.pos + i + 1)
                    + b0.skip(i + 1));
            }
            i = i + 1;
        }
        let ghost pos0 = self.pos as int;
        self.pos = self.pos + n;
        proof {
            assert(self.data@.subrange(pos0, pos0 + n) =~= old(self).avail().take(n as int));
            assert(buffer@ =~= old(self).avail().take(n as int) + b0.skip(n as int));
            assert(self.avail() =~= old(self).avail().skip(n as int));
        }
        Poll::Ready(Ok(n))
    }
}

/// A write transaction in progress: collects everything written.
pub struct SimI2cWriteHandle {
    accepted: Vec<u8>,
    shut: bool,
}

impl SimI2cWriteHandle {
    /// The bytes accepted so far.
    pub closed spec fn accepted_spec(self) -> Seq<u8> {
        self.accepted@
    }

    /// Whether the handle has been shut down.
    pub closed spec fn shut_spec(self) -> bool {
        self.shut
    }

    /// Read back everything the device was sent.
    pub fn into_accepted(self) -> (bytes: Vec<u8>)
        ensures
            bytes@ == self.sunk(),
    {
        self.accepted
    }
}

impl Write for SimI2cWriteHandle {
    type Error = Error;

    open spec fn inv(&self) -> bool {
        true
    }

    open spec fn sunk(&self) -> Seq<u8> {
        self.accepted_spec()
    }

    open spec fn jammed(&self) -> bool {
        false
    }

    open spec fn always_ready(&self) -> bool {
        true
    }

    open spec fn closed(&self) -> bool {
        self.shut_spec()
    }

    #[verifier::loop_isolation(false)]
    fn poll_write(&mut self, cx: Context, bytes: &[u8]) -> (r: Poll<Result<usize, Error>>) {
        let n = bytes.len();
        let ghost a0 = self.accepted@;
        let mut i: usize = 0;
        while i < n
            invariant
                i <= n,
                n == bytes@.len(),
                self.shut == old(self).shut,
                self.accepted@ == a0 + bytes@.take(i as int),
            decreases n - i,
        {
            let b = *slice_index_get(bytes, i);
            self.accepted.push(b);
            proof {
                assert(self.accepted@ =~= a0 + bytes@.take(i + 1));
            }
            i = i + 1;
        }
        Poll::Ready(Ok(n))
    }

    fn poll_flush(&mut self, cx: Context) -> (r: Poll<Result<(), Error>>) {
        Poll::Ready(Ok(()))
    }

    fn poll_shutdown(&mut self, cx: Context) -> (r: Poll<Result<(), Error>>) {
        self.shut = true;
        Poll::Ready(Ok(()))
    }

    fn poll_close(&mut self, cx: Context) -> (r: Poll<Result<(), Error>>) {
        self.shut = true;
        Poll::Ready(Ok(()))
    }
}

} // verus!
