//! Simulated byte streams: a source that delivers a fixed body of data
//! in scheduled chunk sizes, and a sink with a per-call acceptance
//! limit.

use vstd::prelude::*;
use vstd::slice::slice_index_get;

use crate::io::Read;
use crate::io::Write;
use crate::sim::error::Error;
use crate::task::Context;
use crate::task::Poll;

verus! {

/// A simulated byte source: delivers `data` from the front, at most one
/// schedule entry's worth per poll.  Once the schedule is spent,
/// deliveries are limited only by the buffer.  A poll past the end of
/// the data delivers zero bytes: the source is exhausted for good.
pub struct SimReader {
    data: Vec<u8>,
    pos: usize,
    schedule: Vec<usize>,
    step: usize,
}

impl SimReader {
    /// The bytes not yet delivered.
    pub closed spec fn remaining(self) -> Seq<u8> {
        self.data@.skip(self.pos as int)
    }

    /// Structural well-formedness: the cursor in range, every schedule
    /// entry positive.
    pub closed spec fn wf(self) -> bool {
        &&& self.pos <= self.data.len()
        &&& self.step <= self.schedule.len()
        &&& forall|i: int| 0 <= i < self.schedule@.len() ==> self.schedule@[i] > 0
    }

    /// A source that will deliver `data`, honouring `schedule` as the
    /// sizes of its first deliveries.  Schedule entries must be
    /// positive: a zero-sized delivery would falsely signal exhaustion.
    pub fn new(data: Vec<u8>, schedule: Vec<usize>) -> (s: SimReader)
        requires
            forall|i: int| 0 <= i < schedule@.len() ==> schedule@[i] > 0,
        ensures
            s.inv(),
            s.remaining() == data@,
    {
        let s = SimReader { data, pos: 0, schedule, step: 0 };
        proof {
            assert(s.remaining() =~= s.data@);
        }
        s
    }
}

impl Read for SimReader {
    type Error = Error;

    open spec fn inv(&self) -> bool {
        self.wf()
    }

    open spec fn avail(&self) -> Seq<u8> {
        self.remaining()
    }

    open spec fn always_ready(&self) -> bool {
        true
    }

    #[verifier::loop_isolation(false)]
    fn poll_read(&mut self, cx: Context, buffer: &mut Vec<u8>) -> (r: Poll<
        Result<usize, Error>,
    >) {
        let remaining = self.data.len() - self.pos;
        let mut n = if remaining < buffer.len() {
            remaining
        } else {
            buffer.len()
        };
        if self.step < self.schedule.len() {
            let cap = *slice_index_get(self.schedule.as_slice(), self.step);
            if cap < n {
                n = cap;
            }
            if n > 0 {
                self.step = self.step + 1;
            }
        }
        let ghost b0 = buffer@;
        let mut i: usize = 0;
        while i < n
            invariant
                i <= n,
                n <= buffer.len(),
                self.pos + n <= self.data.len(),
                buffer.len() == b0.len(),
                buffer@ == self.data@.subrange(self.pos as int, self.pos + i) + b0.skip(i as int),
            decreases n - i,
        {
            let b = *slice_index_get(self.data.as_slice(), self.pos + i);
            buffer[i] = b;
            proof {
                assert(buffer@ =~= self.data@.subrange(self.pos as int, self.pos + i + 1)
                    + b0.skip(i + 1));
            }
            i = i + 1;
        }
        let ghost pos0 = self.pos as int;
        self.pos = self.pos + n;
        proof {
            assert(self.data@.subrange(pos0, pos0 + n) =~= old(self).avail().take(n as int));
            assert(buffer@ =~= old(self).avail().take(n as int) + b0.skip(n as int));
            assert(self.avail() =~= old(self).avail().skip(n as int));
        }
        Poll::Ready(Ok(n))
    }
}

/// A simulated byte sink: accepts at most `limit` bytes per call and
/// collects everything it accepts.  A limit of zero makes a sink that
/// permanently accepts nothing.
pub struct SimWriter {
    accepted: Vec<u8>,
    limit: usize,
    calls: u64,
    shut: bool,
}

impl SimWriter {
    /// The bytes accepted so far.
    pub closed spec fn accepted_spec(self) -> Seq<u8> {
        self.accepted@
    }

    /// How many write calls the sink has answered.
    pub closed spec fn calls_spec(self) -> u64 {
        self.calls
    }

    /// The per-call acceptance limit.
    pub closed spec fn limit_spec(self) -> usize {
        self.limit
    }

    /// Whether the sink has been shut down.
    pub closed spec fn shut_spec(self) -> bool {
        self.shut
    }

    /// A sink accepting at most `limit` bytes per call.
    pub fn new(limit: usize) -> (w: SimWriter)
        ensures
            w.inv(),
            w.sunk() == Seq::<u8>::empty(),
            w.jammed() == (limit == 0),
            w.calls_spec() == 0,
            !w.closed(),
    {
        let w = SimWriter { accepted: Vec::new(), limit, calls: 0, shut: false };
        proof {
            assert(w.accepted@ =~= Seq::<u8>::empty());
        }
        w
    }

    /// How many write calls the sink has answered.
    pub fn calls(&self) -> (n: u64)
        ensures
            n == self.calls_spec(),
    {
        self.calls
    }

    /// Read back everything the sink accepted.
    pub fn into_accepted(self) -> (bytes: Vec<u8>)
        ensures
            bytes@ == self.accepted_spec(),
    {
        self.accepted
    }
}

impl Write for SimWriter {
    type Error = Error;

    open spec fn inv(&self) -> bool {
        true
    }

    open spec fn sunk(&self) -> Seq<u8> {
        self.accepted_spec()
    }

    open spec fn jammed(&self) -> bool {
        self.limit_spec() == 0
    }

    open spec fn always_ready(&self) -> bool {
        true
    }

    open spec fn closed(&self) -> bool {
        self.shut_spec()
    }

    #[verifier::loop_isolation(false)]
    fn poll_write(&mut self, cx: Context, bytes: &[u8]) -> (r: Poll<Result<usize, Error>>) {
        let n = if self.limit < bytes.len() {
            self.limit
        } else {
            bytes.len()
        };
        if self.calls < u64::MAX {
            self.calls = self.calls + 1;
        }
        let ghost a0 = self.accepted@;
        let mut i: usize = 0;
        while i < n
            invariant
                i <= n,
                n <= bytes.len(),
                self.limit == old(self).limit,
                self.calls == old(self).calls || self.calls == old(self).calls + 1,
                self.shut == old(self).shut,
                self.accepted@ == a0 + bytes@.take(i as int),
            decreases n - i,
        {
            let b = *slice_index_get(bytes, i);
            self.accepted.push(b);
            proof {
                assert(self.accepted@ =~= a0 + bytes@.take(i + 1));
            }
            i = i + 1;
        }
        Poll::Ready(Ok(n))
    }

    fn poll_flush(&mut self, cx: Context) -> (r: Poll<Result<(), Error>>) {
        Poll::Ready(Ok(()))
    }

    fn poll_shutdown(&mut self, cx: Context) -> (r: Poll<Result<(), Error>>) {
        self.shut = true;
        Poll::Ready(Ok(()))
    }

    fn poll_close(&mut self, cx: Context) -> (r: Poll<Result<(), Error>>) {
        self.shut = true;
        Poll::Ready(Ok(()))
    }
}

} // verus!
