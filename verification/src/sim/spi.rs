//! A simulated SPI bus wired as a loopback: whatever is shifted out
//! comes straight back in.  Completion is interrupt-driven, with the
//! waker handoff of the transfer contract.

use vstd::prelude::*;
use vstd::slice::slice_index_get;

use crate::sim::error::Error;
use crate::spi::Mode;
use crate::spi::Spi;
use crate::spi::SpiTransaction;
use crate::spi::SpiTransfer;
use crate::task::Context;
use crate::task::Poll;
use crate::task::WakeQueue;
use crate::task::Waker;

verus! {

/// A simulated SPI bus in loopback wiring.
pub struct SimSpi {
    mode: Mode,
}

impl SimSpi {
    /// The configured clock mode.
    pub closed spec fn mode_spec(self) -> Mode {
        self.mode
    }

    /// A loopback bus clocked in `mode`.
    pub fn new(mode: Mode) -> (s: SimSpi)
        ensures
            s.mode_spec() == mode,
    {
        SimSpi { mode }
    }
}

impl Spi for SimSpi {
    type Error = Error;

    type Transaction = SimSpiTransaction;

    open spec fn inv(&self) -> bool {
        true
    }

    /// Acquiring the bus asserts chip-select for the transaction and
    /// keeps the clock mode.
    open spec fn transaction_spec(pre: Self, t: SimSpiTransaction) -> bool {
        t.cs_asserted() && t.mode_spec() == pre.mode_spec()
    }

    fn transaction(self) -> (t: SimSpiTransaction) {
        SimSpiTransaction { cs: true, mode: self.mode }
    }

    /// Ending a transaction gives the bus back in the same clock mode.
    open spec fn end_spec(t: SimSpiTransaction, bus: SimSpi) -> bool {
        bus.mode_spec() == t.mode_spec()
    }

    fn end_transaction(transaction: SimSpiTransaction) -> (bus: SimSpi) {
        SimSpi { mode: transaction.mode }
    }
}

/// One exclusive use of the simulated bus.
pub struct SimSpiTransaction {
    cs: bool,
    mode: Mode,
}

impl SimSpiTransaction {
    /// Whether chip-select is asserted.
    pub closed spec fn cs_asserted(self) -> bool {
        self.cs
    }

    /// The clock mode the bus was acquired in.
    pub closed spec fn mode_spec(self) -> Mode {
        self.mode
    }
}

impl SpiTransaction for SimSpiTransaction {
    type Error = Error;

    type Transfer = SimSpiTransfer;

    type TransferSplit = SimSpiTransfer;

    open spec fn inv(&self) -> bool {
        true
    }

    /// An in-place duplex exchange: on the loopback wiring the bytes
    /// shifted out are exactly the bytes received, so the buffer's
    /// content is already what completion will leave in it.
    open spec fn transfer_spec(pre: Self, post: Self, buffer: Seq<u8>, r: Result<
        SimSpiTransfer,
        Error,
    >) -> bool {
        &&& post == pre
        &&& r matches Result::Ok(t)
        &&& r matches Result::Ok(t) ==> {
            &&& !t.done()
            &&& t.stored_waker() is None
            &&& t.rx_spec() == buffer
            &&& t.expected_rx() == buffer
        }
    }

    /// A split exchange: the receive buffer will hold the transmitted
    /// bytes, padded with zeroes where the receive side is longer.
    open spec fn transfer_split_spec(
        pre: Self,
        post: Self,
        tx_buffer: Seq<u8>,
        rx_buffer: Seq<u8>,
        r: Result<SimSpiTransfer, Error>,
    ) -> bool {
        &&& post == pre
        &&& r matches Result::Ok(t)
        &&& r matches Result::Ok(t) ==> {
            &&& !t.done()
            &&& t.stored_waker() is None
            &&& t.rx_spec() == rx_buffer
            &&& t.expected_rx() == Seq::new(
                rx_buffer.len(),
                |i: int|
                    if i < tx_buffer.len() {
                        tx_buffer[i]
                    } else {
                        0u8
                    },
            )
        }
    }

    fn transfer(&mut self, buffer: Vec<u8>) -> (r: Result<SimSpiTransfer, Error>) {
        Ok(SimSpiTransfer { tx: None, rx: buffer, done: false, waker: None })
    }

    fn transfer_split(&mut self, tx_buffer: Vec<u8>, rx_buffer: Vec<u8>) -> (r: Result<
        SimSpiTransfer,
        Error,
    >) {
        Ok(SimSpiTransfer { tx: Some(tx_buffer), rx: rx_buffer, done: false, waker: None })
    }
}

/// A clocked exchange in flight on the simulated bus.
pub struct SimSpiTransfer {
    tx: Option<Vec<u8>>,
    rx: Vec<u8>,
    done: bool,
    waker: Option<Waker>,
}

impl SimSpiTransfer {
    /// The receive buffer's current content.
    pub closed spec fn rx_spec(self) -> Seq<u8> {
        self.rx@
    }

    /// What the receive buffer holds once the hardware has finished:
    /// for an in-place exchange the loopback returns the buffer as it
    /// is; for a split exchange, the transmitted bytes padded with
    /// zeroes.
    pub closed spec fn expected_rx(self) -> Seq<u8> {
        match self.tx {
            Option::None => self.rx@,
            Option::Some(t) => Seq::new(
                self.rx@.len(),
                |i: int|
                    if i < t@.len() {
                        t@[i]
                    } else {
                        0u8
                    },
            ),
        }
    }

    /// Whether the hardware has finished the exchange.
    pub closed spec fn done_spec(self) -> bool {
        self.done
    }

    /// The waker a suspended completion poll left behind, if any.
    pub closed spec fn stored_spec(self) -> Option<Waker> {
        self.waker
    }

    /// The simulated end-of-exchange interrupt: the hardware finishes
    /// shifting, the received bytes land in the buffer, and any stored
    /// waker is invoked exactly once and cleared.
    #[verifier::loop_isolation(false)]
    pub fn fire(&mut self, queue: &mut WakeQueue)
        ensures
            final(self).done(),
            final(self).stored_waker() is None,
            final(self).rx_spec() == old(self).expected_rx(),
            final(self).expected_rx() == old(self).expected_rx(),
            old(self).stored_waker() matches Some(w) ==> final(queue).pending
                && final(queue).invocations == if old(queue).invocations < u64::MAX {
                old(queue).invocations + 1
            } else {
                u64::MAX as int
            },
            old(self).stored_waker() is None ==> *final(queue) == *old(queue),
    {
        self.done = true;
        match &self.tx {
            Option::None => {
            },
            Option::Some(t) => {
                let ghost expected = old(self).expected_rx();
                let ghost r0 = self.rx@;
                let mut i: usize = 0;
                while i < self.rx.len()
                    invariant
                        i <= self.rx.len(),
                        self.rx.len() == r0.len(),
                        self.tx == old(self).tx,
                        self.done,
                        self.waker == old(self).waker,
                        self.rx@ == expected.take(i as int) + r0.skip(i as int),
                    decreases self.rx.len() - i,
                {
                    let b = if i < t.len() {
                        *slice_index_get(t.as_slice(), i)
                    } else {
                        0u8
                    };
                    self.rx[i] = b;
                    proof {
                        assert(self.rx@ =~= expected.take(i + 1) + r0.skip(i + 1));
                    }
                    i = i + 1;
                }
                proof {
                    assert(self.rx@ =~= expected);
                    assert(self.expected_rx() =~= expected);
                }
            },
        }
        let stored = self.waker.take();
        match stored {
            Option::Some(w) => w.wake(queue),
            Option::None => {
            },
        }
    }

    /// Release the receive buffer.
    pub fn into_buffer(self) -> (bytes: Vec<u8>)
        ensures
            bytes@ == self.rx_spec(),
    {
        self.rx
    }
}

impl SpiTransfer for SimSpiTransfer {
    type Error = Error;

    open spec fn inv(&self) -> bool {
        true
    }

    open spec fn done(&self) -> bool {
        self.done_spec()
    }

    open spec fn infallible(&self) -> bool {
        true
    }

    open spec fn contents(&self) -> Seq<u8> {
        self.rx_spec()
    }

    open spec fn stored_waker(&self) -> Option<Waker> {
        self.stored_spec()
    }

    fn poll_complete(&mut self, cx: Context) -> (r: Poll<Result<(), Error>>) {
        if self.done {
            Poll::Ready(Ok(()))
        } else {
            self.waker = Some(cx.waker);
            Poll::Pending
        }
    }
}

} // verus!
