//! SPI bus contracts: exclusive transactions and full-duplex transfers
//! whose completion is polled against a waker stored for the interrupt
//! handler.

use vstd::prelude::*;

use crate::task::Context;
use crate::task::Poll;
use crate::task::Waker;

pub mod complete;

verus! {

/// An SPI bus: a transaction acquires exclusive use of the bus and
/// asserts chip-select for its lifetime.
pub trait Spi: Sized {
    type Error;

    type Transaction: SpiTransaction<Error = Self::Error>;

    /// The well-formedness this bus maintains.
    spec fn inv(&self) -> bool;

    /// How the produced transaction relates to the consumed bus.
    spec fn transaction_spec(pre: Self, t: Self::Transaction) -> bool;

    /// Acquire the bus for one transaction.
    fn transaction(self) -> (t: Self::Transaction)
        requires
            self.inv(),
        ensures
            Self::transaction_spec(self, t),
            t.inv(),
    ;

    /// How the reclaimed bus relates to the spent transaction.
    spec fn end_spec(t: Self::Transaction, bus: Self) -> bool;

    /// End a transaction: deassert chip-select and release the bus, so
    /// the next transaction can begin.
    fn end_transaction(transaction: Self::Transaction) -> (bus: Self)
        requires
            transaction.inv(),
        ensures
            Self::end_spec(transaction, bus),
            bus.inv(),
    ;
}

/// One exclusive use of the bus: starts clocked exchanges.
pub trait SpiTransaction: Sized {
    type Error;

    type Transfer: SpiTransfer<Error = Self::Error>;

    type TransferSplit: SpiTransfer<Error = Self::Error>;

    /// The well-formedness this transaction maintains.
    spec fn inv(&self) -> bool;

    /// How starting an in-place duplex transfer relates the transaction
    /// before and after, the buffer and the produced transfer.
    spec fn transfer_spec(pre: Self, post: Self, buffer: Seq<u8>, r: Result<
        Self::Transfer,
        Self::Error,
    >) -> bool;

    /// How starting a split transfer relates the transaction before and
    /// after, the two buffers and the produced transfer.
    spec fn transfer_split_spec(
        pre: Self,
        post: Self,
        tx_buffer: Seq<u8>,
        rx_buffer: Seq<u8>,
        r: Result<Self::TransferSplit, Self::Error>,
    ) -> bool;

    /// Start a simultaneous duplex exchange in place: the buffer's bytes
    /// are shifted out while the received bytes take their place.
    fn transfer(&mut self, buffer: Vec<u8>) -> (r: Result<Self::Transfer, Self::Error>)
        requires
            old(self).inv(),
        ensures
            final(self).inv(),
            Self::transfer_spec(*old(self), *final(self), buffer@, r),
            r matches Result::Ok(t) ==> t.inv(),
    ;

    /// Start a clocked exchange with independently sized transmit and
    /// receive buffers.
    fn transfer_split(&mut self, tx_buffer: Vec<u8>, rx_buffer: Vec<u8>) -> (r: Result<
        Self::TransferSplit,
        Self::Error,
    >)
        requires
            old(self).inv(),
        ensures
            final(self).inv(),
            Self::transfer_split_spec(*old(self), *final(self), tx_buffer@, rx_buffer@, r),
            r matches Result::Ok(t) ==> t.inv(),
    ;
}

/// A clocked exchange in flight: polled until the hardware has finished
/// shifting.  The check of the hardware flag and the registration of
/// the waker are one atomic step with respect to the interrupt handler,
/// so a completion between check and registration cannot lose the
/// wakeup.
pub trait SpiTransfer: Sized {
    type Error;

    /// The well-formedness this transfer maintains.
    spec fn inv(&self) -> bool;

    /// Whether the hardware has finished the exchange.
    spec fn done(&self) -> bool;

    /// Whether this transfer's driver is free of fault paths: such a
    /// transfer never answers with an error.
    spec fn infallible(&self) -> bool;

    /// The bytes the transfer's receive buffer holds: once the exchange
    /// is done, the received bytes.
    spec fn contents(&self) -> Seq<u8>;

    /// The waker a suspended completion poll left behind, if any.
    spec fn stored_waker(&self) -> Option<Waker>;

    /// Poll for completion of the exchange.
    fn poll_complete(&mut self, cx: Context) -> (r: Poll<Result<(), Self::Error>>)
        requires
            old(self).inv(),
        ensures
            final(self).inv(),
            final(self).infallible() == old(self).infallible(),
            final(self).contents() == old(self).contents(),
            match r {
                Poll::Ready(res) => match res {
                    Result::Ok(_) => old(self).done() && final(self).done(),
                    Result::Err(_) => !old(self).infallible(),
                },
                Poll::Pending => {
                    &&& !old(self).done()
                    &&& !final(self).done()
                    &&& final(self).stored_waker() == Some(cx.waker)
                },
            },
    ;
}

/// Completion of a transfer, as a pollable unit.
pub trait SpiTransferExt: SpiTransfer {
    /// Wrap the completion wait of this transfer as a pollable unit.
    fn complete(self) -> (f: complete::Complete<Self>)
        requires
            self.inv(),
        ensures
            f.transfer == self,
    {
        complete::complete(self)
    }
}

impl<A: SpiTransfer> SpiTransferExt for A {

}

/// Clock polarity: the idle level of the clock line.
#[derive(Clone, Copy, Debug, PartialEq, Eq, Structural, Hash)]
pub enum Polarity {
    IdleLow,
    IdleHigh,
}

/// Clock phase: which clock transition captures data.
#[derive(Clone, Copy, Debug, PartialEq, Eq, Structural, Hash)]
pub enum Phase {
    CaptureOnFirstTransition,
    CaptureOnSecondTransition,
}

/// An SPI mode: a polarity and a phase.
#[derive(Clone, Copy, Debug, PartialEq, Eq, Structural)]
pub struct Mode {
    pub polarity: Polarity,
    pub phase: Phase,
}

impl Mode {
    /// Mode 0: clock idles low, capture on the first transition.
    pub fn mode_0() -> (m: Mode)
        ensures
            m.polarity == Polarity::IdleLow,
            m.phase == Phase::CaptureOnFirstTransition,
    {
        Mode { polarity: Polarity::IdleLow, phase: Phase::CaptureOnFirstTransition }
    }

    /// Mode 1: clock idles low, capture on the second transition.
    pub fn mode_1() -> (m: Mode)
        ensures
            m.polarity == Polarity::IdleLow,
            m.phase == Phase::CaptureOnSecondTransition,
    {
        Mode { polarity: Polarity::IdleLow, phase: Phase::CaptureOnSecondTransition }
    }

    /// Mode 2: clock idles high, capture on the first transition.
    pub fn mode_2() -> (m: Mode)
        ensures
            m.polarity == Polarity::IdleHigh,
            m.phase == Phase::CaptureOnFirstTransition,
    {
        Mode { polarity: Polarity::IdleHigh, phase: Phase::CaptureOnFirstTransition }
    }

    /// Mode 3: clock idles high, capture on the second transition.
    pub fn mode_3() -> (m: Mode)
        ensures
            m.polarity == Polarity::IdleHigh,
            m.phase == Phase::CaptureOnSecondTransition,
    {
        Mode { polarity: Polarity::IdleHigh, phase: Phase::CaptureOnSecondTransition }
    }
}

} // verus!
