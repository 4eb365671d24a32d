//! I2C bus contracts: establishing a bus from its pins, and beginning
//! addressed read and write transactions that hand back byte I/O
//! handles.
//!
//! Transaction boundaries are enforced by handle ownership: a handle
//! must be finished and released before the next transaction begins.

use vstd::prelude::*;

use crate::io::Read as IoRead;
use crate::io::Write as IoWrite;
use crate::task::Context;
use crate::task::Poll;

pub mod begin_read;
pub mod begin_write;
pub mod initialize;

verus! {

/// A bus that can begin an addressed read transaction.
pub trait I2cRead: Sized {
    type Error;

    type Read: crate::io::Read;

    /// The well-formedness this bus maintains.
    spec fn inv(&self) -> bool;

    /// How beginning a read relates the bus before and after, the
    /// address and the produced handle.
    spec fn begin_read_spec(pre: Self, post: Self, addr: u8, r: Poll<
        Result<Self::Read, Self::Error>,
    >) -> bool;

    /// Begin an addressed read transaction, handing back a byte source
    /// scoped to it.
    fn poll_begin_read(&mut self, cx: Context, addr: u8) -> (r: Poll<
        Result<Self::Read, Self::Error>,
    >)
        requires
            old(self).inv(),
        ensures
            final(self).inv(),
            Self::begin_read_spec(*old(self), *final(self), addr, r),
            r matches Poll::Ready(Result::Ok(h)) ==> h.inv(),
    ;
}

/// Beginning a read transaction, as a pollable unit.
pub trait I2cReadExt: I2cRead {
    /// Wrap the start of an addressed read as a pollable unit.
    fn begin_read(self, address: u8) -> (f: begin_read::BeginRead<Self>)
        requires
            self.inv(),
        ensures
            f.reader == self,
            f.address == address,
    {
        begin_read::begin_read(self, address)
    }
}

impl<A: I2cRead> I2cReadExt for A {

}

/// A bus that can begin an addressed write transaction.
pub trait I2cWrite: Sized {
    type Error;

    type Write: crate::io::Write;

    /// The well-formedness this bus maintains.
    spec fn inv(&self) -> bool;

    /// How beginning a write relates the bus before and after, the
    /// address and the produced handle.
    spec fn begin_write_spec(pre: Self, post: Self, addr: u8, r: Poll<
        Result<Self::Write, Self::Error>,
    >) -> bool;

    /// Begin an addressed write transaction, handing back a byte sink
    /// scoped to it.
    fn poll_begin_write(&mut self, cx: Context, addr: u8) -> (r: Poll<
        Result<Self::Write, Self::Error>,
    >)
        requires
            old(self).inv(),
        ensures
            final(self).inv(),
            Self::begin_write_spec(*old(self), *final(self), addr, r),
            r matches Poll::Ready(Result::Ok(h)) ==> h.inv(),
    ;
}

/// Beginning a write transaction, as a pollable unit.
pub trait I2cWriteExt: I2cWrite {
    /// Wrap the start of an addressed write as a pollable unit.
    fn begin_write(self, address: u8) -> (f: begin_write::BeginWrite<Self>)
        requires
            self.inv(),
        ensures
            f.writer == self,
            f.address == address,
    {
        begin_write::begin_write(self, address)
    }
}

impl<A: I2cWrite> I2cWriteExt for A {

}

/// Establishes an exclusive bus handle from the data and clock pins.
/// The pins stay owned by the caller during negotiation.
pub trait I2cBusMapping<SDA, SCL>: Sized {
    type Error;

    type Bus: I2cRead<Error = Self::Error> + I2cWrite<Error = Self::Error>;

    /// The well-formedness this mapping maintains.
    spec fn inv(&self) -> bool;

    /// How initialization relates the mapping and the pins before and
    /// after, and the produced bus.
    spec fn initialize_spec(
        pre: Self,
        post: Self,
        sda_pre: SDA,
        sda_post: SDA,
        scl_pre: SCL,
        scl_post: SCL,
        r: Poll<Result<Self::Bus, Self::Error>>,
    ) -> bool;

    /// Negotiate the bus over the two pins, producing an exclusive bus
    /// handle on success.
    fn poll_initialize(&mut self, cx: Context, sda: &mut SDA, scl: &mut SCL) -> (r: Poll<
        Result<Self::Bus, Self::Error>,
    >)
        requires
            old(self).inv(),
        ensures
            final(self).inv(),
            Self::initialize_spec(
                *old(self),
                *final(self),
                *old(sda),
                *final(sda),
                *old(scl),
                *final(scl),
                r,
            ),
            r matches Poll::Ready(Result::Ok(b)) ==> <Self::Bus as I2cRead>::inv(&b)
                && <Self::Bus as I2cWrite>::inv(&b),
    ;
}

/// Establishing a bus, as a pollable unit.
pub trait I2cBusMappingExt<SDA, SCL>: I2cBusMapping<SDA, SCL> {
    /// Wrap bus initialization as a pollable unit that owns the mapping
    /// and both pins.
    fn initialize(self, sda: SDA, scl: SCL) -> (f: initialize::Initialize<Self, SDA, SCL>)
        requires
            self.inv(),
        ensures
            f.mapping == self,
            f.sda == sda,
            f.scl == scl,
    {
        initialize::initialize(self, sda, scl)
    }
}

impl<A: I2cBusMapping<SDA, SCL>, SDA, SCL> I2cBusMappingExt<SDA, SCL> for A {

}

} // verus!
