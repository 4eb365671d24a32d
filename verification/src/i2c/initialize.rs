//! Establishing an I2C bus from its pins, as a pollable unit.

use vstd::prelude::*;

use crate::future::ContextCell;
use crate::future::Future;
use crate::i2c::I2cBusMapping;
use crate::i2c::I2cRead;
use crate::io::Read as IoRead;
use crate::io::Write as IoWrite;
use crate::i2c::I2cWrite;
use crate::task::Context;
use crate::task::Poll;

verus! {

/// Negotiates a bus over the owned data and clock pins and completes
/// with an exclusive bus handle.
pub struct Initialize<A: I2cBusMapping<SDA, SCL>, SDA, SCL> {
    pub mapping: A,
    pub sda: SDA,
    pub scl: SCL,
}

/// Wrap bus initialization over `sda` and `scl` as a pollable unit.
pub fn initialize<A: I2cBusMapping<SDA, SCL>, SDA, SCL>(mapping: A, sda: SDA, scl: SCL) -> (f:
    Initialize<A, SDA, SCL>)
    requires
        mapping.inv(),
    ensures
        f.mapping == mapping,
        f.sda == sda,
        f.scl == scl,
{
    Initialize { mapping, sda, scl }
}

impl<A: I2cBusMapping<SDA, SCL>, SDA, SCL> Initialize<A, SDA, SCL> {
    /// Release the mapping and both pins.
    pub fn into_parts(self) -> (parts: (A, SDA, SCL))
        ensures
            parts.0 == self.mapping,
            parts.1 == self.sda,
            parts.2 == self.scl,
    {
        (self.mapping, self.sda, self.scl)
    }
}

impl<A: I2cBusMapping<SDA, SCL>, SDA, SCL> Future for Initialize<A, SDA, SCL> {
    type Output = Result<A::Bus, A::Error>;

    open spec fn inv(&self) -> bool {
        self.mapping.inv()
    }

    open spec fn poll_spec(pre: Self, post: Self, cx: Context, r: Poll<
        Result<A::Bus, A::Error>,
    >) -> bool {
        &&& A::initialize_spec(
            pre.mapping,
            post.mapping,
            pre.sda,
            post.sda,
            pre.scl,
            post.scl,
            r,
        )
        &&& (r matches Poll::Ready(Result::Ok(b)) ==> <A::Bus as I2cRead>::inv(&b)
            && <A::Bus as I2cWrite>::inv(&b))
    }

    fn poll(&mut self, cell: &mut ContextCell, cx: Context) -> (r: Poll<
        Result<A::Bus, A::Error>,
    >) {
        self.mapping.poll_initialize(cx, &mut self.sda, &mut self.scl)
    }
}

} // verus!
