//! The simulated platform's error type.

use vstd::prelude::*;

use crate::io::ReadError;
use crate::io::WriteError;

verus! {

/// Everything that can go wrong on the simulated platform: only the two
/// distinguished stream conditions, since the simulated hardware itself
/// never faults.
#[derive(Clone, Copy, Debug, PartialEq, Eq, Structural)]
pub enum Error {
    Eof,
    WriteZero,
}

impl ReadError for Error {
    open spec fn is_eof(&self) -> bool {
        *self is Eof
    }

    fn eof() -> (e: Error) {
        Error::Eof
    }
}

impl WriteError for Error {
    open spec fn is_write_zero(&self) -> bool {
        *self is WriteZero
    }

    fn write_zero() -> (e: Error) {
        Error::WriteZero
    }
}

} // verus!
