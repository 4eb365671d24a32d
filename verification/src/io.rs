//! Poll-based byte transfer contracts, plus derived whole-buffer
//! operations.
//!
//! A source is modelled by the sequence of bytes it stands ready to
//! deliver, a sink by the sequence of bytes it has accepted so far.  A
//! transfer of zero bytes against a non-empty buffer signals an
//! unrecoverable stream condition, surfaced by the derived operations as
//! the distinguished end-of-stream or zero-write error.

use vstd::prelude::*;

use crate::task::Context;
use crate::task::Poll;

pub mod close;
pub mod flush;
pub mod read;
pub mod read_exact;
pub mod shutdown;
pub mod write;
pub mod write_all;

verus! {

/// An error type usable by byte sources: it must offer the distinguished
/// end-of-stream value.
pub trait ReadError: Sized {
    /// Whether this error is the distinguished end-of-stream condition.
    spec fn is_eof(&self) -> bool;

    /// The distinguished end-of-stream error.
    fn eof() -> (e: Self)
        ensures
            e.is_eof(),
    ;
}

/// An error type usable by byte sinks: it must offer the distinguished
/// zero-write value.
pub trait WriteError: Sized {
    /// Whether this error is the distinguished zero-write condition.
    spec fn is_write_zero(&self) -> bool;

    /// The distinguished zero-write error.
    fn write_zero() -> (e: Self)
        ensures
            e.is_write_zero(),
    ;
}

/// What one successful or suspended read does to a source and a buffer:
/// a read delivers a prefix of the deliverable bytes into the front of
/// the buffer and consumes it from the source; a delivery of zero against
/// a non-empty buffer happens only once the source is exhausted.
pub open spec fn read_step<E>(
    pre_avail: Seq<u8>,
    post_avail: Seq<u8>,
    pre_buf: Seq<u8>,
    post_buf: Seq<u8>,
    always_ready: bool,
    r: Poll<Result<usize, E>>,
) -> bool {
    match r {
        Poll::Ready(res) => match res {
            Result::Ok(n) => {
                &&& n <= pre_buf.len()
                &&& n <= pre_avail.len()
                &&& post_buf == pre_avail.take(n as int) + pre_buf.skip(n as int)
                &&& post_avail == pre_avail.skip(n as int)
                &&& (n == 0 && pre_buf.len() > 0 ==> pre_avail.len() == 0)
            },
            Result::Err(_) => {
                &&& !always_ready
                &&& post_buf == pre_buf
                &&& post_avail == pre_avail
            },
        },
        Poll::Pending => {
            &&& !always_ready
            &&& post_buf == pre_buf
            &&& post_avail == pre_avail
        },
    }
}

/// A poll-based byte source.
pub trait Read: Sized {
    type Error: ReadError;

    /// The well-formedness this source maintains between polls.
    spec fn inv(&self) -> bool;

    /// The bytes this source stands ready to deliver, in order.
    spec fn avail(&self) -> Seq<u8>;

    /// Whether every poll of this source resolves immediately and
    /// successfully (true of memory-backed and loopback sources; a source
    /// that must wait for hardware suspends instead).
    spec fn always_ready(&self) -> bool;

    /// Read up to `buffer.len()` bytes into the front of `buffer`,
    /// returning how many were delivered.  The buffer keeps its length;
    /// bytes past the delivered count keep their old values.
    fn poll_read(&mut self, cx: Context, buffer: &mut Vec<u8>) -> (r: Poll<
        Result<usize, Self::Error>,
    >)
        requires
            old(self).inv(),
        ensures
            final(self).inv(),
            final(self).always_ready() == old(self).always_ready(),
            final(buffer).len() == old(buffer).len(),
            read_step(
                old(self).avail(),
                final(self).avail(),
                old(buffer)@,
                final(buffer)@,
                old(self).always_ready(),
                r,
            ),
    ;
}

/// What one successful or suspended write does to a sink: it accepts a
/// prefix of the offered bytes, in order; an acceptance of zero against a
/// non-empty offer happens only at a sink that permanently accepts
/// nothing.
pub open spec fn write_step<E>(
    pre_sunk: Seq<u8>,
    post_sunk: Seq<u8>,
    bytes: Seq<u8>,
    jammed: bool,
    always_ready: bool,
    r: Poll<Result<usize, E>>,
) -> bool {
    match r {
        Poll::Ready(res) => match res {
            Result::Ok(n) => {
                &&& n <= bytes.len()
                &&& post_sunk == pre_sunk + bytes.take(n as int)
                &&& (n == 0 && bytes.len() > 0 ==> jammed)
                &&& (jammed ==> n == 0)
            },
            Result::Err(_) => {
                &&& !always_ready
                &&& post_sunk == pre_sunk
            },
        },
        Poll::Pending => {
            &&& !always_ready
            &&& post_sunk == pre_sunk
        },
    }
}

/// A poll-based byte sink, with orderly termination.
pub trait Write: Sized {
    type Error: WriteError;

    /// The well-formedness this sink maintains between polls.
    spec fn inv(&self) -> bool;

    /// The bytes this sink has accepted so far, in order.
    spec fn sunk(&self) -> Seq<u8>;

    /// Whether this sink permanently accepts nothing (a closed or broken
    /// sink): only such a sink answers a non-empty write with zero.
    spec fn jammed(&self) -> bool;

    /// Whether every poll of this sink resolves immediately and
    /// successfully.
    spec fn always_ready(&self) -> bool;

    /// Whether this sink has been shut down.
    spec fn closed(&self) -> bool;

    /// Offer `bytes` to the sink, returning how many were accepted.
    fn poll_write(&mut self, cx: Context, bytes: &[u8]) -> (r: Poll<
        Result<usize, Self::Error>,
    >)
        requires
            old(self).inv(),
        ensures
            final(self).inv(),
            final(self).always_ready() == old(self).always_ready(),
            final(self).jammed() == old(self).jammed(),
            final(self).closed() == old(self).closed(),
            write_step(
                old(self).sunk(),
                final(self).sunk(),
                bytes@,
                old(self).jammed(),
                old(self).always_ready(),
                r,
            ),
    ;

    /// Push accepted bytes towards the hardware; accepts nothing new.
    fn poll_flush(&mut self, cx: Context) -> (r: Poll<Result<(), Self::Error>>)
        requires
            old(self).inv(),
        ensures
            final(self).inv(),
            final(self).sunk() == old(self).sunk(),
            final(self).always_ready() == old(self).always_ready(),
            final(self).jammed() == old(self).jammed(),
            final(self).closed() == old(self).closed(),
            r is Pending ==> !old(self).always_ready(),
            old(self).always_ready() ==> r matches Poll::Ready(Result::Ok(_)),
    ;

    /// Terminate the stream in an orderly way.
    fn poll_shutdown(&mut self, cx: Context) -> (r: Poll<Result<(), Self::Error>>)
        requires
            old(self).inv(),
        ensures
            final(self).inv(),
            final(self).sunk() == old(self).sunk(),
            final(self).always_ready() == old(self).always_ready(),
            final(self).jammed() == old(self).jammed(),
            r matches Poll::Ready(Result::Ok(_)) ==> final(self).closed(),
            r is Pending ==> !old(self).always_ready(),
            old(self).always_ready() ==> r matches Poll::Ready(Result::Ok(_)),
    ;

    /// Close the stream; equivalent in effect to an orderly shutdown.
    fn poll_close(&mut self, cx: Context) -> (r: Poll<Result<(), Self::Error>>)
        requires
            old(self).inv(),
        ensures
            final(self).inv(),
            final(self).sunk() == old(self).sunk(),
            final(self).always_ready() == old(self).always_ready(),
            final(self).jammed() == old(self).jammed(),
            r matches Poll::Ready(Result::Ok(_)) ==> final(self).closed(),
            r is Pending ==> !old(self).always_ready(),
            old(self).always_ready() ==> r matches Poll::Ready(Result::Ok(_)),
    ;
}

/// Whole-buffer read operations, derived from `Read`.
pub trait ReadExt: Read {
    /// A single read into `buffer`, as a pollable unit.
    fn read(self, buffer: Vec<u8>) -> (f: read::Read<Self>)
        requires
            self.inv(),
        ensures
            f.reader == self,
            f.buffer == buffer,
    {
        read::read(self, buffer)
    }

    /// Fill `buffer` completely, as a pollable unit that reads until the
    /// buffer is full or the source signals end of stream.
    fn read_exact(self, buffer: Vec<u8>) -> (f: read_exact::ReadExact<Self>)
        requires
            self.inv(),
        ensures
            f.reader == self,
            f.buffer == buffer,
            f.filled == 0,
    {
        read_exact::read_exact(self, buffer)
    }
}

impl<A: Read> ReadExt for A {

}

/// Whole-buffer write operations, derived from `Write`.
pub trait WriteExt: Write {
    /// A single write of `bytes`, as a pollable unit.
    fn write(self, bytes: Vec<u8>) -> (f: write::Write<Self>)
        requires
            self.inv(),
        ensures
            f.writer == self,
            f.bytes == bytes,
    {
        write::write(self, bytes)
    }

    /// Write all of `bytes`, as a pollable unit that writes until every
    /// byte is accepted or the sink signals a zero-byte write.
    fn write_all(self, bytes: Vec<u8>) -> (f: write_all::WriteAll<Self>)
        requires
            self.inv(),
        ensures
            f.writer == self,
            f.bytes == bytes,
            f.written == 0,
    {
        write_all::write_all(self, bytes)
    }

    /// An orderly termination, as a pollable unit.
    fn shutdown(self) -> (f: shutdown::Shutdown<Self>)
        requires
            self.inv(),
        ensures
            f.writer == self,
    {
        shutdown::shutdown(self)
    }
}

impl<A: Write> WriteExt for A {

}

} // verus!
