//! Frequency and duration values, with unit-suffix construction helpers.

use vstd::prelude::*;

verus! {

/// A frequency, in whole hertz.
#[derive(Clone, Copy, Debug, PartialEq, Eq, Structural)]
pub struct Rate {
    hz: u32,
}

/// A span of time, in whole nanoseconds.
#[derive(Clone, Copy, Debug, PartialEq, Eq, Structural)]
pub struct Duration {
    nanos: u32,
}

impl Rate {
    /// The frequency as a spec-level count of hertz.
    pub closed spec fn hz_spec(self) -> u32 {
        self.hz
    }

    /// A frequency of `hz` hertz.
    pub fn from_hz(hz: u32) -> (r: Rate)
        ensures
            r.hz_spec() == hz,
    {
        Rate { hz }
    }

    /// The frequency in hertz.
    pub fn as_hz(self) -> (hz: u32)
        ensures
            hz == self.hz_spec(),
    {
        self.hz
    }
}

impl Duration {
    /// The span as a spec-level count of nanoseconds.
    pub closed spec fn nanos_spec(self) -> u32 {
        self.nanos
    }

    /// A duration of `nanos` nanoseconds.
    pub fn from_nanos(nanos: u32) -> (d: Duration)
        ensures
            d.nanos_spec() == nanos,
    {
        Duration { nanos }
    }

    /// A duration of `millis` milliseconds.
    pub fn from_millis(millis: u32) -> (d: Duration)
        requires
            millis * 1000000 <= u32::MAX,
        ensures
            d.nanos_spec() == millis * 1000000,
    {
        Duration { nanos: millis * 1000000 }
    }

    /// A duration of `seconds` seconds.
    pub fn from_seconds(seconds: u32) -> (d: Duration)
        requires
            seconds * 1000000000 <= u32::MAX,
        ensures
            d.nanos_spec() == seconds * 1000000000,
    {
        Duration { nanos: seconds * 1000000000 }
    }

    /// The span in nanoseconds.
    pub fn as_nanos(self) -> (nanos: u32)
        ensures
            nanos == self.nanos_spec(),
    {
        self.nanos
    }
}

/// Unit-suffix construction of frequencies from whole numbers.
pub trait U32Ext: Sized {
    /// The number of hertz this value stands for.
    spec fn hertz(self) -> u32;

    /// The value as a frequency in hertz.
    fn hz(self) -> (r: Rate)
        ensures
            r.hz_spec() == self.hertz(),
    ;
}

impl U32Ext for u32 {
    open spec fn hertz(self) -> u32 {
        self
    }

    fn hz(self) -> (r: Rate) {
        Rate::from_hz(self)
    }
}

} // verus!
