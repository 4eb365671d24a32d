//! The platform contract: one-time acquisition of a device's full
//! peripheral singleton set.
//!
//! A platform value owns every peripheral of the device; individual
//! peripherals are then taken out of it, each exactly once.  The
//! acquisition itself is also exactly-once per power-up: it consumes
//! the boot evidence, so a second acquisition before teardown — a
//! wiring defect, fatal on hardware — is excluded by precondition.
//! The top-level entry point that builds the adapter around an
//! application task and hands it to the executor is hardware wiring
//! and lives with the surrounding program.

use vstd::prelude::*;

use crate::task::Context;
use crate::task::Poll;

pub mod initialize;

verus! {

/// Evidence of one power-up of the device.  Hardware reset stands for
/// the one place such a value legitimately comes from; acquiring the
/// peripheral set claims it, and it cannot be unclaimed.
pub struct Boot {
    claimed: bool,
}

impl Boot {
    /// Whether the peripheral set of this power-up has been acquired.
    pub closed spec fn claimed(self) -> bool {
        self.claimed
    }

    /// The evidence a power-up produces: nothing acquired yet.
    pub fn new() -> (b: Boot)
        ensures
            !b.claimed(),
    {
        Boot { claimed: false }
    }

    /// Consume the boot: a platform's acquisition calls this as it
    /// takes the hardware singletons.
    pub fn claim(&mut self)
        requires
            !old(self).claimed(),
        ensures
            final(self).claimed(),
    {
        self.claimed = true;
    }
}

/// A device's peripheral singleton set, acquired exactly once per
/// power-up.
pub trait Platform: Sized {
    type Error;

    /// The well-formedness a freshly initialized platform grants.
    spec fn inv(&self) -> bool;

    /// What initialization produces.
    spec fn initialize_spec(r: Poll<Result<Self, Self::Error>>) -> bool;

    /// Acquire the full peripheral set, claiming the boot evidence.
    /// Acquiring it a second time in the same power-up is a wiring
    /// defect, excluded by the precondition rather than reported.
    fn poll_initialize(boot: &mut Boot, cx: Context) -> (r: Poll<Result<Self, Self::Error>>)
        requires
            !old(boot).claimed(),
        ensures
            r is Ready ==> final(boot).claimed(),
            r is Pending ==> !final(boot).claimed(),
            Self::initialize_spec(r),
            r matches Poll::Ready(Result::Ok(p)) ==> p.inv(),
    ;
}

/// Platform initialization, as a pollable unit.
pub trait PlatformExt: Platform {
    /// Wrap platform initialization as a pollable unit that owns the
    /// boot evidence.
    fn initialize(boot: Boot) -> (f: initialize::Initialize<Self>)
        requires
            !boot.claimed(),
        ensures
            f.pending_boot() matches Some(b) && !b.claimed(),
    {
        initialize::initialize(boot)
    }
}

impl<A: Platform> PlatformExt for A {

}

} // verus!
