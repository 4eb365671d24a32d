//! A simulated platform: in-memory peripherals that implement every
//! contract of the library against plain state, so that the executor,
//! the adapters and the derived operations can be exercised without
//! hardware.  The simulated interrupt handlers are ordinary functions
//! that the surrounding harness calls where real hardware would raise
//! an interrupt.

pub mod board;
pub mod error;
pub mod i2c;
pub mod pin;
pub mod serial;
pub mod spi;
pub mod timer;
