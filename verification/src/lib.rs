//! An asynchronous hardware-abstraction core for single-threaded,
//! interrupt-woken microcontroller firmware.
//!
//! The crate provides the minimal suspend/resume machinery that turns a
//! step-wise computation into a pollable unit, a family of poll-based
//! capability contracts for byte I/O, GPIO pins (with configuration
//! transitions checked at the type level), I2C, SPI and timers, and the
//! interrupt-to-waker handoff that lets a peripheral interrupt handler
//! resume a suspended operation without losing a wakeup.  A simulated
//! platform implements every contract against in-memory peripherals.

pub mod executor;
pub mod future;
pub mod gpio;
pub mod i2c;
pub mod interrupt;
pub mod io;
pub mod platform;
pub mod sim;
pub mod spi;
pub mod task;
pub mod time;
pub mod timer;

pub use platform::Platform;
