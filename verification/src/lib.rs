//! Verified register-level logic for the Phytium Pi I2C controller
//! (DesignWare-style), together with the small pieces of the watchdog and
//! PL061 GPIO drivers that compute register values.
//!
//! Memory-mapped I/O does not happen here: every driver operation is planned
//! as a sequence of [`regs::RegOp`]s computed from register values that the
//! caller has read, and polling loops are state machines that the caller
//! steps with each new register reading.

pub mod field;
pub mod regs;
pub mod speed;
pub mod frame;
pub mod i2c;
pub mod wdt;
pub mod pl061;
