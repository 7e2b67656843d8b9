//! Hardware abstraction layer for PAC25 microcontrollers: clock tree
//! configuration and typed GPIO pins over an explicit model of the device
//! registers.
//!
//! The drivers here never touch the device. Each works on the registers of
//! its peripheral held as plain values, and journals every write it makes,
//! in order. Whoever binds the drivers to a device reads the registers into
//! these values before a call and replays the journal on the device after
//! it.

pub mod crc;
pub mod gpio;
pub mod scc;
pub mod sealed;
pub mod ssp;
pub mod time;
pub mod uart;
pub mod watchdog;

pub use sealed::Sealed;
