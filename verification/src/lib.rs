//! Bus-level emulation of an SHTC3 temperature/humidity sensor on an I2C bus.
//!
//! The crate models one or more emulated sensor devices. Each device is a
//! small protocol state machine that consumes bus events (connect, read,
//! write, disconnect) and produces byte-exact responses for the two readable
//! registers, Product ID and Measurement. A registry owns the devices and
//! addresses them by integer handles.

pub mod protocol;
pub mod registers;
pub mod registry;
