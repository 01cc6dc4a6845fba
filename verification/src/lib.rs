//! Driver core for SSD1327 OLED panels on an I2C bus.
//!
//! The crate computes, byte for byte, every write that the panel has to
//! receive: the encoding of each command, the power-up sequence, the packed
//! 4-bit framebuffer and its full-frame transfer. It performs no bus access
//! itself. Each operation hands back the [`Transaction`]s to issue, and the
//! caller passes them to its I2C peripheral in the order given.

pub mod command;
pub mod driver;
pub mod framebuffer;
pub mod transaction;

pub use command::Commands;
pub use driver::{flush_result, DriverError, SSD1327I2C};
pub use framebuffer::{Framebuffer, Pixel};
pub use transaction::Transaction;
