//! Driver for a 16-line SPI I/O expander chip (two 8-bit ports) shared by
//! many lightweight pin views.
//!
//! All bus traffic is 3-byte transactions: a command byte that encodes the
//! chip's hardware address and the transfer direction, a register address,
//! and one data byte.  The [`codec`] module holds that encoding and the
//! read-modify-write bit arithmetic; [`model`] states the chip's register
//! semantics and the laws the driver relies on; [`expander`] owns the shared
//! transport behind a lock and issues the pin views.

pub mod bus;
pub mod codec;
pub mod error;
pub mod expander;
pub mod model;
pub mod render;

pub use codec::read_cmd;
pub use codec::write_cmd;
pub use codec::IoValue;
pub use codec::PortLabel;
pub use error::ExpanderError;
pub use expander::Expander;
pub use expander::Pin;
pub use expander::Reader;
pub use expander::Writer;
