//! Host-side driver core for a multi-protocol bus adapter that speaks a framed
//! request/response protocol over a serial byte channel.
//!
//! The crate performs no I/O. It builds the logical request packets, frames
//! and unframes the bytes that travel on the channel, judges the response
//! packets, and drives multi-step bus transactions as state machines whose
//! steps the caller carries out on the channel.

pub mod bpio;
pub mod buspirate;
pub mod error;
pub mod framing;
pub mod i2c;
pub mod modes;
pub mod spi;
pub mod transaction;
pub mod util;

pub use bpio::{
    BitOrder, Configuration, IoConfig, IoDirection, LogicLevel, ModeConfiguration, PsuConfig,
};
pub use buspirate::{open, BusPirate, ModeChange};
pub use error::{Error, FramingError};
pub use framing::{EncodedRequest, FrameDecoder, Response};
pub use util::{ChipSelectPolarity, ClockPhase, ClockPolarity};
