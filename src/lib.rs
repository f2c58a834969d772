//! Decoding of environmental sensor beacon advertisements into fixed-point
//! readings, and the pure decisions around serving them over HTTP.
//!
//! Every fractional quantity is held as an integer number of thousandths of
//! its unit (milli-degrees, milli-percent, milli-g, millivolts), so that the
//! decoders are exact and total.

pub mod fields;
pub mod ruuvi3;
pub mod ruuvi5;
pub mod device;
pub mod config;
pub mod conn;
pub mod server;
