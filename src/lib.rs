//! A simulated IoT peripheral: a sensor or a motor that answers text commands.
//!
//! The command dispatcher, the device state, the fixed-point numbers that the
//! motors keep, the response payloads and the connection lifecycle are verified
//! here; the broker connection, configuration and persistence live with the
//! program that embeds the library.

pub mod text;
pub mod decimal;
pub mod device_type;
pub mod motors;
pub mod sensors;
pub mod device;
pub mod session;
pub mod lifecycle;
