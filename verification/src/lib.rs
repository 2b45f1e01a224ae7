//! Driver core for a single-wire humidity/temperature sensor and a flame
//! monitor with an audible alarm.
//!
//! The crate holds the protocol logic only. It never touches a pin: the
//! caller samples the line and performs the actions that the engines ask
//! for, so every decision here is a function of plain values.

pub mod clock;
pub mod error;
pub mod sensors;

pub use sensors::dht11::Dht11Data;
pub use sensors::fire::FireSensorData;
