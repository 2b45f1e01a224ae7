//! The two sensor engines and the line vocabulary they share.

pub mod dht11;
pub mod fire;
pub mod line;
pub mod wire;
pub mod worker;
