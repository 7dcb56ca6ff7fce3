//! Drivers for a family of small-board peripherals: an addressed-register
//! I2C hygro/thermometer, a combined accelerometer/magnetometer/thermometer,
//! a bit-banged single-wire hygro/thermometer, and a monochrome display
//! controller.
//!
//! The drivers are written once against two transport capability contracts
//! (an addressed register bus, and a timed bidirectional pin); the platform
//! supplies the concrete transports by implementing those traits.

pub mod am2320;
pub mod bus;
pub mod codec;
pub mod dht11;
pub mod lsm303d;
pub mod pcd8544;
pub mod sensors;
