//! Verified core of the sensor evaluation tool chain: decoding of raw IMU
//! recordings, axis remapping, time lookups and the small pieces of
//! integer arithmetic the plotting and simulation front ends rely on.

pub mod error;
pub mod axismap;
pub mod data;
pub mod filtering;
pub mod graphics;
pub mod imu;
pub mod numeric;
pub mod recording;
pub mod state;

pub use error::Error;
