//! Constants of the Sparrow runtime.

pub mod currency;
pub mod params;
pub mod time;
