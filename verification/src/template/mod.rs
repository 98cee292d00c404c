//! Constants of the template runtime.

pub mod currency;
pub mod params;
pub mod time;
