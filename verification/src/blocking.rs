//! Blocking API: traits whose methods return only when the operation has completed.
pub mod can;
pub mod dac;
pub mod i2c;
pub mod i2s;
pub mod rng;
pub mod serial;
pub mod spi;
