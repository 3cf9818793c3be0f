//! Drivers of the devices on the I2C bus. A driver decides which transfer comes next and what a
//! reply means; the transfers themselves are made by whoever owns the bus.
pub mod at42qt;
pub mod pca9544;
