//! I2C transfers: the PIO I2C transfer layout and the devices on the bus.

pub mod i2cpio;
pub mod ssd1306;
pub mod mpc4725;
pub mod i2cio;
