//! Bus-level encodings for the attached devices.

pub mod i2c;
