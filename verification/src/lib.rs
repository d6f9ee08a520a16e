//! Verified core of a EuroPi-style synthesizer module: integer noise
//! generation state, SSD1306 display command framing and frame-buffer
//! drawing, MCP4725 DAC request encoding, the PIO I2C transfer layout and
//! the PWM bit-stream scheduling of the analog outputs.

pub mod audio;
pub mod io;
pub mod tasks;
pub mod controls;
pub mod flash;
