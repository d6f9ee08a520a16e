//! Decisions of the firmware tasks: PWM bit streams of the analog
//! outputs, DAC updates of the oscillator and the input handling.

pub mod analogout;
pub mod oscillator;
pub mod inputs;
pub mod history;

use vstd::prelude::*;

verus! {

pub const I2C_BUS_FREQUENCY_100_KBIT: u32 = 100_000;
pub const I2C_BUS_FREQUENCY_400_KBIT: u32 = 400_000;
pub const I2C_BUS_FREQUENCY_1_MBIT: u32 = 1_000_000;

/// PWM slots per TX FIFO word for each of the six outputs.
pub const PWM_TX_FIFO_VALUES: u8 = 5;
/// Largest PWM value: the number of slots of one PWM cycle.
pub const PWM_VALUE_MAX: u8 = 250;
pub const PWM_VALUE_MIN: u8 = 0;
/// Number of TX FIFO words of one PWM cycle (`PWM_VALUE_MAX / PWM_TX_FIFO_VALUES`).
pub const PWM_VALUE_CYCLE_MAX: u8 = 50;

pub const SAMPLE_BLOCK_SIZE: usize = 48;

pub const SM0_CLOCK_DIVIDER_48_KHZ: u32 = 48_000;
pub const SM1_CLOCK_DIVIDER_1_MHZ: u32 = 1_000_000;
pub const SM2_CLOCK_DIVIDER_4_MHZ: u32 = 4_000_000;
pub const SM2_CLOCK_DIVIDER_1_6_MHZ: u32 = 1_600_000;

pub const TICKER_EVERY_50_MICROS: u64 = 50;
pub const TICKER_EVERY_500_MICROS: u64 = 500;

} // verus!
