//! MCP4725 12-bit DAC: device addresses and the bytes of its requests.

use vstd::prelude::*;

verus! {

pub const MPC4725_GENERAL_COMMAND: u8 = 0x00;
pub const MPC4725_GENERAL_COMMAND_RESET: u8 = 0x06;
pub const MPC4725_GENERAL_COMMAND_WAKEUP: u8 = 0x09;
pub const MPC4725_WRITE_COMMAND_FAST: u8 = 0x00;
pub const MPC4725_WRITE_COMMAND_REGULAR: u8 = 0x40;
pub const MPC4725_WRITE_COMMAND_EEPROM: u8 = 0x50;

/// Default 7-bit device address.
pub const DEVICE_ADDR_DEFAULT: u16 = 0x62;
/// Secondary 7-bit device address.
pub const DEVICE_ADDR_SECONDARY: u16 = 0x63;

/// Which of the two addresses the DAC answers to.
#[derive(Clone, Copy, Debug, PartialEq, Eq, Structural)]
pub enum Mpc4725DeviceAddress {
    Default,
    Secondary,
}

impl Default for Mpc4725DeviceAddress {
    fn default() -> (r: Self)
        ensures
            r == Mpc4725DeviceAddress::Default,
    {
        Mpc4725DeviceAddress::Default
    }
}

/// The 7-bit bus address of a device address choice.
pub open spec fn device_addr_value(a: Mpc4725DeviceAddress) -> u16 {
    match a {
        Mpc4725DeviceAddress::Default => DEVICE_ADDR_DEFAULT,
        Mpc4725DeviceAddress::Secondary => DEVICE_ADDR_SECONDARY,
    }
}

impl Mpc4725DeviceAddress {
    /// The 7-bit bus address.
    pub fn value(&self) -> (r: u16)
        ensures
            r == device_addr_value(*self),
    {
        match *self {
            Self::Default => DEVICE_ADDR_DEFAULT,
            Self::Secondary => DEVICE_ADDR_SECONDARY,
        }
    }
}

/// First byte of a fast-mode write: fast command, power-down bits clear,
/// then bits 11..8 of the value.
pub open spec fn fast_write_byte1(value: u16) -> u8 {
    (MPC4725_WRITE_COMMAND_FAST | (((value >> 8u16) as u8) & 0xf)) as u8
}

/// MCP4725 DAC on an I2C bus.
///
/// Each request is returned as the bytes written to the device address;
/// the bus transfer is left to the caller.
pub struct Mpc4725 {
    device_addr: Mpc4725DeviceAddress,
}

impl Mpc4725 {
    pub closed spec fn device_addr_spec(&self) -> Mpc4725DeviceAddress {
        self.device_addr
    }

    /// A DAC at the given address. Bring it up by writing `wakeup` and then
    /// `reset`.
    pub fn new(device_addr: Mpc4725DeviceAddress) -> (r: Self)
        ensures
            r.device_addr_spec() == device_addr,
    {
        Mpc4725 { device_addr }
    }

    /// The 7-bit bus address the requests go to.
    pub fn address(&self) -> (r: u16)
        ensures
            r == device_addr_value(self.device_addr_spec()),
    {
        self.device_addr.value()
    }

    /// Bytes of the reset request.
    pub fn reset(&self) -> (r: [u8; 2])
        ensures
            r@ == seq![MPC4725_GENERAL_COMMAND, MPC4725_GENERAL_COMMAND_RESET],
    {
        [MPC4725_GENERAL_COMMAND, MPC4725_GENERAL_COMMAND_RESET]
    }

    /// Bytes of the wake-up request.
    pub fn wakeup(&self) -> (r: [u8; 2])
        ensures
            r@ == seq![MPC4725_GENERAL_COMMAND, MPC4725_GENERAL_COMMAND_WAKEUP],
    {
        [MPC4725_GENERAL_COMMAND, MPC4725_GENERAL_COMMAND_WAKEUP]
    }

    /// Bytes of a fast-mode write of a 12-bit value.
    pub fn write_dac_value_fast(&self, value: u16) -> (r: [u8; 2])
        ensures
            r@ == seq![fast_write_byte1(value), (value & 0xff) as u8],
    {
        let data_byte1: u8 = MPC4725_WRITE_COMMAND_FAST | (((value >> 8u16) as u8) & 0xf);
        let data_byte2: u8 = (value & 0xff) as u8;
        [data_byte1, data_byte2]
    }

    /// Bytes of a regular write (DAC register): the write command, the
    /// value's high byte, and its low nibble shifted into the high nibble.
    pub fn write_dac_value_regular(&self, value: u16) -> (r: [u8; 3])
        ensures
            r@ == seq![
                MPC4725_WRITE_COMMAND_REGULAR,
                (value >> 8u16) as u8,
                (((value & 0xf) as u8) << 4u8) as u8,
            ],
    {
        let data_byte1: u8 = MPC4725_WRITE_COMMAND_REGULAR;
        let data_byte2: u8 = (value >> 8u16) as u8;
        let data_byte3: u8 = ((value & 0xf) as u8) << 4u8;
        [data_byte1, data_byte2, data_byte3]
    }
}

/// A fast-mode write carries the 12-bit value: bits 11..8 in the low
/// nibble of the first byte, bits 7..0 in the second, and the first byte's
/// command and power-down bits are clear.
pub proof fn lemma_fast_write_carries_value(value: u16)
    ensures
        (fast_write_byte1(value) as int % 16) * 256 + ((value & 0xff) as u8) as int == (value & 0xfff) as int,
        fast_write_byte1(value) < 16,
{
    assert(((MPC4725_WRITE_COMMAND_FAST | (((value >> 8u16) as u8) & 0xf)) as u8) % 16 * 256
        + ((value & 0xff) as u8) == value & 0xfff) by (bit_vector);
    assert(((MPC4725_WRITE_COMMAND_FAST | (((value >> 8u16) as u8) & 0xf)) as u8) < 16) by (bit_vector);
}

} // verus!
