//! The registers of the colour sensor: the bytes that ask for them and
//! what their contents mean.

use vstd::prelude::*;

verus! {

/// Address of the sensor on the bus.
pub const DEVICE_ADDRESS: u8 = 0x29;

/// Bit that marks a byte as a command.
pub const CMD: u8 = 0x80;

/// Bits that ask for consecutive registers.
pub const CMD_AUTO_INC: u8 = 0x20;

/// Bit of the status register that tells that a measurement is complete.
pub const RGBC_VALID: u8 = 0x01;

/// Register that holds the part number.
pub const REGISTER_ID: u8 = 0x12;

/// Register that holds the status.
pub const REGISTER_STATUS: u8 = 0x13;

/// First register of the clear channel.
pub const REGISTER_CDATA: u8 = 0x14;

/// First register of the red channel.
pub const REGISTER_RDATA: u8 = 0x16;

/// First register of the green channel.
pub const REGISTER_GDATA: u8 = 0x18;

/// First register of the blue channel.
pub const REGISTER_BDATA: u8 = 0x1a;

/// One measurement of all four channels.
#[derive(Clone, Copy, Debug, PartialEq, Eq, Structural)]
pub struct AllChannelMeasurement {
    pub red: u16,
    pub green: u16,
    pub blue: u16,
    pub clear: u16,
}

/// The number whose low byte is `low` and whose high byte is `high`.
pub open spec fn spec_channel(low: u8, high: u8) -> u16 {
    (high * 256 + low) as u16
}

/// The byte that asks for the register `register`: the number of the
/// register with the command bit set.
pub open spec fn spec_register_command(register: u8) -> u8 {
    CMD | register
}

/// The byte that asks for the registers from `first_register` on: the
/// number of the register with the command bit and the bits for
/// consecutive registers set.
pub open spec fn spec_registers_command(first_register: u8) -> u8 {
    CMD | CMD_AUTO_INC | first_register
}

/// The number whose low byte is `low` and whose high byte is `high`.
pub fn channel_value(low: u8, high: u8) -> (value: u16)
    ensures
        value == spec_channel(low, high),
{
    (high as u16) * 256 + low as u16
}

/// The byte that asks for one register.
pub fn register_command(register: u8) -> (command: u8)
    ensures
        command == spec_register_command(register),
{
    CMD | register
}

/// The byte that asks for consecutive registers.
pub fn registers_command(first_register: u8) -> (command: u8)
    ensures
        command == spec_registers_command(first_register),
{
    CMD | CMD_AUTO_INC | first_register
}

/// Whether a status byte tells that a measurement is complete.
pub fn is_rgbc_status_valid(status: u8) -> (valid: bool)
    ensures
        valid == ((status & RGBC_VALID) != 0),
{
    (status & RGBC_VALID) != 0
}

/// The bit that tells a complete measurement is the lowest one, so a
/// status tells it exactly when it is odd; and for a register number under
/// 32 the command bits lie above the number, so setting them adds them.
pub proof fn lemma_register_bits(byte: u8)
    ensures
        ((byte & RGBC_VALID) != 0) == (byte % 2 == 1),
        byte < 32 ==> spec_register_command(byte) == 0x80 + byte,
        byte < 32 ==> spec_registers_command(byte) == 0xa0 + byte,
{
    assert(((byte & 0x01) != 0) == (byte % 2 == 1)) by (bit_vector);
    assert(byte < 32 ==> (0x80u8 | byte) == 0x80 + byte) by (bit_vector);
    assert(byte < 32 ==> (0x80u8 | 0x20u8 | byte) == 0xa0 + byte) by (bit_vector);
}

/// The measurement that the eight data registers hold, the clear channel
/// first, then red, green and blue, each low byte first.
pub fn all_channels(data: &[u8; 8]) -> (measurement: AllChannelMeasurement)
    ensures
        measurement == (AllChannelMeasurement {
            clear: spec_channel(data[0], data[1]),
            red: spec_channel(data[2], data[3]),
            green: spec_channel(data[4], data[5]),
            blue: spec_channel(data[6], data[7]),
        }),
{
    AllChannelMeasurement {
        clear: channel_value(data[0], data[1]),
        red: channel_value(data[2], data[3]),
        green: channel_value(data[4], data[5]),
        blue: channel_value(data[6], data[7]),
    }
}

} // verus!
