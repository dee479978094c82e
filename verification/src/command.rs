//! The closed catalog of protocol operations and their 1-byte wire codes.

use vstd::prelude::*;

verus! {

/// An operation the host can ask of a device. Only reading and writing a
/// register are fully specified by the device protocol; writing a location
/// and changing the bus address are reserved, and every attempt to use them
/// fails with an explicit error rather than silently doing nothing.
#[derive(PartialEq, Eq, Clone, Copy, Debug, Structural)]
pub enum ModbusCommand {
    ReadRegister,
    WriteRegister,
    WriteLocation,
    ChangeDeviceAddress,
}

impl ModbusCommand {
    /// The wire code of each operation.
    pub open spec fn spec_code(self) -> u8 {
        match self {
            ModbusCommand::ReadRegister => 0x03,
            ModbusCommand::WriteRegister => 0x06,
            ModbusCommand::WriteLocation => 0x78,
            ModbusCommand::ChangeDeviceAddress => 0x7A,
        }
    }

    /// The operation a wire code names, if any.
    pub open spec fn spec_from_code(code: u8) -> Option<ModbusCommand> {
        match code {
            0x03 => Some(ModbusCommand::ReadRegister),
            0x06 => Some(ModbusCommand::WriteRegister),
            0x78 => Some(ModbusCommand::WriteLocation),
            0x7A => Some(ModbusCommand::ChangeDeviceAddress),
            _ => None,
        }
    }

    /// Every operation has a code: total, no failure case.
    pub fn get_code(&self) -> (r: u8)
        ensures
            r == self.spec_code(),
    {
        match self {
            ModbusCommand::ReadRegister => 0x03,
            ModbusCommand::WriteRegister => 0x06,
            ModbusCommand::WriteLocation => 0x78,
            ModbusCommand::ChangeDeviceAddress => 0x7A,
        }
    }

    /// Partial decode: a code outside the catalog yields `None`, never a
    /// default operation. Callers treat `None` as a decode failure.
    pub fn from_code(code: u8) -> (r: Option<ModbusCommand>)
        ensures
            r == Self::spec_from_code(code),
    {
        match code {
            0x03 => Some(ModbusCommand::ReadRegister),
            0x06 => Some(ModbusCommand::WriteRegister),
            0x78 => Some(ModbusCommand::WriteLocation),
            0x7A => Some(ModbusCommand::ChangeDeviceAddress),
            _ => None,
        }
    }
}

/// Encoding an operation and decoding the result gives the operation back:
/// each operation owns its wire code.
pub proof fn lemma_command_code_round_trip(c: ModbusCommand)
    ensures
        ModbusCommand::spec_from_code(c.spec_code()) == Some(c),
{
}

/// A wire code names at most one operation: whatever decodes from a code
/// encodes back to that same code.
pub proof fn lemma_command_code_unique(code: u8, c: ModbusCommand)
    requires
        ModbusCommand::spec_from_code(code) == Some(c),
    ensures
        c.spec_code() == code,
{
}

} // verus!
