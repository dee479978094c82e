//! The closed catalog of device registers and their 16-bit wire addresses.

use vstd::prelude::*;

verus! {

/// A register on the motor controller. Addresses run from 0x00 to 0x19;
/// anything outside the catalog is rejected during decoding, never accepted
/// silently. The value domains noted here are documented device behaviour,
/// not mechanically enforced by this engine.
#[derive(PartialEq, Eq, Clone, Copy, Debug, Structural)]
pub enum ModbusRegister {
    /// Write 1 to enable register-level (Modbus) control, 0 to disable.
    EnableModbus,
    /// Write 1 to enable the motor, 0 to disable.
    EnableMotor,
    /// Target speed, 0 to 3000 rotations per minute.
    MotorTargetSpeed,
    /// Acceleration, 0 to 60000 rotations per minute per second.
    MotorAcceleration,
    /// Initial speed, 0 to 500 rotations per minute.
    MotorInitialSpeed,
    /// Speed-loop proportional coefficient; 0 to 10000 maps to 0.0 to 10.0.
    MotorSpeedLoopProportionalCoefficeient,
    /// Speed-loop integration time, 2 to 2000 milliseconds.
    MotorSpeedLoopIntegrationTime,
    /// Position-loop proportional coefficient, 60 to 5000.
    MotorPositionLoopProportianalCoefficeient,
    /// Speed feed-forward, 0 to 8.0 volts per 1000 rotations per minute.
    MotorSpeedFeedForwardVoltage,
    /// Write 0 for clockwise rotation, 1 for anti-clockwise.
    MotorDirectionPolarity,
    /// Electronic gear numerator, high 16 bits.
    MotorElectronicGearHigh,
    /// Electronic gear numerator, low 16 bits.
    MotorElectronicGearLow,
    /// Read-only target position, low 16 bits.
    MotorTargetPostionLow,
    /// Read-only target position, high 16 bits.
    MotorTargetPostionHigh,
    /// Read-only alarm code; decoded by the status module.
    MotorAlarmCode,
    /// Read-only motor current, 0 to 32767; amperes are the value / 2000.
    MotorI,
    /// Read-only current speed, -30000 to 30000 rotations per minute.
    MotorCurrentSpeed,
    /// Read-only motor voltage, 0 to 32767; volts are the value / 327.
    MotorV,
    /// Read-only system temperature, 0 to 100 degrees.
    SystemTemperature,
    /// Read-only output PWM; -32768 to 32767 maps to -100% to 100%.
    SystemOutputPWM,
    /// Parameter saving flag: 0 unsaved, 1 saving, 2 saved.
    ParameterSavingFlag,
    /// Read-only bus address of this device, 0 to 255.
    DeviceAddress,
    /// Absolute position in encoder steps, low 16 bits.
    MotorAbsolutePositionLow,
    /// Absolute position in encoder steps, high 16 bits.
    MotorAbsolutePositionHigh,
    /// Speed filter frequency, 1 to 2000; the device default is 100.
    MotorSpeedFilterFrequency,
    /// Special homing functions; values 1 to 3 select a behaviour.
    MotorSpecialFunction,
}

impl ModbusRegister {
    /// The wire address of each register.
    pub open spec fn spec_code(self) -> u16 {
        match self {
            ModbusRegister::EnableModbus => 0x00,
            ModbusRegister::EnableMotor => 0x01,
            ModbusRegister::MotorTargetSpeed => 0x02,
            ModbusRegister::MotorAcceleration => 0x03,
            ModbusRegister::MotorInitialSpeed => 0x04,
            ModbusRegister::MotorSpeedLoopProportionalCoefficeient => 0x05,
            ModbusRegister::MotorSpeedLoopIntegrationTime => 0x06,
            ModbusRegister::MotorPositionLoopProportianalCoefficeient => 0x07,
            ModbusRegister::MotorSpeedFeedForwardVoltage => 0x08,
            ModbusRegister::MotorDirectionPolarity => 0x09,
            ModbusRegister::MotorElectronicGearHigh => 0x0A,
            ModbusRegister::MotorElectronicGearLow => 0x0B,
            ModbusRegister::MotorTargetPostionLow => 0x0C,
            ModbusRegister::MotorTargetPostionHigh => 0x0D,
            ModbusRegister::MotorAlarmCode => 0x0E,
            ModbusRegister::MotorI => 0x0F,
            ModbusRegister::MotorCurrentSpeed => 0x10,
            ModbusRegister::MotorV => 0x11,
            ModbusRegister::SystemTemperature => 0x12,
            ModbusRegister::SystemOutputPWM => 0x13,
            ModbusRegister::ParameterSavingFlag => 0x14,
            ModbusRegister::DeviceAddress => 0x15,
            ModbusRegister::MotorAbsolutePositionLow => 0x16,
            ModbusRegister::MotorAbsolutePositionHigh => 0x17,
            ModbusRegister::MotorSpeedFilterFrequency => 0x18,
            ModbusRegister::MotorSpecialFunction => 0x19,
        }
    }

    /// The register a wire address names, if any.
    pub open spec fn spec_from_code(code: u16) -> Option<ModbusRegister> {
        match code {
            0x00 => Some(ModbusRegister::EnableModbus),
            0x01 => Some(ModbusRegister::EnableMotor),
            0x02 => Some(ModbusRegister::MotorTargetSpeed),
            0x03 => Some(ModbusRegister::MotorAcceleration),
            0x04 => Some(ModbusRegister::MotorInitialSpeed),
            0x05 => Some(ModbusRegister::MotorSpeedLoopProportionalCoefficeient),
            0x06 => Some(ModbusRegister::MotorSpeedLoopIntegrationTime),
            0x07 => Some(ModbusRegister::MotorPositionLoopProportianalCoefficeient),
            0x08 => Some(ModbusRegister::MotorSpeedFeedForwardVoltage),
            0x09 => Some(ModbusRegister::MotorDirectionPolarity),
            0x0A => Some(ModbusRegister::MotorElectronicGearHigh),
            0x0B => Some(ModbusRegister::MotorElectronicGearLow),
            0x0C => Some(ModbusRegister::MotorTargetPostionLow),
            0x0D => Some(ModbusRegister::MotorTargetPostionHigh),
            0x0E => Some(ModbusRegister::MotorAlarmCode),
            0x0F => Some(ModbusRegister::MotorI),
            0x10 => Some(ModbusRegister::MotorCurrentSpeed),
            0x11 => Some(ModbusRegister::MotorV),
            0x12 => Some(ModbusRegister::SystemTemperature),
            0x13 => Some(ModbusRegister::SystemOutputPWM),
            0x14 => Some(ModbusRegister::ParameterSavingFlag),
            0x15 => Some(ModbusRegister::DeviceAddress),
            0x16 => Some(ModbusRegister::MotorAbsolutePositionLow),
            0x17 => Some(ModbusRegister::MotorAbsolutePositionHigh),
            0x18 => Some(ModbusRegister::MotorSpeedFilterFrequency),
            0x19 => Some(ModbusRegister::MotorSpecialFunction),
            _ => None,
        }
    }

    /// Every register has an address: total, no failure case.
    pub fn get_code(&self) -> (r: u16)
        ensures
            r == self.spec_code(),
    {
        match self {
            ModbusRegister::EnableModbus => 0x00,
            ModbusRegister::EnableMotor => 0x01,
            ModbusRegister::MotorTargetSpeed => 0x02,
            ModbusRegister::MotorAcceleration => 0x03,
            ModbusRegister::MotorInitialSpeed => 0x04,
            ModbusRegister::MotorSpeedLoopProportionalCoefficeient => 0x05,
            ModbusRegister::MotorSpeedLoopIntegrationTime => 0x06,
            ModbusRegister::MotorPositionLoopProportianalCoefficeient => 0x07,
            ModbusRegister::MotorSpeedFeedForwardVoltage => 0x08,
            ModbusRegister::MotorDirectionPolarity => 0x09,
            ModbusRegister::MotorElectronicGearHigh => 0x0A,
            ModbusRegister::MotorElectronicGearLow => 0x0B,
            ModbusRegister::MotorTargetPostionLow => 0x0C,
            ModbusRegister::MotorTargetPostionHigh => 0x0D,
            ModbusRegister::MotorAlarmCode => 0x0E,
            ModbusRegister::MotorI => 0x0F,
            ModbusRegister::MotorCurrentSpeed => 0x10,
            ModbusRegister::MotorV => 0x11,
            ModbusRegister::SystemTemperature => 0x12,
            ModbusRegister::SystemOutputPWM => 0x13,
            ModbusRegister::ParameterSavingFlag => 0x14,
            ModbusRegister::DeviceAddress => 0x15,
            ModbusRegister::MotorAbsolutePositionLow => 0x16,
            ModbusRegister::MotorAbsolutePositionHigh => 0x17,
            ModbusRegister::MotorSpeedFilterFrequency => 0x18,
            ModbusRegister::MotorSpecialFunction => 0x19,
        }
    }

    /// Partial decode: an address outside the catalog yields `None`, never a
    /// default register. Callers treat `None` as a decode failure.
    pub fn from_code(code: u16) -> (r: Option<ModbusRegister>)
        ensures
            r == Self::spec_from_code(code),
    {
        match code {
            0x00 => Some(ModbusRegister::EnableModbus),
            0x01 => Some(ModbusRegister::EnableMotor),
            0x02 => Some(ModbusRegister::MotorTargetSpeed),
            0x03 => Some(ModbusRegister::MotorAcceleration),
            0x04 => Some(ModbusRegister::MotorInitialSpeed),
            0x05 => Some(ModbusRegister::MotorSpeedLoopProportionalCoefficeient),
            0x06 => Some(ModbusRegister::MotorSpeedLoopIntegrationTime),
            0x07 => Some(ModbusRegister::MotorPositionLoopProportianalCoefficeient),
            0x08 => Some(ModbusRegister::MotorSpeedFeedForwardVoltage),
            0x09 => Some(ModbusRegister::MotorDirectionPolarity),
            0x0A => Some(ModbusRegister::MotorElectronicGearHigh),
            0x0B => Some(ModbusRegister::MotorElectronicGearLow),
            0x0C => Some(ModbusRegister::MotorTargetPostionLow),
            0x0D => Some(ModbusRegister::MotorTargetPostionHigh),
            0x0E => Some(ModbusRegister::MotorAlarmCode),
            0x0F => Some(ModbusRegister::MotorI),
            0x10 => Some(ModbusRegister::MotorCurrentSpeed),
            0x11 => Some(ModbusRegister::MotorV),
            0x12 => Some(ModbusRegister::SystemTemperature),
            0x13 => Some(ModbusRegister::SystemOutputPWM),
            0x14 => Some(ModbusRegister::ParameterSavingFlag),
            0x15 => Some(ModbusRegister::DeviceAddress),
            0x16 => Some(ModbusRegister::MotorAbsolutePositionLow),
            0x17 => Some(ModbusRegister::MotorAbsolutePositionHigh),
            0x18 => Some(ModbusRegister::MotorSpeedFilterFrequency),
            0x19 => Some(ModbusRegister::MotorSpecialFunction),
            _ => None,
        }
    }
}

/// Every register decodes back from its own address: each symbol maps to
/// exactly one address and that address maps back to the symbol.
pub proof fn lemma_register_code_round_trip(r: ModbusRegister)
    ensures
        ModbusRegister::spec_from_code(r.spec_code()) == Some(r),
{
}

/// A wire address names at most one register: whatever decodes from an
/// address encodes back to that same address.
pub proof fn lemma_register_code_unique(code: u16, r: ModbusRegister)
    requires
        ModbusRegister::spec_from_code(code) == Some(r),
    ensures
        r.spec_code() == code,
{
}

} // verus!
