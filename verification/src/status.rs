//! Classification of the device's 16-bit alarm code into a tri-level motor
//! status with named causes.

use vstd::prelude::*;

verus! {

/// A condition the device only warns about; motion may continue.
#[derive(PartialEq, Eq, Clone, Copy, Debug, Structural)]
pub enum MotorStatusWarning {
    HighTemperature,
    FlashWriteFailed,
}

/// A condition that calls for halting motion.
#[derive(PartialEq, Eq, Clone, Copy, Debug, Structural)]
pub enum MotorStatusFatal {
    Overheat,
    SystemStall,
    UnderVoltage,
    LoadTooHeavy,
}

/// The decoded alarm state of the motor. It is recomputed from the alarm
/// register on every status query, never stored.
#[derive(PartialEq, Eq, Clone, Copy, Debug, Structural)]
pub enum MotorStatus {
    Normal,
    Warning(MotorStatusWarning),
    Fatal(MotorStatusFatal),
}

impl MotorStatus {
    /// The status a raw alarm code names, if any.
    pub open spec fn spec_from_code(code: u16) -> Option<MotorStatus> {
        match code {
            0x00 => Some(MotorStatus::Normal),
            0x10 => Some(MotorStatus::Warning(MotorStatusWarning::HighTemperature)),
            0x20 => Some(MotorStatus::Warning(MotorStatusWarning::FlashWriteFailed)),
            0x11 => Some(MotorStatus::Fatal(MotorStatusFatal::Overheat)),
            0x12 => Some(MotorStatus::Fatal(MotorStatusFatal::SystemStall)),
            0x13 => Some(MotorStatus::Fatal(MotorStatusFatal::UnderVoltage)),
            0x14 => Some(MotorStatus::Fatal(MotorStatusFatal::LoadTooHeavy)),
            _ => None,
        }
    }

    /// True exactly for the fatal category; callers use it to decide whether
    /// to halt motion.
    pub fn is_fatal(&self) -> (r: bool)
        ensures
            r == (self is Fatal),
    {
        matches!(self, MotorStatus::Fatal(_))
    }

    /// Partial decode of the alarm register: an unknown code yields `None`,
    /// never a default status. Callers treat `None` as a decode failure.
    pub fn from_code(code: u16) -> (r: Option<MotorStatus>)
        ensures
            r == Self::spec_from_code(code),
    {
        match code {
            0x00 => Some(MotorStatus::Normal),
            0x10 => Some(MotorStatus::Warning(MotorStatusWarning::HighTemperature)),
            0x20 => Some(MotorStatus::Warning(MotorStatusWarning::FlashWriteFailed)),
            0x11 => Some(MotorStatus::Fatal(MotorStatusFatal::Overheat)),
            0x12 => Some(MotorStatus::Fatal(MotorStatusFatal::SystemStall)),
            0x13 => Some(MotorStatus::Fatal(MotorStatusFatal::UnderVoltage)),
            0x14 => Some(MotorStatus::Fatal(MotorStatusFatal::LoadTooHeavy)),
            _ => None,
        }
    }
}

} // verus!
