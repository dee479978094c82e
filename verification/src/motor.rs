//! Motor-level operations phrased as register requests, and the reading of
//! their replies.
//!
//! Each operation of the driver is one register read or write (position,
//! which spans two 16-bit registers, takes two sequential reads: the
//! transport allows only one outstanding request). The functions here build
//! the request for each operation and turn the correlated response back
//! into the operation's result; the caller that owns the transport carries
//! each request through a [`crate::session::Exchange`].

use vstd::prelude::*;

use crate::command::ModbusCommand;
use crate::error::Error;
use crate::error::ErrorKind;
use crate::message::ModbusHostMessage;
use crate::register::ModbusRegister;
use crate::response::ModbusWorkerMessage;
use crate::response::WorkerMessageModel;
use crate::status::MotorStatus;
use crate::wire::be16;
use crate::wire::spec_be16;

verus! {

/// The protocol half of a motor session: it knows which device it speaks
/// for and phrases every motor-level operation as a register request. The
/// transport half — whoever owns the serial port — exchanges the frames.
pub struct MotorProtocol {
    /// The bus address of the device this session drives.
    pub device_address: u8,
}

impl MotorProtocol {
    /// A request writing `value` to `register` on this session's device.
    pub open spec fn spec_write(self, register: ModbusRegister, value: u16) -> ModbusHostMessage {
        ModbusHostMessage {
            device_address: self.device_address,
            command: ModbusCommand::WriteRegister,
            register,
            value,
        }
    }

    /// A request reading one 16-bit word from `register` on this session's
    /// device.
    pub open spec fn spec_read(self, register: ModbusRegister) -> ModbusHostMessage {
        ModbusHostMessage {
            device_address: self.device_address,
            command: ModbusCommand::ReadRegister,
            register,
            value: 1,
        }
    }

    /// Enter register-level control: write 1 to the mode register.
    pub fn enable_modbus_message(&self) -> (m: ModbusHostMessage)
        ensures
            m == self.spec_write(ModbusRegister::EnableModbus, 1),
    {
        ModbusHostMessage {
            device_address: self.device_address,
            command: ModbusCommand::WriteRegister,
            register: ModbusRegister::EnableModbus,
            value: 1,
        }
    }

    /// Enable the motor: write 1 to the enable register.
    pub fn set_motor_enabled_message(&self) -> (m: ModbusHostMessage)
        ensures
            m == self.spec_write(ModbusRegister::EnableMotor, 1),
    {
        ModbusHostMessage {
            device_address: self.device_address,
            command: ModbusCommand::WriteRegister,
            register: ModbusRegister::EnableMotor,
            value: 1,
        }
    }

    /// Disable the motor: write 0 to the enable register.
    pub fn set_motor_disabled_message(&self) -> (m: ModbusHostMessage)
        ensures
            m == self.spec_write(ModbusRegister::EnableMotor, 0),
    {
        ModbusHostMessage {
            device_address: self.device_address,
            command: ModbusCommand::WriteRegister,
            register: ModbusRegister::EnableMotor,
            value: 0,
        }
    }

    /// Ask for the current speed register.
    pub fn get_rpm_message(&self) -> (m: ModbusHostMessage)
        ensures
            m == self.spec_read(ModbusRegister::MotorCurrentSpeed),
    {
        ModbusHostMessage {
            device_address: self.device_address,
            command: ModbusCommand::ReadRegister,
            register: ModbusRegister::MotorCurrentSpeed,
            value: 1,
        }
    }

    /// Set the target speed, in rotations per minute. The device takes the
    /// signed speed as its two's-complement bit pattern.
    pub fn set_rpm_message(&self, speed: i16) -> (m: ModbusHostMessage)
        ensures
            m == self.spec_write(ModbusRegister::MotorTargetSpeed, speed as u16),
    {
        ModbusHostMessage {
            device_address: self.device_address,
            command: ModbusCommand::WriteRegister,
            register: ModbusRegister::MotorTargetSpeed,
            value: speed as u16,
        }
    }

    /// Ask for the low word of the absolute position.
    pub fn get_position_low_message(&self) -> (m: ModbusHostMessage)
        ensures
            m == self.spec_read(ModbusRegister::MotorAbsolutePositionLow),
    {
        ModbusHostMessage {
            device_address: self.device_address,
            command: ModbusCommand::ReadRegister,
            register: ModbusRegister::MotorAbsolutePositionLow,
            value: 1,
        }
    }

    /// Ask for the high word of the absolute position.
    pub fn get_position_high_message(&self) -> (m: ModbusHostMessage)
        ensures
            m == self.spec_read(ModbusRegister::MotorAbsolutePositionHigh),
    {
        ModbusHostMessage {
            device_address: self.device_address,
            command: ModbusCommand::ReadRegister,
            register: ModbusRegister::MotorAbsolutePositionHigh,
            value: 1,
        }
    }

    /// Ask for the alarm-code register; its value is decoded by
    /// [`status_from_response`].
    pub fn get_status_message(&self) -> (m: ModbusHostMessage)
        ensures
            m == self.spec_read(ModbusRegister::MotorAlarmCode),
    {
        ModbusHostMessage {
            device_address: self.device_address,
            command: ModbusCommand::ReadRegister,
            register: ModbusRegister::MotorAlarmCode,
            value: 1,
        }
    }

    /// Set the position-loop proportional coefficient.
    pub fn set_position_gain_message(&self, gain: i16) -> (m: ModbusHostMessage)
        ensures
            m == self.spec_write(
                ModbusRegister::MotorPositionLoopProportianalCoefficeient,
                gain as u16,
            ),
    {
        ModbusHostMessage {
            device_address: self.device_address,
            command: ModbusCommand::WriteRegister,
            register: ModbusRegister::MotorPositionLoopProportianalCoefficeient,
            value: gain as u16,
        }
    }

    /// Set the position feed-forward term. The register written here is the
    /// one the vendor's table labels special-function, so the mapping is
    /// suspect; confirm it against the actual device before relying on this
    /// operation.
    pub fn set_position_feedforward_message(&self, ff: i16) -> (m: ModbusHostMessage)
        ensures
            m == self.spec_write(ModbusRegister::MotorSpecialFunction, ff as u16),
    {
        ModbusHostMessage {
            device_address: self.device_address,
            command: ModbusCommand::WriteRegister,
            register: ModbusRegister::MotorSpecialFunction,
            value: ff as u16,
        }
    }
}

/// The 16-bit word a one-register read response carries: the two payload
/// bytes, big-endian. Any other payload length, and any write echo, is a
/// response of the wrong shape.
pub open spec fn spec_word_of(resp: WorkerMessageModel) -> Result<u16, ErrorKind> {
    match resp {
        WorkerMessageModel::Read { data, .. } => {
            if data.len() == 2 {
                Ok(spec_be16(data[0], data[1]))
            } else {
                Err(ErrorKind::ResponseError)
            }
        },
        _ => Err(ErrorKind::ResponseError),
    }
}

/// Take the one 16-bit word out of a one-register read response.
pub fn word_from_response(response: &ModbusWorkerMessage) -> (r: Result<u16, Error>)
    ensures
        match r {
            Ok(w) => spec_word_of(response@) == Ok::<u16, ErrorKind>(w),
            Err(e) => spec_word_of(response@) == Err::<u16, ErrorKind>(e.kind),
        },
{
    match response {
        ModbusWorkerMessage::ReadMessage { data, .. } => {
            if data.len() != 2 {
                Err(Error { kind: ErrorKind::ResponseError })
            } else {
                Ok(be16(data[0], data[1]))
            }
        },
        _ => Err(Error { kind: ErrorKind::ResponseError }),
    }
}

/// Read the current speed out of a read response: the device reports a
/// signed speed as the two's-complement bit pattern of the unsigned word.
pub fn rpm_from_response(response: &ModbusWorkerMessage) -> (r: Result<i16, Error>)
    ensures
        match r {
            Ok(v) => spec_word_of(response@) matches Ok(w) && v == w as i16,
            Err(e) => spec_word_of(response@) == Err::<u16, ErrorKind>(e.kind),
        },
{
    match word_from_response(response) {
        Ok(w) => Ok(#[verifier::truncate] (w as i16)),
        Err(e) => Err(e),
    }
}

/// Read the motor status out of a read response of the alarm-code
/// register: an unknown alarm code is a decode failure, never a default
/// status.
pub fn status_from_response(response: &ModbusWorkerMessage) -> (r: Result<MotorStatus, Error>)
    ensures
        match r {
            Ok(st) => spec_word_of(response@) matches Ok(w) && MotorStatus::spec_from_code(w)
                == Some(st),
            Err(e) => match spec_word_of(response@) {
                Ok(w) => MotorStatus::spec_from_code(w) is None && e.kind
                    == ErrorKind::DecodeError,
                Err(k) => e.kind == k,
            },
        },
{
    let w = match word_from_response(response) {
        Ok(w) => w,
        Err(e) => { return Err(e) },
    };
    match MotorStatus::from_code(w) {
        Some(st) => Ok(st),
        None => Err(Error { kind: ErrorKind::DecodeError }),
    }
}

/// The absolute position composed from its two 16-bit register words: the
/// high word above the low word, the 32 bits read as two's complement.
pub open spec fn spec_position(low: u16, high: u16) -> i32 {
    (((high as u32) << 16) | (low as u32)) as i32
}

/// Compose the signed 32-bit absolute position from the low and high
/// register words.
pub fn compose_position(low: u16, high: u16) -> (r: i32)
    ensures
        r == spec_position(low, high),
{
    let combined: u32 = ((high as u32) << 16) | (low as u32);
    #[verifier::truncate] (combined as i32)
}

/// What the composed position is worth as a number: the high word counts
/// for 65536, and a set top bit swings the whole value negative by one
/// two's-complement period.
pub proof fn lemma_position_signed_value(low: u16, high: u16)
    by (bit_vector)
    ensures
        high < 0x8000 ==> spec_position(low, high) == high * 0x10000 + low,
        high >= 0x8000 ==> spec_position(low, high) == high * 0x10000 + low - 0x1_0000_0000,
{
}

} // verus!
