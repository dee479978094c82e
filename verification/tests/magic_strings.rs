//! The known-good device frames: encoding the enable and disable requests
//! must reproduce the byte sequences validated against the real device.

use motor_interface::command::ModbusCommand;
use motor_interface::message::ModbusHostMessage;
use motor_interface::register::ModbusRegister;

const MOTOR_DISABLE_MAGIC_FRAME: [u8; 8] = [0x01, 0x06, 0x0, 0x1, 0x0, 0x0, 0xd8, 0x0a];
const MOTOR_ENABLE_MAGIC_FRAME: [u8; 8] = [0x01, 0x06, 0x0, 0x1, 0x0, 0x01, 0x19, 0xca];

#[test]
fn check_motor_enable() {
    let sut = ModbusHostMessage {
        device_address: 0x1,
        command: ModbusCommand::WriteRegister,
        register: ModbusRegister::EnableMotor,
        value: 0x1,
    };

    assert_eq!(MOTOR_ENABLE_MAGIC_FRAME, sut.to_message_bytes())
}

#[test]
fn check_motor_disable() {
    let sut = ModbusHostMessage {
        device_address: 0x1,
        command: ModbusCommand::WriteRegister,
        register: ModbusRegister::EnableMotor,
        value: 0x0,
    };

    assert_eq!(MOTOR_DISABLE_MAGIC_FRAME, sut.to_message_bytes())
}
