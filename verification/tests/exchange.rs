//! Driving whole request/response exchanges, and the correlation rules.

use motor_interface::command::ModbusCommand;
use motor_interface::error::ErrorKind;
use motor_interface::message::ModbusHostMessage;
use motor_interface::motor::MotorProtocol;
use motor_interface::motor::rpm_from_response;
use motor_interface::register::ModbusRegister;
use motor_interface::response::ModbusWorkerMessage;
use motor_interface::session::Exchange;
use motor_interface::session::ExchangeStep;
use motor_interface::session::correlate;

fn read_step(step: ExchangeStep) -> usize {
    match step {
        ExchangeStep::Read(n) => n,
        ExchangeStep::Done(_) => panic!("exchange ended early"),
    }
}

#[test]
fn exchange_read_walkthrough() {
    let proto = MotorProtocol { device_address: 0x01 };
    let (mut ex, frame) = Exchange::start(proto.get_rpm_message()).unwrap();
    assert_eq!(frame, [0x01, 0x03, 0x00, 0x10, 0x00, 0x01, 0x85, 0xCF]);

    // The device answers with a 2-byte payload of 0xFFFB: -5 rpm.
    assert_eq!(read_step(ex.received(vec![0x01, 0x03])), 1);
    assert_eq!(read_step(ex.received(vec![0x02])), 4);
    let outcome = match ex.received(vec![0xFF, 0xFB, 0x01, 0xC3]) {
        ExchangeStep::Done(res) => res.unwrap(),
        ExchangeStep::Read(_) => panic!("exchange did not finish"),
    };
    assert_eq!(rpm_from_response(&outcome).unwrap(), -5);
}

#[test]
fn exchange_write_walkthrough() {
    let proto = MotorProtocol { device_address: 0x01 };
    let (mut ex, frame) = Exchange::start(proto.set_motor_enabled_message()).unwrap();
    assert_eq!(frame, [0x01, 0x06, 0x00, 0x01, 0x00, 0x01, 0x19, 0xCA]);

    // The device echoes the request.
    assert_eq!(read_step(ex.received(vec![0x01, 0x06])), 6);
    let outcome = match ex.received(vec![0x00, 0x01, 0x00, 0x01, 0x19, 0xCA]) {
        ExchangeStep::Done(res) => res.unwrap(),
        ExchangeStep::Read(_) => panic!("exchange did not finish"),
    };
    match outcome {
        ModbusWorkerMessage::WriteMessage { device_address, register, value, .. } => {
            assert_eq!(device_address, 0x01);
            assert_eq!(register, ModbusRegister::EnableMotor);
            assert_eq!(value, 0x01);
        }
        _ => panic!("expected a write acknowledgment"),
    }
}

#[test]
fn exchange_refuses_reserved_request() {
    let request = ModbusHostMessage {
        device_address: 0x01,
        command: ModbusCommand::WriteLocation,
        register: ModbusRegister::EnableMotor,
        value: 0,
    };
    let err = Exchange::start(request).unwrap_err();
    assert_eq!(err.kind(), ErrorKind::UnsupportedOperation);
}

#[test]
fn exchange_rejects_wrong_responder() {
    // A read asked of device 1, answered — with a valid checksum — by a
    // frame claiming device 2.
    let proto = MotorProtocol { device_address: 0x01 };
    let (mut ex, _frame) = Exchange::start(proto.get_rpm_message()).unwrap();
    assert_eq!(read_step(ex.received(vec![0x02, 0x03])), 1);
    assert_eq!(read_step(ex.received(vec![0x02])), 4);
    let err = match ex.received(vec![0x00, 0x05, 0xC1, 0xB3]) {
        ExchangeStep::Done(res) => res.unwrap_err(),
        ExchangeStep::Read(_) => panic!("exchange did not finish"),
    };
    assert_eq!(err.kind(), ErrorKind::ResponseError);
}

#[test]
fn exchange_surfaces_decode_failure() {
    let proto = MotorProtocol { device_address: 0x01 };
    let (mut ex, _frame) = Exchange::start(proto.get_rpm_message()).unwrap();
    let err = match ex.received(vec![0x01, 0x55]) {
        ExchangeStep::Done(res) => res.unwrap_err(),
        ExchangeStep::Read(_) => panic!("exchange did not finish"),
    };
    assert_eq!(err.kind(), ErrorKind::DecodeError);
}

#[test]
fn correlate_accepts_matching_write_echo() {
    let request = ModbusHostMessage {
        device_address: 0x01,
        command: ModbusCommand::WriteRegister,
        register: ModbusRegister::EnableMotor,
        value: 0x01,
    };
    let response = ModbusWorkerMessage::WriteMessage {
        device_address: 0x01,
        command: ModbusCommand::WriteRegister,
        register: ModbusRegister::EnableMotor,
        value: 0x01,
    };
    assert!(correlate(&request, &response).is_ok());
}

#[test]
fn correlate_rejects_wrong_device() {
    let request = ModbusHostMessage {
        device_address: 0x01,
        command: ModbusCommand::ReadRegister,
        register: ModbusRegister::MotorCurrentSpeed,
        value: 0x01,
    };
    let response = ModbusWorkerMessage::ReadMessage {
        device_address: 0x02,
        command: ModbusCommand::ReadRegister,
        data: vec![0x00, 0x05],
    };
    let err = correlate(&request, &response).unwrap_err();
    assert_eq!(err.kind(), ErrorKind::ResponseError);
}

#[test]
fn correlate_rejects_wrong_register_echo() {
    let request = ModbusHostMessage {
        device_address: 0x01,
        command: ModbusCommand::WriteRegister,
        register: ModbusRegister::EnableMotor,
        value: 0x01,
    };
    let response = ModbusWorkerMessage::WriteMessage {
        device_address: 0x01,
        command: ModbusCommand::WriteRegister,
        register: ModbusRegister::EnableModbus,
        value: 0x01,
    };
    let err = correlate(&request, &response).unwrap_err();
    assert_eq!(err.kind(), ErrorKind::ResponseError);
}

#[test]
fn correlate_rejects_wrong_shape() {
    // A write echo arriving for a read request.
    let request = ModbusHostMessage {
        device_address: 0x01,
        command: ModbusCommand::ReadRegister,
        register: ModbusRegister::MotorCurrentSpeed,
        value: 0x01,
    };
    let response = ModbusWorkerMessage::WriteMessage {
        device_address: 0x01,
        command: ModbusCommand::WriteRegister,
        register: ModbusRegister::MotorCurrentSpeed,
        value: 0x01,
    };
    let err = correlate(&request, &response).unwrap_err();
    assert_eq!(err.kind(), ErrorKind::ResponseError);
}
