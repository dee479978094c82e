//! Decoding inbound byte streams: both frame shapes, exact consumption,
//! and every way a stream is rejected.

use motor_interface::command::ModbusCommand;
use motor_interface::crc::CrcTable;
use motor_interface::error::ErrorKind;
use motor_interface::message::ModbusHostMessage;
use motor_interface::register::ModbusRegister;
use motor_interface::response::FrameReader;
use motor_interface::response::ModbusWorkerMessage;

#[test]
fn decode_write_ack_round_trip() {
    // The enable frame echoed back by the device.
    let mut reader = FrameReader::new(vec![0x01, 0x06, 0x00, 0x01, 0x00, 0x01, 0x19, 0xCA]);
    let msg = ModbusWorkerMessage::from_reader(&mut reader).unwrap();
    match msg {
        ModbusWorkerMessage::WriteMessage { device_address, command, register, value } => {
            assert_eq!(device_address, 0x01);
            assert_eq!(command, ModbusCommand::WriteRegister);
            assert_eq!(register, ModbusRegister::EnableMotor);
            assert_eq!(value, 0x01);
        }
        _ => panic!("expected a write acknowledgment"),
    }
    assert_eq!(reader.bytes_read(), 8);
}

#[test]
fn decode_read_response() {
    // addr 1, read, 2 payload bytes [0x00, 0x05], checksum of the payload.
    let mut reader = FrameReader::new(vec![0x01, 0x03, 0x02, 0x00, 0x05, 0xC1, 0xB3]);
    let msg = ModbusWorkerMessage::from_reader(&mut reader).unwrap();
    match msg {
        ModbusWorkerMessage::ReadMessage { device_address, command, data } => {
            assert_eq!(device_address, 0x01);
            assert_eq!(command, ModbusCommand::ReadRegister);
            assert_eq!(data, vec![0x00, 0x05]);
        }
        _ => panic!("expected read data"),
    }
    assert_eq!(reader.bytes_read(), 7);
}

#[test]
fn decode_read_consumes_exactly_length_plus_crc() {
    // Two frames back to back: decoding must stop at the end of the first,
    // leaving the trailing bytes unread.
    let mut reader = FrameReader::new(vec![
        0x01, 0x03, 0x02, 0x00, 0x05, 0xC1, 0xB3, 0x01, 0x06,
    ]);
    let msg = ModbusWorkerMessage::from_reader(&mut reader).unwrap();
    assert!(matches!(msg, ModbusWorkerMessage::ReadMessage { .. }));
    assert_eq!(reader.bytes_read(), 7);
}

#[test]
fn decode_truncated_read_is_io_error() {
    // The length byte promises 2 payload bytes plus checksum, but the
    // stream ends one byte early.
    let mut reader = FrameReader::new(vec![0x01, 0x03, 0x02, 0x00, 0x05, 0xC1]);
    let err = ModbusWorkerMessage::from_reader(&mut reader).unwrap_err();
    assert_eq!(err.kind(), ErrorKind::IO);
}

#[test]
fn decode_short_header_is_io_error() {
    let mut reader = FrameReader::new(vec![0x01]);
    let err = ModbusWorkerMessage::from_reader(&mut reader).unwrap_err();
    assert_eq!(err.kind(), ErrorKind::IO);
}

#[test]
fn decode_truncated_write_ack_is_io_error() {
    let mut reader = FrameReader::new(vec![0x01, 0x06, 0x00, 0x01]);
    let err = ModbusWorkerMessage::from_reader(&mut reader).unwrap_err();
    assert_eq!(err.kind(), ErrorKind::IO);
}

#[test]
fn decode_rejects_unknown_command() {
    let mut reader = FrameReader::new(vec![0x01, 0x55]);
    let err = ModbusWorkerMessage::from_reader(&mut reader).unwrap_err();
    assert_eq!(err.kind(), ErrorKind::DecodeError);
}

#[test]
fn decode_rejects_unknown_register() {
    // A write echo naming register 0x00FF, which no symbol owns.
    let mut reader = FrameReader::new(vec![0x01, 0x06, 0x00, 0xFF, 0x00, 0x01, 0x00, 0x00]);
    let err = ModbusWorkerMessage::from_reader(&mut reader).unwrap_err();
    assert_eq!(err.kind(), ErrorKind::DecodeError);
}

#[test]
fn decode_corrupted_ack_crc_is_checksum_fail() {
    // The valid enable echo with one bit of the low checksum byte flipped.
    let mut reader = FrameReader::new(vec![0x01, 0x06, 0x00, 0x01, 0x00, 0x01, 0x19, 0xCB]);
    let err = ModbusWorkerMessage::from_reader(&mut reader).unwrap_err();
    assert_eq!(err.kind(), ErrorKind::CheckSumFail);

    // And one bit of the high checksum byte.
    let mut reader = FrameReader::new(vec![0x01, 0x06, 0x00, 0x01, 0x00, 0x01, 0x99, 0xCA]);
    let err = ModbusWorkerMessage::from_reader(&mut reader).unwrap_err();
    assert_eq!(err.kind(), ErrorKind::CheckSumFail);
}

#[test]
fn decode_corrupted_read_crc_is_checksum_fail() {
    let mut reader = FrameReader::new(vec![0x01, 0x03, 0x02, 0x00, 0x05, 0xC1, 0xB2]);
    let err = ModbusWorkerMessage::from_reader(&mut reader).unwrap_err();
    assert_eq!(err.kind(), ErrorKind::CheckSumFail);
}

#[test]
fn decode_reserved_commands_are_unsupported() {
    let mut reader = FrameReader::new(vec![0x01, 0x78]);
    let err = ModbusWorkerMessage::from_reader(&mut reader).unwrap_err();
    assert_eq!(err.kind(), ErrorKind::UnsupportedOperation);

    let mut reader = FrameReader::new(vec![0x01, 0x7A]);
    let err = ModbusWorkerMessage::from_reader(&mut reader).unwrap_err();
    assert_eq!(err.kind(), ErrorKind::UnsupportedOperation);
}

#[test]
fn decode_empty_payload_read_response() {
    // A zero-length payload is legal; its checksum is the seed 0xFFFF.
    let mut reader = FrameReader::new(vec![0x01, 0x03, 0x00, 0xFF, 0xFF]);
    let msg = ModbusWorkerMessage::from_reader(&mut reader).unwrap();
    match msg {
        ModbusWorkerMessage::ReadMessage { data, .. } => assert!(data.is_empty()),
        _ => panic!("expected read data"),
    }
    assert_eq!(reader.bytes_read(), 5);
}

#[test]
fn shared_table_encode_and_decode() {
    // A session can build the checksum table once and reuse it for every
    // frame it encodes and decodes.
    let table = CrcTable::new();
    let request = ModbusHostMessage {
        device_address: 0x01,
        command: ModbusCommand::WriteRegister,
        register: ModbusRegister::EnableMotor,
        value: 0x01,
    };
    let frame = request.encode_with(&table);
    assert_eq!(frame, [0x01, 0x06, 0x00, 0x01, 0x00, 0x01, 0x19, 0xCA]);

    let mut reader = FrameReader::new(frame.to_vec());
    let msg = ModbusWorkerMessage::from_reader_with(&mut reader, &table).unwrap();
    assert!(matches!(msg, ModbusWorkerMessage::WriteMessage { value: 0x01, .. }));
    assert_eq!(reader.bytes_read(), 8);
}
