//! The checksum engine against known values.

use motor_interface::crc::CrcTable;
use motor_interface::crc::crc16;

#[test]
fn crc16_of_empty_input_is_seed() {
    assert_eq!(crc16(&[]), 0xFFFF);
}

#[test]
fn crc16_matches_known_enable_frame() {
    assert_eq!(crc16(&[0x01, 0x06, 0x00, 0x01, 0x00, 0x01]), 0x19CA);
}

#[test]
fn crc16_matches_known_disable_frame() {
    assert_eq!(crc16(&[0x01, 0x06, 0x00, 0x01, 0x00, 0x00]), 0xD80A);
}

#[test]
fn crc16_deterministic_across_calls() {
    let data = [0x42, 0x00, 0xFF, 0x17, 0x80];
    assert_eq!(crc16(&data), crc16(&data));
}

#[test]
fn crc_table_checksum_matches_crc16() {
    let table = CrcTable::new();
    let data = [0x01, 0x03, 0x00, 0x10, 0x00, 0x01];
    assert_eq!(table.checksum(&data), crc16(&data));
    assert_eq!(table.checksum(&data), 0x85CF);
}

#[test]
fn crc_table_checksum_range_covers_exactly_the_range() {
    let table = CrcTable::new();
    let data = [0xAA, 0xBB, 0x01, 0x06, 0x00, 0x01, 0x00, 0x01, 0xCC];
    assert_eq!(table.checksum_range(&data, 2, 8), 0x19CA);
    assert_eq!(table.checksum_range(&data, 3, 3), 0xFFFF);
}

#[test]
fn crc16_of_single_byte() {
    assert_eq!(crc16(&[0x07]), 0xFE82);
}
