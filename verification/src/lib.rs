//! Host-side engine for a Modbus-like, register-addressed, CRC-protected
//! binary protocol spoken to a servo / DC-motor controller over a
//! half-duplex serial line.
//!
//! Everything here is pure protocol logic: checksum generation and
//! validation, request-frame encoding, response-frame decoding, the
//! request/response correlation rules, and the byte-level plan for one
//! request/response exchange. The serial transport itself is owned by the
//! caller, which writes and reads raw bytes as the [`session::Exchange`]
//! state machine directs.

pub mod command;
pub mod crc;
pub mod error;
pub mod laws;
pub mod message;
pub mod motor;
pub mod register;
pub mod response;
pub mod session;
pub mod status;
pub mod wire;
