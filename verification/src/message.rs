//! Encoding a host request into its fixed 8-byte wire frame.

use vstd::prelude::*;

use crate::command::ModbusCommand;
use crate::crc::CrcTable;
use crate::crc::crc16_spec;
use crate::register::ModbusRegister;
use crate::wire::hi;
use crate::wire::lo;
use crate::wire::spec_be16;
use crate::wire::spec_hi;
use crate::wire::spec_lo;

verus! {

/// A request from the host to one device: write `value` to `register`, or
/// read `value`-many registers starting at `register`. Constructed per call
/// and consumed immediately by its wire encoding; never retained.
#[derive(PartialEq, Eq, Clone, Copy, Debug, Structural)]
pub struct ModbusHostMessage {
    /// The bus address of the device spoken to, normally 0x01.
    pub device_address: u8,
    pub command: ModbusCommand,
    pub register: ModbusRegister,
    pub value: u16,
}

impl ModbusHostMessage {
    /// The six header and payload bytes of the frame: device address,
    /// command code, then the register address and the value, each
    /// big-endian.
    pub open spec fn spec_body(self) -> Seq<u8> {
        seq![
            self.device_address,
            self.command.spec_code(),
            spec_hi(self.register.spec_code()),
            spec_lo(self.register.spec_code()),
            spec_hi(self.value),
            spec_lo(self.value),
        ]
    }

    /// The whole 8-byte frame: the body followed by the big-endian checksum
    /// of exactly those six bytes.
    pub open spec fn spec_encoding(self) -> Seq<u8> {
        self.spec_body() + seq![
            spec_hi(crc16_spec(self.spec_body())),
            spec_lo(crc16_spec(self.spec_body())),
        ]
    }

    /// Lay the request out on the wire with a checksum table the caller
    /// already holds, so that a session encoding many frames builds the
    /// table only once.
    pub fn encode_with(&self, table: &CrcTable) -> (r: [u8; 8])
        requires
            table.wf(),
        ensures
            r@ == self.spec_encoding(),
    {
        let reg = self.register.get_code();
        let body: [u8; 6] = [
            self.device_address,
            self.command.get_code(),
            hi(reg),
            lo(reg),
            hi(self.value),
            lo(self.value),
        ];
        proof {
            assert(body@ =~= self.spec_body());
        }
        let crc = table.checksum(body.as_slice());
        let r: [u8; 8] = [body[0], body[1], body[2], body[3], body[4], body[5], hi(crc), lo(crc)];
        proof {
            assert(r@ =~= self.spec_encoding());
        }
        r
    }

    /// Lay the request out on the wire. Every request is exactly 8 bytes;
    /// there is no variable-length request shape.
    pub fn to_message_bytes(&self) -> (r: [u8; 8])
        ensures
            r@ == self.spec_encoding(),
    {
        let table = CrcTable::new();
        self.encode_with(&table)
    }
}

/// For every request, the trailing two bytes of its encoding are the
/// big-endian checksum recomputed over the six header and payload bytes
/// that precede them.
pub proof fn lemma_encoding_carries_checksum(m: ModbusHostMessage)
    ensures
        m.spec_encoding().len() == 8,
        m.spec_encoding().subrange(0, 6) == m.spec_body(),
        spec_be16(m.spec_encoding()[6], m.spec_encoding()[7]) == crc16_spec(m.spec_body()),
{
    assert(m.spec_encoding().subrange(0, 6) =~= m.spec_body());
    crate::wire::lemma_be16_of_split(crc16_spec(m.spec_body()));
}

} // verus!
