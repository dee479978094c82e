//! The engine's guarantees that cut across modules, each stated over the
//! specification functions the executable contracts are written in.

use vstd::prelude::*;

use crate::command::ModbusCommand;
use crate::error::ErrorKind;
use crate::message::ModbusHostMessage;
use crate::message::lemma_encoding_carries_checksum;
use crate::register::lemma_register_code_round_trip;
use crate::response::WorkerMessageModel;
use crate::response::spec_decode;
use crate::session::spec_outcome;
use crate::wire::lemma_be16_injective;
use crate::wire::lemma_be16_of_split;
use crate::wire::lemma_bit_flip_changes_byte;
use crate::wire::spec_be16;

verus! {

/// Encoding a write request and decoding the frame gives the request back:
/// a request's 8-byte encoding is itself a well-formed write
/// acknowledgment naming the same device, register and value, and decoding
/// consumes all 8 bytes.
pub proof fn lemma_write_frame_round_trip(m: ModbusHostMessage)
    requires
        m.command is WriteRegister,
    ensures
        spec_decode(m.spec_encoding()) == (
            Ok::<WorkerMessageModel, ErrorKind>(
                WorkerMessageModel::Write {
                    device_address: m.device_address,
                    command: ModbusCommand::WriteRegister,
                    register: m.register,
                    value: m.value,
                },
            ),
            8int,
        ),
{
    let enc = m.spec_encoding();
    lemma_encoding_carries_checksum(m);
    assert(enc.subrange(0, 6) =~= m.spec_body());
    lemma_be16_of_split(m.register.spec_code());
    lemma_register_code_round_trip(m.register);
    lemma_be16_of_split(m.value);
}

/// A copy of `s` with bit `bit` of the byte at `byte` flipped.
pub open spec fn spec_flip_bit(s: Seq<u8>, byte: int, bit: u8) -> Seq<u8> {
    s.update(byte, s[byte] ^ (1u8 << bit))
}

/// A write acknowledgment whose trailing checksum bytes are corrupted —
/// any single bit of either flipped — decodes to a checksum failure, never
/// to a successful acknowledgment.
pub proof fn lemma_corrupted_checksum_rejected(s: Seq<u8>, byte: int, bit: u8)
    requires
        spec_decode(s).0 matches Ok(m) && m is Write,
        6 <= byte < 8,
        bit < 8,
    ensures
        spec_decode(spec_flip_bit(s, byte, bit)).0 == Err::<WorkerMessageModel, ErrorKind>(
            ErrorKind::CheckSumFail,
        ),
{
    let t = spec_flip_bit(s, byte, bit);
    assert(t.subrange(0, 6) =~= s.subrange(0, 6));
    lemma_bit_flip_changes_byte(s[byte], bit);
    if spec_be16(t[6], t[7]) == spec_be16(s[6], s[7]) {
        lemma_be16_injective(t[6], t[7], s[6], s[7]);
        assert(false);
    }
}

/// A read-data frame is consumed exactly: after the two header bytes and
/// the length byte `n`, decoding takes exactly the `n` payload bytes and
/// the two checksum bytes, and a stream that ends before that is an I/O
/// failure — never a short, malformed response.
pub proof fn lemma_read_frame_consumption(s: Seq<u8>)
    requires
        s.len() >= 3,
        ModbusCommand::spec_from_code(s[1]) == Some(ModbusCommand::ReadRegister),
    ensures
        s.len() >= 5 + s[2] ==> spec_decode(s).1 == 5 + s[2],
        s.len() < 5 + s[2] ==> spec_decode(s) == (
            Err::<WorkerMessageModel, ErrorKind>(ErrorKind::IO),
            3int,
        ),
{
}

/// A response claiming the wrong device never answers a read request: even
/// when it decodes cleanly, structure and checksum valid, the exchange's
/// outcome is a correlation failure.
pub proof fn lemma_wrong_responder_rejected(
    req: ModbusHostMessage,
    reply: Seq<u8>,
    m: WorkerMessageModel,
)
    requires
        req.command is ReadRegister,
        spec_decode(reply).0 == Ok::<WorkerMessageModel, ErrorKind>(m),
        m matches WorkerMessageModel::Read { device_address, .. } && device_address
            != req.device_address,
    ensures
        spec_outcome(req, reply) == Err::<WorkerMessageModel, ErrorKind>(ErrorKind::ResponseError),
{
}

} // verus!
