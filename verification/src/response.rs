//! Decoding an inbound byte stream into a typed device response.
//!
//! A device answers in one of two frame shapes. A write is confirmed by an
//! 8-byte echo of the request. A read is answered by a length-prefixed
//! frame: address, command, a length byte `n`, `n` payload bytes, and the
//! big-endian checksum of exactly those payload bytes. Decoding is strictly
//! sequential and fails fast; an invalid stream never produces a response.

use vstd::prelude::*;

use crate::command::ModbusCommand;
use crate::crc::CrcTable;
use crate::crc::crc16_spec;
use crate::error::Error;
use crate::error::ErrorKind;
use crate::register::ModbusRegister;
use crate::wire::be16;
use crate::wire::spec_be16;

verus! {

/// A cursor over the bytes received from the transport. Decoding consumes
/// from the front; whatever a failed read would have consumed stays in
/// place, so the position always marks exactly the bytes a frame used.
pub struct FrameReader {
    bytes: Vec<u8>,
    pos: usize,
}

impl FrameReader {
    /// The whole underlying byte sequence.
    pub closed spec fn all_bytes(self) -> Seq<u8> {
        self.bytes@
    }

    /// How many bytes have been consumed.
    pub closed spec fn position(self) -> int {
        self.pos as int
    }

    /// The position never runs past the end.
    pub open spec fn wf(self) -> bool {
        0 <= self.position() <= self.all_bytes().len()
    }

    /// The bytes not yet consumed.
    pub open spec fn remaining(self) -> Seq<u8> {
        self.all_bytes().subrange(self.position(), self.all_bytes().len() as int)
    }

    /// A cursor at the start of `bytes`.
    pub fn new(bytes: Vec<u8>) -> (r: FrameReader)
        ensures
            r.wf(),
            r.all_bytes() == bytes@,
            r.position() == 0,
    {
        FrameReader { bytes, pos: 0 }
    }

    /// How many bytes have been consumed so far.
    pub fn bytes_read(&self) -> (r: usize)
        ensures
            r as int == self.position(),
    {
        self.pos
    }

    /// Read exactly `n` bytes, or report an I/O failure (a short stream)
    /// and consume nothing.
    pub fn take(&mut self, n: usize) -> (r: Result<Vec<u8>, Error>)
        requires
            old(self).wf(),
        ensures
            final(self).wf(),
            final(self).all_bytes() == old(self).all_bytes(),
            n <= old(self).remaining().len() ==> {
                &&& r matches Ok(v) && v@ == old(self).remaining().subrange(0, n as int)
                &&& final(self).position() == old(self).position() + n
            },
            n > old(self).remaining().len() ==> {
                &&& r matches Err(e) && e.kind == ErrorKind::IO
                &&& final(self).position() == old(self).position()
            },
    {
        if n > self.bytes.len() - self.pos {
            return Err(Error { kind: ErrorKind::IO });
        }
        let end = self.pos + n;
        let mut out: Vec<u8> = Vec::new();
        for k in self.pos..end
            invariant
                self == old(self),
                end == self.pos + n <= self.bytes@.len(),
                out@ =~= self.bytes@.subrange(self.pos as int, k as int),
        {
            out.push(self.bytes[k]);
        }
        proof {
            assert(out@ =~= old(self).remaining().subrange(0, n as int));
        }
        self.pos = end;
        Ok(out)
    }
}

/// A response from a device, produced only by a successful decode of an
/// inbound byte stream.
#[derive(Debug)]
pub enum ModbusWorkerMessage {
    /// Confirmation of a write: the device echoes the request back.
    WriteMessage {
        device_address: u8,
        command: ModbusCommand,
        register: ModbusRegister,
        value: u16,
    },
    /// Data answering a read.
    ReadMessage { device_address: u8, command: ModbusCommand, data: Vec<u8> },
}

/// The mathematical shape of a response: a [`ModbusWorkerMessage`] with its
/// payload abstracted to a byte sequence.
pub ghost enum WorkerMessageModel {
    Write { device_address: u8, command: ModbusCommand, register: ModbusRegister, value: u16 },
    Read { device_address: u8, command: ModbusCommand, data: Seq<u8> },
}

impl View for ModbusWorkerMessage {
    type V = WorkerMessageModel;

    open spec fn view(&self) -> WorkerMessageModel {
        match self {
            ModbusWorkerMessage::WriteMessage { device_address, command, register, value } => {
                WorkerMessageModel::Write {
                    device_address: *device_address,
                    command: *command,
                    register: *register,
                    value: *value,
                }
            },
            ModbusWorkerMessage::ReadMessage { device_address, command, data } => {
                WorkerMessageModel::Read {
                    device_address: *device_address,
                    command: *command,
                    data: data@,
                }
            },
        }
    }
}

/// What decoding the front of the byte sequence `s` yields, and how many
/// bytes it consumes doing so. A stream that ends before the frame does is
/// an I/O failure, distinct from a checksum or decode failure.
pub open spec fn spec_decode(s: Seq<u8>) -> (Result<WorkerMessageModel, ErrorKind>, int) {
    if s.len() < 2 {
        (Err(ErrorKind::IO), 0)
    } else {
        match ModbusCommand::spec_from_code(s[1]) {
            Option::None => (Err(ErrorKind::DecodeError), 2),
            Option::Some(cmd) => match cmd {
                ModbusCommand::WriteRegister => spec_decode_write_ack(s),
                ModbusCommand::ReadRegister => spec_decode_read_data(s),
                _ => (Err(ErrorKind::UnsupportedOperation), 2),
            },
        }
    }
}

/// The write-acknowledgment shape: six more bytes holding register, value
/// and the checksum of the six bytes that precede it. The register is
/// validated before the checksum, as the decode order of the frame runs.
pub open spec fn spec_decode_write_ack(s: Seq<u8>) -> (
    Result<WorkerMessageModel, ErrorKind>,
    int,
) {
    if s.len() < 8 {
        (Err(ErrorKind::IO), 2)
    } else {
        match ModbusRegister::spec_from_code(spec_be16(s[2], s[3])) {
            Option::None => (Err(ErrorKind::DecodeError), 8),
            Option::Some(register) => {
                if crc16_spec(s.subrange(0, 6)) != spec_be16(s[6], s[7]) {
                    (Err(ErrorKind::CheckSumFail), 8)
                } else {
                    (
                        Ok(
                            WorkerMessageModel::Write {
                                device_address: s[0],
                                command: ModbusCommand::WriteRegister,
                                register,
                                value: spec_be16(s[4], s[5]),
                            },
                        ),
                        8,
                    )
                }
            },
        }
    }
}

/// The read-data shape: a length byte `n`, then exactly `n` payload bytes
/// and the checksum of exactly those payload bytes.
pub open spec fn spec_decode_read_data(s: Seq<u8>) -> (
    Result<WorkerMessageModel, ErrorKind>,
    int,
) {
    if s.len() < 3 {
        (Err(ErrorKind::IO), 2)
    } else {
        let n = s[2] as int;
        if s.len() < 5 + n {
            (Err(ErrorKind::IO), 3)
        } else {
            if crc16_spec(s.subrange(3, 3 + n)) != spec_be16(s[3 + n], s[4 + n]) {
                (Err(ErrorKind::CheckSumFail), 5 + n)
            } else {
                (
                    Ok(
                        WorkerMessageModel::Read {
                            device_address: s[0],
                            command: ModbusCommand::ReadRegister,
                            data: s.subrange(3, 3 + n),
                        },
                    ),
                    5 + n,
                )
            }
        }
    }
}

impl ModbusWorkerMessage {
    /// Decode exactly one response frame from the front of the stream,
    /// validating checksums with a table the caller already holds, so that
    /// a session decoding many frames builds the table only once.
    ///
    /// The result and the bytes consumed are exactly what [`spec_decode`]
    /// says of the unread part of the stream: the typed response on
    /// success, and otherwise an I/O error for a stream that ran short, a
    /// decode error for an unknown command or register code, a checksum
    /// error for a corrupted frame, or an unsupported-operation error for
    /// the two reserved commands.
    pub fn from_reader_with(reader: &mut FrameReader, table: &CrcTable) -> (r: Result<
        ModbusWorkerMessage,
        Error,
    >)
        requires
            old(reader).wf(),
            table.wf(),
        ensures
            final(reader).wf(),
            final(reader).all_bytes() == old(reader).all_bytes(),
            final(reader).position() == old(reader).position() + spec_decode(
                old(reader).remaining(),
            ).1,
            match (r, spec_decode(old(reader).remaining()).0) {
                (Ok(m), Ok(model)) => m@ == model,
                (Err(e), Err(k)) => e.kind == k,
                _ => false,
            },
    {
        let ghost s = old(reader).remaining();
        let header = match reader.take(2) {
            Ok(h) => h,
            Err(e) => { return Err(e) },
        };
        let device_address = header[0];
        let command = match ModbusCommand::from_code(header[1]) {
            Some(c) => c,
            None => { return Err(Error { kind: ErrorKind::DecodeError }) },
        };
        match command {
            ModbusCommand::WriteRegister => {
                let body = match reader.take(6) {
                    Ok(b) => b,
                    Err(e) => { return Err(e) },
                };
                let register = match ModbusRegister::from_code(be16(body[0], body[1])) {
                    Some(rg) => rg,
                    None => { return Err(Error { kind: ErrorKind::DecodeError }) },
                };
                let mut covered: Vec<u8> = Vec::new();
                covered.push(device_address);
                covered.push(header[1]);
                covered.push(body[0]);
                covered.push(body[1]);
                covered.push(body[2]);
                covered.push(body[3]);
                proof {
                    assert(covered@ =~= s.subrange(0, 6));
                }
                if table.checksum(covered.as_slice()) != be16(body[4], body[5]) {
                    return Err(Error { kind: ErrorKind::CheckSumFail });
                }
                Ok(
                    ModbusWorkerMessage::WriteMessage {
                        device_address,
                        command,
                        register,
                        value: be16(body[2], body[3]),
                    },
                )
            },
            ModbusCommand::ReadRegister => {
                let len_byte = match reader.take(1) {
                    Ok(v) => v,
                    Err(e) => { return Err(e) },
                };
                let n = len_byte[0] as usize;
                let tail = match reader.take(n + 2) {
                    Ok(v) => v,
                    Err(e) => { return Err(e) },
                };
                proof {
                    assert(tail@.subrange(0, n as int) =~= s.subrange(3, 3 + n));
                }
                if table.checksum_range(tail.as_slice(), 0, n) != be16(tail[n], tail[n + 1]) {
                    return Err(Error { kind: ErrorKind::CheckSumFail });
                }
                let mut data: Vec<u8> = Vec::new();
                for i in 0..n
                    invariant
                        n + 2 <= tail@.len(),
                        data@ =~= tail@.subrange(0, i as int),
                {
                    data.push(tail[i]);
                }
                proof {
                    assert(data@ =~= s.subrange(3, 3 + n));
                }
                Ok(ModbusWorkerMessage::ReadMessage { device_address, command, data })
            },
            _ => Err(Error { kind: ErrorKind::UnsupportedOperation }),
        }
    }

    /// Decode exactly one response frame from the front of the stream; the
    /// contract is that of [`ModbusWorkerMessage::from_reader_with`], with
    /// the checksum table built on the spot.
    pub fn from_reader(reader: &mut FrameReader) -> (r: Result<ModbusWorkerMessage, Error>)
        requires
            old(reader).wf(),
        ensures
            final(reader).wf(),
            final(reader).all_bytes() == old(reader).all_bytes(),
            final(reader).position() == old(reader).position() + spec_decode(
                old(reader).remaining(),
            ).1,
            match (r, spec_decode(old(reader).remaining()).0) {
                (Ok(m), Ok(model)) => m@ == model,
                (Err(e), Err(k)) => e.kind == k,
                _ => false,
            },
    {
        let table = CrcTable::new();
        Self::from_reader_with(reader, &table)
    }
}

} // verus!
