//! The request/response exchange: correlation rules and the byte-level plan
//! the transport driver follows for one round trip.
//!
//! The engine never touches the serial line itself. A caller that owns the
//! transport starts an [`Exchange`], writes the frame it hands back, flushes
//! (the line is half duplex, so the write must complete before the reply is
//! awaited), and then reads exactly as many bytes as each [`ExchangeStep`]
//! asks for, until the exchange reports the validated, correlated outcome.
//! No second request may start before that; the device cannot tell
//! overlapping requests apart.

use vstd::prelude::*;

use crate::command::ModbusCommand;
use crate::crc::CrcTable;
use crate::error::Error;
use crate::error::ErrorKind;
use crate::message::ModbusHostMessage;
use crate::response::FrameReader;
use crate::response::ModbusWorkerMessage;
use crate::response::WorkerMessageModel;
use crate::response::spec_decode;

verus! {

/// Whether a decoded response answers the outstanding request. A read wants
/// a read-data frame from the addressed device; a write wants an echo from
/// the addressed device naming the written register. Anything else — the
/// wrong device, the wrong register, or the wrong frame shape for the
/// command sent — fails correlation. The two reserved commands never have a
/// well-correlated response.
pub open spec fn spec_correlate(req: ModbusHostMessage, resp: WorkerMessageModel) -> Result<
    (),
    ErrorKind,
> {
    match req.command {
        ModbusCommand::ReadRegister => match resp {
            WorkerMessageModel::Read { device_address, .. } => {
                if device_address != req.device_address {
                    Err(ErrorKind::ResponseError)
                } else {
                    Ok(())
                }
            },
            _ => Err(ErrorKind::ResponseError),
        },
        ModbusCommand::WriteRegister => match resp {
            WorkerMessageModel::Write { device_address, register, .. } => {
                if device_address != req.device_address || register != req.register {
                    Err(ErrorKind::ResponseError)
                } else {
                    Ok(())
                }
            },
            _ => Err(ErrorKind::ResponseError),
        },
        _ => Err(ErrorKind::UnsupportedOperation),
    }
}

/// Hold a decoded response against the request it is meant to answer.
/// Callers never see an uncorrelated response: this runs before any
/// response leaves the exchange.
pub fn correlate(request: &ModbusHostMessage, response: &ModbusWorkerMessage) -> (r: Result<
    (),
    Error,
>)
    ensures
        match r {
            Ok(u) => spec_correlate(*request, response@) == Ok::<(), ErrorKind>(u),
            Err(e) => spec_correlate(*request, response@) == Err::<(), ErrorKind>(e.kind),
        },
{
    match request.command {
        ModbusCommand::ReadRegister => match response {
            ModbusWorkerMessage::ReadMessage { device_address, .. } => {
                if *device_address != request.device_address {
                    Err(Error { kind: ErrorKind::ResponseError })
                } else {
                    Ok(())
                }
            },
            _ => Err(Error { kind: ErrorKind::ResponseError }),
        },
        ModbusCommand::WriteRegister => match response {
            ModbusWorkerMessage::WriteMessage { device_address, register, .. } => {
                if *device_address != request.device_address || *register != request.register {
                    Err(Error { kind: ErrorKind::ResponseError })
                } else {
                    Ok(())
                }
            },
            _ => Err(Error { kind: ErrorKind::ResponseError }),
        },
        _ => Err(Error { kind: ErrorKind::UnsupportedOperation }),
    }
}

/// The outcome one exchange owes the caller for a given request and reply
/// byte stream: the decoded response if it decodes and correlates, and the
/// first failure otherwise.
pub open spec fn spec_outcome(req: ModbusHostMessage, reply: Seq<u8>) -> Result<
    WorkerMessageModel,
    ErrorKind,
> {
    match spec_decode(reply).0 {
        Ok(m) => match spec_correlate(req, m) {
            Ok(_) => Ok(m),
            Err(k) => Err(k),
        },
        Err(k) => Err(k),
    }
}

/// What the transport driver must do next.
#[derive(Debug)]
pub enum ExchangeStep {
    /// Read exactly this many bytes from the transport and hand them to
    /// [`Exchange::received`].
    Read(usize),
    /// The exchange is over; this is its validated outcome.
    Done(Result<ModbusWorkerMessage, Error>),
}

/// Which part of the reply the exchange is waiting for.
#[derive(Debug)]
enum Phase {
    /// The two-byte device-address and command header.
    Header,
    /// The six remaining bytes of a write acknowledgment.
    AckBody,
    /// The one-byte payload length of a read response.
    Length,
    /// The payload and checksum of a read response.
    Tail,
    /// The outcome has been handed out.
    Finished,
}

/// One request/response round trip over a half-duplex byte stream.
#[derive(Debug)]
pub struct Exchange {
    request: ModbusHostMessage,
    received: Vec<u8>,
    phase: Phase,
    table: CrcTable,
}

impl Exchange {
    /// The request this exchange is carrying out.
    pub closed spec fn request_spec(self) -> ModbusHostMessage {
        self.request
    }

    /// Every reply byte handed in so far, in order.
    pub closed spec fn received_spec(self) -> Seq<u8> {
        self.received@
    }

    /// How many bytes the exchange expects next, or `None` once it is done.
    pub closed spec fn expecting(self) -> Option<int> {
        match self.phase {
            Phase::Header => Some(2),
            Phase::AckBody => Some(6),
            Phase::Length => Some(1),
            Phase::Tail => Some(self.received@[2] + 2),
            Phase::Finished => None,
        }
    }

    /// The checksum table is sound, and the received bytes agree with the
    /// phase: the phase only ever runs ahead of the bytes that chose it.
    pub closed spec fn wf(self) -> bool {
        &&& self.table.wf()
        &&& match self.phase {
            Phase::Header => self.received@.len() == 0,
            Phase::AckBody => self.received@.len() == 2 && self.received@[1]
                == ModbusCommand::WriteRegister.spec_code(),
            Phase::Length => self.received@.len() == 2 && self.received@[1]
                == ModbusCommand::ReadRegister.spec_code(),
            Phase::Tail => self.received@.len() == 3 && self.received@[1]
                == ModbusCommand::ReadRegister.spec_code(),
            Phase::Finished => true,
        }
    }

    /// Begin an exchange: encode the request and hand back the 8-byte frame
    /// the caller must write (and flush) to the transport before reading
    /// anything. The two reserved commands are refused here, before any
    /// byte reaches the wire.
    pub fn start(request: ModbusHostMessage) -> (r: Result<(Exchange, [u8; 8]), Error>)
        ensures
            match r {
                Ok((ex, frame)) => {
                    &&& request.command is ReadRegister || request.command is WriteRegister
                    &&& frame@ == request.spec_encoding()
                    &&& ex.wf()
                    &&& ex.request_spec() == request
                    &&& ex.received_spec() == Seq::<u8>::empty()
                    &&& ex.expecting() == Some(2int)
                },
                Err(e) => {
                    &&& request.command is WriteLocation || request.command is ChangeDeviceAddress
                    &&& e.kind == ErrorKind::UnsupportedOperation
                },
            },
    {
        match request.command {
            ModbusCommand::WriteLocation | ModbusCommand::ChangeDeviceAddress => Err(
                Error { kind: ErrorKind::UnsupportedOperation },
            ),
            _ => {
                let table = CrcTable::new();
                let frame = request.encode_with(&table);
                let ex = Exchange { request, received: Vec::new(), phase: Phase::Header, table };
                proof {
                    assert(ex.received_spec() =~= Seq::<u8>::empty());
                }
                Ok((ex, frame))
            },
        }
    }

    /// Hand the exchange the bytes it asked for and learn what to do next.
    ///
    /// When the step is `Done`, the outcome is exactly what
    /// [`spec_outcome`] says of the request and the whole received reply,
    /// and the reply is one complete frame, consumed exactly: the exchange
    /// never gives up on a frame it has only partly read — it asks for more
    /// bytes instead — and never reads past the frame's end.
    pub fn received(&mut self, bytes: Vec<u8>) -> (step: ExchangeStep)
        requires
            old(self).wf(),
            old(self).expecting() matches Some(n) && bytes@.len() == n,
        ensures
            final(self).wf(),
            final(self).request_spec() == old(self).request_spec(),
            final(self).received_spec() == old(self).received_spec() + bytes@,
            match step {
                ExchangeStep::Read(k) => final(self).expecting() == Some(k as int),
                ExchangeStep::Done(res) => {
                    &&& final(self).expecting() is None
                    &&& match res {
                        Ok(m) => spec_outcome(old(self).request_spec(), final(self).received_spec())
                            == Ok::<WorkerMessageModel, ErrorKind>(m@),
                        Err(e) => spec_outcome(
                            old(self).request_spec(),
                            final(self).received_spec(),
                        ) == Err::<WorkerMessageModel, ErrorKind>(e.kind),
                    }
                    &&& spec_decode(final(self).received_spec()).1
                        == final(self).received_spec().len()
                    &&& spec_decode(final(self).received_spec()).0 != Err::<
                        WorkerMessageModel,
                        ErrorKind,
                    >(ErrorKind::IO)
                },
            },
    {
        let mut bytes = bytes;
        self.received.append(&mut bytes);
        match self.phase {
            Phase::Header => {
                let cmd_byte = self.received[1];
                if cmd_byte == ModbusCommand::WriteRegister.get_code() {
                    self.phase = Phase::AckBody;
                    ExchangeStep::Read(6)
                } else if cmd_byte == ModbusCommand::ReadRegister.get_code() {
                    self.phase = Phase::Length;
                    ExchangeStep::Read(1)
                } else {
                    self.phase = Phase::Finished;
                    ExchangeStep::Done(self.finish())
                }
            },
            Phase::Length => {
                let n = self.received[2] as usize;
                self.phase = Phase::Tail;
                ExchangeStep::Read(n + 2)
            },
            Phase::AckBody => {
                self.phase = Phase::Finished;
                ExchangeStep::Done(self.finish())
            },
            Phase::Tail => {
                self.phase = Phase::Finished;
                ExchangeStep::Done(self.finish())
            },
            // `expecting` is `None` once finished, so the precondition
            // rules this phase out.
            Phase::Finished => vstd::pervasive::unreached(),
        }
    }

    /// Decode the accumulated reply and hold it against the request.
    fn finish(&self) -> (r: Result<ModbusWorkerMessage, Error>)
        requires
            self.table.wf(),
            ({
                let s = self.received_spec();
                ||| (s.len() == 2 && s[1] != ModbusCommand::WriteRegister.spec_code() && s[1]
                    != ModbusCommand::ReadRegister.spec_code())
                ||| (s.len() == 8 && s[1] == ModbusCommand::WriteRegister.spec_code())
                ||| (s.len() >= 3 && s[1] == ModbusCommand::ReadRegister.spec_code() && s.len() == 5
                    + s[2])
            }),
        ensures
            match r {
                Ok(m) => spec_outcome(self.request_spec(), self.received_spec()) == Ok::<
                    WorkerMessageModel,
                    ErrorKind,
                >(m@),
                Err(e) => spec_outcome(self.request_spec(), self.received_spec()) == Err::<
                    WorkerMessageModel,
                    ErrorKind,
                >(e.kind),
            },
            spec_decode(self.received_spec()).1 == self.received_spec().len(),
            spec_decode(self.received_spec()).0 != Err::<WorkerMessageModel, ErrorKind>(
                ErrorKind::IO,
            ),
    {
        let mut copy: Vec<u8> = Vec::new();
        let count = self.received.len();
        for i in 0..count
            invariant
                count == self.received@.len(),
                copy@ =~= self.received@.subrange(0, i as int),
        {
            copy.push(self.received[i]);
        }
        proof {
            assert(copy@ =~= self.received@);
        }
        let mut reader = FrameReader::new(copy);
        proof {
            assert(reader.remaining() =~= self.received@);
        }
        let message = match ModbusWorkerMessage::from_reader_with(&mut reader, &self.table) {
            Ok(m) => m,
            Err(e) => { return Err(e) },
        };
        match correlate(&self.request, &message) {
            Ok(_) => Ok(message),
            Err(e) => Err(e),
        }
    }
}

} // verus!
