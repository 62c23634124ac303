//! Transaction executor: the decision logic of one request/response
//! exchange over the serial link.
//!
//! The executor is a small state machine. The caller that owns the port
//! performs one action at a time (open, configure, write, read) and hands
//! the outcome back as a [`SerialEvent`]; the machine decides the next
//! action, classifies every failure, and decodes the reply once it has
//! arrived. All protocol decisions stand here; the caller does nothing but
//! drive the port.

use vstd::prelude::*;
use crate::codec::{
    GetResponse, SetResponse, ProtocolError, spec_encode_get, spec_encode_set, spec_decode_get,
    spec_decode_set, encode_get, encode_set, decode_get_response, decode_set_response,
    GET_RESPONSE_LEN, SET_RESPONSE_LEN,
};

verus! {

/// Fixed serial link settings; the link is not user-configurable.
#[derive(Clone, Copy, Debug, PartialEq, Eq, Structural)]
pub struct LinkConfig {
    /// Symbol rate in baud.
    pub baud_rate: u32,
    /// Data bits per character.
    pub data_bits: u8,
    /// Whether a parity bit is sent.
    pub parity_enabled: bool,
    /// Stop bits per character.
    pub stop_bits: u8,
    /// Whether hardware or software flow control is used.
    pub flow_control_enabled: bool,
    /// Read and write timeout in milliseconds.
    pub timeout_ms: u32,
}

/// The one configuration the protocol runs under: 9600 baud, 8 data bits,
/// no parity, 1 stop bit, no flow control, 1000 ms timeout.
pub open spec fn spec_link_config() -> LinkConfig {
    LinkConfig {
        baud_rate: 9600,
        data_bits: 8,
        parity_enabled: false,
        stop_bits: 1,
        flow_control_enabled: false,
        timeout_ms: 1000,
    }
}

/// Returns the fixed link settings the port must be configured with.
pub fn link_config() -> (c: LinkConfig)
    ensures
        c == spec_link_config(),
{
    LinkConfig {
        baud_rate: 9600,
        data_bits: 8,
        parity_enabled: false,
        stop_bits: 1,
        flow_control_enabled: false,
        timeout_ms: 1000,
    }
}

/// One protocol operation, built from operator-supplied integers.
#[derive(Clone, Copy, Debug, PartialEq, Eq, Structural)]
pub enum Request {
    /// Read the analog value of a channel, in millivolts.
    GetAnalog { channel: u8 },
    /// Set the analog value of a channel, in millivolts.
    SetAnalog { channel: u8, voltage_mv: i16 },
}

/// The decoded reply of a completed exchange.
#[derive(Clone, Copy, Debug, PartialEq, Eq, Structural)]
pub enum Outcome {
    GetResult(GetResponse),
    SetResult(SetResponse),
}

/// What the caller reports back after performing an action on the port.
/// Failures arrive as plain tags; the machine, not the caller, decides
/// what each one means for the transaction.
#[derive(Debug)]
pub enum SerialEvent {
    /// The port opened.
    OpenOk,
    /// The port could not be opened.
    OpenFailed,
    /// The port took the link settings.
    ConfigOk,
    /// The port rejected the link settings.
    ConfigFailed,
    /// The request bytes were written in full.
    WriteOk,
    /// The write did not complete.
    WriteFailed,
    /// The read completed with these bytes.
    ReadOk(Vec<u8>),
    /// No data arrived within the timeout.
    ReadTimedOut,
    /// The read failed outright.
    ReadFailed,
}

/// The next thing the caller must do with the port.
#[derive(Clone, Copy, Debug, PartialEq, Eq, Structural)]
pub enum Action {
    /// Open the serial device.
    OpenPort,
    /// Apply the fixed link settings.
    ConfigurePort,
    /// Write the request bytes in full.
    WriteRequest,
    /// Read exactly the expected number of response bytes.
    ReadResponse,
    /// The transaction is over; release the port.
    Finish,
}

/// Where a transaction stands between events.
#[derive(Clone, Copy, Debug, PartialEq, Eq)]
pub enum Phase {
    /// Waiting for the port to open.
    Opening,
    /// Waiting for the link settings to be applied.
    Configuring,
    /// Waiting for the request bytes to be written.
    Writing,
    /// Waiting for the response bytes.
    Reading,
    /// The exchange succeeded or failed; either way it is over.
    Done(Result<Outcome, ProtocolError>),
}

/// One request/response exchange: a request and how far it has got.
#[derive(Debug)]
pub struct Transaction {
    /// The operation this exchange performs.
    pub request: Request,
    /// How far the exchange has got.
    pub phase: Phase,
}

/// The serialized bytes of a request.
pub open spec fn spec_request_bytes(r: Request) -> Seq<u8> {
    match r {
        Request::GetAnalog { channel } => spec_encode_get(channel),
        Request::SetAnalog { channel, voltage_mv } => spec_encode_set(channel, voltage_mv),
    }
}

/// How many response bytes a request's opcode implies.
pub open spec fn spec_response_len(r: Request) -> int {
    match r {
        Request::GetAnalog { .. } => GET_RESPONSE_LEN as int,
        Request::SetAnalog { .. } => SET_RESPONSE_LEN as int,
    }
}

/// What decoding a reply buffer yields for a given request.
pub open spec fn spec_decode_response(r: Request, bytes: Seq<u8>) -> Result<
    Outcome,
    ProtocolError,
> {
    match r {
        Request::GetAnalog { .. } => match spec_decode_get(bytes) {
            Ok(resp) => Ok(Outcome::GetResult(resp)),
            Err(e) => Err(e),
        },
        Request::SetAnalog { .. } => match spec_decode_set(bytes) {
            Ok(resp) => Ok(Outcome::SetResult(resp)),
            Err(e) => Err(e),
        },
    }
}

/// How a completed read ends the transaction: a read that did not return
/// exactly the expected byte count is a `ReadError`; an exact read is
/// decoded, which on an exact buffer always succeeds.
pub open spec fn spec_read_result(r: Request, bytes: Seq<u8>) -> Result<Outcome, ProtocolError> {
    if bytes.len() != spec_response_len(r) {
        Err(ProtocolError::ReadError)
    } else {
        spec_decode_response(r, bytes)
    }
}

/// The action each phase asks of the caller.
pub open spec fn spec_next_action(p: Phase) -> Action {
    match p {
        Phase::Opening => Action::OpenPort,
        Phase::Configuring => Action::ConfigurePort,
        Phase::Writing => Action::WriteRequest,
        Phase::Reading => Action::ReadResponse,
        Phase::Done(_) => Action::Finish,
    }
}

/// The phase a transaction moves to when `ev` arrives in phase `p` for
/// request `r`. An event that does not answer the pending action leaves
/// the phase unchanged, and a finished transaction never moves again.
pub open spec fn spec_step(r: Request, p: Phase, ev: SerialEvent) -> Phase {
    match p {
        Phase::Opening => match ev {
            SerialEvent::OpenOk => Phase::Configuring,
            SerialEvent::OpenFailed => Phase::Done(Err(ProtocolError::TransportConfigError)),
            _ => p,
        },
        Phase::Configuring => match ev {
            SerialEvent::ConfigOk => Phase::Writing,
            SerialEvent::ConfigFailed => Phase::Done(Err(ProtocolError::TransportConfigError)),
            _ => p,
        },
        Phase::Writing => match ev {
            SerialEvent::WriteOk => Phase::Reading,
            SerialEvent::WriteFailed => Phase::Done(Err(ProtocolError::WriteError)),
            _ => p,
        },
        Phase::Reading => match ev {
            SerialEvent::ReadOk(bytes) => Phase::Done(spec_read_result(r, bytes@)),
            SerialEvent::ReadTimedOut => Phase::Done(Err(ProtocolError::ReadTimeout)),
            SerialEvent::ReadFailed => Phase::Done(Err(ProtocolError::ReadError)),
            _ => p,
        },
        Phase::Done(_) => p,
    }
}

impl Transaction {
    /// Starts an exchange for `request`; the port is not yet open.
    pub fn new(request: Request) -> (t: Transaction)
        ensures
            t.request == request,
            t.phase == Phase::Opening,
    {
        Transaction { request, phase: Phase::Opening }
    }

    /// The next action the caller must perform on the port.
    pub fn next_action(&self) -> (a: Action)
        ensures
            a == spec_next_action(self.phase),
    {
        match self.phase {
            Phase::Opening => Action::OpenPort,
            Phase::Configuring => Action::ConfigurePort,
            Phase::Writing => Action::WriteRequest,
            Phase::Reading => Action::ReadResponse,
            Phase::Done(_) => Action::Finish,
        }
    }

    /// The exact bytes to write for this exchange's request.
    pub fn request_bytes(&self) -> (r: Vec<u8>)
        ensures
            r@ == spec_request_bytes(self.request),
    {
        match self.request {
            Request::GetAnalog { channel } => encode_get(channel),
            Request::SetAnalog { channel, voltage_mv } => encode_set(channel, voltage_mv),
        }
    }

    /// How many response bytes must be read back for this exchange.
    pub fn expected_response_len(&self) -> (n: usize)
        ensures
            n == spec_response_len(self.request),
    {
        match self.request {
            Request::GetAnalog { .. } => GET_RESPONSE_LEN,
            Request::SetAnalog { .. } => SET_RESPONSE_LEN,
        }
    }

    /// Advances the exchange on the outcome the caller reports.
    pub fn step(self, ev: SerialEvent) -> (t: Transaction)
        ensures
            t.request == self.request,
            t.phase == spec_step(self.request, self.phase, ev),
    {
        let phase = match self.phase {
            Phase::Opening => match ev {
                SerialEvent::OpenOk => Phase::Configuring,
                SerialEvent::OpenFailed => Phase::Done(
                    Err(ProtocolError::TransportConfigError),
                ),
                _ => self.phase,
            },
            Phase::Configuring => match ev {
                SerialEvent::ConfigOk => Phase::Writing,
                SerialEvent::ConfigFailed => Phase::Done(
                    Err(ProtocolError::TransportConfigError),
                ),
                _ => self.phase,
            },
            Phase::Writing => match ev {
                SerialEvent::WriteOk => Phase::Reading,
                SerialEvent::WriteFailed => Phase::Done(Err(ProtocolError::WriteError)),
                _ => self.phase,
            },
            Phase::Reading => match ev {
                SerialEvent::ReadOk(bytes) => Phase::Done(Self::read_result(&self.request, &bytes)),
                SerialEvent::ReadTimedOut => Phase::Done(Err(ProtocolError::ReadTimeout)),
                SerialEvent::ReadFailed => Phase::Done(Err(ProtocolError::ReadError)),
                _ => self.phase,
            },
            Phase::Done(_) => self.phase,
        };
        Transaction { request: self.request, phase }
    }

    /// Turns the bytes of a completed read into the transaction's result.
    fn read_result(request: &Request, bytes: &Vec<u8>) -> (r: Result<Outcome, ProtocolError>)
        ensures
            r == spec_read_result(*request, bytes@),
    {
        let expected = match request {
            Request::GetAnalog { .. } => GET_RESPONSE_LEN,
            Request::SetAnalog { .. } => SET_RESPONSE_LEN,
        };
        if bytes.len() != expected {
            Err(ProtocolError::ReadError)
        } else {
            match request {
                Request::GetAnalog { .. } => match decode_get_response(bytes) {
                    Ok(resp) => Ok(Outcome::GetResult(resp)),
                    Err(e) => Err(e),
                },
                Request::SetAnalog { .. } => match decode_set_response(bytes) {
                    Ok(resp) => Ok(Outcome::SetResult(resp)),
                    Err(e) => Err(e),
                },
            }
        }
    }
}

/// Classifies a device status byte: zero is success, anything else is
/// surfaced verbatim as an opaque `DeviceStatusError`.
pub fn check_status(status: u8) -> (r: Result<(), ProtocolError>)
    ensures
        status == 0 <==> r == Ok::<(), ProtocolError>(()),
        status != 0 <==> r == Err::<(), ProtocolError>(ProtocolError::DeviceStatusError(status)),
{
    if status == 0 {
        Ok(())
    } else {
        Err(ProtocolError::DeviceStatusError(status))
    }
}

/// Every exchange whose port opens, configures, writes, and reads back
/// exactly the expected byte count ends decoded: the four success events,
/// in order, take a fresh transaction to `Done` with the decoded reply,
/// and on an exact buffer decoding always succeeds.
pub proof fn lemma_exchange_completes(request: Request, reply: Seq<u8>)
    requires
        reply.len() == spec_response_len(request),
    ensures
        ({
            let p1 = spec_step(request, Phase::Opening, SerialEvent::OpenOk);
            let p2 = spec_step(request, p1, SerialEvent::ConfigOk);
            let p3 = spec_step(request, p2, SerialEvent::WriteOk);
            &&& p1 == Phase::Configuring
            &&& p2 == Phase::Writing
            &&& p3 == Phase::Reading
        }),
        spec_read_result(request, reply) == spec_decode_response(request, reply),
        spec_read_result(request, reply) is Ok,
{
}

/// A timed-out read surfaces `ReadTimeout`: the transaction ends, it does
/// not hang, and the timeout is told apart from every other failure.
pub proof fn lemma_timeout_surfaces(request: Request)
    ensures
        spec_step(request, Phase::Reading, SerialEvent::ReadTimedOut) == Phase::Done(
            Err::<Outcome, ProtocolError>(ProtocolError::ReadTimeout),
        ),
{
}

} // verus!

