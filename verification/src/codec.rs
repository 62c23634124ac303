//! Frame codec: the two request frame shapes and two response frame shapes
//! of the module's binary protocol, with their fixed byte layouts.
//!
//! The protocol has no delimiters or checksums; every frame is a fixed-size
//! byte string. The only multi-byte field is the signed 16-bit millivolt
//! value, stored little-endian.

use vstd::prelude::*;

verus! {

/// Opcode of a "get analog value" request.
pub const OPCODE_GET: u8 = 0x46;
/// Opcode of a "set analog value" request.
pub const OPCODE_SET: u8 = 0x40;
/// Value-type selector: raw signed 16-bit millivolts.
pub const VALUE_TYPE_RAW_MV: u8 = 0x1C;

/// Serialized size of a "get analog value" request.
pub const GET_REQUEST_LEN: usize = 4;
/// Serialized size of a "set analog value" request.
pub const SET_REQUEST_LEN: usize = 6;
/// Size of the reply to a "get analog value" request.
pub const GET_RESPONSE_LEN: usize = 4;
/// Size of the reply to a "set analog value" request.
pub const SET_RESPONSE_LEN: usize = 2;

/// The low byte of the little-endian encoding of a signed 16-bit value.
pub open spec fn le_lo(v: i16) -> u8 {
    ((if v < 0 { v + 0x10000 } else { v as int }) % 256) as u8
}

/// The high byte of the little-endian encoding of a signed 16-bit value.
pub open spec fn le_hi(v: i16) -> u8 {
    ((if v < 0 { v + 0x10000 } else { v as int }) / 256) as u8
}

/// The signed 16-bit value whose little-endian encoding is `[lo, hi]`.
pub open spec fn i16_from_le(lo: u8, hi: u8) -> i16 {
    (if hi >= 0x80 { hi * 256 + lo - 0x10000 } else { hi * 256 + lo }) as i16
}

/// Encoding a signed 16-bit value little-endian and reading it back is the
/// identity, for every value in range.
pub proof fn lemma_le_round_trip(v: i16)
    ensures
        i16_from_le(le_lo(v), le_hi(v)) == v,
{
    let u: int = if v < 0 { v + 0x10000 } else { v as int };
    assert(u == 256 * (u / 256) + u % 256) by (nonlinear_arith);
}

/// Reply to a "get analog value" request, decoded from a 4-byte buffer.
///
/// `status` and `length` are opaque bytes: the device may return any status
/// code, and the codec does not validate either field against a closed set.
#[derive(Clone, Copy, Debug, PartialEq, Eq, Structural)]
pub struct GetResponse {
    /// Device result code; zero means success.
    pub status: u8,
    /// Length field echoed by the device.
    pub length: u8,
    /// The analog reading in millivolts.
    pub value: i16,
}

/// Reply to a "set analog value" request, decoded from a 2-byte buffer.
#[derive(Clone, Copy, Debug, PartialEq, Eq, Structural)]
pub struct SetResponse {
    /// Device result code; zero means success.
    pub status: u8,
    /// Length field echoed by the device.
    pub length: u8,
}

/// Everything that can go wrong in one transaction, from opening the port
/// to decoding the reply.
#[derive(Clone, Copy, Debug, PartialEq, Eq, Structural)]
pub enum ProtocolError {
    /// The serial port could not be opened or would not take the settings.
    TransportConfigError,
    /// The request bytes could not be written in full.
    WriteError,
    /// The read failed, or returned a different byte count than the
    /// response shape requires.
    ReadError,
    /// No data arrived within the read timeout.
    ReadTimeout,
    /// Fewer bytes were supplied to the decoder than the response shape
    /// requires.
    MalformedResponse,
    /// The device answered with a non-zero status byte, carried verbatim
    /// as an opaque code for manual lookup.
    DeviceStatusError(u8),
}

/// The bytes of a "get analog value" request for `channel`.
pub open spec fn spec_encode_get(channel: u8) -> Seq<u8> {
    seq![OPCODE_GET, channel, VALUE_TYPE_RAW_MV, 0x00u8]
}

/// The bytes of a "set analog value" request for `channel` and
/// `voltage_mv`.
pub open spec fn spec_encode_set(channel: u8, voltage_mv: i16) -> Seq<u8> {
    seq![OPCODE_SET, channel, VALUE_TYPE_RAW_MV, 0x02u8, le_lo(voltage_mv), le_hi(voltage_mv)]
}

/// What decoding a "get analog value" reply buffer yields.
pub open spec fn spec_decode_get(bytes: Seq<u8>) -> Result<GetResponse, ProtocolError> {
    if bytes.len() < GET_RESPONSE_LEN {
        Err(ProtocolError::MalformedResponse)
    } else {
        Ok(GetResponse {
            status: bytes[0],
            length: bytes[1],
            value: i16_from_le(bytes[2], bytes[3]),
        })
    }
}

/// What decoding a "set analog value" reply buffer yields.
pub open spec fn spec_decode_set(bytes: Seq<u8>) -> Result<SetResponse, ProtocolError> {
    if bytes.len() < SET_RESPONSE_LEN {
        Err(ProtocolError::MalformedResponse)
    } else {
        Ok(SetResponse { status: bytes[0], length: bytes[1] })
    }
}

/// Encodes a "get analog value" request: opcode, channel, value type, and a
/// zero length field (the request carries no payload).
pub fn encode_get(channel: u8) -> (r: Vec<u8>)
    ensures
        r@ == spec_encode_get(channel),
        r@.len() == GET_REQUEST_LEN,
{
    let mut frame: Vec<u8> = Vec::new();
    frame.push(OPCODE_GET);
    frame.push(channel);
    frame.push(VALUE_TYPE_RAW_MV);
    frame.push(0x00);
    proof {
        assert(frame@ =~= spec_encode_get(channel));
    }
    frame
}

/// Encodes a "set analog value" request: opcode, channel, value type, a
/// length field of 2, then the millivolt value little-endian.
pub fn encode_set(channel: u8, voltage_mv: i16) -> (r: Vec<u8>)
    ensures
        r@ == spec_encode_set(channel, voltage_mv),
        r@.len() == SET_REQUEST_LEN,
{
    let (lo, hi) = i16_to_le_pair(voltage_mv);
    let mut frame: Vec<u8> = Vec::new();
    frame.push(OPCODE_SET);
    frame.push(channel);
    frame.push(VALUE_TYPE_RAW_MV);
    frame.push(0x02);
    frame.push(lo);
    frame.push(hi);
    proof {
        assert(frame@ =~= spec_encode_set(channel, voltage_mv));
    }
    frame
}

/// Decodes a "get analog value" reply. Fails with `MalformedResponse` when
/// fewer than 4 bytes are supplied; on 4 or more bytes it always succeeds,
/// reading status, length echo, and the little-endian millivolt value from
/// the first 4 bytes.
pub fn decode_get_response(bytes: &Vec<u8>) -> (r: Result<GetResponse, ProtocolError>)
    ensures
        r == spec_decode_get(bytes@),
        bytes@.len() < GET_RESPONSE_LEN <==> r == Err::<GetResponse, ProtocolError>(
            ProtocolError::MalformedResponse,
        ),
{
    if bytes.len() < GET_RESPONSE_LEN {
        Err(ProtocolError::MalformedResponse)
    } else {
        Ok(GetResponse {
            status: bytes[0],
            length: bytes[1],
            value: i16_from_le_pair(bytes[2], bytes[3]),
        })
    }
}

/// Decodes a "set analog value" reply. Fails with `MalformedResponse` when
/// fewer than 2 bytes are supplied; otherwise reads status and length echo
/// from the first 2 bytes.
pub fn decode_set_response(bytes: &Vec<u8>) -> (r: Result<SetResponse, ProtocolError>)
    ensures
        r == spec_decode_set(bytes@),
        bytes@.len() < SET_RESPONSE_LEN <==> r == Err::<SetResponse, ProtocolError>(
            ProtocolError::MalformedResponse,
        ),
{
    if bytes.len() < SET_RESPONSE_LEN {
        Err(ProtocolError::MalformedResponse)
    } else {
        Ok(SetResponse { status: bytes[0], length: bytes[1] })
    }
}

/// Decoding a "get analog value" reply whose value bytes are the
/// little-endian encoding of `v` yields exactly `v`, for every `v` in
/// range and whatever the other bytes hold.
pub proof fn lemma_get_value_round_trip(bytes: Seq<u8>, v: i16)
    requires
        bytes.len() >= GET_RESPONSE_LEN,
        bytes[2] == le_lo(v),
        bytes[3] == le_hi(v),
    ensures
        spec_decode_get(bytes) matches Ok(resp) && resp.value == v,
{
    lemma_le_round_trip(v);
}

/// Splits a signed 16-bit value into its little-endian byte pair.
pub fn i16_to_le_pair(v: i16) -> (r: (u8, u8))
    ensures
        r.0 == le_lo(v),
        r.1 == le_hi(v),
{
    let u: u32 = if v >= 0 {
        v as u32
    } else {
        ((v as i32) + 0x10000) as u32
    };
    ((u % 256) as u8, (u / 256) as u8)
}

/// Reassembles a signed 16-bit value from its little-endian byte pair.
pub fn i16_from_le_pair(lo: u8, hi: u8) -> (r: i16)
    ensures
        r == i16_from_le(lo, hi),
{
    let u: u32 = (hi as u32) * 256 + (lo as u32);
    if u >= 0x8000 {
        ((u as i32) - 0x10000) as i16
    } else {
        u as i16
    }
}

} // verus!

