//! The fixed eight-byte header that opens every frame.

use vstd::prelude::*;
use crate::message::wire::{
    be16, be16_bytes, be32, be32_bytes, push_u16, push_u32, read_u16, read_u32,
};

verus! {

/// Why a frame was refused; also the code carried by a header NACK.
#[derive(Clone, Copy, Debug, PartialEq, Eq, Structural)]
pub enum NackCode {
    IncorrectPattern,
    UnknownPayloadType,
    MessageTooLong,
    OutOfMemory,
    InvalidPayloadLength,
}

impl NackCode {
    pub open spec fn spec_to_u8(self) -> u8 {
        match self {
            NackCode::IncorrectPattern => 0x00,
            NackCode::UnknownPayloadType => 0x01,
            NackCode::MessageTooLong => 0x02,
            NackCode::OutOfMemory => 0x03,
            NackCode::InvalidPayloadLength => 0x04,
        }
    }

    pub open spec fn spec_from_u8(b: u8) -> Option<NackCode> {
        if b == 0x00 {
            Some(NackCode::IncorrectPattern)
        } else if b == 0x01 {
            Some(NackCode::UnknownPayloadType)
        } else if b == 0x02 {
            Some(NackCode::MessageTooLong)
        } else if b == 0x03 {
            Some(NackCode::OutOfMemory)
        } else if b == 0x04 {
            Some(NackCode::InvalidPayloadLength)
        } else {
            None
        }
    }

    /// The wire value of the code.
    pub fn to_u8(self) -> (r: u8)
        ensures
            r == self.spec_to_u8(),
            NackCode::spec_from_u8(r) == Some(self),
    {
        match self {
            NackCode::IncorrectPattern => 0x00,
            NackCode::UnknownPayloadType => 0x01,
            NackCode::MessageTooLong => 0x02,
            NackCode::OutOfMemory => 0x03,
            NackCode::InvalidPayloadLength => 0x04,
        }
    }

    /// The code with wire value `b`; `None` for a reserved value.
    pub fn from_u8(b: u8) -> (r: Option<NackCode>)
        ensures
            r == NackCode::spec_from_u8(b),
    {
        if b == 0x00 {
            Some(NackCode::IncorrectPattern)
        } else if b == 0x01 {
            Some(NackCode::UnknownPayloadType)
        } else if b == 0x02 {
            Some(NackCode::MessageTooLong)
        } else if b == 0x03 {
            Some(NackCode::OutOfMemory)
        } else if b == 0x04 {
            Some(NackCode::InvalidPayloadLength)
        } else {
            None
        }
    }
}

/// The revision of the standard that a frame follows.
#[derive(Clone, Copy, Debug, PartialEq, Eq, Structural)]
pub enum ProtocolVersion {
    ISO13400_2010,
    ISO13400_2012,
    ISO13400_2019,
    Default,
}

impl ProtocolVersion {
    pub open spec fn spec_to_u8(self) -> u8 {
        match self {
            ProtocolVersion::ISO13400_2010 => 0x01,
            ProtocolVersion::ISO13400_2012 => 0x02,
            ProtocolVersion::ISO13400_2019 => 0x03,
            ProtocolVersion::Default => 0xFF,
        }
    }

    pub open spec fn spec_from_u8(b: u8) -> Option<ProtocolVersion> {
        if b == 0x01 {
            Some(ProtocolVersion::ISO13400_2010)
        } else if b == 0x02 {
            Some(ProtocolVersion::ISO13400_2012)
        } else if b == 0x03 {
            Some(ProtocolVersion::ISO13400_2019)
        } else if b == 0xFF {
            Some(ProtocolVersion::Default)
        } else {
            None
        }
    }

    /// The wire value of the version.
    pub fn to_u8(self) -> (r: u8)
        ensures
            r == self.spec_to_u8(),
            ProtocolVersion::spec_from_u8(r) == Some(self),
    {
        match self {
            ProtocolVersion::ISO13400_2010 => 0x01,
            ProtocolVersion::ISO13400_2012 => 0x02,
            ProtocolVersion::ISO13400_2019 => 0x03,
            ProtocolVersion::Default => 0xFF,
        }
    }

    /// The version with wire value `b`; `None` for a reserved value.
    pub fn from_u8(b: u8) -> (r: Option<ProtocolVersion>)
        ensures
            r == ProtocolVersion::spec_from_u8(b),
    {
        if b == 0x01 {
            Some(ProtocolVersion::ISO13400_2010)
        } else if b == 0x02 {
            Some(ProtocolVersion::ISO13400_2012)
        } else if b == 0x03 {
            Some(ProtocolVersion::ISO13400_2019)
        } else if b == 0xFF {
            Some(ProtocolVersion::Default)
        } else {
            None
        }
    }
}

/// The kind of payload that follows a header.
#[derive(Clone, Copy, Debug, PartialEq, Eq, Structural)]
pub enum PayloadType {
    HeaderNack,
    VehicleIDReq,
    VehicleIDReqByEID,
    VehicleIDReqByVIN,
    VehicleIDRes,
    RoutingActivationReq,
    RoutingActivationRes,
    AliveCheckReq,
    AliveCheckRes,
    EntityStatusReq,
    EntityStatusRes,
    DiagPowerModeReq,
    DiagPowerModeRes,
    DiagMessage,
    DiagMessageAck,
    DiagMessageNAck,
}

impl PayloadType {
    pub open spec fn spec_to_u16(self) -> u16 {
        match self {
            PayloadType::HeaderNack => 0x0000,
            PayloadType::VehicleIDReq => 0x0001,
            PayloadType::VehicleIDReqByEID => 0x0002,
            PayloadType::VehicleIDReqByVIN => 0x0003,
            PayloadType::VehicleIDRes => 0x0004,
            PayloadType::RoutingActivationReq => 0x0005,
            PayloadType::RoutingActivationRes => 0x0006,
            PayloadType::AliveCheckReq => 0x0007,
            PayloadType::AliveCheckRes => 0x0008,
            PayloadType::EntityStatusReq => 0x4001,
            PayloadType::EntityStatusRes => 0x4002,
            PayloadType::DiagPowerModeReq => 0x4003,
            PayloadType::DiagPowerModeRes => 0x4004,
            PayloadType::DiagMessage => 0x8001,
            PayloadType::DiagMessageAck => 0x8002,
            PayloadType::DiagMessageNAck => 0x8003,
        }
    }

    /// The payload type with wire code `c`; `None` for a reserved code.
    pub open spec fn spec_from_u16(c: u16) -> Option<PayloadType> {
        if c == 0x0000 {
            Some(PayloadType::HeaderNack)
        } else if c == 0x0001 {
            Some(PayloadType::VehicleIDReq)
        } else if c == 0x0002 {
            Some(PayloadType::VehicleIDReqByEID)
        } else if c == 0x0003 {
            Some(PayloadType::VehicleIDReqByVIN)
        } else if c == 0x0004 {
            Some(PayloadType::VehicleIDRes)
        } else if c == 0x0005 {
            Some(PayloadType::RoutingActivationReq)
        } else if c == 0x0006 {
            Some(PayloadType::RoutingActivationRes)
        } else if c == 0x0007 {
            Some(PayloadType::AliveCheckReq)
        } else if c == 0x0008 {
            Some(PayloadType::AliveCheckRes)
        } else if c == 0x4001 {
            Some(PayloadType::EntityStatusReq)
        } else if c == 0x4002 {
            Some(PayloadType::EntityStatusRes)
        } else if c == 0x4003 {
            Some(PayloadType::DiagPowerModeReq)
        } else if c == 0x4004 {
            Some(PayloadType::DiagPowerModeRes)
        } else if c == 0x8001 {
            Some(PayloadType::DiagMessage)
        } else if c == 0x8002 {
            Some(PayloadType::DiagMessageAck)
        } else if c == 0x8003 {
            Some(PayloadType::DiagMessageNAck)
        } else {
            None
        }
    }

    /// The wire code of the payload type.
    pub fn to_u16(self) -> (r: u16)
        ensures
            r == self.spec_to_u16(),
            PayloadType::spec_from_u16(r) == Some(self),
    {
        match self {
            PayloadType::HeaderNack => 0x0000,
            PayloadType::VehicleIDReq => 0x0001,
            PayloadType::VehicleIDReqByEID => 0x0002,
            PayloadType::VehicleIDReqByVIN => 0x0003,
            PayloadType::VehicleIDRes => 0x0004,
            PayloadType::RoutingActivationReq => 0x0005,
            PayloadType::RoutingActivationRes => 0x0006,
            PayloadType::AliveCheckReq => 0x0007,
            PayloadType::AliveCheckRes => 0x0008,
            PayloadType::EntityStatusReq => 0x4001,
            PayloadType::EntityStatusRes => 0x4002,
            PayloadType::DiagPowerModeReq => 0x4003,
            PayloadType::DiagPowerModeRes => 0x4004,
            PayloadType::DiagMessage => 0x8001,
            PayloadType::DiagMessageAck => 0x8002,
            PayloadType::DiagMessageNAck => 0x8003,
        }
    }

    /// No two payload types share a wire code.
    pub proof fn lemma_code_unique(t: PayloadType)
        ensures
            PayloadType::spec_from_u16(t.spec_to_u16()) == Some(t),
    {
    }

    /// The payload type with wire code `c`; `None` for a reserved code.
    pub fn from_u16(c: u16) -> (r: Option<PayloadType>)
        ensures
            r == PayloadType::spec_from_u16(c),
    {
        if c == 0x0000 {
            Some(PayloadType::HeaderNack)
        } else if c == 0x0001 {
            Some(PayloadType::VehicleIDReq)
        } else if c == 0x0002 {
            Some(PayloadType::VehicleIDReqByEID)
        } else if c == 0x0003 {
            Some(PayloadType::VehicleIDReqByVIN)
        } else if c == 0x0004 {
            Some(PayloadType::VehicleIDRes)
        } else if c == 0x0005 {
            Some(PayloadType::RoutingActivationReq)
        } else if c == 0x0006 {
            Some(PayloadType::RoutingActivationRes)
        } else if c == 0x0007 {
            Some(PayloadType::AliveCheckReq)
        } else if c == 0x0008 {
            Some(PayloadType::AliveCheckRes)
        } else if c == 0x4001 {
            Some(PayloadType::EntityStatusReq)
        } else if c == 0x4002 {
            Some(PayloadType::EntityStatusRes)
        } else if c == 0x4003 {
            Some(PayloadType::DiagPowerModeReq)
        } else if c == 0x4004 {
            Some(PayloadType::DiagPowerModeRes)
        } else if c == 0x8001 {
            Some(PayloadType::DiagMessage)
        } else if c == 0x8002 {
            Some(PayloadType::DiagMessageAck)
        } else if c == 0x8003 {
            Some(PayloadType::DiagMessageNAck)
        } else {
            None
        }
    }
}

/// Number of bytes in a header.
pub const HEADER_LENGTH: usize = 8;

/// A decoded header: version, payload type and declared payload length.
#[derive(Clone, Copy, Debug, PartialEq, Eq, Structural)]
pub struct DoIPHeader {
    pub protocol_version: ProtocolVersion,
    pub payload_type: PayloadType,
    pub payload_length: u32,
}

/// What decoding the first bytes of `b` as a header gives.
pub open spec fn spec_decode_header(b: Seq<u8>) -> Result<DoIPHeader, NackCode> {
    if b.len() < 8 {
        Err(NackCode::InvalidPayloadLength)
    } else if ProtocolVersion::spec_from_u8(b[0]) is None || b[0] ^ b[1] != 0xFF {
        Err(NackCode::IncorrectPattern)
    } else {
        match PayloadType::spec_from_u16(be16(b[2], b[3])) {
            None => Err(NackCode::UnknownPayloadType),
            Some(t) => Ok(
                DoIPHeader {
                    protocol_version: ProtocolVersion::spec_from_u8(b[0])->Some_0,
                    payload_type: t,
                    payload_length: be32(b[4], b[5], b[6], b[7]),
                },
            ),
        }
    }
}

/// The length field of `b`, read without any other check; 0 when `b` is shorter than a header.
pub open spec fn spec_peek_length(b: Seq<u8>) -> u32 {
    if b.len() < 8 {
        0
    } else {
        be32(b[4], b[5], b[6], b[7])
    }
}

impl DoIPHeader {
    /// The eight bytes of the header on the wire.
    pub open spec fn spec_bytes(self) -> Seq<u8> {
        seq![self.protocol_version.spec_to_u8(), !self.protocol_version.spec_to_u8()]
            + be16_bytes(self.payload_type.spec_to_u16()) + be32_bytes(self.payload_length)
    }

    /// Writes the header: version, its complement, type code and length, both big-endian.
    pub fn serialize(&self) -> (r: Vec<u8>)
        ensures
            r@ == self.spec_bytes(),
            r@.len() == 8,
    {
        let mut buf: Vec<u8> = Vec::new();
        let v = self.protocol_version.to_u8();
        buf.push(v);
        buf.push(!v);
        push_u16(&mut buf, self.payload_type.to_u16());
        push_u32(&mut buf, self.payload_length);
        assert(buf@ =~= self.spec_bytes());
        buf
    }

    /// Number of bytes in a header.
    pub fn length() -> (r: usize)
        ensures
            r == 8,
    {
        HEADER_LENGTH
    }

    /// The declared payload length of `buffer`, read even where the rest of the header is
    /// malformed; 0 when fewer than eight bytes are present.
    pub fn get_payload_len(buffer: &[u8]) -> (r: u32)
        ensures
            r == spec_peek_length(buffer@),
    {
        if buffer.len() < HEADER_LENGTH {
            return 0;
        }
        read_u32(buffer, 4)
    }

    /// Decodes the header at the start of `buffer`.
    pub fn from_buffer(buffer: &[u8]) -> (r: Result<DoIPHeader, NackCode>)
        ensures
            r == spec_decode_header(buffer@),
    {
        if buffer.len() < HEADER_LENGTH {
            return Err(NackCode::InvalidPayloadLength);
        }
        let protocol_version = ProtocolVersion::from_u8(buffer[0]);
        let version = match protocol_version {
            Some(v) => v,
            None => return Err(NackCode::IncorrectPattern),
        };
        if buffer[0] ^ buffer[1] != 0xFF {
            return Err(NackCode::IncorrectPattern);
        }
        let payload_type = match PayloadType::from_u16(read_u16(buffer, 2)) {
            Some(t) => t,
            None => return Err(NackCode::UnknownPayloadType),
        };
        Ok(
            DoIPHeader {
                protocol_version: version,
                payload_type,
                payload_length: read_u32(buffer, 4),
            },
        )
    }
}

/// A header is read back as written, and its declared length can be peeked at.
pub proof fn lemma_header_round_trip(h: DoIPHeader, rest: Seq<u8>)
    ensures
        spec_decode_header(h.spec_bytes() + rest) == Ok::<DoIPHeader, NackCode>(h),
        spec_peek_length(h.spec_bytes() + rest) == h.payload_length,
{
    let b = h.spec_bytes() + rest;
    let v = h.protocol_version.spec_to_u8();
    assert(v ^ !v == 0xFF) by (bit_vector);
    crate::message::wire::lemma_be16_round_trip(h.payload_type.spec_to_u16());
    crate::message::wire::lemma_be32_round_trip(h.payload_length);
    PayloadType::lemma_code_unique(h.payload_type);
    assert(b[0] == v && b[1] == !v);
    assert(b[2] == be16_bytes(h.payload_type.spec_to_u16())[0]);
    assert(b[3] == be16_bytes(h.payload_type.spec_to_u16())[1]);
    assert(b[4] == be32_bytes(h.payload_length)[0]);
    assert(b[5] == be32_bytes(h.payload_length)[1]);
    assert(b[6] == be32_bytes(h.payload_length)[2]);
    assert(b[7] == be32_bytes(h.payload_length)[3]);
}

/// Header validation: on eight bytes or more, decoding succeeds exactly when the version byte
/// is known, the second byte is its complement and the type code is known. A broken pattern
/// gives `IncorrectPattern`, before the type is looked at; an unknown type gives
/// `UnknownPayloadType`.
pub proof fn lemma_header_validation(b: Seq<u8>)
    requires
        b.len() >= 8,
    ensures
        spec_decode_header(b) is Ok <==> (b[0] ^ b[1] == 0xFF && ProtocolVersion::spec_from_u8(
            b[0],
        ) is Some && PayloadType::spec_from_u16(be16(b[2], b[3])) is Some),
        (b[0] ^ b[1] != 0xFF || ProtocolVersion::spec_from_u8(b[0]) is None) ==> spec_decode_header(b)
            == Err::<DoIPHeader, NackCode>(NackCode::IncorrectPattern),
        (b[0] ^ b[1] == 0xFF && ProtocolVersion::spec_from_u8(b[0]) is Some
            && PayloadType::spec_from_u16(be16(b[2], b[3])) is None) ==> spec_decode_header(b)
            == Err::<DoIPHeader, NackCode>(NackCode::UnknownPayloadType),
{
}

} // verus!
