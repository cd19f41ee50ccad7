//! Routing activation: a tester asks to have its source address routed on a TCP session.

use vstd::prelude::*;
use crate::message::header::{NackCode, PayloadType};
use crate::message::wire::{
    be16, be16_bytes, be32, be32_bytes, lemma_be16_round_trip, lemma_be32_round_trip, push_u16,
    push_u32, read_u16, read_u32,
};
use crate::message::{decode_frame, spec_decode_frame, view_of_result, Message, PayloadCodec};

verus! {

/// The four big-endian bytes of an optional reserved field; nothing when it is absent.
pub open spec fn optional_u32_bytes(x: Option<u32>) -> Seq<u8> {
    match x {
        Some(v) => be32_bytes(v),
        None => Seq::empty(),
    }
}

/// A tester's request to route its source address.
#[derive(Clone, Copy, Debug, PartialEq, Eq, Structural)]
pub struct RoutingActivationRequest {
    pub source_address: u16,
    pub activation_type: u8,
    pub reserved_doc: u32,
    pub reserved_vm: Option<u32>,
}

impl View for RoutingActivationRequest {
    type V = RoutingActivationRequest;

    open spec fn view(&self) -> RoutingActivationRequest {
        *self
    }
}

impl Default for RoutingActivationRequest {
    fn default() -> (r: Self)
        ensures
            r == (RoutingActivationRequest {
                source_address: 0,
                activation_type: 0,
                reserved_doc: 0,
                reserved_vm: None,
            }),
    {
        RoutingActivationRequest {
            source_address: 0,
            activation_type: 0,
            reserved_doc: 0,
            reserved_vm: None,
        }
    }
}

impl RoutingActivationRequest {
    /// A request with zero reserved bytes and no manufacturer field.
    pub fn new(source_address: u16, activation_type: u8) -> (r: Self)
        ensures
            r == (RoutingActivationRequest {
                source_address,
                activation_type,
                reserved_doc: 0,
                reserved_vm: None,
            }),
    {
        RoutingActivationRequest {
            source_address,
            activation_type,
            reserved_doc: 0,
            reserved_vm: None,
        }
    }

    /// Decodes a whole frame.
    pub fn from_payload(payload: &[u8]) -> (r: Result<Self, NackCode>)
        ensures
            view_of_result(r) == spec_decode_frame::<Self>(payload@),
    {
        decode_frame::<Self>(payload)
    }
}

impl PayloadCodec for RoutingActivationRequest {
    open spec fn spec_payload_type() -> PayloadType {
        PayloadType::RoutingActivationReq
    }

    open spec fn spec_wf(&self) -> bool {
        true
    }

    open spec fn spec_payload(&self) -> Seq<u8> {
        be16_bytes(self.source_address) + seq![self.activation_type] + be32_bytes(self.reserved_doc)
            + optional_u32_bytes(self.reserved_vm)
    }

    /// Lengths 7 and 11 are accepted; the manufacturer field is present only at 11.
    open spec fn spec_decode(payload: Seq<u8>, declared_length: u32) -> Result<Self, NackCode> {
        if !(declared_length == 7 || declared_length == 11) || payload.len() < declared_length {
            Err(NackCode::InvalidPayloadLength)
        } else {
            Ok(
                RoutingActivationRequest {
                    source_address: be16(payload[0], payload[1]),
                    activation_type: payload[2],
                    reserved_doc: be32(payload[3], payload[4], payload[5], payload[6]),
                    reserved_vm: if declared_length == 11 {
                        Some(be32(payload[7], payload[8], payload[9], payload[10]))
                    } else {
                        None
                    },
                },
            )
        }
    }

    proof fn lemma_round_trip(&self) {
        lemma_be16_round_trip(self.source_address);
        lemma_be32_round_trip(self.reserved_doc);
        match self.reserved_vm {
            Some(v) => lemma_be32_round_trip(v),
            None => {},
        }
    }

    fn payload_type() -> (r: PayloadType) {
        PayloadType::RoutingActivationReq
    }

    fn decode(payload: &[u8], declared_length: u32) -> (r: Result<Self, NackCode>) {
        if !(declared_length == 7 || declared_length == 11) || payload.len()
            < declared_length as usize {
            return Err(NackCode::InvalidPayloadLength);
        }
        let reserved_vm = if declared_length == 11 {
            Some(read_u32(payload, 7))
        } else {
            None
        };
        Ok(
            RoutingActivationRequest {
                source_address: read_u16(payload, 0),
                activation_type: payload[2],
                reserved_doc: read_u32(payload, 3),
                reserved_vm,
            },
        )
    }

    fn encode(&self) -> (r: Vec<u8>) {
        let mut buf: Vec<u8> = Vec::new();
        push_u16(&mut buf, self.source_address);
        buf.push(self.activation_type);
        push_u32(&mut buf, self.reserved_doc);
        match self.reserved_vm {
            Some(v) => push_u32(&mut buf, v),
            None => {},
        }
        assert(buf@ =~= self.spec_payload());
        buf
    }
}

impl Message for RoutingActivationRequest {}

/// The responder's verdict on a routing activation request.
#[derive(Clone, Copy, Debug, PartialEq, Eq, Structural)]
pub enum RoutingActivationCode {
    DeniedUnknownSourceAddress,
    DeniedNoSocketAvailable,
    DeniedDifferentSA,
    DeniedSAInUse,
    DeniedActivationTypeUnsupported,
    RoutingActivated,
}

impl RoutingActivationCode {
    pub open spec fn spec_to_u8(self) -> u8 {
        match self {
            RoutingActivationCode::DeniedUnknownSourceAddress => 0x00,
            RoutingActivationCode::DeniedNoSocketAvailable => 0x01,
            RoutingActivationCode::DeniedDifferentSA => 0x02,
            RoutingActivationCode::DeniedSAInUse => 0x03,
            RoutingActivationCode::DeniedActivationTypeUnsupported => 0x06,
            RoutingActivationCode::RoutingActivated => 0x10,
        }
    }

    pub open spec fn spec_from_u8(b: u8) -> Option<RoutingActivationCode> {
        if b == 0x00 {
            Some(RoutingActivationCode::DeniedUnknownSourceAddress)
        } else if b == 0x01 {
            Some(RoutingActivationCode::DeniedNoSocketAvailable)
        } else if b == 0x02 {
            Some(RoutingActivationCode::DeniedDifferentSA)
        } else if b == 0x03 {
            Some(RoutingActivationCode::DeniedSAInUse)
        } else if b == 0x06 {
            Some(RoutingActivationCode::DeniedActivationTypeUnsupported)
        } else if b == 0x10 {
            Some(RoutingActivationCode::RoutingActivated)
        } else {
            None
        }
    }

    /// The wire value.
    pub fn to_u8(self) -> (r: u8)
        ensures
            r == self.spec_to_u8(),
    {
        match self {
            RoutingActivationCode::DeniedUnknownSourceAddress => 0x00,
            RoutingActivationCode::DeniedNoSocketAvailable => 0x01,
            RoutingActivationCode::DeniedDifferentSA => 0x02,
            RoutingActivationCode::DeniedSAInUse => 0x03,
            RoutingActivationCode::DeniedActivationTypeUnsupported => 0x06,
            RoutingActivationCode::RoutingActivated => 0x10,
        }
    }

    /// The code with wire value `b`; `None` for a reserved value.
    pub fn from_u8(b: u8) -> (r: Option<RoutingActivationCode>)
        ensures
            r == RoutingActivationCode::spec_from_u8(b),
    {
        if b == 0x00 {
            Some(RoutingActivationCode::DeniedUnknownSourceAddress)
        } else if b == 0x01 {
            Some(RoutingActivationCode::DeniedNoSocketAvailable)
        } else if b == 0x02 {
            Some(RoutingActivationCode::DeniedDifferentSA)
        } else if b == 0x03 {
            Some(RoutingActivationCode::DeniedSAInUse)
        } else if b == 0x06 {
            Some(RoutingActivationCode::DeniedActivationTypeUnsupported)
        } else if b == 0x10 {
            Some(RoutingActivationCode::RoutingActivated)
        } else {
            None
        }
    }
}

/// The responder's answer to a routing activation request.
#[derive(Clone, Copy, Debug, PartialEq, Eq, Structural)]
pub struct RoutingActivationResponse {
    pub client_logical_address: u16,
    pub entity_logical_address: u16,
    pub routing_activation_response_code: RoutingActivationCode,
    pub reserved_doc: u32,
    pub reserved_vm: Option<u32>,
}

impl View for RoutingActivationResponse {
    type V = RoutingActivationResponse;

    open spec fn view(&self) -> RoutingActivationResponse {
        *self
    }
}

impl Default for RoutingActivationResponse {
    fn default() -> (r: Self)
        ensures
            r == RoutingActivationResponse::spec_new(
                0,
                0,
                RoutingActivationCode::DeniedUnknownSourceAddress,
            ),
    {
        RoutingActivationResponse::new(0, 0, RoutingActivationCode::DeniedUnknownSourceAddress)
    }
}

impl RoutingActivationResponse {
    /// An answer with zero reserved bytes and no manufacturer field.
    pub open spec fn spec_new(
        client_logical_address: u16,
        entity_logical_address: u16,
        routing_activation_response_code: RoutingActivationCode,
    ) -> RoutingActivationResponse {
        RoutingActivationResponse {
            client_logical_address,
            entity_logical_address,
            routing_activation_response_code,
            reserved_doc: 0,
            reserved_vm: None,
        }
    }

    /// An answer with zero reserved bytes and no manufacturer field.
    pub fn new(
        client_logical_address: u16,
        entity_logical_address: u16,
        routing_activation_response_code: RoutingActivationCode,
    ) -> (r: Self)
        ensures
            r == RoutingActivationResponse::spec_new(
                client_logical_address,
                entity_logical_address,
                routing_activation_response_code,
            ),
    {
        RoutingActivationResponse {
            client_logical_address,
            entity_logical_address,
            routing_activation_response_code,
            reserved_doc: 0,
            reserved_vm: None,
        }
    }

    /// Decodes a whole frame.
    pub fn from_payload(payload: &[u8]) -> (r: Result<Self, NackCode>)
        ensures
            view_of_result(r) == spec_decode_frame::<Self>(payload@),
    {
        decode_frame::<Self>(payload)
    }
}

impl PayloadCodec for RoutingActivationResponse {
    open spec fn spec_payload_type() -> PayloadType {
        PayloadType::RoutingActivationRes
    }

    open spec fn spec_wf(&self) -> bool {
        true
    }

    open spec fn spec_payload(&self) -> Seq<u8> {
        be16_bytes(self.client_logical_address) + be16_bytes(self.entity_logical_address) + seq![
            self.routing_activation_response_code.spec_to_u8(),
        ] + be32_bytes(self.reserved_doc) + optional_u32_bytes(self.reserved_vm)
    }

    /// Lengths 9 and 13 are accepted; the manufacturer field is present only at 13. A reserved
    /// response code does not match the message's pattern.
    open spec fn spec_decode(payload: Seq<u8>, declared_length: u32) -> Result<Self, NackCode> {
        if !(declared_length == 9 || declared_length == 13) || payload.len() < declared_length {
            Err(NackCode::InvalidPayloadLength)
        } else {
            match RoutingActivationCode::spec_from_u8(payload[4]) {
                None => Err(NackCode::IncorrectPattern),
                Some(code) => Ok(
                    RoutingActivationResponse {
                        client_logical_address: be16(payload[0], payload[1]),
                        entity_logical_address: be16(payload[2], payload[3]),
                        routing_activation_response_code: code,
                        reserved_doc: be32(payload[5], payload[6], payload[7], payload[8]),
                        reserved_vm: if declared_length == 13 {
                            Some(be32(payload[9], payload[10], payload[11], payload[12]))
                        } else {
                            None
                        },
                    },
                ),
            }
        }
    }

    proof fn lemma_round_trip(&self) {
        lemma_be16_round_trip(self.client_logical_address);
        lemma_be16_round_trip(self.entity_logical_address);
        lemma_be32_round_trip(self.reserved_doc);
        match self.reserved_vm {
            Some(v) => lemma_be32_round_trip(v),
            None => {},
        }
    }

    fn payload_type() -> (r: PayloadType) {
        PayloadType::RoutingActivationRes
    }

    fn decode(payload: &[u8], declared_length: u32) -> (r: Result<Self, NackCode>) {
        if !(declared_length == 9 || declared_length == 13) || payload.len()
            < declared_length as usize {
            return Err(NackCode::InvalidPayloadLength);
        }
        let code = match RoutingActivationCode::from_u8(payload[4]) {
            Some(c) => c,
            None => return Err(NackCode::IncorrectPattern),
        };
        let reserved_vm = if declared_length == 13 {
            Some(read_u32(payload, 9))
        } else {
            None
        };
        Ok(
            RoutingActivationResponse {
                client_logical_address: read_u16(payload, 0),
                entity_logical_address: read_u16(payload, 2),
                routing_activation_response_code: code,
                reserved_doc: read_u32(payload, 5),
                reserved_vm,
            },
        )
    }

    fn encode(&self) -> (r: Vec<u8>) {
        let mut buf: Vec<u8> = Vec::new();
        push_u16(&mut buf, self.client_logical_address);
        push_u16(&mut buf, self.entity_logical_address);
        buf.push(self.routing_activation_response_code.to_u8());
        push_u32(&mut buf, self.reserved_doc);
        match self.reserved_vm {
            Some(v) => push_u32(&mut buf, v),
            None => {},
        }
        assert(buf@ =~= self.spec_payload());
        buf
    }
}

impl Message for RoutingActivationResponse {}

/// Accepted lengths of routing activation: a request is decoded at 7 and 11 bytes only, an
/// answer at 9 and 13 only (with a known code); any other declared length gives
/// `InvalidPayloadLength`, however many bytes are present.
pub proof fn lemma_routing_activation_lengths(payload: Seq<u8>, declared_length: u32)
    ensures
        declared_length != 7 && declared_length != 11 ==> RoutingActivationRequest::spec_decode(
            payload,
            declared_length,
        ) == Err::<RoutingActivationRequest, NackCode>(NackCode::InvalidPayloadLength),
        (declared_length == 7 || declared_length == 11) && payload.len() >= declared_length
            ==> RoutingActivationRequest::spec_decode(payload, declared_length) is Ok,
        declared_length != 9 && declared_length != 13 ==> RoutingActivationResponse::spec_decode(
            payload,
            declared_length,
        ) == Err::<RoutingActivationResponse, NackCode>(NackCode::InvalidPayloadLength),
        (declared_length == 9 || declared_length == 13) && payload.len() >= declared_length
            && RoutingActivationCode::spec_from_u8(payload[4]) is Some
            ==> RoutingActivationResponse::spec_decode(payload, declared_length) is Ok,
{
}

} // verus!
