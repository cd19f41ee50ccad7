//! Entity status: the responder's node type and socket capacity.

use vstd::prelude::*;
use crate::message::header::{NackCode, PayloadType};
use crate::message::wire::{be32, be32_bytes, lemma_be32_round_trip, push_u32, read_u32};
use crate::message::{decode_frame, spec_decode_frame, view_of_result, Message, PayloadCodec};

verus! {

/// Whether the entity is a gateway or a plain node.
#[derive(Clone, Copy, Debug, PartialEq, Eq, Structural)]
pub enum NodeType {
    Gateway,
    Node,
}

impl NodeType {
    pub open spec fn spec_to_u8(self) -> u8 {
        match self {
            NodeType::Gateway => 0x00,
            NodeType::Node => 0x01,
        }
    }

    pub open spec fn spec_from_u8(b: u8) -> Option<NodeType> {
        if b == 0x00 {
            Some(NodeType::Gateway)
        } else if b == 0x01 {
            Some(NodeType::Node)
        } else {
            None
        }
    }

    /// The wire value.
    pub fn to_u8(self) -> (r: u8)
        ensures
            r == self.spec_to_u8(),
    {
        match self {
            NodeType::Gateway => 0x00,
            NodeType::Node => 0x01,
        }
    }

    /// The node type with wire value `b`; `None` for a reserved value.
    pub fn from_u8(b: u8) -> (r: Option<NodeType>)
        ensures
            r == NodeType::spec_from_u8(b),
    {
        if b == 0x00 {
            Some(NodeType::Gateway)
        } else if b == 0x01 {
            Some(NodeType::Node)
        } else {
            None
        }
    }
}

/// The responder's status: node type, socket capacity, open sockets and largest diagnostic
/// message it accepts.
#[derive(Clone, Copy, Debug, PartialEq, Eq, Structural)]
pub struct EntityStatusResponse {
    pub node_type: NodeType,
    pub max_sockets: u8,
    pub open_sockets: u8,
    pub max_data_size: u32,
}

impl View for EntityStatusResponse {
    type V = EntityStatusResponse;

    open spec fn view(&self) -> EntityStatusResponse {
        *self
    }
}

impl Default for EntityStatusResponse {
    fn default() -> (r: Self)
        ensures
            r == (EntityStatusResponse {
                node_type: NodeType::Gateway,
                max_sockets: 0,
                open_sockets: 0,
                max_data_size: 0,
            }),
    {
        EntityStatusResponse::new(NodeType::Gateway, 0, 0, 0)
    }
}

impl EntityStatusResponse {
    pub fn new(node_type: NodeType, max_sockets: u8, open_sockets: u8, max_data_size: u32) -> (r:
        Self)
        ensures
            r == (EntityStatusResponse { node_type, max_sockets, open_sockets, max_data_size }),
    {
        EntityStatusResponse { node_type, max_sockets, open_sockets, max_data_size }
    }

    /// Decodes a whole frame.
    pub fn from_payload(payload: &[u8]) -> (r: Result<Self, NackCode>)
        ensures
            view_of_result(r) == spec_decode_frame::<Self>(payload@),
    {
        decode_frame::<Self>(payload)
    }
}

impl PayloadCodec for EntityStatusResponse {
    open spec fn spec_payload_type() -> PayloadType {
        PayloadType::EntityStatusRes
    }

    open spec fn spec_wf(&self) -> bool {
        true
    }

    open spec fn spec_payload(&self) -> Seq<u8> {
        seq![self.node_type.spec_to_u8(), self.max_sockets, self.open_sockets] + be32_bytes(
            self.max_data_size,
        )
    }

    /// Seven bytes; a reserved node type does not match the message's pattern.
    open spec fn spec_decode(payload: Seq<u8>, declared_length: u32) -> Result<Self, NackCode> {
        if declared_length != 7 || payload.len() < 7 {
            Err(NackCode::InvalidPayloadLength)
        } else {
            match NodeType::spec_from_u8(payload[0]) {
                None => Err(NackCode::IncorrectPattern),
                Some(node_type) => Ok(
                    EntityStatusResponse {
                        node_type,
                        max_sockets: payload[1],
                        open_sockets: payload[2],
                        max_data_size: be32(payload[3], payload[4], payload[5], payload[6]),
                    },
                ),
            }
        }
    }

    proof fn lemma_round_trip(&self) {
        lemma_be32_round_trip(self.max_data_size);
    }

    fn payload_type() -> (r: PayloadType) {
        PayloadType::EntityStatusRes
    }

    fn decode(payload: &[u8], declared_length: u32) -> (r: Result<Self, NackCode>) {
        if declared_length != 7 || payload.len() < 7 {
            return Err(NackCode::InvalidPayloadLength);
        }
        let node_type = match NodeType::from_u8(payload[0]) {
            Some(t) => t,
            None => return Err(NackCode::IncorrectPattern),
        };
        Ok(
            EntityStatusResponse {
                node_type,
                max_sockets: payload[1],
                open_sockets: payload[2],
                max_data_size: read_u32(payload, 3),
            },
        )
    }

    fn encode(&self) -> (r: Vec<u8>) {
        let mut buf: Vec<u8> = Vec::new();
        buf.push(self.node_type.to_u8());
        buf.push(self.max_sockets);
        buf.push(self.open_sockets);
        push_u32(&mut buf, self.max_data_size);
        assert(buf@ =~= self.spec_payload());
        buf
    }
}

impl Message for EntityStatusResponse {}

/// Asks the responder for its status; no payload.
#[derive(Clone, Copy, Debug, PartialEq, Eq, Structural)]
pub struct EntityStatusRequest {}

impl View for EntityStatusRequest {
    type V = EntityStatusRequest;

    open spec fn view(&self) -> EntityStatusRequest {
        *self
    }
}

impl Default for EntityStatusRequest {
    fn default() -> (r: Self)
        ensures
            r == (EntityStatusRequest {}),
    {
        EntityStatusRequest {}
    }
}

impl EntityStatusRequest {
    /// Decodes a whole frame.
    pub fn from_payload(payload: &[u8]) -> (r: Result<Self, NackCode>)
        ensures
            view_of_result(r) == spec_decode_frame::<Self>(payload@),
    {
        decode_frame::<Self>(payload)
    }
}

impl PayloadCodec for EntityStatusRequest {
    open spec fn spec_payload_type() -> PayloadType {
        PayloadType::EntityStatusReq
    }

    open spec fn spec_wf(&self) -> bool {
        true
    }

    open spec fn spec_payload(&self) -> Seq<u8> {
        Seq::empty()
    }

    open spec fn spec_decode(payload: Seq<u8>, declared_length: u32) -> Result<Self, NackCode> {
        if declared_length != 0 {
            Err(NackCode::InvalidPayloadLength)
        } else {
            Ok(EntityStatusRequest {})
        }
    }

    proof fn lemma_round_trip(&self) {
    }

    fn payload_type() -> (r: PayloadType) {
        PayloadType::EntityStatusReq
    }

    fn decode(payload: &[u8], declared_length: u32) -> (r: Result<Self, NackCode>) {
        if declared_length != 0 {
            return Err(NackCode::InvalidPayloadLength);
        }
        Ok(EntityStatusRequest {})
    }

    fn encode(&self) -> (r: Vec<u8>) {
        Vec::new()
    }
}

impl Message for EntityStatusRequest {}

} // verus!
