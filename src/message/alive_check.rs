//! Alive check: a liveness probe and the answer naming the tester's source address.

use vstd::prelude::*;
use crate::message::header::{NackCode, PayloadType};
use crate::message::wire::{be16, be16_bytes, lemma_be16_round_trip, push_u16, read_u16};
use crate::message::{decode_frame, spec_decode_frame, view_of_result, Message, PayloadCodec};

verus! {

/// Asks the peer to confirm that it is still there; no payload.
#[derive(Clone, Copy, Debug, PartialEq, Eq, Structural)]
pub struct AliveCheckRequest {}

impl View for AliveCheckRequest {
    type V = AliveCheckRequest;

    open spec fn view(&self) -> AliveCheckRequest {
        *self
    }
}

impl Default for AliveCheckRequest {
    fn default() -> (r: Self)
        ensures
            r == (AliveCheckRequest {}),
    {
        AliveCheckRequest {}
    }
}

impl AliveCheckRequest {
    /// Decodes a whole frame.
    pub fn from_payload(payload: &[u8]) -> (r: Result<Self, NackCode>)
        ensures
            view_of_result(r) == spec_decode_frame::<Self>(payload@),
    {
        decode_frame::<Self>(payload)
    }
}

impl PayloadCodec for AliveCheckRequest {
    open spec fn spec_payload_type() -> PayloadType {
        PayloadType::AliveCheckReq
    }

    open spec fn spec_wf(&self) -> bool {
        true
    }

    open spec fn spec_payload(&self) -> Seq<u8> {
        Seq::empty()
    }

    open spec fn spec_decode(payload: Seq<u8>, declared_length: u32) -> Result<Self, NackCode> {
        if declared_length != 0 {
            Err(NackCode::InvalidPayloadLength)
        } else {
            Ok(AliveCheckRequest {})
        }
    }

    proof fn lemma_round_trip(&self) {
    }

    fn payload_type() -> (r: PayloadType) {
        PayloadType::AliveCheckReq
    }

    fn decode(payload: &[u8], declared_length: u32) -> (r: Result<Self, NackCode>) {
        if declared_length != 0 {
            return Err(NackCode::InvalidPayloadLength);
        }
        Ok(AliveCheckRequest {})
    }

    fn encode(&self) -> (r: Vec<u8>) {
        Vec::new()
    }
}

impl Message for AliveCheckRequest {}

/// The tester's answer to an alive check, naming its source address.
#[derive(Clone, Copy, Debug, PartialEq, Eq, Structural)]
pub struct AliveCheckResponse {
    pub source_address: u16,
}

impl View for AliveCheckResponse {
    type V = AliveCheckResponse;

    open spec fn view(&self) -> AliveCheckResponse {
        *self
    }
}

impl Default for AliveCheckResponse {
    fn default() -> (r: Self)
        ensures
            r == (AliveCheckResponse { source_address: 0 }),
    {
        AliveCheckResponse { source_address: 0 }
    }
}

impl AliveCheckResponse {
    /// Decodes a whole frame.
    pub fn from_payload(payload: &[u8]) -> (r: Result<Self, NackCode>)
        ensures
            view_of_result(r) == spec_decode_frame::<Self>(payload@),
    {
        decode_frame::<Self>(payload)
    }
}

impl PayloadCodec for AliveCheckResponse {
    open spec fn spec_payload_type() -> PayloadType {
        PayloadType::AliveCheckRes
    }

    open spec fn spec_wf(&self) -> bool {
        true
    }

    open spec fn spec_payload(&self) -> Seq<u8> {
        be16_bytes(self.source_address)
    }

    open spec fn spec_decode(payload: Seq<u8>, declared_length: u32) -> Result<Self, NackCode> {
        if declared_length != 2 || payload.len() < 2 {
            Err(NackCode::InvalidPayloadLength)
        } else {
            Ok(AliveCheckResponse { source_address: be16(payload[0], payload[1]) })
        }
    }

    proof fn lemma_round_trip(&self) {
        lemma_be16_round_trip(self.source_address);
    }

    fn payload_type() -> (r: PayloadType) {
        PayloadType::AliveCheckRes
    }

    fn decode(payload: &[u8], declared_length: u32) -> (r: Result<Self, NackCode>) {
        if declared_length != 2 || payload.len() < 2 {
            return Err(NackCode::InvalidPayloadLength);
        }
        Ok(AliveCheckResponse { source_address: read_u16(payload, 0) })
    }

    fn encode(&self) -> (r: Vec<u8>) {
        let mut buf: Vec<u8> = Vec::new();
        push_u16(&mut buf, self.source_address);
        assert(buf@ =~= be16_bytes(self.source_address));
        buf
    }
}

impl Message for AliveCheckResponse {}

} // verus!
