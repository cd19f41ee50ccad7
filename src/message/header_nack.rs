//! Header NACK: tells the peer why its frame was refused.

use vstd::prelude::*;
use crate::message::header::{NackCode, PayloadType};
use crate::message::{decode_frame, spec_decode_frame, view_of_result, Message, PayloadCodec};

verus! {

/// The refusal of a frame, with its reason.
#[derive(Clone, Copy, Debug, PartialEq, Eq, Structural)]
pub struct HeaderNackMessage {
    pub nack_code: NackCode,
}

impl View for HeaderNackMessage {
    type V = HeaderNackMessage;

    open spec fn view(&self) -> HeaderNackMessage {
        *self
    }
}

impl Default for HeaderNackMessage {
    fn default() -> (r: Self)
        ensures
            r == (HeaderNackMessage { nack_code: NackCode::IncorrectPattern }),
    {
        HeaderNackMessage { nack_code: NackCode::IncorrectPattern }
    }
}

impl HeaderNackMessage {
    /// Decodes a whole frame.
    pub fn from_payload(payload: &[u8]) -> (r: Result<Self, NackCode>)
        ensures
            view_of_result(r) == spec_decode_frame::<Self>(payload@),
    {
        decode_frame::<Self>(payload)
    }

    /// The refusal carrying `code`.
    pub fn new(code: NackCode) -> (r: Self)
        ensures
            r == (HeaderNackMessage { nack_code: code }),
    {
        HeaderNackMessage { nack_code: code }
    }
}

impl PayloadCodec for HeaderNackMessage {
    open spec fn spec_payload_type() -> PayloadType {
        PayloadType::HeaderNack
    }

    open spec fn spec_wf(&self) -> bool {
        true
    }

    open spec fn spec_payload(&self) -> Seq<u8> {
        seq![self.nack_code.spec_to_u8()]
    }

    /// One byte; a reserved code does not match the message's pattern.
    open spec fn spec_decode(payload: Seq<u8>, declared_length: u32) -> Result<Self, NackCode> {
        if declared_length != 1 || payload.len() < 1 {
            Err(NackCode::InvalidPayloadLength)
        } else {
            match NackCode::spec_from_u8(payload[0]) {
                Some(code) => Ok(HeaderNackMessage { nack_code: code }),
                None => Err(NackCode::IncorrectPattern),
            }
        }
    }

    proof fn lemma_round_trip(&self) {
    }

    fn payload_type() -> (r: PayloadType) {
        PayloadType::HeaderNack
    }

    fn decode(payload: &[u8], declared_length: u32) -> (r: Result<Self, NackCode>) {
        if declared_length != 1 || payload.len() < 1 {
            return Err(NackCode::InvalidPayloadLength);
        }
        match NackCode::from_u8(payload[0]) {
            Some(code) => Ok(HeaderNackMessage { nack_code: code }),
            None => Err(NackCode::IncorrectPattern),
        }
    }

    fn encode(&self) -> (r: Vec<u8>) {
        let mut buf: Vec<u8> = Vec::new();
        buf.push(self.nack_code.to_u8());
        assert(buf@ =~= self.spec_payload());
        buf
    }
}

impl Message for HeaderNackMessage {}

} // verus!
