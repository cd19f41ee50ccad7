//! Diagnostic messages between tester and entity, and their acknowledgements.

use vstd::prelude::*;
use crate::message::header::{NackCode, PayloadType};
use crate::message::wire::{
    be16, be16_bytes, lemma_be16_round_trip, push_all, push_u16, read_u16, read_vec,
};
use crate::message::{decode_frame, spec_decode_frame, view_of_result, Message, PayloadCodec};

verus! {

/// Diagnostic data from a source address to a target address.
#[derive(Clone, Debug, PartialEq, Eq)]
pub struct DiagMessage {
    pub source_address: u16,
    pub target_address: u16,
    pub user_data: Vec<u8>,
}

impl View for DiagMessage {
    /// Source, target and user data.
    type V = (u16, u16, Seq<u8>);

    open spec fn view(&self) -> (u16, u16, Seq<u8>) {
        (self.source_address, self.target_address, self.user_data@)
    }
}

impl Default for DiagMessage {
    fn default() -> (r: Self)
        ensures
            r@ == (0u16, 0u16, Seq::<u8>::empty()),
    {
        DiagMessage { source_address: 0, target_address: 0, user_data: Vec::new() }
    }
}

impl DiagMessage {
    /// Decodes a whole frame.
    pub fn from_payload(payload: &[u8]) -> (r: Result<Self, NackCode>)
        ensures
            view_of_result(r) == spec_decode_frame::<Self>(payload@),
    {
        decode_frame::<Self>(payload)
    }
}

impl PayloadCodec for DiagMessage {
    open spec fn spec_payload_type() -> PayloadType {
        PayloadType::DiagMessage
    }

    /// At most four bytes of user data.
    open spec fn spec_wf(&self) -> bool {
        self.user_data@.len() <= 4
    }

    open spec fn spec_payload(&self) -> Seq<u8> {
        be16_bytes(self.source_address) + be16_bytes(self.target_address) + self.user_data@
    }

    /// Lengths 4 to 8; the user data is what follows the two addresses.
    open spec fn spec_decode(payload: Seq<u8>, declared_length: u32) -> Result<
        (u16, u16, Seq<u8>),
        NackCode,
    > {
        if !(4 <= declared_length <= 8) || payload.len() < declared_length {
            Err(NackCode::InvalidPayloadLength)
        } else {
            Ok(
                (
                    be16(payload[0], payload[1]),
                    be16(payload[2], payload[3]),
                    payload.subrange(4, declared_length as int),
                ),
            )
        }
    }

    proof fn lemma_round_trip(&self) {
        lemma_be16_round_trip(self.source_address);
        lemma_be16_round_trip(self.target_address);
        let p = self.spec_payload();
        assert(p.subrange(4, p.len() as int) =~= self.user_data@);
    }

    fn payload_type() -> (r: PayloadType) {
        PayloadType::DiagMessage
    }

    fn decode(payload: &[u8], declared_length: u32) -> (r: Result<Self, NackCode>) {
        if !(4 <= declared_length && declared_length <= 8) || payload.len()
            < declared_length as usize {
            return Err(NackCode::InvalidPayloadLength);
        }
        Ok(
            DiagMessage {
                source_address: read_u16(payload, 0),
                target_address: read_u16(payload, 2),
                user_data: read_vec(payload, 4, declared_length as usize),
            },
        )
    }

    fn encode(&self) -> (r: Vec<u8>) {
        let mut buf: Vec<u8> = Vec::new();
        push_u16(&mut buf, self.source_address);
        push_u16(&mut buf, self.target_address);
        push_all(&mut buf, self.user_data.as_slice());
        assert(buf@ =~= self.spec_payload());
        buf
    }
}

impl Message for DiagMessage {}

/// The positive acknowledgement code of a diagnostic message.
#[derive(Clone, Copy, Debug, PartialEq, Eq, Structural)]
pub enum AckCode {
    Ack,
}

impl AckCode {
    pub open spec fn spec_to_u8(self) -> u8 {
        match self {
            AckCode::Ack => 0x16,
        }
    }

    pub open spec fn spec_from_u8(b: u8) -> Option<AckCode> {
        if b == 0x16 {
            Some(AckCode::Ack)
        } else {
            None
        }
    }

    /// The wire value.
    pub fn to_u8(self) -> (r: u8)
        ensures
            r == self.spec_to_u8(),
    {
        match self {
            AckCode::Ack => 0x16,
        }
    }

    /// The code with wire value `b`; `None` for a reserved value.
    pub fn from_u8(b: u8) -> (r: Option<AckCode>)
        ensures
            r == AckCode::spec_from_u8(b),
    {
        if b == 0x16 {
            Some(AckCode::Ack)
        } else {
            None
        }
    }
}

/// The payload of an acknowledgement: source, target, code, then the echoed data.
pub open spec fn spec_ack_payload(v: (u16, u16, AckCode, Seq<u8>)) -> Seq<u8> {
    be16_bytes(v.0) + be16_bytes(v.1) + seq![v.2.spec_to_u8()] + v.3
}

/// Confirms a diagnostic message, echoing up to five bytes of it.
#[derive(Clone, Debug, PartialEq, Eq)]
pub struct DiagMessageAck {
    pub source_address: u16,
    pub target_address: u16,
    pub ack_code: AckCode,
    pub prev_diag_data: Vec<u8>,
}

impl View for DiagMessageAck {
    /// Source, target, code and echoed data.
    type V = (u16, u16, AckCode, Seq<u8>);

    open spec fn view(&self) -> (u16, u16, AckCode, Seq<u8>) {
        (self.source_address, self.target_address, self.ack_code, self.prev_diag_data@)
    }
}

impl Default for DiagMessageAck {
    fn default() -> (r: Self)
        ensures
            r@ == (0u16, 0u16, AckCode::Ack, Seq::<u8>::empty()),
    {
        DiagMessageAck::new(0, 0)
    }
}

impl DiagMessageAck {
    /// A positive acknowledgement from `source_address` to `target_address`, echoing nothing.
    pub fn new(source_address: u16, target_address: u16) -> (r: Self)
        ensures
            r@ == (source_address, target_address, AckCode::Ack, Seq::<u8>::empty()),
    {
        DiagMessageAck {
            source_address,
            target_address,
            ack_code: AckCode::Ack,
            prev_diag_data: Vec::new(),
        }
    }

    /// Decodes a whole frame.
    pub fn from_payload(payload: &[u8]) -> (r: Result<Self, NackCode>)
        ensures
            view_of_result(r) == spec_decode_frame::<Self>(payload@),
    {
        decode_frame::<Self>(payload)
    }
}

impl PayloadCodec for DiagMessageAck {
    open spec fn spec_payload_type() -> PayloadType {
        PayloadType::DiagMessageAck
    }

    /// At most five echoed bytes.
    open spec fn spec_wf(&self) -> bool {
        self.prev_diag_data@.len() <= 5
    }

    open spec fn spec_payload(&self) -> Seq<u8> {
        spec_ack_payload(self@)
    }

    /// Lengths 5 to 10; a reserved code does not match the message's pattern.
    open spec fn spec_decode(payload: Seq<u8>, declared_length: u32) -> Result<
        (u16, u16, AckCode, Seq<u8>),
        NackCode,
    > {
        if !(5 <= declared_length <= 10) || payload.len() < declared_length {
            Err(NackCode::InvalidPayloadLength)
        } else {
            match AckCode::spec_from_u8(payload[4]) {
                None => Err(NackCode::IncorrectPattern),
                Some(code) => Ok(
                    (
                        be16(payload[0], payload[1]),
                        be16(payload[2], payload[3]),
                        code,
                        payload.subrange(5, declared_length as int),
                    ),
                ),
            }
        }
    }

    proof fn lemma_round_trip(&self) {
        lemma_be16_round_trip(self.source_address);
        lemma_be16_round_trip(self.target_address);
        let p = self.spec_payload();
        assert(p.subrange(5, p.len() as int) =~= self.prev_diag_data@);
    }

    fn payload_type() -> (r: PayloadType) {
        PayloadType::DiagMessageAck
    }

    fn decode(payload: &[u8], declared_length: u32) -> (r: Result<Self, NackCode>) {
        if !(5 <= declared_length && declared_length <= 10) || payload.len()
            < declared_length as usize {
            return Err(NackCode::InvalidPayloadLength);
        }
        let ack_code = match AckCode::from_u8(payload[4]) {
            Some(c) => c,
            None => return Err(NackCode::IncorrectPattern),
        };
        Ok(
            DiagMessageAck {
                source_address: read_u16(payload, 0),
                target_address: read_u16(payload, 2),
                ack_code,
                prev_diag_data: read_vec(payload, 5, declared_length as usize),
            },
        )
    }

    fn encode(&self) -> (r: Vec<u8>) {
        let mut buf: Vec<u8> = Vec::new();
        push_u16(&mut buf, self.source_address);
        push_u16(&mut buf, self.target_address);
        buf.push(self.ack_code.to_u8());
        push_all(&mut buf, self.prev_diag_data.as_slice());
        assert(buf@ =~= self.spec_payload());
        buf
    }
}

impl Message for DiagMessageAck {}

/// Refuses a diagnostic message with a reason, echoing up to five bytes of it.
#[derive(Clone, Debug, PartialEq, Eq)]
pub struct DiagMessageNAck {
    pub source_address: u16,
    pub target_address: u16,
    pub nack_code: NackCode,
    pub prev_diag_data: Vec<u8>,
}

impl View for DiagMessageNAck {
    /// Source, target, reason and echoed data.
    type V = (u16, u16, NackCode, Seq<u8>);

    open spec fn view(&self) -> (u16, u16, NackCode, Seq<u8>) {
        (self.source_address, self.target_address, self.nack_code, self.prev_diag_data@)
    }
}

impl Default for DiagMessageNAck {
    fn default() -> (r: Self)
        ensures
            r@ == (0u16, 0u16, NackCode::IncorrectPattern, Seq::<u8>::empty()),
    {
        DiagMessageNAck {
            source_address: 0,
            target_address: 0,
            nack_code: NackCode::IncorrectPattern,
            prev_diag_data: Vec::new(),
        }
    }
}

impl DiagMessageNAck {
    /// Decodes a whole frame.
    pub fn from_payload(payload: &[u8]) -> (r: Result<Self, NackCode>)
        ensures
            view_of_result(r) == spec_decode_frame::<Self>(payload@),
    {
        decode_frame::<Self>(payload)
    }
}

impl PayloadCodec for DiagMessageNAck {
    open spec fn spec_payload_type() -> PayloadType {
        PayloadType::DiagMessageNAck
    }

    /// At most five echoed bytes.
    open spec fn spec_wf(&self) -> bool {
        self.prev_diag_data@.len() <= 5
    }

    open spec fn spec_payload(&self) -> Seq<u8> {
        be16_bytes(self.source_address) + be16_bytes(self.target_address) + seq![
            self.nack_code.spec_to_u8(),
        ] + self.prev_diag_data@
    }

    /// Lengths 5 to 10; a reserved code does not match the message's pattern.
    open spec fn spec_decode(payload: Seq<u8>, declared_length: u32) -> Result<
        (u16, u16, NackCode, Seq<u8>),
        NackCode,
    > {
        if !(5 <= declared_length <= 10) || payload.len() < declared_length {
            Err(NackCode::InvalidPayloadLength)
        } else {
            match NackCode::spec_from_u8(payload[4]) {
                None => Err(NackCode::IncorrectPattern),
                Some(code) => Ok(
                    (
                        be16(payload[0], payload[1]),
                        be16(payload[2], payload[3]),
                        code,
                        payload.subrange(5, declared_length as int),
                    ),
                ),
            }
        }
    }

    proof fn lemma_round_trip(&self) {
        lemma_be16_round_trip(self.source_address);
        lemma_be16_round_trip(self.target_address);
        let p = self.spec_payload();
        assert(p.subrange(5, p.len() as int) =~= self.prev_diag_data@);
    }

    fn payload_type() -> (r: PayloadType) {
        PayloadType::DiagMessageNAck
    }

    fn decode(payload: &[u8], declared_length: u32) -> (r: Result<Self, NackCode>) {
        if !(5 <= declared_length && declared_length <= 10) || payload.len()
            < declared_length as usize {
            return Err(NackCode::InvalidPayloadLength);
        }
        let nack_code = match NackCode::from_u8(payload[4]) {
            Some(c) => c,
            None => return Err(NackCode::IncorrectPattern),
        };
        Ok(
            DiagMessageNAck {
                source_address: read_u16(payload, 0),
                target_address: read_u16(payload, 2),
                nack_code,
                prev_diag_data: read_vec(payload, 5, declared_length as usize),
            },
        )
    }

    fn encode(&self) -> (r: Vec<u8>) {
        let mut buf: Vec<u8> = Vec::new();
        push_u16(&mut buf, self.source_address);
        push_u16(&mut buf, self.target_address);
        buf.push(self.nack_code.to_u8());
        push_all(&mut buf, self.prev_diag_data.as_slice());
        assert(buf@ =~= self.spec_payload());
        buf
    }
}

impl Message for DiagMessageNAck {}

} // verus!
