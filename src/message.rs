//! Frames and the messages they carry: a shared codec interface, the closed set of message
//! kinds, and dispatch on the header's payload type.

pub mod alive_check;
pub mod diag_message;
pub mod diag_power_mode;
pub mod entity_status;
pub mod header;
pub mod header_nack;
pub mod routing_activation;
pub mod vehicle_identification;
pub mod wire;

use vstd::prelude::*;
use vstd::slice::slice_subrange;
use crate::message::header::{
    spec_decode_header, DoIPHeader, NackCode, PayloadType, ProtocolVersion,
};
use crate::message::alive_check::{AliveCheckRequest, AliveCheckResponse};
use crate::message::diag_message::{DiagMessage, DiagMessageAck, DiagMessageNAck};
use crate::message::diag_power_mode::{DiagnosticPowerModeRequest, DiagnosticPowerModeResponse};
use crate::message::entity_status::{EntityStatusRequest, EntityStatusResponse};
use crate::message::header_nack::HeaderNackMessage;
use crate::message::routing_activation::{RoutingActivationRequest, RoutingActivationResponse};
use crate::message::vehicle_identification::{
    VehicleIdentificationRequest, VehicleIdentificationRequestEID, VehicleIdentificationRequestVIN,
    VehicleIdentificationResponse,
};
use crate::message::wire::push_all;

verus! {

/// A message kind with its payload layout.
pub trait PayloadCodec: Sized + View {
    /// The payload type that frames of this kind carry.
    spec fn spec_payload_type() -> PayloadType;

    /// Whether the value fits its wire layout.
    spec fn spec_wf(&self) -> bool;

    /// The payload bytes of the message.
    spec fn spec_payload(&self) -> Seq<u8>;

    /// What decoding `payload` under the header's declared length gives.
    spec fn spec_decode(payload: Seq<u8>, declared_length: u32) -> Result<Self::V, NackCode>;

    /// A well-formed message is read back from its own payload.
    proof fn lemma_round_trip(&self)
        requires
            self.spec_wf(),
        ensures
            self.spec_payload().len() <= 64,
            Self::spec_decode(self.spec_payload(), self.spec_payload().len() as u32) == Ok::<
                Self::V,
                NackCode,
            >(self@),
    ;

    /// The payload type that frames of this kind carry.
    fn payload_type() -> (r: PayloadType)
        ensures
            r == Self::spec_payload_type(),
    ;

    /// Decodes a payload against the length its header declares.
    fn decode(payload: &[u8], declared_length: u32) -> (r: Result<Self, NackCode>)
        ensures
            view_of_result(r) == Self::spec_decode(payload@, declared_length),
            r is Ok ==> r->Ok_0.spec_wf(),
    ;

    /// The payload bytes of the message.
    fn encode(&self) -> (r: Vec<u8>)
        requires
            self.spec_wf(),
        ensures
            r@ == self.spec_payload(),
    ;
}

/// A message kind sent in frames: a header followed by the payload.
pub trait Message: PayloadCodec {
    /// Decodes a whole frame into `self`; on failure `self` is left as it was.
    fn deserialize(&mut self, frame: &[u8]) -> (r: Result<(), NackCode>)
        ensures
            match spec_decode_frame::<Self>(frame@) {
                Ok(v) => r is Ok && final(self)@ == v && final(self).spec_wf(),
                Err(e) => r == Err::<(), NackCode>(e) && *final(self) == *old(self),
            },
    {
        match decode_frame::<Self>(frame) {
            Ok(m) => {
                *self = m;
                Ok(())
            },
            Err(e) => Err(e),
        }
    }

    /// The whole frame: a header of the current revision, then the payload.
    fn serialize(&self) -> (r: Vec<u8>)
        requires
            self.spec_wf(),
        ensures
            r@ == spec_frame::<Self>(*self),
    {
        proof {
            self.lemma_round_trip();
        }
        let payload = self.encode();
        let header = DoIPHeader {
            protocol_version: ProtocolVersion::ISO13400_2019,
            payload_type: Self::payload_type(),
            payload_length: payload.len() as u32,
        };
        let mut buf = header.serialize();
        push_all(&mut buf, payload.as_slice());
        buf
    }
}

/// A decoding result with the message replaced by its view.
pub open spec fn view_of_result<M: View>(r: Result<M, NackCode>) -> Result<M::V, NackCode> {
    match r {
        Ok(m) => Ok(m@),
        Err(e) => Err(e),
    }
}

/// The header that a frame of `m` carries.
pub open spec fn spec_frame_header<M: PayloadCodec>(m: M) -> DoIPHeader {
    DoIPHeader {
        protocol_version: ProtocolVersion::ISO13400_2019,
        payload_type: M::spec_payload_type(),
        payload_length: m.spec_payload().len() as u32,
    }
}

/// The frame of `m`: its header, then its payload.
pub open spec fn spec_frame<M: PayloadCodec>(m: M) -> Seq<u8> {
    spec_frame_bytes(M::spec_payload_type(), m.spec_payload())
}

/// A frame of the current revision with payload type `t` and payload `payload`.
pub open spec fn spec_frame_bytes(t: PayloadType, payload: Seq<u8>) -> Seq<u8> {
    DoIPHeader {
        protocol_version: ProtocolVersion::ISO13400_2019,
        payload_type: t,
        payload_length: payload.len() as u32,
    }.spec_bytes() + payload
}

/// The bytes of `frame` after its header.
pub open spec fn spec_frame_payload(frame: Seq<u8>) -> Seq<u8> {
    frame.subrange(8, frame.len() as int)
}

/// What decoding a whole frame as a message of kind `M` gives: header errors first, then a
/// frame of another kind is refused, then the payload is decoded.
pub open spec fn spec_decode_frame<M: PayloadCodec>(frame: Seq<u8>) -> Result<M::V, NackCode> {
    match spec_decode_header(frame) {
        Err(e) => Err(e),
        Ok(h) => if h.payload_type != M::spec_payload_type() {
            Err(NackCode::UnknownPayloadType)
        } else {
            M::spec_decode(spec_frame_payload(frame), h.payload_length)
        },
    }
}

/// Decodes a whole frame as a message of kind `M`.
pub fn decode_frame<M: PayloadCodec>(frame: &[u8]) -> (r: Result<M, NackCode>)
    ensures
        view_of_result(r) == spec_decode_frame::<M>(frame@),
        r is Ok ==> r->Ok_0.spec_wf(),
{
    let header = match DoIPHeader::from_buffer(frame) {
        Ok(h) => h,
        Err(e) => return Err(e),
    };
    if header.payload_type != M::payload_type() {
        return Err(NackCode::UnknownPayloadType);
    }
    M::decode(slice_subrange(frame, 8, frame.len()), header.payload_length)
}

/// The frame of a well-formed message opens with its header, and what follows decodes back
/// to the message.
pub proof fn lemma_frame_parts<M: PayloadCodec>(m: M)
    requires
        m.spec_wf(),
    ensures
        spec_decode_header(spec_frame(m)) == Ok::<DoIPHeader, NackCode>(spec_frame_header(m)),
        spec_frame_payload(spec_frame(m)) == m.spec_payload(),
        M::spec_decode(m.spec_payload(), spec_frame_header(m).payload_length) == Ok::<
            M::V,
            NackCode,
        >(m@),
{
    m.lemma_round_trip();
    crate::message::header::lemma_header_round_trip(spec_frame_header(m), m.spec_payload());
    assert(spec_frame_payload(spec_frame(m)) =~= m.spec_payload());
}

/// Round trip of frames: every well-formed message is read back from the frame that
/// `serialize` writes for it.
pub proof fn lemma_frame_round_trip<M: PayloadCodec>(m: M)
    requires
        m.spec_wf(),
    ensures
        spec_decode_frame::<M>(spec_frame(m)) == Ok::<M::V, NackCode>(m@),
{
    lemma_frame_parts(m);
}

/// A decoded message: one of the sixteen kinds.
#[derive(Clone, Debug, PartialEq, Eq)]
pub enum MessageVariant {
    HeaderNackMessageVariant(HeaderNackMessage),
    VehicleIDResVariant(VehicleIdentificationResponse),
    VehicleIDReqVariant(VehicleIdentificationRequest),
    VehicleIDReqByEIDVariant(VehicleIdentificationRequestEID),
    VehicleIDReqByVINVariant(VehicleIdentificationRequestVIN),
    RoutingActivationRequestVariant(RoutingActivationRequest),
    RoutingActivationResponseVariant(RoutingActivationResponse),
    AliveCheckRequestVariant(AliveCheckRequest),
    AliveCheckResponseVariant(AliveCheckResponse),
    EntityStatusRequestVariant(EntityStatusRequest),
    EntityStatusResponseVariant(EntityStatusResponse),
    DiagnosticMessageVariant(DiagMessage),
    DiagnosticPowerModeRequestVariant(DiagnosticPowerModeRequest),
    DiagnosticPowerModeResponseVariant(DiagnosticPowerModeResponse),
    DiagnosticMessageAckVariant(DiagMessageAck),
    DiagnosticMessageNAckVariant(DiagMessageNAck),
}

/// The view of a decoded message: its kind and the view of its fields.
pub enum MessageModel {
    HeaderNack(<HeaderNackMessage as View>::V),
    VehicleIDRes(<VehicleIdentificationResponse as View>::V),
    VehicleIDReq(<VehicleIdentificationRequest as View>::V),
    VehicleIDReqByEID(<VehicleIdentificationRequestEID as View>::V),
    VehicleIDReqByVIN(<VehicleIdentificationRequestVIN as View>::V),
    RoutingActivationRequest(<RoutingActivationRequest as View>::V),
    RoutingActivationResponse(<RoutingActivationResponse as View>::V),
    AliveCheckRequest(<AliveCheckRequest as View>::V),
    AliveCheckResponse(<AliveCheckResponse as View>::V),
    EntityStatusRequest(<EntityStatusRequest as View>::V),
    EntityStatusResponse(<EntityStatusResponse as View>::V),
    DiagnosticMessage(<DiagMessage as View>::V),
    DiagnosticPowerModeRequest(<DiagnosticPowerModeRequest as View>::V),
    DiagnosticPowerModeResponse(<DiagnosticPowerModeResponse as View>::V),
    DiagnosticMessageAck(<DiagMessageAck as View>::V),
    DiagnosticMessageNAck(<DiagMessageNAck as View>::V),
}

impl View for MessageVariant {
    type V = MessageModel;

    open spec fn view(&self) -> MessageModel {
        match self {
            MessageVariant::HeaderNackMessageVariant(x) => MessageModel::HeaderNack(x@),
            MessageVariant::VehicleIDResVariant(x) => MessageModel::VehicleIDRes(x@),
            MessageVariant::VehicleIDReqVariant(x) => MessageModel::VehicleIDReq(x@),
            MessageVariant::VehicleIDReqByEIDVariant(x) => MessageModel::VehicleIDReqByEID(x@),
            MessageVariant::VehicleIDReqByVINVariant(x) => MessageModel::VehicleIDReqByVIN(x@),
            MessageVariant::RoutingActivationRequestVariant(x) => MessageModel::RoutingActivationRequest(x@),
            MessageVariant::RoutingActivationResponseVariant(x) => MessageModel::RoutingActivationResponse(x@),
            MessageVariant::AliveCheckRequestVariant(x) => MessageModel::AliveCheckRequest(x@),
            MessageVariant::AliveCheckResponseVariant(x) => MessageModel::AliveCheckResponse(x@),
            MessageVariant::EntityStatusRequestVariant(x) => MessageModel::EntityStatusRequest(x@),
            MessageVariant::EntityStatusResponseVariant(x) => MessageModel::EntityStatusResponse(x@),
            MessageVariant::DiagnosticMessageVariant(x) => MessageModel::DiagnosticMessage(x@),
            MessageVariant::DiagnosticPowerModeRequestVariant(x) => MessageModel::DiagnosticPowerModeRequest(x@),
            MessageVariant::DiagnosticPowerModeResponseVariant(x) => MessageModel::DiagnosticPowerModeResponse(x@),
            MessageVariant::DiagnosticMessageAckVariant(x) => MessageModel::DiagnosticMessageAck(x@),
            MessageVariant::DiagnosticMessageNAckVariant(x) => MessageModel::DiagnosticMessageNAck(x@),
        }
    }
}

/// What dispatching a whole frame gives: header errors first, then the payload decoded by the
/// codec of the header's payload type against the declared length.
pub open spec fn spec_message_factory(frame: Seq<u8>) -> Result<MessageModel, NackCode> {
    match spec_decode_header(frame) {
        Err(e) => Err(e),
        Ok(h) => {
            let p = spec_frame_payload(frame);
            let n = h.payload_length;
            match h.payload_type {
                PayloadType::HeaderNack => match HeaderNackMessage::spec_decode(p, n) {
                    Ok(x) => Ok(MessageModel::HeaderNack(x)),
                    Err(e) => Err(e),
                },
                PayloadType::VehicleIDRes => match VehicleIdentificationResponse::spec_decode(p, n) {
                    Ok(x) => Ok(MessageModel::VehicleIDRes(x)),
                    Err(e) => Err(e),
                },
                PayloadType::VehicleIDReq => match VehicleIdentificationRequest::spec_decode(p, n) {
                    Ok(x) => Ok(MessageModel::VehicleIDReq(x)),
                    Err(e) => Err(e),
                },
                PayloadType::VehicleIDReqByEID => match VehicleIdentificationRequestEID::spec_decode(p, n) {
                    Ok(x) => Ok(MessageModel::VehicleIDReqByEID(x)),
                    Err(e) => Err(e),
                },
                PayloadType::VehicleIDReqByVIN => match VehicleIdentificationRequestVIN::spec_decode(p, n) {
                    Ok(x) => Ok(MessageModel::VehicleIDReqByVIN(x)),
                    Err(e) => Err(e),
                },
                PayloadType::RoutingActivationReq => match RoutingActivationRequest::spec_decode(p, n) {
                    Ok(x) => Ok(MessageModel::RoutingActivationRequest(x)),
                    Err(e) => Err(e),
                },
                PayloadType::RoutingActivationRes => match RoutingActivationResponse::spec_decode(p, n) {
                    Ok(x) => Ok(MessageModel::RoutingActivationResponse(x)),
                    Err(e) => Err(e),
                },
                PayloadType::AliveCheckReq => match AliveCheckRequest::spec_decode(p, n) {
                    Ok(x) => Ok(MessageModel::AliveCheckRequest(x)),
                    Err(e) => Err(e),
                },
                PayloadType::AliveCheckRes => match AliveCheckResponse::spec_decode(p, n) {
                    Ok(x) => Ok(MessageModel::AliveCheckResponse(x)),
                    Err(e) => Err(e),
                },
                PayloadType::EntityStatusReq => match EntityStatusRequest::spec_decode(p, n) {
                    Ok(x) => Ok(MessageModel::EntityStatusRequest(x)),
                    Err(e) => Err(e),
                },
                PayloadType::EntityStatusRes => match EntityStatusResponse::spec_decode(p, n) {
                    Ok(x) => Ok(MessageModel::EntityStatusResponse(x)),
                    Err(e) => Err(e),
                },
                PayloadType::DiagMessage => match DiagMessage::spec_decode(p, n) {
                    Ok(x) => Ok(MessageModel::DiagnosticMessage(x)),
                    Err(e) => Err(e),
                },
                PayloadType::DiagPowerModeReq => match DiagnosticPowerModeRequest::spec_decode(p, n) {
                    Ok(x) => Ok(MessageModel::DiagnosticPowerModeRequest(x)),
                    Err(e) => Err(e),
                },
                PayloadType::DiagPowerModeRes => match DiagnosticPowerModeResponse::spec_decode(p, n) {
                    Ok(x) => Ok(MessageModel::DiagnosticPowerModeResponse(x)),
                    Err(e) => Err(e),
                },
                PayloadType::DiagMessageAck => match DiagMessageAck::spec_decode(p, n) {
                    Ok(x) => Ok(MessageModel::DiagnosticMessageAck(x)),
                    Err(e) => Err(e),
                },
                PayloadType::DiagMessageNAck => match DiagMessageNAck::spec_decode(p, n) {
                    Ok(x) => Ok(MessageModel::DiagnosticMessageNAck(x)),
                    Err(e) => Err(e),
                },
            }
        },
    }
}

/// Decodes a whole frame into the message its header announces.
pub fn message_factory(payload: &[u8]) -> (r: Result<MessageVariant, NackCode>)
    ensures
        view_of_result(r) == spec_message_factory(payload@),
{
    let header = match DoIPHeader::from_buffer(payload) {
        Ok(h) => h,
        Err(e) => return Err(e),
    };
    let p = slice_subrange(payload, 8, payload.len());
    let n = header.payload_length;
    match header.payload_type {
        PayloadType::HeaderNack => match HeaderNackMessage::decode(p, n) {
            Ok(x) => Ok(MessageVariant::HeaderNackMessageVariant(x)),
            Err(e) => Err(e),
        },
        PayloadType::VehicleIDRes => match VehicleIdentificationResponse::decode(p, n) {
            Ok(x) => Ok(MessageVariant::VehicleIDResVariant(x)),
            Err(e) => Err(e),
        },
        PayloadType::VehicleIDReq => match VehicleIdentificationRequest::decode(p, n) {
            Ok(x) => Ok(MessageVariant::VehicleIDReqVariant(x)),
            Err(e) => Err(e),
        },
        PayloadType::VehicleIDReqByEID => match VehicleIdentificationRequestEID::decode(p, n) {
            Ok(x) => Ok(MessageVariant::VehicleIDReqByEIDVariant(x)),
            Err(e) => Err(e),
        },
        PayloadType::VehicleIDReqByVIN => match VehicleIdentificationRequestVIN::decode(p, n) {
            Ok(x) => Ok(MessageVariant::VehicleIDReqByVINVariant(x)),
            Err(e) => Err(e),
        },
        PayloadType::RoutingActivationReq => match RoutingActivationRequest::decode(p, n) {
            Ok(x) => Ok(MessageVariant::RoutingActivationRequestVariant(x)),
            Err(e) => Err(e),
        },
        PayloadType::RoutingActivationRes => match RoutingActivationResponse::decode(p, n) {
            Ok(x) => Ok(MessageVariant::RoutingActivationResponseVariant(x)),
            Err(e) => Err(e),
        },
        PayloadType::AliveCheckReq => match AliveCheckRequest::decode(p, n) {
            Ok(x) => Ok(MessageVariant::AliveCheckRequestVariant(x)),
            Err(e) => Err(e),
        },
        PayloadType::AliveCheckRes => match AliveCheckResponse::decode(p, n) {
            Ok(x) => Ok(MessageVariant::AliveCheckResponseVariant(x)),
            Err(e) => Err(e),
        },
        PayloadType::EntityStatusReq => match EntityStatusRequest::decode(p, n) {
            Ok(x) => Ok(MessageVariant::EntityStatusRequestVariant(x)),
            Err(e) => Err(e),
        },
        PayloadType::EntityStatusRes => match EntityStatusResponse::decode(p, n) {
            Ok(x) => Ok(MessageVariant::EntityStatusResponseVariant(x)),
            Err(e) => Err(e),
        },
        PayloadType::DiagMessage => match DiagMessage::decode(p, n) {
            Ok(x) => Ok(MessageVariant::DiagnosticMessageVariant(x)),
            Err(e) => Err(e),
        },
        PayloadType::DiagPowerModeReq => match DiagnosticPowerModeRequest::decode(p, n) {
            Ok(x) => Ok(MessageVariant::DiagnosticPowerModeRequestVariant(x)),
            Err(e) => Err(e),
        },
        PayloadType::DiagPowerModeRes => match DiagnosticPowerModeResponse::decode(p, n) {
            Ok(x) => Ok(MessageVariant::DiagnosticPowerModeResponseVariant(x)),
            Err(e) => Err(e),
        },
        PayloadType::DiagMessageAck => match DiagMessageAck::decode(p, n) {
            Ok(x) => Ok(MessageVariant::DiagnosticMessageAckVariant(x)),
            Err(e) => Err(e),
        },
        PayloadType::DiagMessageNAck => match DiagMessageNAck::decode(p, n) {
            Ok(x) => Ok(MessageVariant::DiagnosticMessageNAckVariant(x)),
            Err(e) => Err(e),
        },
    }
}

} // verus!
