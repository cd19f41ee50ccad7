//! One TCP diagnostic session: how each header and each whole frame is answered, and what the
//! connection remembers between frames. The caller reads and writes the socket.

use vstd::prelude::*;
use crate::doip_server::DoIPServer;
use crate::message::diag_message::{spec_ack_payload, AckCode, DiagMessageAck};
use crate::message::diag_power_mode::{DiagnosticPowerMode, DiagnosticPowerModeResponse};
use crate::message::entity_status::{EntityStatusResponse, NodeType};
use crate::message::header::{
    spec_decode_header, spec_peek_length, DoIPHeader, NackCode, PayloadType,
};
use crate::message::header_nack::HeaderNackMessage;
use crate::message::alive_check::AliveCheckResponse;
use crate::message::routing_activation::{
    RoutingActivationCode, RoutingActivationRequest, RoutingActivationResponse,
};
use crate::message::{
    lemma_frame_parts, message_factory, spec_frame, spec_frame_bytes, spec_message_factory, Message,
    MessageModel, MessageVariant,
};

verus! {

/// How far a connection has come.
#[derive(Clone, Copy, Debug, PartialEq, Eq, Structural)]
pub enum ConnectionState {
    Initialized,
    Registered,
}

/// What one connection remembers: its phase and the tester address that an alive-check answer
/// confirmed. Each connection has its own.
#[derive(Clone, Copy, Debug, PartialEq, Eq, Structural)]
pub struct Session {
    pub state: ConnectionState,
    pub client_source_address: Option<u16>,
}

/// What to do after reading a header.
#[derive(Clone, Debug, PartialEq, Eq)]
pub enum HeaderOutcome {
    /// The header is sound: read this many payload bytes, then hand over the whole frame.
    ReadPayload(u32),
    /// Send this NACK frame and close the connection.
    NackAndClose(Vec<u8>),
    /// Send this NACK frame, read and drop this many bytes, then read the next header.
    NackAndDiscard(Vec<u8>, u32),
}

/// What to do after a whole frame: send the reply, if any, then close if asked.
#[derive(Clone, Debug, PartialEq, Eq)]
pub struct FrameOutcome {
    pub reply: Option<Vec<u8>>,
    pub close: bool,
}

/// The frame of a header NACK carrying `code`.
pub open spec fn spec_nack_frame(code: NackCode) -> Seq<u8> {
    spec_frame(HeaderNackMessage { nack_code: code })
}

/// The frame of a routing activation answer to `client` from the responder `server`.
pub open spec fn spec_activation_frame(
    client: u16,
    server: DoIPServer,
    code: RoutingActivationCode,
) -> Seq<u8> {
    spec_frame(RoutingActivationResponse::spec_new(client, server.logical_address, code))
}

/// The next session, the reply and whether to close, for one whole frame.
pub open spec fn spec_on_frame(s: Session, server: DoIPServer, frame: Seq<u8>) -> (
    Session,
    Option<Seq<u8>>,
    bool,
) {
    match spec_message_factory(frame) {
        Err(e) => (s, Some(spec_nack_frame(e)), e == NackCode::InvalidPayloadLength),
        Ok(m) => match m {
            MessageModel::RoutingActivationRequest(req) => if s.client_source_address == Some(
                req.source_address,
            ) {
                (
                    s,
                    Some(
                        spec_activation_frame(
                            req.source_address,
                            server,
                            RoutingActivationCode::RoutingActivated,
                        ),
                    ),
                    false,
                )
            } else {
                (
                    s,
                    Some(
                        spec_activation_frame(
                            req.source_address,
                            server,
                            RoutingActivationCode::DeniedDifferentSA,
                        ),
                    ),
                    true,
                )
            },
            MessageModel::AliveCheckResponse(resp) => (
                Session {
                    state: ConnectionState::Registered,
                    client_source_address: Some(resp.source_address),
                },
                None,
                false,
            ),
            MessageModel::EntityStatusRequest(_) => (
                s,
                Some(
                    spec_frame(
                        EntityStatusResponse {
                            node_type: NodeType::Node,
                            max_sockets: server.max_sockets,
                            open_sockets: server.open_sockets,
                            max_data_size: server.max_data_size,
                        },
                    ),
                ),
                false,
            ),
            MessageModel::DiagnosticMessage(d) => (
                s,
                Some(
                    spec_frame_bytes(
                        PayloadType::DiagMessageAck,
                        spec_ack_payload((d.1, d.0, AckCode::Ack, Seq::empty())),
                    ),
                ),
                false,
            ),
            MessageModel::DiagnosticPowerModeRequest(_) => (
                s,
                Some(
                    spec_frame(
                        DiagnosticPowerModeResponse {
                            power_mode: DiagnosticPowerMode::NotSupported,
                        },
                    ),
                ),
                false,
            ),
            _ => (s, None, false),
        },
    }
}

/// Session authorization: a routing activation request is activated only when its source
/// address is the one that an alive-check answer confirmed on this connection. Any other
/// request, on a connection with no confirmed address too, is denied with `DeniedDifferentSA`
/// and the connection closes. Neither answer changes the session.
pub proof fn lemma_routing_activation_authorization(
    s: Session,
    server: DoIPServer,
    frame: Seq<u8>,
    req: RoutingActivationRequest,
)
    requires
        spec_message_factory(frame) == Ok::<MessageModel, NackCode>(
            MessageModel::RoutingActivationRequest(req),
        ),
    ensures
        spec_on_frame(s, server, frame).0 == s,
        s.client_source_address == Some(req.source_address) ==> spec_on_frame(s, server, frame).1
            == Some(
            spec_activation_frame(req.source_address, server, RoutingActivationCode::RoutingActivated),
        ) && !spec_on_frame(s, server, frame).2,
        s.client_source_address != Some(req.source_address) ==> spec_on_frame(s, server, frame).1
            == Some(
            spec_activation_frame(req.source_address, server, RoutingActivationCode::DeniedDifferentSA),
        ) && spec_on_frame(s, server, frame).2,
{
}

/// The session after an alive-check answer naming `alive.source_address`.
pub open spec fn spec_after_alive_check(
    s: Session,
    server: DoIPServer,
    alive: AliveCheckResponse,
) -> Session {
    spec_on_frame(s, server, spec_frame(alive)).0
}

/// An alive-check answer, then a routing activation request, on one connection: whatever the
/// session held before, the request is activated exactly when it comes from the address that
/// the answer named; from any other address it is denied and the connection closes.
pub proof fn lemma_alive_check_then_activation(
    s: Session,
    server: DoIPServer,
    alive: AliveCheckResponse,
    req: RoutingActivationRequest,
)
    ensures
        spec_after_alive_check(s, server, alive) == (Session {
            state: ConnectionState::Registered,
            client_source_address: Some(alive.source_address),
        }),
        alive.source_address == req.source_address ==> spec_on_frame(
            spec_after_alive_check(s, server, alive),
            server,
            spec_frame(req),
        ).1 == Some(
            spec_activation_frame(req.source_address, server, RoutingActivationCode::RoutingActivated),
        ),
        alive.source_address != req.source_address ==> spec_on_frame(
            spec_after_alive_check(s, server, alive),
            server,
            spec_frame(req),
        ).1 == Some(
            spec_activation_frame(req.source_address, server, RoutingActivationCode::DeniedDifferentSA),
        ) && spec_on_frame(spec_after_alive_check(s, server, alive), server, spec_frame(req)).2,
{
    lemma_frame_parts(alive);
    lemma_frame_parts(req);
    assert(spec_message_factory(spec_frame(alive)) == Ok::<MessageModel, NackCode>(
        MessageModel::AliveCheckResponse(alive),
    ));
    assert(spec_message_factory(spec_frame(req)) == Ok::<MessageModel, NackCode>(
        MessageModel::RoutingActivationRequest(req),
    ));
}

impl Session {
    /// A fresh connection: initialised, no tester address confirmed.
    pub fn new() -> (r: Self)
        ensures
            r == (Session { state: ConnectionState::Initialized, client_source_address: None }),
    {
        Session { state: ConnectionState::Initialized, client_source_address: None }
    }

    /// Decides what follows a header. A broken pattern or a short header desynchronises the
    /// stream: NACK and close. An unknown payload type is NACKed and its declared payload
    /// dropped, and the connection goes on.
    pub fn on_header(header: &[u8]) -> (r: HeaderOutcome)
        ensures
            match spec_decode_header(header@) {
                Ok(h) => r == HeaderOutcome::ReadPayload(h.payload_length),
                Err(e) => if e == NackCode::IncorrectPattern || e == NackCode::InvalidPayloadLength {
                    r is NackAndClose && r->NackAndClose_0@ == spec_nack_frame(e)
                } else {
                    r is NackAndDiscard && r->NackAndDiscard_0@ == spec_nack_frame(e)
                        && r->NackAndDiscard_1 == spec_peek_length(header@)
                },
            },
    {
        match DoIPHeader::from_buffer(header) {
            Ok(h) => HeaderOutcome::ReadPayload(h.payload_length),
            Err(code) => {
                let nack = HeaderNackMessage::new(code).serialize();
                match code {
                    NackCode::IncorrectPattern | NackCode::InvalidPayloadLength => {
                        HeaderOutcome::NackAndClose(nack)
                    },
                    _ => HeaderOutcome::NackAndDiscard(nack, DoIPHeader::get_payload_len(header)),
                }
            },
        }
    }

    /// Answers one whole frame. A frame that fails to decode is NACKed, and closes the
    /// connection only on a length error. A routing activation is granted only for the address
    /// that an alive-check answer confirmed on this connection; otherwise it is denied and the
    /// connection closes. An alive-check answer records the tester's address. An entity status
    /// request gets the responder's capacity. A diagnostic message is acknowledged and a power
    /// mode request answered as not supported. Anything else is ignored.
    pub fn on_frame(&mut self, server: &DoIPServer, frame: &[u8]) -> (r: FrameOutcome)
        ensures
            *final(self) == spec_on_frame(*old(self), *server, frame@).0,
            r.close == spec_on_frame(*old(self), *server, frame@).2,
            match spec_on_frame(*old(self), *server, frame@).1 {
                Some(f) => r.reply is Some && r.reply->Some_0@ == f,
                None => r.reply is None,
            },
    {
        let message = match message_factory(frame) {
            Ok(m) => m,
            Err(code) => {
                return FrameOutcome {
                    reply: Some(HeaderNackMessage::new(code).serialize()),
                    close: code == NackCode::InvalidPayloadLength,
                };
            },
        };
        match message {
            MessageVariant::RoutingActivationRequestVariant(req) => {
                let authorized = match self.client_source_address {
                    Some(addr) => addr == req.source_address,
                    None => false,
                };
                let code = if authorized {
                    RoutingActivationCode::RoutingActivated
                } else {
                    RoutingActivationCode::DeniedDifferentSA
                };
                let response = RoutingActivationResponse::new(
                    req.source_address,
                    server.logical_address,
                    code,
                );
                FrameOutcome { reply: Some(response.serialize()), close: !authorized }
            },
            MessageVariant::AliveCheckResponseVariant(resp) => {
                self.client_source_address = Some(resp.source_address);
                self.state = ConnectionState::Registered;
                FrameOutcome { reply: None, close: false }
            },
            MessageVariant::EntityStatusRequestVariant(_) => {
                let response = EntityStatusResponse::new(
                    NodeType::Node,
                    server.max_sockets,
                    server.open_sockets,
                    server.max_data_size,
                );
                FrameOutcome { reply: Some(response.serialize()), close: false }
            },
            MessageVariant::DiagnosticMessageVariant(msg) => {
                let ack = DiagMessageAck::new(msg.target_address, msg.source_address);
                FrameOutcome { reply: Some(ack.serialize()), close: false }
            },
            MessageVariant::DiagnosticPowerModeRequestVariant(_) => {
                let response = DiagnosticPowerModeResponse::new(DiagnosticPowerMode::NotSupported);
                FrameOutcome { reply: Some(response.serialize()), close: false }
            },
            _ => FrameOutcome { reply: None, close: false },
        }
    }
}

} // verus!
