use doip::doip_server::{DoIPServer, DoIPServerBuilder};
use doip::message::alive_check::{AliveCheckRequest, AliveCheckResponse};
use doip::message::diag_message::{DiagMessage, DiagMessageAck};
use doip::message::diag_power_mode::{
    DiagnosticPowerMode, DiagnosticPowerModeRequest, DiagnosticPowerModeResponse,
};
use doip::message::entity_status::{EntityStatusRequest, EntityStatusResponse, NodeType};
use doip::message::header::NackCode;
use doip::message::header_nack::HeaderNackMessage;
use doip::message::routing_activation::{
    RoutingActivationCode, RoutingActivationRequest, RoutingActivationResponse,
};
use doip::message::Message;
use doip::session::{ConnectionState, FrameOutcome, HeaderOutcome, Session};

fn server() -> DoIPServer {
    let mut builder = DoIPServerBuilder::new();
    builder.set_logical_address(0x1001);
    builder.get_server()
}

fn activation_reply(client: u16, code: RoutingActivationCode) -> Vec<u8> {
    RoutingActivationResponse::new(client, 0x1001, code).serialize()
}

#[test]
fn builder_defaults() {
    let s = DoIPServerBuilder::new().get_server();
    assert_eq!(s.max_sockets, 10);
    assert_eq!(s.open_sockets, 0);
    assert_eq!(s.max_data_size, u32::MAX);
    assert_eq!(s.vin, [0u8; 17]);
    let d = DoIPServerBuilder::default().get_server();
    assert_eq!(d.max_sockets, 0);
}

#[test]
fn activation_denied_without_alive_check() {
    let mut session = Session::new();
    let request = RoutingActivationRequest::new(0x0E80, 0).serialize();
    let outcome = session.on_frame(&server(), &request);
    assert_eq!(
        outcome,
        FrameOutcome {
            reply: Some(activation_reply(0x0E80, RoutingActivationCode::DeniedDifferentSA)),
            close: true,
        }
    );
    assert_eq!(session, Session::new());
}

#[test]
fn activation_after_alive_check() {
    let server = server();
    let mut session = Session::new();
    let alive = AliveCheckResponse { source_address: 0x0E80 }.serialize();
    assert_eq!(session.on_frame(&server, &alive), FrameOutcome { reply: None, close: false });
    assert_eq!(session.state, ConnectionState::Registered);
    assert_eq!(session.client_source_address, Some(0x0E80));
    let request = RoutingActivationRequest::new(0x0E80, 0).serialize();
    let outcome = session.on_frame(&server, &request);
    assert_eq!(
        outcome,
        FrameOutcome {
            reply: Some(activation_reply(0x0E80, RoutingActivationCode::RoutingActivated)),
            close: false,
        }
    );
    let reply = outcome.reply.unwrap();
    assert_eq!(reply[8 + 4], 0x10);
}

#[test]
fn activation_from_other_address_denied() {
    let server = server();
    let mut session = Session::new();
    let alive = AliveCheckResponse { source_address: 0x0E80 }.serialize();
    session.on_frame(&server, &alive);
    let request = RoutingActivationRequest::new(0x0E81, 0).serialize();
    let outcome = session.on_frame(&server, &request);
    assert!(outcome.close);
    let reply = outcome.reply.unwrap();
    assert_eq!(reply, activation_reply(0x0E81, RoutingActivationCode::DeniedDifferentSA));
    assert_eq!(reply[8 + 4], 0x02);
}

#[test]
fn sessions_are_independent() {
    let server = server();
    let mut first = Session::new();
    let mut second = Session::new();
    first.on_frame(&server, &AliveCheckResponse { source_address: 0x0E80 }.serialize());
    let request = RoutingActivationRequest::new(0x0E80, 0).serialize();
    assert!(!first.on_frame(&server, &request).close);
    assert!(second.on_frame(&server, &request).close);
}

#[test]
fn entity_status_answer() {
    let server = server();
    let mut session = Session::new();
    let outcome = session.on_frame(&server, &EntityStatusRequest::default().serialize());
    let expected = EntityStatusResponse::new(NodeType::Node, 10, 0, u32::MAX).serialize();
    assert_eq!(outcome, FrameOutcome { reply: Some(expected), close: false });
}

#[test]
fn diagnostic_message_acknowledged() {
    let mut session = Session::new();
    let msg = DiagMessage { source_address: 0x0E80, target_address: 0x1001, user_data: vec![0x3E, 0x00] };
    let outcome = session.on_frame(&server(), &msg.serialize());
    assert_eq!(outcome.reply, Some(DiagMessageAck::new(0x1001, 0x0E80).serialize()));
    assert!(!outcome.close);
}

#[test]
fn power_mode_request_answered_not_supported() {
    let mut session = Session::new();
    let outcome = session.on_frame(&server(), &DiagnosticPowerModeRequest::default().serialize());
    let expected = DiagnosticPowerModeResponse::new(DiagnosticPowerMode::NotSupported).serialize();
    assert_eq!(outcome, FrameOutcome { reply: Some(expected), close: false });
}

#[test]
fn other_messages_ignored() {
    let mut session = Session::new();
    let outcome = session.on_frame(&server(), &AliveCheckRequest::default().serialize());
    assert_eq!(outcome, FrameOutcome { reply: None, close: false });
}

#[test]
fn length_error_nacked_and_closed() {
    let mut session = Session::new();
    let frame: Vec<u8> = vec![0x02, 0xFD, 0x00, 0x08, 0x00, 0x00, 0x00, 0x03, 1, 2, 3];
    let outcome = session.on_frame(&server(), &frame);
    assert_eq!(
        outcome,
        FrameOutcome {
            reply: Some(HeaderNackMessage::new(NackCode::InvalidPayloadLength).serialize()),
            close: true,
        }
    );
}

#[test]
fn reserved_code_nacked_and_kept_open() {
    let mut session = Session::new();
    let frame: Vec<u8> = vec![0x02, 0xFD, 0x40, 0x04, 0x00, 0x00, 0x00, 0x01, 0x07];
    let outcome = session.on_frame(&server(), &frame);
    assert_eq!(
        outcome,
        FrameOutcome {
            reply: Some(HeaderNackMessage::new(NackCode::IncorrectPattern).serialize()),
            close: false,
        }
    );
}

#[test]
fn header_outcomes() {
    let good: Vec<u8> = vec![0x02, 0xFD, 0x00, 0x05, 0x00, 0x00, 0x00, 0x07];
    assert_eq!(Session::on_header(&good), HeaderOutcome::ReadPayload(7));
    let bad_pattern: Vec<u8> = vec![0x02, 0xFE, 0x00, 0x05, 0x00, 0x00, 0x00, 0x07];
    assert_eq!(
        Session::on_header(&bad_pattern),
        HeaderOutcome::NackAndClose(vec![0x03, 0xFC, 0x00, 0x00, 0x00, 0x00, 0x00, 0x01, 0x00])
    );
    let unknown: Vec<u8> = vec![0x02, 0xFD, 0x12, 0x34, 0x00, 0x00, 0x01, 0x02];
    assert_eq!(
        Session::on_header(&unknown),
        HeaderOutcome::NackAndDiscard(
            vec![0x03, 0xFC, 0x00, 0x00, 0x00, 0x00, 0x00, 0x01, 0x01],
            0x0102
        )
    );
    assert_eq!(
        Session::on_header(&good[0..5]),
        HeaderOutcome::NackAndClose(vec![0x03, 0xFC, 0x00, 0x00, 0x00, 0x00, 0x00, 0x01, 0x04])
    );
}
