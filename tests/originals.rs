use doip::doip_client::DoIPClient;
use doip::doip_server::DoIPServerBuilder;
use doip::message::alive_check::{AliveCheckRequest, AliveCheckResponse};
use doip::message::header::NackCode;
use doip::message::{message_factory, Message, MessageVariant};

#[test]
fn build_client() {
    let client = DoIPClient::default();
    assert_eq!(client, DoIPClient {});
}

#[test]
fn build_server() {
    let vin: [u8; 17] = [0; 17];
    let eid: [u8; 6] = [0; 6];
    let gid: [u8; 6] = [0; 6];
    let logical_address: u16 = 0;
    let mut server_builder: DoIPServerBuilder = DoIPServerBuilder::default();
    server_builder
        .set_vin(&vin)
        .set_eid(&eid)
        .set_gid(&gid)
        .set_logical_address(logical_address);
    let server = server_builder.get_server();
    assert_eq!(server.vin, vin);
    assert_eq!(server.logical_address, logical_address);
}

#[test]
fn check_factory() {
    let frame = AliveCheckResponse { source_address: 0x0E80 }.serialize();
    let message = message_factory(&frame);
    assert_eq!(
        message,
        Ok(MessageVariant::AliveCheckResponseVariant(AliveCheckResponse { source_address: 0x0E80 }))
    );
}

#[test]
fn test_alive_check_request() {
    let message = AliveCheckRequest::default();
    let frame = message.serialize();
    assert_eq!(frame, vec![0x03, 0xFC, 0x00, 0x07, 0x00, 0x00, 0x00, 0x00]);
    assert_eq!(AliveCheckRequest::from_payload(&frame), Ok(AliveCheckRequest {}));
}

#[test]
fn test_alive_check_request_fail() {
    let frame: Vec<u8> = vec![0x03, 0xFC, 0x00, 0x07, 0x00, 0x00, 0x00, 0x01, 0xAA];
    assert_eq!(AliveCheckRequest::from_payload(&frame), Err(NackCode::InvalidPayloadLength));
}

#[test]
fn test_alive_check_response_ok() {
    let frame: Vec<u8> = vec![0x02, 0xFD, 0x00, 0x08, 0x00, 0x00, 0x00, 0x02, 0x0E, 0x80];
    assert_eq!(
        AliveCheckResponse::from_payload(&frame),
        Ok(AliveCheckResponse { source_address: 0x0E80 })
    );
}
