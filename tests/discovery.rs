use doip::doip_client::DoIPClient;
use doip::doip_server::{
    DiscoveryAction, DiscoveryPhase, DiscoveryResponder, DoIPServer, DoIPServerBuilder,
    ANNOUNCE_COUNT, ANNOUNCE_INTERVAL_MS, ANNOUNCE_MAX_WAIT_MS,
};
use doip::message::header::NackCode;
use doip::message::vehicle_identification::{
    VehicleIdentificationRequest, VehicleIdentificationRequestEID, VehicleIdentificationRequestVIN,
};
use doip::message::alive_check::AliveCheckRequest;
use doip::message::{message_factory, Message};

const VIN: &[u8; 17] = b"WVWZZZ1JZXW000001";

fn identified_server() -> DoIPServer {
    let mut builder = DoIPServerBuilder::new();
    builder.set_vin(VIN).set_eid(&[1, 2, 3, 4, 5, 6]).set_gid(&[7, 8, 9, 10, 11, 12]).set_logical_address(0x1001);
    builder.get_server()
}

#[test]
fn announcement_carries_identity() {
    let s = identified_server();
    let a = s.announcement();
    assert_eq!(&a.vin, VIN);
    assert_eq!(a.eid, [1, 2, 3, 4, 5, 6]);
    assert_eq!(a.gid, [7, 8, 9, 10, 11, 12]);
    assert_eq!(a.logical_address, 0x1001);
    assert_eq!(a.sync_status, None);
}

#[test]
fn announcements_then_listen() {
    let s = identified_server();
    let mut d = DiscoveryResponder::new(&s);
    assert_eq!(d.phase, DiscoveryPhase::Idle);
    assert_eq!(d.start_after(120), DiscoveryAction::Wait(120));
    let frame = s.announcement().serialize();
    for _ in 0..ANNOUNCE_COUNT {
        assert_eq!(d.on_timer(), DiscoveryAction::Broadcast(frame.clone(), ANNOUNCE_INTERVAL_MS));
    }
    assert_eq!(ANNOUNCE_INTERVAL_MS, 500);
    assert_eq!(d.on_timer(), DiscoveryAction::Listen);
    assert_eq!(d.phase, DiscoveryPhase::Listening);
    assert_eq!(d.on_timer(), DiscoveryAction::Listen);
}

#[test]
fn random_start_delay_within_bound() {
    let s = identified_server();
    let mut delays: Vec<u64> = Vec::new();
    for _ in 0..32 {
        let mut d = DiscoveryResponder::new(&s);
        match d.start() {
            DiscoveryAction::Wait(ms) => {
                assert!(ms <= ANNOUNCE_MAX_WAIT_MS);
                delays.push(ms);
            }
            other => panic!("unexpected action {:?}", other),
        }
        assert_eq!(d.phase, DiscoveryPhase::Announcing(0));
    }
    assert!(delays.iter().any(|&ms| ms != ANNOUNCE_MAX_WAIT_MS));
    assert!(delays.iter().any(|&ms| ms != delays[0]));
}

#[test]
fn vin_request_matches_exact_bytes_only() {
    let s = identified_server();
    let d = DiscoveryResponder::new(&s);
    let exact = VehicleIdentificationRequestVIN::new(VIN).serialize();
    assert_eq!(d.on_datagram(&exact), Some(s.announcement().serialize()));
    for i in 0..17 {
        let mut vin = *VIN;
        vin[i] ^= 0x01;
        let other = VehicleIdentificationRequestVIN::new(&vin).serialize();
        assert_eq!(d.on_datagram(&other), None);
    }
    let lower = VehicleIdentificationRequestVIN::new(b"wvwzzz1jzxw000001").serialize();
    assert_eq!(d.on_datagram(&lower), None);
}

#[test]
fn eid_and_plain_requests() {
    let s = identified_server();
    let d = DiscoveryResponder::new(&s);
    let plain = VehicleIdentificationRequest::new().serialize();
    assert_eq!(d.on_datagram(&plain), Some(s.announcement().serialize()));
    let eid = VehicleIdentificationRequestEID::new(&[1, 2, 3, 4, 5, 6]).serialize();
    assert_eq!(d.on_datagram(&eid), Some(s.announcement().serialize()));
    let other_eid = VehicleIdentificationRequestEID::new(&[1, 2, 3, 4, 5, 7]).serialize();
    assert_eq!(d.on_datagram(&other_eid), None);
}

#[test]
fn malformed_or_unrelated_datagrams_unanswered() {
    let d = DiscoveryResponder::new(&identified_server());
    assert_eq!(d.on_datagram(&[0x02, 0x02, 0x00, 0x01, 0, 0, 0, 0]), None);
    assert_eq!(d.on_datagram(&[0x02, 0xFD]), None);
    assert_eq!(d.on_datagram(&AliveCheckRequest::default().serialize()), None);
    let plain = VehicleIdentificationRequest::new().serialize();
    assert!(DoIPServer::is_id_req_addr_us(
        &message_factory(&plain).unwrap(),
        &identified_server().announcement()
    ));
}

#[test]
fn client_reads_identification() {
    let s = identified_server();
    let mut buff = [0u8; 64];
    let frame = s.announcement().serialize();
    buff[0..frame.len()].copy_from_slice(&frame);
    assert_eq!(DoIPClient::identification_response(&buff, frame.len()), Ok(Some(s.announcement())));
    let request = VehicleIdentificationRequest::new().serialize();
    assert_eq!(DoIPClient::identification_response(&request, request.len()), Ok(None));
    assert_eq!(DoIPClient::identification_response(&buff, 5), Err(NackCode::InvalidPayloadLength));
    assert!(DoIPClient::parse_identification_response(&buff, frame.len()).is_ok());
}
