use doip::message::header::{DoIPHeader, NackCode, PayloadType, ProtocolVersion};
use doip::message::vehicle_identification::VehicleIdentificationRequest;
use doip::message::{message_factory, MessageVariant};

#[test]
fn header_serialize_exact_bytes() {
    let header = DoIPHeader {
        protocol_version: ProtocolVersion::ISO13400_2019,
        payload_type: PayloadType::EntityStatusRes,
        payload_length: 0x0102_0304,
    };
    assert_eq!(header.serialize(), vec![0x03, 0xFC, 0x40, 0x02, 0x01, 0x02, 0x03, 0x04]);
    assert_eq!(DoIPHeader::length(), 8);
}

#[test]
fn header_round_trip_each_version_and_type() {
    let versions = [
        ProtocolVersion::ISO13400_2010,
        ProtocolVersion::ISO13400_2012,
        ProtocolVersion::ISO13400_2019,
        ProtocolVersion::Default,
    ];
    let codes: [u16; 16] = [
        0x0000, 0x0001, 0x0002, 0x0003, 0x0004, 0x0005, 0x0006, 0x0007, 0x0008, 0x4001, 0x4002,
        0x4003, 0x4004, 0x8001, 0x8002, 0x8003,
    ];
    for v in versions {
        for c in codes {
            let t = PayloadType::from_u16(c).unwrap();
            assert_eq!(t.to_u16(), c);
            let header = DoIPHeader { protocol_version: v, payload_type: t, payload_length: 77 };
            assert_eq!(DoIPHeader::from_buffer(&header.serialize()), Ok(header));
        }
    }
}

#[test]
fn header_default_version_byte_is_ff() {
    let bytes: Vec<u8> = vec![0xFF, 0x00, 0x00, 0x01, 0x00, 0x00, 0x00, 0x00];
    let header = DoIPHeader::from_buffer(&bytes).unwrap();
    assert_eq!(header.protocol_version, ProtocolVersion::Default);
}

#[test]
fn header_too_short_is_invalid_length() {
    let bytes: Vec<u8> = vec![0x03, 0xFC, 0x00, 0x01, 0x00, 0x00, 0x00];
    assert_eq!(DoIPHeader::from_buffer(&bytes), Err(NackCode::InvalidPayloadLength));
    assert_eq!(DoIPHeader::from_buffer(&[]), Err(NackCode::InvalidPayloadLength));
}

#[test]
fn header_bad_complement_is_incorrect_pattern() {
    let bytes: Vec<u8> = vec![0x03, 0xFD, 0x00, 0x01, 0x00, 0x00, 0x00, 0x00];
    assert_eq!(DoIPHeader::from_buffer(&bytes), Err(NackCode::IncorrectPattern));
}

#[test]
fn header_unknown_version_is_incorrect_pattern() {
    // 0x04 ^ 0xFB == 0xFF, but 0x04 is a reserved version.
    let bytes: Vec<u8> = vec![0x04, 0xFB, 0x00, 0x01, 0x00, 0x00, 0x00, 0x00];
    assert_eq!(DoIPHeader::from_buffer(&bytes), Err(NackCode::IncorrectPattern));
    let zero: Vec<u8> = vec![0x00, 0xFF, 0x00, 0x01, 0x00, 0x00, 0x00, 0x00];
    assert_eq!(DoIPHeader::from_buffer(&zero), Err(NackCode::IncorrectPattern));
}

#[test]
fn header_unknown_type() {
    for code in [0x0009u16, 0x4000, 0x4005, 0x8000, 0x8004, 0xF000] {
        let bytes: Vec<u8> =
            vec![0x02, 0xFD, (code >> 8) as u8, (code & 0xFF) as u8, 0x00, 0x00, 0x00, 0x00];
        assert_eq!(DoIPHeader::from_buffer(&bytes), Err(NackCode::UnknownPayloadType));
    }
}

#[test]
fn header_pattern_checked_before_type() {
    let bytes: Vec<u8> = vec![0x02, 0x02, 0x12, 0x34, 0x00, 0x00, 0x00, 0x00];
    assert_eq!(DoIPHeader::from_buffer(&bytes), Err(NackCode::IncorrectPattern));
}

#[test]
fn peek_length_reads_malformed_header() {
    let bytes: Vec<u8> = vec![0x00, 0x00, 0xAB, 0xCD, 0x12, 0x34, 0x56, 0x78];
    assert_eq!(DoIPHeader::get_payload_len(&bytes), 0x1234_5678);
    assert_eq!(DoIPHeader::get_payload_len(&bytes[0..7]), 0);
}

#[test]
fn nack_code_wire_values() {
    let all = [
        NackCode::IncorrectPattern,
        NackCode::UnknownPayloadType,
        NackCode::MessageTooLong,
        NackCode::OutOfMemory,
        NackCode::InvalidPayloadLength,
    ];
    for (i, code) in all.iter().enumerate() {
        assert_eq!(code.to_u8(), i as u8);
        assert_eq!(NackCode::from_u8(i as u8), Some(*code));
    }
    assert_eq!(NackCode::from_u8(0x05), None);
}

#[test]
fn vehicle_id_request_frame_scenario() {
    let bytes: Vec<u8> = vec![0x01, 0xFE, 0x00, 0x01, 0x00, 0x00, 0x00, 0x00];
    let header = DoIPHeader::from_buffer(&bytes).unwrap();
    assert_eq!(header.protocol_version, ProtocolVersion::ISO13400_2010);
    assert_eq!(header.payload_type, PayloadType::VehicleIDReq);
    assert_eq!(header.payload_length, 0);
    assert_eq!(
        message_factory(&bytes),
        Ok(MessageVariant::VehicleIDReqVariant(VehicleIdentificationRequest {}))
    );
}

#[test]
fn vehicle_id_request_with_length_one_scenario() {
    let bytes: Vec<u8> = vec![0x01, 0xFE, 0x00, 0x01, 0x00, 0x00, 0x00, 0x01];
    assert_eq!(message_factory(&bytes), Err(NackCode::InvalidPayloadLength));
    assert_eq!(VehicleIdentificationRequest::from_payload(&bytes), Err(NackCode::InvalidPayloadLength));
}
