use doip::message::header::NackCode;
use doip::message::vehicle_identification::{
    FurtherAction, VehicleIdentificationRequest, VehicleIdentificationRequestEID,
    VehicleIdentificationRequestVIN, VehicleIdentificationResponse,
};
use doip::message::Message;

#[test]
fn deserialize_vehicle_id_request_vin_invalid_payload_type() {
    let mut request = VehicleIdentificationRequestVIN::default();
    let mut serialized = request.serialize();
    serialized[2] = 0x69;
    let result = request.deserialize(&serialized);
    assert!(result.is_err());
    assert_eq!(result, Err(NackCode::UnknownPayloadType));
}

#[test]
fn deserialize_vehicle_id_request_vin_invalid_pattern() {
    let mut response = VehicleIdentificationRequestVIN::default();
    let mut serialized = response.serialize();
    serialized[1] = 0x69;
    let result = response.deserialize(&serialized);
    assert!(result.is_err());
    assert_eq!(result, Err(NackCode::IncorrectPattern));
}

#[test]
fn deserialize_vehicle_id_request_vin_invalid_payload_len() {
    let mut request = VehicleIdentificationRequestVIN::default();
    let serialized = request.serialize();
    let result = request.deserialize(&serialized[0..serialized.len() - 1]);
    assert!(result.is_err());
    assert_eq!(result, Err(NackCode::InvalidPayloadLength));
}

#[test]
fn serialize_deserialize_vehicle_id_vin_request() {
    let vin: Vec<u8> = vec![1, 2, 3, 4, 5, 6, 7, 8, 9, 10, 11, 12, 13, 14, 15, 16, 17];
    let response = VehicleIdentificationRequestVIN::new(&vin);
    let serialized = response.serialize();
    let mut deserialized = VehicleIdentificationRequestVIN::default();
    assert!(deserialized.deserialize(&serialized).is_ok());
    assert!(deserialized.serialize() == serialized);
}

#[test]
fn deserialize_vehicle_id_request_eid_invalid_payload_type() {
    let mut request = VehicleIdentificationRequestEID::default();
    let mut serialized = request.serialize();
    serialized[2] = 0x69;
    let result = request.deserialize(&serialized);
    assert!(result.is_err());
    assert_eq!(result, Err(NackCode::UnknownPayloadType));
}

#[test]
fn deserialize_vehicle_id_request_eid_invalid_pattern() {
    let mut response = VehicleIdentificationRequestEID::default();
    let mut serialized = response.serialize();
    serialized[1] = 0x69;
    let result = response.deserialize(&serialized);
    assert!(result.is_err());
    assert_eq!(result, Err(NackCode::IncorrectPattern));
}

#[test]
fn deserialize_vehicle_id_request_eid_invalid_payload_len() {
    let mut request = VehicleIdentificationRequestEID::default();
    let serialized = request.serialize();
    let result = request.deserialize(&serialized[0..serialized.len() - 1]);
    assert!(result.is_err());
    assert_eq!(result, Err(NackCode::InvalidPayloadLength));
}

#[test]
fn serialize_deserialize_vehicle_id_eid_request() {
    let response = VehicleIdentificationRequestEID::new(&[1, 2, 3, 4, 5, 6]);
    let serialized = response.serialize();
    let mut deserialized = VehicleIdentificationRequestEID::default();
    assert!(deserialized.deserialize(&serialized).is_ok());
    assert!(deserialized.serialize() == serialized);
}

#[test]
fn deserialize_vehicle_id_request_invalid_payload_type() {
    let mut request = VehicleIdentificationRequest::default();
    let mut serialized = request.serialize();
    serialized[2] = 0x69;
    let result = request.deserialize(&serialized);
    assert!(result.is_err());
    assert_eq!(result, Err(NackCode::UnknownPayloadType));
}

#[test]
fn deserialize_vehicle_id_request_invalid_pattern() {
    let mut response = VehicleIdentificationRequest::default();
    let mut serialized = response.serialize();
    serialized[1] = 0x69;
    let result = response.deserialize(&serialized);
    assert!(result.is_err());
    assert_eq!(result, Err(NackCode::IncorrectPattern));
}

#[test]
fn deserialize_vehicle_id_request_invalid_payload_len() {
    let mut request = VehicleIdentificationRequest::default();
    let serialized = request.serialize();
    let result = request.deserialize(&serialized[0..serialized.len() - 1]);
    assert!(result.is_err());
    assert_eq!(result, Err(NackCode::InvalidPayloadLength));
}

#[test]
fn serialize_deserialize_vehicle_id_request() {
    let response = VehicleIdentificationRequest::new();
    let serialized = response.serialize();
    let mut deserialized = VehicleIdentificationRequest::default();
    assert!(deserialized.deserialize(&serialized).is_ok());
    assert!(deserialized.serialize() == serialized);
}

#[test]
fn deserialize_vehicle_id_ressponse_invalid_payload_type() {
    let mut response = VehicleIdentificationResponse::default();
    let mut serialized = response.serialize();
    serialized[2] = 0x69;
    let result = response.deserialize(&serialized);
    assert!(result.is_err());
    assert_eq!(result, Err(NackCode::UnknownPayloadType));
}

#[test]
fn deserialize_vehicle_id_ressponse_invalid_pattern() {
    let mut response = VehicleIdentificationResponse::default();
    let mut serialized = response.serialize();
    serialized[1] = 0x69;
    let result = response.deserialize(&serialized);
    assert!(result.is_err());
    assert_eq!(result, Err(NackCode::IncorrectPattern));
}

#[test]
fn deserialize_vehicle_id_response_invalid_payload_len() {
    let mut response = VehicleIdentificationResponse::default();
    let serialized = response.serialize();
    let result = response.deserialize(&serialized[0..serialized.len() - 1]);
    assert!(result.is_err());
    assert_eq!(result, Err(NackCode::InvalidPayloadLength));
}

#[test]
fn serialize_deserialize_vehicle_id_response() {
    let vin: Vec<u8> = vec![1, 2, 3, 4, 5, 6, 7, 8, 9, 10, 11, 12, 13, 14, 15, 16, 17];
    let eid: Vec<u8> = vec![1, 2, 3, 4, 5, 6];
    let gid: Vec<u8> = vec![1, 2, 3, 4, 5, 6];
    let logical_address: u16 = 69;
    let response = VehicleIdentificationResponse::new(
        &vin.try_into().unwrap(),
        logical_address,
        &eid.try_into().unwrap(),
        &gid.try_into().unwrap(),
        FurtherAction::NoFurtherAction,
    );
    let serialized = response.serialize();
    let mut deserialized = VehicleIdentificationResponse::default();
    assert!(deserialized.deserialize(&serialized).is_ok());
    assert!(deserialized.serialize() == serialized);
}
