//! Vehicle identification: the three requests a tester broadcasts and the responder's answer.

use vstd::prelude::*;
use crate::message::header::{NackCode, PayloadType};
use crate::message::wire::{
    array_of, be16, be16_bytes, lemma_array_of_view, lemma_be16_round_trip, push_all, push_u16,
    read_array, read_u16,
};
use crate::message::{decode_frame, spec_decode_frame, view_of_result, Message, PayloadCodec};

verus! {

/// Asks every responder to identify itself; no payload.
#[derive(Clone, Copy, Debug, PartialEq, Eq, Structural)]
pub struct VehicleIdentificationRequest {}

impl View for VehicleIdentificationRequest {
    type V = VehicleIdentificationRequest;

    open spec fn view(&self) -> VehicleIdentificationRequest {
        *self
    }
}

impl Default for VehicleIdentificationRequest {
    fn default() -> (r: Self)
        ensures
            r == (VehicleIdentificationRequest {}),
    {
        VehicleIdentificationRequest {}
    }
}

impl VehicleIdentificationRequest {
    pub fn new() -> (r: Self)
        ensures
            r == (VehicleIdentificationRequest {}),
    {
        VehicleIdentificationRequest {}
    }

    /// Decodes a whole frame.
    pub fn from_payload(payload: &[u8]) -> (r: Result<Self, NackCode>)
        ensures
            view_of_result(r) == spec_decode_frame::<Self>(payload@),
    {
        decode_frame::<Self>(payload)
    }
}

impl PayloadCodec for VehicleIdentificationRequest {
    open spec fn spec_payload_type() -> PayloadType {
        PayloadType::VehicleIDReq
    }

    open spec fn spec_wf(&self) -> bool {
        true
    }

    open spec fn spec_payload(&self) -> Seq<u8> {
        Seq::empty()
    }

    open spec fn spec_decode(payload: Seq<u8>, declared_length: u32) -> Result<Self, NackCode> {
        if declared_length != 0 {
            Err(NackCode::InvalidPayloadLength)
        } else {
            Ok(VehicleIdentificationRequest {})
        }
    }

    proof fn lemma_round_trip(&self) {
    }

    fn payload_type() -> (r: PayloadType) {
        PayloadType::VehicleIDReq
    }

    fn decode(payload: &[u8], declared_length: u32) -> (r: Result<Self, NackCode>) {
        if declared_length != 0 {
            return Err(NackCode::InvalidPayloadLength);
        }
        Ok(VehicleIdentificationRequest {})
    }

    fn encode(&self) -> (r: Vec<u8>) {
        Vec::new()
    }
}

impl Message for VehicleIdentificationRequest {}

/// Asks the responder with the given entity ID to identify itself.
#[derive(Clone, Copy, Debug, PartialEq, Eq)]
pub struct VehicleIdentificationRequestEID {
    pub eid: [u8; 6],
}

impl View for VehicleIdentificationRequestEID {
    type V = VehicleIdentificationRequestEID;

    open spec fn view(&self) -> VehicleIdentificationRequestEID {
        *self
    }
}

impl Default for VehicleIdentificationRequestEID {
    fn default() -> (r: Self)
        ensures
            r.eid@ == seq![0u8; 6],
    {
        let r = VehicleIdentificationRequestEID { eid: [0u8; 6] };
        assert(r.eid@ =~= seq![0u8; 6]);
        r
    }
}

impl VehicleIdentificationRequestEID {
    /// A request for the entity ID `eid`, which must be six bytes long.
    pub fn new(eid: &[u8]) -> (r: Self)
        requires
            eid@.len() == 6,
        ensures
            r.eid@ == eid@,
    {
        let r = VehicleIdentificationRequestEID { eid: read_array::<6>(eid, 0) };
        assert(eid@.subrange(0, 6) =~= eid@);
        r
    }

    /// Decodes a whole frame.
    pub fn from_payload(payload: &[u8]) -> (r: Result<Self, NackCode>)
        ensures
            view_of_result(r) == spec_decode_frame::<Self>(payload@),
    {
        decode_frame::<Self>(payload)
    }
}

impl PayloadCodec for VehicleIdentificationRequestEID {
    open spec fn spec_payload_type() -> PayloadType {
        PayloadType::VehicleIDReqByEID
    }

    open spec fn spec_wf(&self) -> bool {
        true
    }

    open spec fn spec_payload(&self) -> Seq<u8> {
        self.eid@
    }

    open spec fn spec_decode(payload: Seq<u8>, declared_length: u32) -> Result<Self, NackCode> {
        if declared_length != 6 || payload.len() < 6 {
            Err(NackCode::InvalidPayloadLength)
        } else {
            Ok(VehicleIdentificationRequestEID { eid: array_of::<6>(payload.subrange(0, 6)) })
        }
    }

    proof fn lemma_round_trip(&self) {
        assert(self.eid@.subrange(0, 6) =~= self.eid@);
        lemma_array_of_view(self.eid);
    }

    fn payload_type() -> (r: PayloadType) {
        PayloadType::VehicleIDReqByEID
    }

    fn decode(payload: &[u8], declared_length: u32) -> (r: Result<Self, NackCode>) {
        if declared_length != 6 || payload.len() < 6 {
            return Err(NackCode::InvalidPayloadLength);
        }
        Ok(VehicleIdentificationRequestEID { eid: read_array::<6>(payload, 0) })
    }

    fn encode(&self) -> (r: Vec<u8>) {
        let mut buf: Vec<u8> = Vec::new();
        push_all(&mut buf, &self.eid);
        assert(buf@ =~= self.eid@);
        buf
    }
}

impl Message for VehicleIdentificationRequestEID {}

/// Asks the responder of the vehicle with the given VIN to identify itself.
#[derive(Clone, Copy, Debug, PartialEq, Eq)]
pub struct VehicleIdentificationRequestVIN {
    pub vin: [u8; 17],
}

impl View for VehicleIdentificationRequestVIN {
    type V = VehicleIdentificationRequestVIN;

    open spec fn view(&self) -> VehicleIdentificationRequestVIN {
        *self
    }
}

impl Default for VehicleIdentificationRequestVIN {
    fn default() -> (r: Self)
        ensures
            r.vin@ == seq![0u8; 17],
    {
        let r = VehicleIdentificationRequestVIN { vin: [0u8; 17] };
        assert(r.vin@ =~= seq![0u8; 17]);
        r
    }
}

impl VehicleIdentificationRequestVIN {
    /// A request for the VIN `vin`, which must be seventeen bytes long.
    pub fn new(vin: &[u8]) -> (r: Self)
        requires
            vin@.len() == 17,
        ensures
            r.vin@ == vin@,
    {
        let r = VehicleIdentificationRequestVIN { vin: read_array::<17>(vin, 0) };
        assert(vin@.subrange(0, 17) =~= vin@);
        r
    }

    /// Decodes a whole frame.
    pub fn from_payload(payload: &[u8]) -> (r: Result<Self, NackCode>)
        ensures
            view_of_result(r) == spec_decode_frame::<Self>(payload@),
    {
        decode_frame::<Self>(payload)
    }
}

impl PayloadCodec for VehicleIdentificationRequestVIN {
    open spec fn spec_payload_type() -> PayloadType {
        PayloadType::VehicleIDReqByVIN
    }

    open spec fn spec_wf(&self) -> bool {
        true
    }

    open spec fn spec_payload(&self) -> Seq<u8> {
        self.vin@
    }

    open spec fn spec_decode(payload: Seq<u8>, declared_length: u32) -> Result<Self, NackCode> {
        if declared_length != 17 || payload.len() < 17 {
            Err(NackCode::InvalidPayloadLength)
        } else {
            Ok(VehicleIdentificationRequestVIN { vin: array_of::<17>(payload.subrange(0, 17)) })
        }
    }

    proof fn lemma_round_trip(&self) {
        assert(self.vin@.subrange(0, 17) =~= self.vin@);
        lemma_array_of_view(self.vin);
    }

    fn payload_type() -> (r: PayloadType) {
        PayloadType::VehicleIDReqByVIN
    }

    fn decode(payload: &[u8], declared_length: u32) -> (r: Result<Self, NackCode>) {
        if declared_length != 17 || payload.len() < 17 {
            return Err(NackCode::InvalidPayloadLength);
        }
        Ok(VehicleIdentificationRequestVIN { vin: read_array::<17>(payload, 0) })
    }

    fn encode(&self) -> (r: Vec<u8>) {
        let mut buf: Vec<u8> = Vec::new();
        push_all(&mut buf, &self.vin);
        assert(buf@ =~= self.vin@);
        buf
    }
}

impl Message for VehicleIdentificationRequestVIN {}

/// Whether the tester must activate routing before diagnostics.
#[derive(Clone, Copy, Debug, PartialEq, Eq, Structural)]
pub enum FurtherAction {
    NoFurtherAction,
    RoutingActivationRequired,
}

impl FurtherAction {
    pub open spec fn spec_to_u8(self) -> u8 {
        match self {
            FurtherAction::NoFurtherAction => 0x00,
            FurtherAction::RoutingActivationRequired => 0x10,
        }
    }

    pub open spec fn spec_from_u8(b: u8) -> Option<FurtherAction> {
        if b == 0x00 {
            Some(FurtherAction::NoFurtherAction)
        } else if b == 0x10 {
            Some(FurtherAction::RoutingActivationRequired)
        } else {
            None
        }
    }

    /// The wire value.
    pub fn to_u8(self) -> (r: u8)
        ensures
            r == self.spec_to_u8(),
    {
        match self {
            FurtherAction::NoFurtherAction => 0x00,
            FurtherAction::RoutingActivationRequired => 0x10,
        }
    }

    /// The value with wire code `b`; `None` for a reserved code.
    pub fn from_u8(b: u8) -> (r: Option<FurtherAction>)
        ensures
            r == FurtherAction::spec_from_u8(b),
    {
        if b == 0x00 {
            Some(FurtherAction::NoFurtherAction)
        } else if b == 0x10 {
            Some(FurtherAction::RoutingActivationRequired)
        } else {
            None
        }
    }
}

/// Whether the vehicle's entities have synchronised their VIN and group ID.
#[derive(Clone, Copy, Debug, PartialEq, Eq, Structural)]
pub enum SyncStatus {
    Synchronized,
    Incomplete,
}

impl SyncStatus {
    pub open spec fn spec_to_u8(self) -> u8 {
        match self {
            SyncStatus::Synchronized => 0x00,
            SyncStatus::Incomplete => 0x10,
        }
    }

    pub open spec fn spec_from_u8(b: u8) -> Option<SyncStatus> {
        if b == 0x00 {
            Some(SyncStatus::Synchronized)
        } else if b == 0x10 {
            Some(SyncStatus::Incomplete)
        } else {
            None
        }
    }

    /// The wire value.
    pub fn to_u8(self) -> (r: u8)
        ensures
            r == self.spec_to_u8(),
    {
        match self {
            SyncStatus::Synchronized => 0x00,
            SyncStatus::Incomplete => 0x10,
        }
    }

    /// The value with wire code `b`; `None` for a reserved code.
    pub fn from_u8(b: u8) -> (r: Option<SyncStatus>)
        ensures
            r == SyncStatus::spec_from_u8(b),
    {
        if b == 0x00 {
            Some(SyncStatus::Synchronized)
        } else if b == 0x10 {
            Some(SyncStatus::Incomplete)
        } else {
            None
        }
    }
}

/// A responder's identity: VIN, logical address, entity and group IDs, and whether routing
/// activation is required. The sync status byte is present only when set.
#[derive(Clone, Copy, Debug, PartialEq, Eq)]
pub struct VehicleIdentificationResponse {
    pub vin: [u8; 17],
    pub logical_address: u16,
    pub eid: [u8; 6],
    pub gid: [u8; 6],
    pub further_action_required: FurtherAction,
    pub sync_status: Option<SyncStatus>,
}

impl View for VehicleIdentificationResponse {
    type V = VehicleIdentificationResponse;

    open spec fn view(&self) -> VehicleIdentificationResponse {
        *self
    }
}

impl Default for VehicleIdentificationResponse {
    fn default() -> (r: Self)
        ensures
            r.vin@ == seq![0u8; 17],
            r.logical_address == 0,
            r.eid@ == seq![0u8; 6],
            r.gid@ == seq![0u8; 6],
            r.further_action_required == FurtherAction::NoFurtherAction,
            r.sync_status is None,
    {
        let r = VehicleIdentificationResponse {
            vin: [0u8; 17],
            logical_address: 0,
            eid: [0u8; 6],
            gid: [0u8; 6],
            further_action_required: FurtherAction::NoFurtherAction,
            sync_status: None,
        };
        assert(r.vin@ =~= seq![0u8; 17]);
        assert(r.eid@ =~= seq![0u8; 6]);
        assert(r.gid@ =~= seq![0u8; 6]);
        r
    }
}

impl VehicleIdentificationResponse {
    /// Decodes a whole frame.
    pub fn from_payload(payload: &[u8]) -> (r: Result<Self, NackCode>)
        ensures
            view_of_result(r) == spec_decode_frame::<Self>(payload@),
    {
        decode_frame::<Self>(payload)
    }

    /// An identification answer without a sync status.
    pub fn new(
        vin: &[u8; 17],
        logical_address: u16,
        eid: &[u8; 6],
        gid: &[u8; 6],
        further_action_required: FurtherAction,
    ) -> (r: Self)
        ensures
            r == (VehicleIdentificationResponse {
                vin: *vin,
                logical_address,
                eid: *eid,
                gid: *gid,
                further_action_required,
                sync_status: None,
            }),
    {
        VehicleIdentificationResponse {
            vin: *vin,
            logical_address,
            eid: *eid,
            gid: *gid,
            further_action_required,
            sync_status: None,
        }
    }
}

/// The one-byte tail of an identification payload: the sync status when there is one.
pub open spec fn sync_status_bytes(s: Option<SyncStatus>) -> Seq<u8> {
    match s {
        Some(v) => seq![v.spec_to_u8()],
        None => Seq::empty(),
    }
}

impl PayloadCodec for VehicleIdentificationResponse {
    open spec fn spec_payload_type() -> PayloadType {
        PayloadType::VehicleIDRes
    }

    open spec fn spec_wf(&self) -> bool {
        true
    }

    open spec fn spec_payload(&self) -> Seq<u8> {
        self.vin@ + be16_bytes(self.logical_address) + self.eid@ + self.gid@ + seq![
            self.further_action_required.spec_to_u8(),
        ] + sync_status_bytes(self.sync_status)
    }

    /// Lengths 32 and 33 are accepted; a reserved further-action or sync-status code does not
    /// match the message's pattern.
    open spec fn spec_decode(payload: Seq<u8>, declared_length: u32) -> Result<Self, NackCode> {
        if !(declared_length == 32 || declared_length == 33) || payload.len() < declared_length {
            Err(NackCode::InvalidPayloadLength)
        } else if FurtherAction::spec_from_u8(payload[31]) is None || (declared_length == 33
            && SyncStatus::spec_from_u8(payload[32]) is None) {
            Err(NackCode::IncorrectPattern)
        } else {
            Ok(
                VehicleIdentificationResponse {
                    vin: array_of::<17>(payload.subrange(0, 17)),
                    logical_address: be16(payload[17], payload[18]),
                    eid: array_of::<6>(payload.subrange(19, 25)),
                    gid: array_of::<6>(payload.subrange(25, 31)),
                    further_action_required: FurtherAction::spec_from_u8(payload[31])->Some_0,
                    sync_status: if declared_length == 33 {
                        SyncStatus::spec_from_u8(payload[32])
                    } else {
                        None
                    },
                },
            )
        }
    }

    proof fn lemma_round_trip(&self) {
        let p = self.spec_payload();
        lemma_be16_round_trip(self.logical_address);
        lemma_array_of_view(self.vin);
        lemma_array_of_view(self.eid);
        lemma_array_of_view(self.gid);
        assert(p.subrange(0, 17) =~= self.vin@);
        assert(p.subrange(19, 25) =~= self.eid@);
        assert(p.subrange(25, 31) =~= self.gid@);
        assert(p[17] == be16_bytes(self.logical_address)[0]);
        assert(p[18] == be16_bytes(self.logical_address)[1]);
        assert(p[31] == self.further_action_required.spec_to_u8());
        match self.sync_status {
            Some(v) => {
                assert(p[32] == v.spec_to_u8());
            },
            None => {},
        }
    }

    fn payload_type() -> (r: PayloadType) {
        PayloadType::VehicleIDRes
    }

    fn decode(payload: &[u8], declared_length: u32) -> (r: Result<Self, NackCode>) {
        if !(declared_length == 32 || declared_length == 33) || payload.len()
            < declared_length as usize {
            return Err(NackCode::InvalidPayloadLength);
        }
        let further_action_required = match FurtherAction::from_u8(payload[31]) {
            Some(a) => a,
            None => return Err(NackCode::IncorrectPattern),
        };
        let sync_status = if declared_length == 33 {
            match SyncStatus::from_u8(payload[32]) {
                Some(s) => Some(s),
                None => return Err(NackCode::IncorrectPattern),
            }
        } else {
            None
        };
        Ok(
            VehicleIdentificationResponse {
                vin: read_array::<17>(payload, 0),
                logical_address: read_u16(payload, 17),
                eid: read_array::<6>(payload, 19),
                gid: read_array::<6>(payload, 25),
                further_action_required,
                sync_status,
            },
        )
    }

    fn encode(&self) -> (r: Vec<u8>) {
        let mut buf: Vec<u8> = Vec::new();
        push_all(&mut buf, &self.vin);
        push_u16(&mut buf, self.logical_address);
        push_all(&mut buf, &self.eid);
        push_all(&mut buf, &self.gid);
        buf.push(self.further_action_required.to_u8());
        match self.sync_status {
            Some(s) => buf.push(s.to_u8()),
            None => {},
        }
        assert(buf@ =~= self.spec_payload());
        buf
    }
}

impl Message for VehicleIdentificationResponse {}

/// Accepted lengths of an identification answer: a declared length other than 32 or 33 gives
/// `InvalidPayloadLength`, however many bytes are present. Lengths 32 and 33 are accepted when
/// that many bytes are present and the codes in them are known.
pub proof fn lemma_vehicle_identification_response_lengths(payload: Seq<u8>, declared_length: u32)
    ensures
        declared_length != 32 && declared_length != 33 ==> VehicleIdentificationResponse::spec_decode(
            payload,
            declared_length,
        ) == Err::<VehicleIdentificationResponse, NackCode>(NackCode::InvalidPayloadLength),
        (declared_length == 32 || declared_length == 33) && payload.len() >= declared_length
            && FurtherAction::spec_from_u8(payload[31]) is Some && (declared_length == 33
            ==> SyncStatus::spec_from_u8(payload[32]) is Some) ==> VehicleIdentificationResponse::spec_decode(
            payload,
            declared_length,
        ) is Ok,
{
}

} // verus!
