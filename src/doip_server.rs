//! The responder: its identity, how it is configured, and UDP vehicle discovery: a randomly
//! delayed series of announcements, then answers to identification requests addressed to it.

use vstd::prelude::*;
use rand::Rng;
use crate::message::header::NackCode;
use crate::message::vehicle_identification::{
    FurtherAction, VehicleIdentificationRequestVIN, VehicleIdentificationResponse,
};
use crate::message::wire::bytes_equal;
use crate::message::{
    lemma_frame_parts, message_factory, spec_frame, spec_message_factory, Message, MessageModel,
    MessageVariant,
};

verus! {

/// The port on which the protocol listens, for UDP and TCP alike.
pub const DOIP_PORT: u16 = 13200;

/// How many times the announcement is broadcast.
pub const ANNOUNCE_COUNT: u8 = 3;

/// Milliseconds between two announcements.
pub const ANNOUNCE_INTERVAL_MS: u64 = 500;

/// Upper bound, in milliseconds, of the random delay before the first announcement.
pub const ANNOUNCE_MAX_WAIT_MS: u64 = 500;

/// A responder's identity and capacity, configured once before serving.
#[derive(Clone, Copy, Debug)]
pub struct DoIPServer {
    pub vin: [u8; 17],
    pub eid: [u8; 6],
    pub gid: [u8; 6],
    pub logical_address: u16,
    pub max_sockets: u8,
    pub open_sockets: u8,
    pub max_data_size: u32,
}

/// The identification answer that a responder with identity `s` gives.
pub open spec fn spec_announcement(s: DoIPServer) -> VehicleIdentificationResponse {
    VehicleIdentificationResponse {
        vin: s.vin,
        logical_address: s.logical_address,
        eid: s.eid,
        gid: s.gid,
        further_action_required: FurtherAction::NoFurtherAction,
        sync_status: None,
    }
}

/// Whether an identification request is addressed to the responder that answers `response`:
/// an unconditional request always is; a request by entity ID or by VIN is when the bytes are
/// equal; any other message is not.
pub open spec fn spec_is_id_req_addr_us(
    message: MessageModel,
    response: VehicleIdentificationResponse,
) -> bool {
    match message {
        MessageModel::VehicleIDReq(_) => true,
        MessageModel::VehicleIDReqByEID(q) => q.eid@ == response.eid@,
        MessageModel::VehicleIDReqByVIN(q) => q.vin@ == response.vin@,
        _ => false,
    }
}

/// What the responder sends back for a datagram: its identification frame when the datagram
/// decodes to a request addressed to it, else nothing. A datagram that does not decode gets no
/// answer either.
pub open spec fn spec_identification_reply(
    response: VehicleIdentificationResponse,
    datagram: Seq<u8>,
) -> Option<Seq<u8>> {
    match spec_message_factory(datagram) {
        Ok(m) => if spec_is_id_req_addr_us(m, response) {
            Some(spec_frame(response))
        } else {
            None
        },
        Err(_) => None,
    }
}

impl DoIPServer {
    /// The identification answer this responder announces and replies with.
    pub fn announcement(&self) -> (r: VehicleIdentificationResponse)
        ensures
            r == spec_announcement(*self),
    {
        VehicleIdentificationResponse::new(
            &self.vin,
            self.logical_address,
            &self.eid,
            &self.gid,
            FurtherAction::NoFurtherAction,
        )
    }

    /// Whether `message` is an identification request addressed to the responder that answers
    /// `response`.
    pub fn is_id_req_addr_us(
        message: &MessageVariant,
        response: &VehicleIdentificationResponse,
    ) -> (r: bool)
        ensures
            r == spec_is_id_req_addr_us(message@, *response),
    {
        match message {
            MessageVariant::VehicleIDReqVariant(_) => true,
            MessageVariant::VehicleIDReqByEIDVariant(request) => bytes_equal(
                &request.eid,
                &response.eid,
            ),
            MessageVariant::VehicleIDReqByVINVariant(request) => bytes_equal(
                &request.vin,
                &response.vin,
            ),
            _ => false,
        }
    }

    /// The answer to one received datagram; decoding failures are dropped without a NACK.
    pub fn identification_reply(response: &VehicleIdentificationResponse, datagram: &[u8]) -> (r:
        Option<Vec<u8>>)
        ensures
            match spec_identification_reply(*response, datagram@) {
                Some(f) => r is Some && r->Some_0@ == f,
                None => r is None,
            },
    {
        match message_factory(datagram) {
            Ok(message) => {
                if DoIPServer::is_id_req_addr_us(&message, response) {
                    Some(response.serialize())
                } else {
                    None
                }
            },
            Err(_) => None,
        }
    }
}

/// Discovery match rule for requests by VIN: the responder answers a request by VIN exactly
/// when the two VINs are equal byte for byte, with no normalisation; where one byte differs
/// there is no answer at all.
pub proof fn lemma_vin_request_match(
    request: VehicleIdentificationRequestVIN,
    response: VehicleIdentificationResponse,
)
    ensures
        spec_identification_reply(response, spec_frame(request)) is Some <==> request.vin@
            == response.vin@,
        request.vin@ == response.vin@ ==> spec_identification_reply(response, spec_frame(request))
            == Some(spec_frame(response)),
        forall|i: int|
            0 <= i < 17 && request.vin@[i] != response.vin@[i] ==> spec_identification_reply(
                response,
                spec_frame(request),
            ) is None,
{
    let f = spec_frame(request);
    lemma_frame_parts(request);
    assert(spec_message_factory(f) == Ok::<MessageModel, NackCode>(
        MessageModel::VehicleIDReqByVIN(request),
    ));
}

/// Relies on rand's `thread_rng` and `Rng::gen_range` over `0..=max`: the value drawn lies in
/// that range, which is never empty.
#[verifier::external_body]
fn random_up_to(max: u64) -> (r: u64)
    ensures
        r <= max,
{
    rand::thread_rng().gen_range(0..=max)
}

/// Where the discovery responder stands.
#[derive(Clone, Copy, Debug, PartialEq, Eq, Structural)]
pub enum DiscoveryPhase {
    /// Not started.
    Idle,
    /// Waiting before the next announcement; the number sent so far.
    Announcing(u8),
    /// Answering identification requests.
    Listening,
}

/// What the caller must do next for the discovery responder.
#[derive(Clone, Debug, PartialEq, Eq)]
pub enum DiscoveryAction {
    /// Sleep this many milliseconds, then report the timer.
    Wait(u64),
    /// Broadcast this frame, sleep this many milliseconds, then report the timer.
    Broadcast(Vec<u8>, u64),
    /// Receive datagrams and hand each one over.
    Listen,
}

/// The discovery responder: announces the identity a fixed number of times after a random
/// delay, then answers identification requests.
#[derive(Clone, Copy, Debug)]
pub struct DiscoveryResponder {
    pub announcement: VehicleIdentificationResponse,
    pub phase: DiscoveryPhase,
}

impl DiscoveryResponder {
    /// A responder that has not started yet.
    pub fn new(server: &DoIPServer) -> (r: Self)
        ensures
            r.announcement == spec_announcement(*server),
            r.phase == DiscoveryPhase::Idle,
    {
        DiscoveryResponder { announcement: server.announcement(), phase: DiscoveryPhase::Idle }
    }

    /// Starts the announcements after `wait_ms` milliseconds.
    pub fn start_after(&mut self, wait_ms: u64) -> (r: DiscoveryAction)
        requires
            wait_ms <= ANNOUNCE_MAX_WAIT_MS,
        ensures
            final(self).announcement == old(self).announcement,
            final(self).phase == DiscoveryPhase::Announcing(0),
            r == DiscoveryAction::Wait(wait_ms),
    {
        self.phase = DiscoveryPhase::Announcing(0);
        DiscoveryAction::Wait(wait_ms)
    }

    /// Starts the announcements after a delay drawn at random up to the bound.
    pub fn start(&mut self) -> (r: DiscoveryAction)
        ensures
            final(self).announcement == old(self).announcement,
            final(self).phase == DiscoveryPhase::Announcing(0),
            r is Wait && r->Wait_0 <= ANNOUNCE_MAX_WAIT_MS,
    {
        let wait_ms = random_up_to(ANNOUNCE_MAX_WAIT_MS);
        self.start_after(wait_ms)
    }

    /// The timer ran out: broadcast the next announcement, or, once all are sent, listen.
    pub fn on_timer(&mut self) -> (r: DiscoveryAction)
        ensures
            final(self).announcement == old(self).announcement,
            match old(self).phase {
                DiscoveryPhase::Announcing(n) => if n < ANNOUNCE_COUNT {
                    final(self).phase == DiscoveryPhase::Announcing((n + 1) as u8) && r is Broadcast
                        && r->Broadcast_0@ == spec_frame(old(self).announcement) && r->Broadcast_1
                        == ANNOUNCE_INTERVAL_MS
                } else {
                    final(self).phase == DiscoveryPhase::Listening && r == DiscoveryAction::Listen
                },
                DiscoveryPhase::Idle => final(self).phase == DiscoveryPhase::Idle && r
                    == DiscoveryAction::Wait(0),
                DiscoveryPhase::Listening => final(self).phase == DiscoveryPhase::Listening && r
                    == DiscoveryAction::Listen,
            },
    {
        match self.phase {
            DiscoveryPhase::Announcing(n) => {
                if n < ANNOUNCE_COUNT {
                    self.phase = DiscoveryPhase::Announcing(n + 1);
                    DiscoveryAction::Broadcast(self.announcement.serialize(), ANNOUNCE_INTERVAL_MS)
                } else {
                    self.phase = DiscoveryPhase::Listening;
                    DiscoveryAction::Listen
                }
            },
            DiscoveryPhase::Idle => DiscoveryAction::Wait(0),
            DiscoveryPhase::Listening => DiscoveryAction::Listen,
        }
    }

    /// The answer to one received datagram, if any; malformed traffic is never answered.
    pub fn on_datagram(&self, datagram: &[u8]) -> (r: Option<Vec<u8>>)
        ensures
            match spec_identification_reply(self.announcement, datagram@) {
                Some(f) => r is Some && r->Some_0@ == f,
                None => r is None,
            },
    {
        DoIPServer::identification_reply(&self.announcement, datagram)
    }
}

/// Builds a responder identity field by field.
#[derive(Clone, Copy, Debug)]
pub struct DoIPServerBuilder {
    pub server: DoIPServer,
}

/// An identity with every field zero.
pub open spec fn spec_zero_server(s: DoIPServer) -> bool {
    &&& s.vin@ == seq![0u8; 17]
    &&& s.eid@ == seq![0u8; 6]
    &&& s.gid@ == seq![0u8; 6]
    &&& s.logical_address == 0
    &&& s.max_sockets == 0
    &&& s.open_sockets == 0
    &&& s.max_data_size == 0
}

impl Default for DoIPServerBuilder {
    fn default() -> (r: Self)
        ensures
            spec_zero_server(r.server),
    {
        let server = DoIPServer {
            vin: [0u8; 17],
            eid: [0u8; 6],
            gid: [0u8; 6],
            logical_address: 0,
            max_sockets: 0,
            open_sockets: 0,
            max_data_size: 0,
        };
        assert(server.vin@ =~= seq![0u8; 17]);
        assert(server.eid@ =~= seq![0u8; 6]);
        assert(server.gid@ =~= seq![0u8; 6]);
        DoIPServerBuilder { server }
    }
}

impl DoIPServerBuilder {
    /// A builder with zero identity fields, ten sockets, none open, and the largest message
    /// size.
    pub fn new() -> (r: Self)
        ensures
            r.server.vin@ == seq![0u8; 17],
            r.server.eid@ == seq![0u8; 6],
            r.server.gid@ == seq![0u8; 6],
            r.server.logical_address == 0,
            r.server.max_sockets == 10,
            r.server.open_sockets == 0,
            r.server.max_data_size == u32::MAX,
    {
        let mut b = DoIPServerBuilder::default();
        b.server.max_sockets = 10;
        b.server.open_sockets = 0;
        b.server.max_data_size = u32::MAX;
        b
    }

    pub fn set_vin(&mut self, vin: &[u8; 17]) -> (r: &mut Self)
        ensures
            *r == (DoIPServerBuilder { server: DoIPServer { vin: *vin, ..old(self).server } }),
            *final(self) == *final(r),
    {
        self.server.vin = *vin;
        self
    }

    pub fn set_eid(&mut self, eid: &[u8; 6]) -> (r: &mut Self)
        ensures
            *r == (DoIPServerBuilder { server: DoIPServer { eid: *eid, ..old(self).server } }),
            *final(self) == *final(r),
    {
        self.server.eid = *eid;
        self
    }

    pub fn set_gid(&mut self, gid: &[u8; 6]) -> (r: &mut Self)
        ensures
            *r == (DoIPServerBuilder { server: DoIPServer { gid: *gid, ..old(self).server } }),
            *final(self) == *final(r),
    {
        self.server.gid = *gid;
        self
    }

    pub fn set_logical_address(&mut self, address: u16) -> (r: &mut Self)
        ensures
            *r == (DoIPServerBuilder {
                server: DoIPServer { logical_address: address, ..old(self).server },
            }),
            *final(self) == *final(r),
    {
        self.server.logical_address = address;
        self
    }

    /// The identity built so far.
    pub fn get_server(self) -> (r: DoIPServer)
        ensures
            r == self.server,
    {
        self.server
    }
}

} // verus!
