//! Diagnostic power mode: whether the vehicle is ready for diagnostics.

use vstd::prelude::*;
use crate::message::header::{NackCode, PayloadType};
use crate::message::{decode_frame, spec_decode_frame, view_of_result, Message, PayloadCodec};

verus! {

/// Asks for the diagnostic power mode; no payload.
#[derive(Clone, Copy, Debug, PartialEq, Eq, Structural)]
pub struct DiagnosticPowerModeRequest {}

impl View for DiagnosticPowerModeRequest {
    type V = DiagnosticPowerModeRequest;

    open spec fn view(&self) -> DiagnosticPowerModeRequest {
        *self
    }
}

impl Default for DiagnosticPowerModeRequest {
    fn default() -> (r: Self)
        ensures
            r == (DiagnosticPowerModeRequest {}),
    {
        DiagnosticPowerModeRequest {}
    }
}

impl DiagnosticPowerModeRequest {
    /// Decodes a whole frame.
    pub fn from_payload(payload: &[u8]) -> (r: Result<Self, NackCode>)
        ensures
            view_of_result(r) == spec_decode_frame::<Self>(payload@),
    {
        decode_frame::<Self>(payload)
    }
}

impl PayloadCodec for DiagnosticPowerModeRequest {
    open spec fn spec_payload_type() -> PayloadType {
        PayloadType::DiagPowerModeReq
    }

    open spec fn spec_wf(&self) -> bool {
        true
    }

    open spec fn spec_payload(&self) -> Seq<u8> {
        Seq::empty()
    }

    open spec fn spec_decode(payload: Seq<u8>, declared_length: u32) -> Result<Self, NackCode> {
        if declared_length != 0 {
            Err(NackCode::InvalidPayloadLength)
        } else {
            Ok(DiagnosticPowerModeRequest {})
        }
    }

    proof fn lemma_round_trip(&self) {
    }

    fn payload_type() -> (r: PayloadType) {
        PayloadType::DiagPowerModeReq
    }

    fn decode(payload: &[u8], declared_length: u32) -> (r: Result<Self, NackCode>) {
        if declared_length != 0 {
            return Err(NackCode::InvalidPayloadLength);
        }
        Ok(DiagnosticPowerModeRequest {})
    }

    fn encode(&self) -> (r: Vec<u8>) {
        Vec::new()
    }
}

impl Message for DiagnosticPowerModeRequest {}

/// Whether the vehicle is ready for diagnostics.
#[derive(Clone, Copy, Debug, PartialEq, Eq, Structural)]
pub enum DiagnosticPowerMode {
    NotReady,
    Ready,
    NotSupported,
}

impl DiagnosticPowerMode {
    pub open spec fn spec_to_u8(self) -> u8 {
        match self {
            DiagnosticPowerMode::NotReady => 0x00,
            DiagnosticPowerMode::Ready => 0x01,
            DiagnosticPowerMode::NotSupported => 0x02,
        }
    }

    pub open spec fn spec_from_u8(b: u8) -> Option<DiagnosticPowerMode> {
        if b == 0x00 {
            Some(DiagnosticPowerMode::NotReady)
        } else if b == 0x01 {
            Some(DiagnosticPowerMode::Ready)
        } else if b == 0x02 {
            Some(DiagnosticPowerMode::NotSupported)
        } else {
            None
        }
    }

    /// The wire value.
    pub fn to_u8(self) -> (r: u8)
        ensures
            r == self.spec_to_u8(),
    {
        match self {
            DiagnosticPowerMode::NotReady => 0x00,
            DiagnosticPowerMode::Ready => 0x01,
            DiagnosticPowerMode::NotSupported => 0x02,
        }
    }

    /// The mode with wire value `b`; `None` for a reserved value.
    pub fn from_u8(b: u8) -> (r: Option<DiagnosticPowerMode>)
        ensures
            r == DiagnosticPowerMode::spec_from_u8(b),
    {
        if b == 0x00 {
            Some(DiagnosticPowerMode::NotReady)
        } else if b == 0x01 {
            Some(DiagnosticPowerMode::Ready)
        } else if b == 0x02 {
            Some(DiagnosticPowerMode::NotSupported)
        } else {
            None
        }
    }
}

impl Default for DiagnosticPowerMode {
    fn default() -> (r: Self)
        ensures
            r == DiagnosticPowerMode::NotReady,
    {
        DiagnosticPowerMode::NotReady
    }
}

/// The vehicle's diagnostic power mode.
#[derive(Clone, Copy, Debug, PartialEq, Eq, Structural)]
pub struct DiagnosticPowerModeResponse {
    pub power_mode: DiagnosticPowerMode,
}

impl View for DiagnosticPowerModeResponse {
    type V = DiagnosticPowerModeResponse;

    open spec fn view(&self) -> DiagnosticPowerModeResponse {
        *self
    }
}

impl Default for DiagnosticPowerModeResponse {
    fn default() -> (r: Self)
        ensures
            r == (DiagnosticPowerModeResponse { power_mode: DiagnosticPowerMode::NotReady }),
    {
        DiagnosticPowerModeResponse { power_mode: DiagnosticPowerMode::NotReady }
    }
}

impl DiagnosticPowerModeResponse {
    pub fn new(power_mode: DiagnosticPowerMode) -> (r: Self)
        ensures
            r == (DiagnosticPowerModeResponse { power_mode }),
    {
        DiagnosticPowerModeResponse { power_mode }
    }

    /// Decodes a whole frame.
    pub fn from_payload(payload: &[u8]) -> (r: Result<Self, NackCode>)
        ensures
            view_of_result(r) == spec_decode_frame::<Self>(payload@),
    {
        decode_frame::<Self>(payload)
    }
}

impl PayloadCodec for DiagnosticPowerModeResponse {
    open spec fn spec_payload_type() -> PayloadType {
        PayloadType::DiagPowerModeRes
    }

    open spec fn spec_wf(&self) -> bool {
        true
    }

    open spec fn spec_payload(&self) -> Seq<u8> {
        seq![self.power_mode.spec_to_u8()]
    }

    /// One byte; a reserved mode does not match the message's pattern.
    open spec fn spec_decode(payload: Seq<u8>, declared_length: u32) -> Result<Self, NackCode> {
        if declared_length != 1 || payload.len() < 1 {
            Err(NackCode::InvalidPayloadLength)
        } else {
            match DiagnosticPowerMode::spec_from_u8(payload[0]) {
                None => Err(NackCode::IncorrectPattern),
                Some(power_mode) => Ok(DiagnosticPowerModeResponse { power_mode }),
            }
        }
    }

    proof fn lemma_round_trip(&self) {
    }

    fn payload_type() -> (r: PayloadType) {
        PayloadType::DiagPowerModeRes
    }

    fn decode(payload: &[u8], declared_length: u32) -> (r: Result<Self, NackCode>) {
        if declared_length != 1 || payload.len() < 1 {
            return Err(NackCode::InvalidPayloadLength);
        }
        match DiagnosticPowerMode::from_u8(payload[0]) {
            None => Err(NackCode::IncorrectPattern),
            Some(power_mode) => Ok(DiagnosticPowerModeResponse { power_mode }),
        }
    }

    fn encode(&self) -> (r: Vec<u8>) {
        let mut buf: Vec<u8> = Vec::new();
        buf.push(self.power_mode.to_u8());
        assert(buf@ =~= self.spec_payload());
        buf
    }
}

impl Message for DiagnosticPowerModeResponse {}

} // verus!
