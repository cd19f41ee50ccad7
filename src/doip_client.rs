//! The tester side of vehicle discovery: reading identification answers off the wire.

use vstd::prelude::*;
use vstd::slice::slice_subrange;
use crate::message::header::NackCode;
use crate::message::vehicle_identification::VehicleIdentificationResponse;
use crate::message::{
    message_factory, spec_message_factory, view_of_result, MessageModel, MessageVariant,
};

verus! {

/// A tester that listens for identification answers.
#[derive(Clone, Copy, Debug, PartialEq, Eq, Structural)]
pub struct DoIPClient {}

impl Default for DoIPClient {
    fn default() -> (r: Self)
        ensures
            r == (DoIPClient {}),
    {
        DoIPClient {}
    }
}

/// What a received datagram tells a tester: the identification answer it holds, nothing when it
/// holds another message, or why it failed to decode.
pub open spec fn spec_identification_response(datagram: Seq<u8>) -> Result<
    Option<VehicleIdentificationResponse>,
    NackCode,
> {
    match spec_message_factory(datagram) {
        Ok(MessageModel::VehicleIDRes(v)) => Ok(Some(v)),
        Ok(_) => Ok(None),
        Err(e) => Err(e),
    }
}

impl DoIPClient {
    /// Decodes the first `len` bytes of a received datagram.
    pub fn parse_identification_response(buff: &[u8], len: usize) -> (r: Result<
        MessageVariant,
        NackCode,
    >)
        requires
            len <= buff@.len(),
        ensures
            view_of_result(r) == spec_message_factory(buff@.subrange(0, len as int)),
    {
        message_factory(slice_subrange(buff, 0, len))
    }

    /// The identification answer in the first `len` bytes of a received datagram, if that is
    /// what they hold.
    pub fn identification_response(buff: &[u8], len: usize) -> (r: Result<
        Option<VehicleIdentificationResponse>,
        NackCode,
    >)
        requires
            len <= buff@.len(),
        ensures
            r == spec_identification_response(buff@.subrange(0, len as int)),
    {
        match DoIPClient::parse_identification_response(buff, len) {
            Ok(MessageVariant::VehicleIDResVariant(v)) => Ok(Some(v)),
            Ok(_) => Ok(None),
            Err(e) => Err(e),
        }
    }
}

} // verus!
