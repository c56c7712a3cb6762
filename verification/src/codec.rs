//! Decoding of the payload bodies that the entity reads.
//!
//! The byte layout of the payloads belongs to `doip_definitions`. The three
//! functions of this module call its decoders and hand the result over as
//! values of this crate. Their contracts are not proved: they restate what
//! the decoders do, and the rest of the crate is verified against them.

use vstd::prelude::*;
use doip_definitions::header::DoipPayload;
use doip_definitions::message as wire;
use crate::message::{
    ActivationType, RoutingActivationRequest, VehicleIdentificationRequestEid,
    VehicleIdentificationRequestVin,
};

verus! {

/// The activation type that a byte of a routing activation request stands
/// for: 0 for the default type, 1 for WWH-OBD, 2 for central security. No
/// other byte stands for a type, and the function is asked for no other.
pub open spec fn activation_type_of(code: u8) -> ActivationType {
    if code == 0 {
        ActivationType::Default
    } else if code == 1 {
        ActivationType::WwhObd
    } else {
        ActivationType::CentralSecurity
    }
}

/// The routing activation request that a payload body holds, if it holds
/// one: the body has at least 7 bytes, the first two are the source address
/// and the third is a known activation type.
pub open spec fn routing_activation_request_of(payload: Seq<u8>) -> Option<
    RoutingActivationRequest,
> {
    if payload.len() >= 7 && payload[2] <= 2 {
        Some(
            RoutingActivationRequest {
                source_address: [payload[0], payload[1]],
                activation_type: activation_type_of(payload[2]),
            },
        )
    } else {
        None
    }
}

/// Decodes the body of a vehicle identification request by entity
/// identifier.
///
/// Trusted: calls `VehicleIdentificationRequestEid::from_bytes` of
/// `doip_definitions`. That decoder fails on fewer than 6 bytes and otherwise
/// takes the first 6 as the identifier, whatever follows them.
#[verifier::external_body]
pub(crate) fn decode_eid_request(payload: &[u8]) -> (decoded: Option<
    VehicleIdentificationRequestEid,
>)
    ensures
        decoded.is_some() == (payload@.len() >= 6),
        decoded matches Some(request) ==> request.eid@ == payload@.subrange(0, 6),
{
    match wire::VehicleIdentificationRequestEid::from_bytes(payload) {
        Ok(request) => Some(VehicleIdentificationRequestEid { eid: request.eid }),
        Err(_) => None,
    }
}

/// Decodes the body of a vehicle identification request by vehicle
/// identification number.
///
/// Trusted: calls `VehicleIdentificationRequestVin::from_bytes` of
/// `doip_definitions`. That decoder fails on fewer than 17 bytes and
/// otherwise takes the first 17 as the number, whatever follows them.
#[verifier::external_body]
pub(crate) fn decode_vin_request(payload: &[u8]) -> (decoded: Option<
    VehicleIdentificationRequestVin,
>)
    ensures
        decoded.is_some() == (payload@.len() >= 17),
        decoded matches Some(request) ==> request.vin@ == payload@.subrange(0, 17),
{
    match wire::VehicleIdentificationRequestVin::from_bytes(payload) {
        Ok(request) => Some(VehicleIdentificationRequestVin { vin: request.vin }),
        Err(_) => None,
    }
}

/// Decodes the body of a routing activation request.
///
/// Trusted: calls `RoutingActivationRequest::from_bytes` of
/// `doip_definitions`. That decoder fails on fewer than 7 bytes and on a
/// third byte above 2; otherwise the first two bytes are the source address
/// and the third selects the activation type. The reserved bytes that follow
/// are not handed over: nothing in this crate reads them.
#[verifier::external_body]
pub(crate) fn decode_routing_activation_request(payload: &[u8]) -> (decoded: Option<
    RoutingActivationRequest,
>)
    ensures
        decoded == routing_activation_request_of(payload@),
{
    match wire::RoutingActivationRequest::from_bytes(payload) {
        Ok(request) => Some(RoutingActivationRequest {
            source_address: request.source_address,
            activation_type: match request.activation_type {
                wire::ActivationType::Default => ActivationType::Default,
                wire::ActivationType::WwhObd => ActivationType::WwhObd,
                wire::ActivationType::CentralSecurity => ActivationType::CentralSecurity,
            },
        }),
        Err(_) => None,
    }
}

} // verus!
