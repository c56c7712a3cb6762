//! The messages that the entity receives and the payloads that it sends.

use vstd::prelude::*;
use crate::config::{DoipVersion, NodeType, PowerMode};

verus! {

/// The kind of payload that a message header announces.
#[derive(Clone, Copy, Debug, PartialEq, Eq, Structural)]
pub enum PayloadType {
    /// Generic negative acknowledgement.
    GenericNack,
    /// Vehicle identification request, addressed to every entity.
    VehicleIdentificationRequest,
    /// Vehicle identification request, addressed by entity identifier.
    VehicleIdentificationRequestEid,
    /// Vehicle identification request, addressed by vehicle identification
    /// number.
    VehicleIdentificationRequestVin,
    /// Vehicle announcement, the answer to an identification request.
    VehicleAnnouncementMessage,
    /// Routing activation request.
    RoutingActivationRequest,
    /// Routing activation response.
    RoutingActivationResponse,
    /// Alive check request.
    AliveCheckRequest,
    /// Alive check response.
    AliveCheckResponse,
    /// Entity status request.
    EntityStatusRequest,
    /// Entity status response.
    EntityStatusResponse,
    /// Power information request.
    PowerInformationRequest,
    /// Power information response.
    PowerInformationResponse,
    /// Diagnostic message.
    DiagnosticMessage,
    /// Positive acknowledgement of a diagnostic message.
    DiagnosticMessageAck,
    /// Negative acknowledgement of a diagnostic message.
    DiagnosticMessageNack,
}

/// A decoded inbound message: what its header announces, and its payload
/// body as the bytes that were on the wire.
#[derive(Clone, Debug, PartialEq, Eq)]
pub struct InboundMessage {
    /// The protocol version in the header.
    pub protocol_version: DoipVersion,
    /// The payload type in the header.
    pub payload_type: PayloadType,
    /// The payload body, still encoded.
    pub payload: Vec<u8>,
}

/// The mathematical value of an [`InboundMessage`].
pub struct InboundMessageView {
    /// The protocol version in the header.
    pub protocol_version: DoipVersion,
    /// The payload type in the header.
    pub payload_type: PayloadType,
    /// The payload body, still encoded.
    pub payload: Seq<u8>,
}

impl View for InboundMessage {
    type V = InboundMessageView;

    open spec fn view(&self) -> InboundMessageView {
        InboundMessageView {
            protocol_version: self.protocol_version,
            payload_type: self.payload_type,
            payload: self.payload@,
        }
    }
}

/// What a vehicle announcement asks the tester to do next.
#[derive(Clone, Copy, Debug, PartialEq, Eq, Structural)]
pub enum ActionCode {
    /// Nothing: diagnostic traffic may start.
    NoFurtherActionRequired,
    /// Routing must be activated first.
    RoutingActivationRequired,
}

/// Whether VIN and GID are synchronised, as a vehicle announcement states it.
#[derive(Clone, Copy, Debug, PartialEq, Eq, Structural)]
pub enum SyncStatus {
    /// VIN and GID are synchronised.
    VinGidSynchronized,
    /// VIN and GID are not synchronised.
    VinGidNotSynchronised,
}

/// The reason that a generic negative acknowledgement gives.
#[derive(Clone, Copy, Debug, PartialEq, Eq, Structural)]
pub enum NackCode {
    /// The message does not follow the pattern that the protocol expects.
    IncorrectPatternFormat,
    /// The payload type is unknown.
    UnknownPayloadType,
    /// The message is too large.
    MessageTooLarge,
    /// The entity is out of memory.
    OutOfMemory,
    /// The payload length is invalid.
    InvalidPayloadLength,
}

/// The kind of routing that a routing activation request asks for.
#[derive(Clone, Copy, Debug, PartialEq, Eq, Structural)]
pub enum ActivationType {
    /// Default activation.
    Default,
    /// Activation for WWH-OBD.
    WwhObd,
    /// Activation for central security.
    CentralSecurity,
}

/// The outcome that a routing activation response reports.
#[derive(Clone, Copy, Debug, PartialEq, Eq, Structural)]
pub enum ActivationCode {
    /// Denied: the source address is unknown.
    DeniedUnknownSourceAddress,
    /// Denied: all TCP sockets are in use.
    DeniedTCPSocketsFull,
    /// Denied: another source address is active on this socket.
    DeniedTCPSocketAlreadyConnected,
    /// Denied: the source address is active on another socket.
    DeniedSourceIsAlreadyActive,
    /// Denied: authentication is missing.
    DeniedMissingAuthentication,
    /// Denied: the confirmation was rejected.
    DeniedRejectedConfirmation,
    /// Denied: the activation type is not supported.
    DeniedUnsupportedRoutingActivationType,
    /// Denied: an encrypted connection is required.
    DeniedRequestEncryptedTLSConnection,
    /// Routing is activated.
    SuccessfullyActivated,
    /// Routing will be activated once confirmed.
    ActivatedConfirmationRequired,
}

/// The body of a vehicle identification request by entity identifier.
#[derive(Clone, Copy, Debug, PartialEq, Eq)]
pub struct VehicleIdentificationRequestEid {
    /// The identifier of the entity that is asked to answer.
    pub eid: [u8; 6],
}

/// The body of a vehicle identification request by vehicle identification
/// number.
#[derive(Clone, Copy, Debug, PartialEq, Eq)]
pub struct VehicleIdentificationRequestVin {
    /// The number of the vehicle whose entities are asked to answer.
    pub vin: [u8; 17],
}

/// The body of a routing activation request, as far as the entity reads it.
#[derive(Clone, Copy, Debug, PartialEq, Eq)]
pub struct RoutingActivationRequest {
    /// The logical address of the tester that asks.
    pub source_address: [u8; 2],
    /// The kind of routing asked for.
    pub activation_type: ActivationType,
}

/// A vehicle announcement.
#[derive(Clone, Copy, Debug, PartialEq, Eq)]
pub struct VehicleAnnouncementMessage {
    /// The vehicle identification number.
    pub vin: [u8; 17],
    /// The logical address of the announcing entity.
    pub logical_address: [u8; 2],
    /// The entity identifier.
    pub eid: [u8; 6],
    /// The group identifier.
    pub gid: [u8; 6],
    /// What the tester has to do next.
    pub further_action: ActionCode,
    /// Whether VIN and GID are synchronised; optional on the wire.
    pub vin_gid_sync: Option<SyncStatus>,
}

/// An entity status response.
#[derive(Clone, Copy, Debug, PartialEq, Eq)]
pub struct EntityStatusResponse {
    /// The role of the entity.
    pub node_type: NodeType,
    /// The greatest number of TCP sockets the entity serves at once.
    pub max_concurrent_sockets: [u8; 1],
    /// The number of TCP sockets currently open.
    pub currently_open_sockets: [u8; 1],
    /// The greatest payload size the entity accepts.
    pub max_data_size: [u8; 4],
}

/// A power information response.
#[derive(Clone, Copy, Debug, PartialEq, Eq)]
pub struct PowerInformationResponse {
    /// The power state of the entity.
    pub power_mode: PowerMode,
}

/// A generic negative acknowledgement.
#[derive(Clone, Copy, Debug, PartialEq, Eq)]
pub struct GenericNack {
    /// The reason.
    pub nack_code: NackCode,
}

/// The negative acknowledgement that answers whatever the entity does not
/// serve: its code is "incorrect pattern format".
pub open spec fn fallback_nack() -> GenericNack {
    GenericNack { nack_code: NackCode::IncorrectPatternFormat }
}

/// A routing activation response.
#[derive(Clone, Copy, Debug, PartialEq, Eq)]
pub struct RoutingActivationResponse {
    /// The logical address of the tester that asked.
    pub logical_address: [u8; 2],
    /// The logical address of the answering entity.
    pub source_address: [u8; 2],
    /// The outcome.
    pub activation_code: ActivationCode,
    /// Reserved bytes.
    pub buffer: [u8; 4],
}

/// An alive check response.
#[derive(Clone, Copy, Debug, PartialEq, Eq)]
pub struct AliveCheckResponse {
    /// The logical address of the answering entity.
    pub source_address: [u8; 2],
}

} // verus!
