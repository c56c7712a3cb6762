//! The UDP discovery responder.
//!
//! The responder answers each decoded datagram on its own: it keeps no state
//! between datagrams, reads only the identity record, and owes at most one
//! reply, addressed to the sender.

use vstd::prelude::*;
use crate::bytes::same_bytes;
use crate::codec::{decode_eid_request, decode_vin_request};
use crate::config::{ServerConfig, SocketAddress};
use crate::message::{
    fallback_nack, ActionCode, EntityStatusResponse, GenericNack, InboundMessage,
    InboundMessageView, NackCode, PayloadType, PowerInformationResponse, SyncStatus,
    VehicleAnnouncementMessage,
};

verus! {

/// A payload that the responder sends.
#[derive(Clone, Copy, Debug, PartialEq, Eq)]
pub enum UdpPayload {
    /// A vehicle announcement.
    VehicleAnnouncementMessage(VehicleAnnouncementMessage),
    /// An entity status response.
    EntityStatusResponse(EntityStatusResponse),
    /// A power information response.
    PowerInformationResponse(PowerInformationResponse),
    /// A generic negative acknowledgement.
    GenericNack(GenericNack),
}

/// A reply datagram: a payload and the endpoint it goes to.
#[derive(Clone, Copy, Debug, PartialEq, Eq)]
pub struct Datagram {
    /// The payload to encode and send.
    pub payload: UdpPayload,
    /// The endpoint to send it to.
    pub destination: SocketAddress,
}

/// Whether a request body names the entity by an identifier: the body is at
/// least as long as the identifier and starts with it. Bytes that follow are
/// not looked at.
pub open spec fn names(payload: Seq<u8>, identifier: Seq<u8>) -> bool {
    payload.len() >= identifier.len() && payload.subrange(0, identifier.len() as int)
        == identifier
}

/// The announcement that an entity with the given record makes.
pub open spec fn announcement(config: ServerConfig) -> VehicleAnnouncementMessage {
    VehicleAnnouncementMessage {
        vin: config.vin,
        logical_address: config.logical_address,
        eid: config.eid,
        gid: config.gid,
        further_action: if config.routing_is_activated {
            ActionCode::NoFurtherActionRequired
        } else {
            ActionCode::RoutingActivationRequired
        },
        vin_gid_sync: Some(
            if config.vin_gid_is_synced {
                SyncStatus::VinGidSynchronized
            } else {
                SyncStatus::VinGidNotSynchronised
            },
        ),
    }
}

/// The status that an entity with the given record reports.
pub open spec fn entity_status(config: ServerConfig) -> EntityStatusResponse {
    EntityStatusResponse {
        node_type: config.node_type,
        max_concurrent_sockets: config.max_concurrent_sockets,
        currently_open_sockets: config.currently_open_sockets,
        max_data_size: config.max_data_size,
    }
}

/// The power information that an entity with the given record reports.
pub open spec fn power_information(config: ServerConfig) -> PowerInformationResponse {
    PowerInformationResponse { power_mode: config.power_mode }
}

/// The payload that the responder owes for a message, if it owes one.
///
/// A message of a foreign version is answered with the negative
/// acknowledgement, whatever its type. Otherwise the type decides. An
/// identification request by EID or VIN is answered only if it names this
/// entity; all other requests that the responder does not serve are answered
/// with the negative acknowledgement.
pub open spec fn udp_reply(config: ServerConfig, message: InboundMessageView) -> Option<
    UdpPayload,
> {
    if !config.speaks(message.protocol_version) {
        Some(UdpPayload::GenericNack(fallback_nack()))
    } else {
        match message.payload_type {
            PayloadType::VehicleIdentificationRequest => Some(
                UdpPayload::VehicleAnnouncementMessage(announcement(config)),
            ),
            PayloadType::VehicleIdentificationRequestEid => if names(
                message.payload,
                config.eid@,
            ) {
                Some(UdpPayload::VehicleAnnouncementMessage(announcement(config)))
            } else {
                None
            },
            PayloadType::VehicleIdentificationRequestVin => if names(
                message.payload,
                config.vin@,
            ) {
                Some(UdpPayload::VehicleAnnouncementMessage(announcement(config)))
            } else {
                None
            },
            PayloadType::EntityStatusRequest => Some(
                UdpPayload::EntityStatusResponse(entity_status(config)),
            ),
            PayloadType::PowerInformationRequest => Some(
                UdpPayload::PowerInformationResponse(power_information(config)),
            ),
            _ => Some(UdpPayload::GenericNack(fallback_nack())),
        }
    }
}

/// The datagram that the responder owes for a message from a sender, if it
/// owes one: the payload of [`udp_reply`], addressed to the sender.
pub open spec fn udp_response(
    config: ServerConfig,
    message: InboundMessageView,
    sender: SocketAddress,
) -> Option<Datagram> {
    match udp_reply(config, message) {
        Some(payload) => Some(Datagram { payload, destination: sender }),
        None => None,
    }
}

/// What the responder learns from its endpoint.
#[derive(Clone, Debug, PartialEq, Eq)]
pub enum EndpointEvent {
    /// A datagram was received and decoded.
    Received {
        /// The decoded message.
        message: InboundMessage,
        /// The endpoint that sent it.
        sender: SocketAddress,
    },
    /// A datagram was received that is not a message of the protocol.
    Undecodable,
    /// The endpoint failed to receive.
    ReceiveFailed,
    /// The endpoint delivers nothing more.
    EndOfStream,
    /// The last reply could not be encoded or sent.
    SendFailed,
}

/// The mathematical value of an [`EndpointEvent`].
pub enum EndpointEventView {
    /// A datagram was received and decoded.
    Received {
        /// The decoded message.
        message: InboundMessageView,
        /// The endpoint that sent it.
        sender: SocketAddress,
    },
    /// A datagram was received that is not a message of the protocol.
    Undecodable,
    /// The endpoint failed to receive.
    ReceiveFailed,
    /// The endpoint delivers nothing more.
    EndOfStream,
    /// The last reply could not be encoded or sent.
    SendFailed,
}

impl View for EndpointEvent {
    type V = EndpointEventView;

    open spec fn view(&self) -> EndpointEventView {
        match self {
            EndpointEvent::Received { message, sender } => EndpointEventView::Received {
                message: message@,
                sender: *sender,
            },
            EndpointEvent::Undecodable => EndpointEventView::Undecodable,
            EndpointEvent::ReceiveFailed => EndpointEventView::ReceiveFailed,
            EndpointEvent::EndOfStream => EndpointEventView::EndOfStream,
            EndpointEvent::SendFailed => EndpointEventView::SendFailed,
        }
    }
}

/// What the responder does next.
#[derive(Clone, Copy, Debug, PartialEq, Eq)]
pub enum ResponderAction {
    /// Send this datagram, then receive again.
    Send(Datagram),
    /// Send nothing and receive again.
    Continue,
    /// Stop: the endpoint is lost.
    Stop,
}

/// What the responder does after an event.
///
/// A decoded datagram is answered as [`udp_response`] says. A datagram that
/// does not decode is dropped without a reply, and a reply that could not be
/// sent is given up; in both cases the responder goes on. Only the loss of
/// the endpoint stops it.
pub open spec fn action_after(config: ServerConfig, event: EndpointEventView) -> ResponderAction {
    match event {
        EndpointEventView::Received { message, sender } => match udp_response(
            config,
            message,
            sender,
        ) {
            Some(datagram) => ResponderAction::Send(datagram),
            None => ResponderAction::Continue,
        },
        EndpointEventView::Undecodable => ResponderAction::Continue,
        EndpointEventView::ReceiveFailed => ResponderAction::Stop,
        EndpointEventView::EndOfStream => ResponderAction::Stop,
        EndpointEventView::SendFailed => ResponderAction::Continue,
    }
}

/// The UDP discovery responder of one entity.
#[derive(Clone, Copy, Debug, PartialEq, Eq)]
pub struct UdpServer {
    config: ServerConfig,
}

impl View for UdpServer {
    type V = ServerConfig;

    /// A responder is determined by the identity record it serves.
    closed spec fn view(&self) -> ServerConfig {
        self.config
    }
}

impl UdpServer {
    /// A responder for the entity with the given record.
    pub fn start(config: ServerConfig) -> (server: UdpServer)
        ensures
            server@ == config,
    {
        UdpServer { config }
    }

    /// The identity record that the responder serves.
    pub fn config(&self) -> (config: &ServerConfig)
        ensures
            *config == self@,
    {
        &self.config
    }

    /// Takes one event from the endpoint and decides what to do next.
    pub fn on_event(&self, event: &EndpointEvent) -> (action: ResponderAction)
        ensures
            action == action_after(self@, event@),
    {
        match event {
            EndpointEvent::Received { message, sender } => {
                match self.handle_message(message, *sender) {
                    Some(datagram) => ResponderAction::Send(datagram),
                    None => ResponderAction::Continue,
                }
            },
            EndpointEvent::Undecodable => ResponderAction::Continue,
            EndpointEvent::ReceiveFailed => ResponderAction::Stop,
            EndpointEvent::EndOfStream => ResponderAction::Stop,
            EndpointEvent::SendFailed => ResponderAction::Continue,
        }
    }

    /// Decides the reply to one decoded datagram.
    ///
    /// Returns the datagram to send back, or `None` where no reply is owed:
    /// for an identification request by EID or VIN that names another entity
    /// or whose body is too short to hold the identifier.
    pub fn handle_message(&self, message: &InboundMessage, sender: SocketAddress) -> (reply:
        Option<Datagram>)
        ensures
            reply == udp_response(self@, message@, sender),
    {
        let payload = if !self.config.accepts_version(message.protocol_version) {
            Some(UdpPayload::GenericNack(self.generic_nack()))
        } else {
            match message.payload_type {
                PayloadType::VehicleIdentificationRequest => Some(
                    UdpPayload::VehicleAnnouncementMessage(self.vehicle_announcement()),
                ),
                PayloadType::VehicleIdentificationRequestEid => {
                    match decode_eid_request(message.payload.as_slice()) {
                        Some(request) => {
                            if same_bytes(&request.eid, &self.config.eid) {
                                Some(
                                    UdpPayload::VehicleAnnouncementMessage(
                                        self.vehicle_announcement(),
                                    ),
                                )
                            } else {
                                None
                            }
                        },
                        None => None,
                    }
                },
                PayloadType::VehicleIdentificationRequestVin => {
                    match decode_vin_request(message.payload.as_slice()) {
                        Some(request) => {
                            if same_bytes(&request.vin, &self.config.vin) {
                                Some(
                                    UdpPayload::VehicleAnnouncementMessage(
                                        self.vehicle_announcement(),
                                    ),
                                )
                            } else {
                                None
                            }
                        },
                        None => None,
                    }
                },
                PayloadType::EntityStatusRequest => Some(
                    UdpPayload::EntityStatusResponse(self.entity_status_response()),
                ),
                PayloadType::PowerInformationRequest => Some(
                    UdpPayload::PowerInformationResponse(self.power_information_response()),
                ),
                _ => Some(UdpPayload::GenericNack(self.generic_nack())),
            }
        };
        match payload {
            Some(payload) => Some(Datagram { payload, destination: sender }),
            None => None,
        }
    }

    /// Builds the vehicle announcement of the entity.
    pub fn vehicle_announcement(&self) -> (message: VehicleAnnouncementMessage)
        ensures
            message == announcement(self@),
    {
        VehicleAnnouncementMessage {
            vin: self.config.vin,
            logical_address: self.config.logical_address,
            eid: self.config.eid,
            gid: self.config.gid,
            further_action: if self.config.routing_is_activated {
                ActionCode::NoFurtherActionRequired
            } else {
                ActionCode::RoutingActivationRequired
            },
            vin_gid_sync: if self.config.vin_gid_is_synced {
                Some(SyncStatus::VinGidSynchronized)
            } else {
                Some(SyncStatus::VinGidNotSynchronised)
            },
        }
    }

    /// Builds the negative acknowledgement for what the entity does not serve.
    pub fn generic_nack(&self) -> (message: GenericNack)
        ensures
            message == fallback_nack(),
    {
        GenericNack { nack_code: NackCode::IncorrectPatternFormat }
    }

    /// Builds the entity status response.
    pub fn entity_status_response(&self) -> (message: EntityStatusResponse)
        ensures
            message == entity_status(self@),
    {
        EntityStatusResponse {
            node_type: self.config.node_type,
            max_concurrent_sockets: self.config.max_concurrent_sockets,
            currently_open_sockets: self.config.currently_open_sockets,
            max_data_size: self.config.max_data_size,
        }
    }

    /// Builds the power information response.
    pub fn power_information_response(&self) -> (message: PowerInformationResponse)
        ensures
            message == power_information(self@),
    {
        PowerInformationResponse { power_mode: self.config.power_mode }
    }
}

/// Whether the responder serves requests of a payload type. Every other
/// type is refused with the negative acknowledgement.
pub open spec fn serves(payload_type: PayloadType) -> bool {
    ||| payload_type == PayloadType::VehicleIdentificationRequest
    ||| payload_type == PayloadType::VehicleIdentificationRequestEid
    ||| payload_type == PayloadType::VehicleIdentificationRequestVin
    ||| payload_type == PayloadType::EntityStatusRequest
    ||| payload_type == PayloadType::PowerInformationRequest
}

/// A vehicle identification request addressed to every entity, in the
/// version that the entity speaks, is answered with a vehicle announcement
/// that carries the VIN, EID, GID and logical address of the identity record.
/// The announcement goes to the sender of the request.
pub proof fn lemma_identification_request_is_announced(
    config: ServerConfig,
    message: InboundMessageView,
    sender: SocketAddress,
)
    requires
        config.speaks(message.protocol_version),
        message.payload_type == PayloadType::VehicleIdentificationRequest,
    ensures
        udp_response(config, message, sender) matches Some(datagram) && datagram.destination
            == sender && (datagram.payload matches UdpPayload::VehicleAnnouncementMessage(
            announced,
        ) && announced.vin == config.vin && announced.eid == config.eid && announced.gid
            == config.gid && announced.logical_address == config.logical_address),
{
}

/// A vehicle identification request by EID, in the version that the entity
/// speaks, is answered if and only if the identifier in the request is the
/// EID of the identity record. The answer is the vehicle announcement, sent
/// to the sender; otherwise nothing is sent.
pub proof fn lemma_identification_by_eid_is_answered_iff_it_names_the_entity(
    config: ServerConfig,
    message: InboundMessageView,
    sender: SocketAddress,
)
    requires
        config.speaks(message.protocol_version),
        message.payload_type == PayloadType::VehicleIdentificationRequestEid,
    ensures
        udp_response(config, message, sender) is Some <==> names(message.payload, config.eid@),
        names(message.payload, config.eid@) ==> udp_response(config, message, sender) == Some(
            Datagram {
                payload: UdpPayload::VehicleAnnouncementMessage(announcement(config)),
                destination: sender,
            },
        ),
        !names(message.payload, config.eid@) ==> action_after(
            config,
            EndpointEventView::Received { message, sender },
        ) == ResponderAction::Continue,
{
}

/// A vehicle identification request by VIN, in the version that the entity
/// speaks, is answered if and only if the number in the request is the VIN of
/// the identity record. The answer is the vehicle announcement, sent to the
/// sender; otherwise nothing is sent.
pub proof fn lemma_identification_by_vin_is_answered_iff_it_names_the_entity(
    config: ServerConfig,
    message: InboundMessageView,
    sender: SocketAddress,
)
    requires
        config.speaks(message.protocol_version),
        message.payload_type == PayloadType::VehicleIdentificationRequestVin,
    ensures
        udp_response(config, message, sender) is Some <==> names(message.payload, config.vin@),
        names(message.payload, config.vin@) ==> udp_response(config, message, sender) == Some(
            Datagram {
                payload: UdpPayload::VehicleAnnouncementMessage(announcement(config)),
                destination: sender,
            },
        ),
        !names(message.payload, config.vin@) ==> action_after(
            config,
            EndpointEventView::Received { message, sender },
        ) == ResponderAction::Continue,
{
}

/// Every announcement that the responder sends, for whatever message, says
/// "no further action required" if routing is activated in the identity
/// record, and "routing activation required" if it is not. It always states
/// the synchronisation status, and states "synchronised" exactly if the
/// record does.
pub proof fn lemma_announcement_follows_the_record(
    config: ServerConfig,
    message: InboundMessageView,
    sender: SocketAddress,
)
    ensures
        udp_response(config, message, sender) matches Some(datagram) ==> (
        datagram.payload matches UdpPayload::VehicleAnnouncementMessage(announced) ==> {
            &&& announced.further_action == ActionCode::NoFurtherActionRequired
                <==> config.routing_is_activated
            &&& announced.further_action == ActionCode::RoutingActivationRequired
                <==> !config.routing_is_activated
            &&& announced.vin_gid_sync == Some(SyncStatus::VinGidSynchronized)
                <==> config.vin_gid_is_synced
            &&& announced.vin_gid_sync == Some(SyncStatus::VinGidNotSynchronised)
                <==> !config.vin_gid_is_synced
        }),
{
}

/// A message of a payload type that the responder does not serve is answered
/// with one negative acknowledgement, with the code "incorrect pattern
/// format", sent to the sender. This holds whatever version and body the
/// message has.
pub proof fn lemma_unserved_type_is_refused(
    config: ServerConfig,
    message: InboundMessageView,
    sender: SocketAddress,
)
    requires
        !serves(message.payload_type),
    ensures
        udp_response(config, message, sender) == Some(
            Datagram {
                payload: UdpPayload::GenericNack(
                    GenericNack { nack_code: NackCode::IncorrectPatternFormat },
                ),
                destination: sender,
            },
        ),
        action_after(config, EndpointEventView::Received { message, sender })
            is Send,
{
}

/// A message of a version that the entity does not speak is answered with
/// the negative acknowledgement, whatever its payload type and body.
pub proof fn lemma_foreign_version_is_refused(
    config: ServerConfig,
    message: InboundMessageView,
    sender: SocketAddress,
)
    requires
        !config.speaks(message.protocol_version),
    ensures
        udp_response(config, message, sender) == Some(
            Datagram {
                payload: UdpPayload::GenericNack(
                    GenericNack { nack_code: NackCode::IncorrectPatternFormat },
                ),
                destination: sender,
            },
        ),
{
}

/// Every reply goes to the sender of the message that it answers.
pub proof fn lemma_reply_goes_to_the_sender(
    config: ServerConfig,
    message: InboundMessageView,
    sender: SocketAddress,
)
    ensures
        udp_response(config, message, sender) matches Some(datagram) ==> datagram.destination
            == sender,
{
}

/// The responder stops only when its endpoint is lost: when receiving fails
/// or the endpoint delivers nothing more. A datagram that does not decode, a
/// request that is owed no reply and a reply that could not be sent all
/// leave it running.
pub proof fn lemma_responder_stops_only_when_the_endpoint_is_lost(
    config: ServerConfig,
    event: EndpointEventView,
)
    ensures
        action_after(config, event) == ResponderAction::Stop <==> (event
            == EndpointEventView::ReceiveFailed || event == EndpointEventView::EndOfStream),
        event == EndpointEventView::Undecodable ==> action_after(config, event)
            == ResponderAction::Continue,
        event == EndpointEventView::SendFailed ==> action_after(config, event)
            == ResponderAction::Continue,
{
}

} // verus!
