use doip_definitions::header::DoipPayload;
use doip_server::bytes::same_bytes;
use doip_server::config::{
    DoipVersion, NodeType, PowerMode, ServerConfig, SocketAddress, SocketAddressV4,
    SocketAddressV6,
};
use doip_server::message::{
    ActionCode, EntityStatusResponse, GenericNack, InboundMessage, NackCode, PayloadType,
    PowerInformationResponse, SyncStatus, VehicleAnnouncementMessage,
};
use doip_server::udp::{Datagram, EndpointEvent, ResponderAction, UdpPayload, UdpServer};

const VIN: [u8; 17] = [
    0x57, 0x41, 0x55, 0x5a, 0x5a, 0x5a, 0x38, 0x56, 0x39, 0x4b, 0x41, 0x30, 0x30, 0x30, 0x30, 0x31,
    0x37,
];
const GID: [u8; 6] = [0xa1, 0xa2, 0xa3, 0xa4, 0xa5, 0xa6];
const EID: [u8; 6] = [0x00, 0x1b, 0x2c, 0x3d, 0x4e, 0x5f];

fn identity() -> ServerConfig {
    ServerConfig {
        address: SocketAddress::V4(SocketAddressV4 { octets: [127, 0, 0, 1], port: 13400 }),
        protocol_version: DoipVersion::Iso13400_2012,
        vin: VIN,
        gid: GID,
        eid: EID,
        vin_gid_is_synced: true,
        logical_address: [0x0e, 0x80],
        routing_is_activated: false,
        node_type: NodeType::DoipGateway,
        max_concurrent_sockets: [0x08],
        currently_open_sockets: [0x03],
        max_data_size: [0x00, 0x00, 0xff, 0xff],
        power_mode: PowerMode::Ready,
    }
}

fn tester() -> SocketAddress {
    SocketAddress::V4(SocketAddressV4 { octets: [192, 168, 0, 17], port: 40123 })
}

fn message(payload_type: PayloadType, payload: Vec<u8>) -> InboundMessage {
    InboundMessage { protocol_version: DoipVersion::Iso13400_2012, payload_type, payload }
}

fn announcement_of(config: &ServerConfig) -> VehicleAnnouncementMessage {
    VehicleAnnouncementMessage {
        vin: config.vin,
        logical_address: config.logical_address,
        eid: config.eid,
        gid: config.gid,
        further_action: if config.routing_is_activated {
            ActionCode::NoFurtherActionRequired
        } else {
            ActionCode::RoutingActivationRequired
        },
        vin_gid_sync: Some(if config.vin_gid_is_synced {
            SyncStatus::VinGidSynchronized
        } else {
            SyncStatus::VinGidNotSynchronised
        }),
    }
}

fn nack_to(destination: SocketAddress) -> Datagram {
    Datagram {
        payload: UdpPayload::GenericNack(GenericNack {
            nack_code: NackCode::IncorrectPatternFormat,
        }),
        destination,
    }
}

#[test]
fn start_keeps_the_identity_record() {
    let config = identity();
    let server = UdpServer::start(config);
    assert_eq!(*server.config(), config);
}

#[test]
fn plain_identification_request_is_announced_to_the_sender() {
    let config = identity();
    let server = UdpServer::start(config);
    let request = doip_definitions::message::VehicleIdentificationRequest {};
    let inbound = message(PayloadType::VehicleIdentificationRequest, request.to_bytes());
    let reply = server.handle_message(&inbound, tester()).unwrap();
    assert_eq!(reply.destination, tester());
    match reply.payload {
        UdpPayload::VehicleAnnouncementMessage(announcement) => {
            assert_eq!(announcement.vin, VIN);
            assert_eq!(announcement.eid, EID);
            assert_eq!(announcement.gid, GID);
            assert_eq!(announcement.logical_address, [0x0e, 0x80]);
        }
        other => panic!("expected an announcement, got {:?}", other),
    }
}

#[test]
fn announcement_of_an_unactivated_synchronised_entity() {
    let mut config = identity();
    config.routing_is_activated = false;
    config.vin_gid_is_synced = true;
    let server = UdpServer::start(config);
    let inbound = message(PayloadType::VehicleIdentificationRequest, Vec::new());
    let reply = server.handle_message(&inbound, tester());
    assert_eq!(
        reply,
        Some(Datagram {
            payload: UdpPayload::VehicleAnnouncementMessage(VehicleAnnouncementMessage {
                vin: VIN,
                logical_address: [0x0e, 0x80],
                eid: EID,
                gid: GID,
                further_action: ActionCode::RoutingActivationRequired,
                vin_gid_sync: Some(SyncStatus::VinGidSynchronized),
            }),
            destination: tester(),
        })
    );
}

#[test]
fn further_action_follows_the_routing_flag() {
    for activated in [false, true] {
        for synced in [false, true] {
            let mut config = identity();
            config.routing_is_activated = activated;
            config.vin_gid_is_synced = synced;
            let announcement = UdpServer::start(config).vehicle_announcement();
            assert_eq!(
                announcement.further_action == ActionCode::NoFurtherActionRequired,
                activated
            );
            assert_eq!(
                announcement.further_action == ActionCode::RoutingActivationRequired,
                !activated
            );
            assert_eq!(
                announcement.vin_gid_sync == Some(SyncStatus::VinGidSynchronized),
                synced
            );
            assert_eq!(
                announcement.vin_gid_sync == Some(SyncStatus::VinGidNotSynchronised),
                !synced
            );
            assert_eq!(announcement, announcement_of(&config));
        }
    }
}

#[test]
fn identification_by_eid_is_answered_when_it_names_the_entity() {
    let config = identity();
    let server = UdpServer::start(config);
    let request = doip_definitions::message::VehicleIdentificationRequestEid { eid: EID };
    let inbound = message(PayloadType::VehicleIdentificationRequestEid, request.to_bytes());
    assert_eq!(
        server.handle_message(&inbound, tester()),
        Some(Datagram {
            payload: UdpPayload::VehicleAnnouncementMessage(announcement_of(&config)),
            destination: tester(),
        })
    );
}

#[test]
fn identification_by_eid_is_not_answered_when_it_names_another_entity() {
    let server = UdpServer::start(identity());
    for position in 0..6 {
        let mut eid = EID;
        eid[position] ^= 0x01;
        let request = doip_definitions::message::VehicleIdentificationRequestEid { eid };
        let inbound = message(PayloadType::VehicleIdentificationRequestEid, request.to_bytes());
        assert_eq!(server.handle_message(&inbound, tester()), None);
    }
}

#[test]
fn identification_by_eid_with_a_short_body_is_not_answered() {
    let server = UdpServer::start(identity());
    for length in 0..6 {
        let inbound =
            message(PayloadType::VehicleIdentificationRequestEid, EID[..length].to_vec());
        assert_eq!(server.handle_message(&inbound, tester()), None);
    }
}

#[test]
fn identification_by_eid_reads_only_the_identifier() {
    let config = identity();
    let server = UdpServer::start(config);
    let mut body = EID.to_vec();
    body.extend_from_slice(&[0xde, 0xad]);
    let inbound = message(PayloadType::VehicleIdentificationRequestEid, body);
    assert_eq!(
        server.handle_message(&inbound, tester()),
        Some(Datagram {
            payload: UdpPayload::VehicleAnnouncementMessage(announcement_of(&config)),
            destination: tester(),
        })
    );
}

#[test]
fn identification_by_vin_is_answered_when_it_names_the_entity() {
    let config = identity();
    let server = UdpServer::start(config);
    let request = doip_definitions::message::VehicleIdentificationRequestVin { vin: VIN };
    let inbound = message(PayloadType::VehicleIdentificationRequestVin, request.to_bytes());
    assert_eq!(
        server.handle_message(&inbound, tester()),
        Some(Datagram {
            payload: UdpPayload::VehicleAnnouncementMessage(announcement_of(&config)),
            destination: tester(),
        })
    );
}

#[test]
fn identification_by_vin_is_not_answered_when_it_names_another_vehicle() {
    let server = UdpServer::start(identity());
    for position in 0..17 {
        let mut vin = VIN;
        vin[position] ^= 0x20;
        let request = doip_definitions::message::VehicleIdentificationRequestVin { vin };
        let inbound = message(PayloadType::VehicleIdentificationRequestVin, request.to_bytes());
        assert_eq!(server.handle_message(&inbound, tester()), None);
    }
}

#[test]
fn identification_by_vin_with_a_short_body_is_not_answered() {
    let server = UdpServer::start(identity());
    for length in [0usize, 1, 6, 16] {
        let inbound =
            message(PayloadType::VehicleIdentificationRequestVin, VIN[..length].to_vec());
        assert_eq!(server.handle_message(&inbound, tester()), None);
    }
}

#[test]
fn an_eid_is_not_taken_for_a_vin() {
    let mut config = identity();
    config.vin = [0x11; 17];
    config.eid = [0x11; 6];
    let server = UdpServer::start(config);
    let inbound = message(PayloadType::VehicleIdentificationRequestVin, vec![0x11; 6]);
    assert_eq!(server.handle_message(&inbound, tester()), None);
}

#[test]
fn entity_status_is_reported_verbatim() {
    let server = UdpServer::start(identity());
    let request = doip_definitions::message::EntityStatusRequest {};
    let inbound = message(PayloadType::EntityStatusRequest, request.to_bytes());
    assert_eq!(
        server.handle_message(&inbound, tester()),
        Some(Datagram {
            payload: UdpPayload::EntityStatusResponse(EntityStatusResponse {
                node_type: NodeType::DoipGateway,
                max_concurrent_sockets: [0x08],
                currently_open_sockets: [0x03],
                max_data_size: [0x00, 0x00, 0xff, 0xff],
            }),
            destination: tester(),
        })
    );
    let mut node = identity();
    node.node_type = NodeType::DoipNode;
    node.max_data_size = [0x01, 0x02, 0x03, 0x04];
    let status = UdpServer::start(node).entity_status_response();
    assert_eq!(status.node_type, NodeType::DoipNode);
    assert_eq!(status.max_data_size, [0x01, 0x02, 0x03, 0x04]);
}

#[test]
fn power_information_is_reported() {
    for power_mode in [PowerMode::NotReady, PowerMode::Ready, PowerMode::NotSupported] {
        let mut config = identity();
        config.power_mode = power_mode;
        let server = UdpServer::start(config);
        let request = doip_definitions::message::PowerInformationRequest {};
        let inbound = message(PayloadType::PowerInformationRequest, request.to_bytes());
        assert_eq!(
            server.handle_message(&inbound, tester()),
            Some(Datagram {
                payload: UdpPayload::PowerInformationResponse(PowerInformationResponse {
                    power_mode
                }),
                destination: tester(),
            })
        );
    }
}

#[test]
fn announcement_sent_to_the_responder_is_refused() {
    let config = identity();
    let server = UdpServer::start(config);
    let announcement = doip_definitions::message::VehicleAnnouncementMessage {
        vin: config.vin,
        logical_address: config.logical_address,
        eid: config.eid,
        gid: config.gid,
        further_action: doip_definitions::message::ActionCode::NoFurtherActionRequired,
        vin_gid_sync: Some(doip_definitions::message::SyncStatus::VinGidSynchronized),
    };
    let inbound = message(PayloadType::VehicleAnnouncementMessage, announcement.to_bytes());
    assert_eq!(server.handle_message(&inbound, tester()), Some(nack_to(tester())));
}

#[test]
fn every_unserved_payload_type_is_refused() {
    let server = UdpServer::start(identity());
    let unserved = [
        PayloadType::GenericNack,
        PayloadType::VehicleAnnouncementMessage,
        PayloadType::RoutingActivationRequest,
        PayloadType::RoutingActivationResponse,
        PayloadType::AliveCheckRequest,
        PayloadType::AliveCheckResponse,
        PayloadType::EntityStatusResponse,
        PayloadType::PowerInformationResponse,
        PayloadType::DiagnosticMessage,
        PayloadType::DiagnosticMessageAck,
        PayloadType::DiagnosticMessageNack,
    ];
    for payload_type in unserved {
        for body in [Vec::new(), EID.to_vec(), VIN.to_vec()] {
            let inbound = message(payload_type, body);
            assert_eq!(server.handle_message(&inbound, tester()), Some(nack_to(tester())));
        }
    }
}

#[test]
fn a_foreign_version_is_refused_whatever_the_type() {
    let server = UdpServer::start(identity());
    let foreign = [
        DoipVersion::ReservedVer,
        DoipVersion::Iso13400_2010,
        DoipVersion::Iso13400_2019,
        DoipVersion::Iso13400_2019Amd1,
        DoipVersion::DefaultValue,
    ];
    let types = [
        PayloadType::VehicleIdentificationRequest,
        PayloadType::VehicleIdentificationRequestEid,
        PayloadType::VehicleIdentificationRequestVin,
        PayloadType::EntityStatusRequest,
        PayloadType::PowerInformationRequest,
        PayloadType::DiagnosticMessage,
    ];
    for protocol_version in foreign {
        for payload_type in types {
            let inbound = InboundMessage { protocol_version, payload_type, payload: EID.to_vec() };
            assert_eq!(server.handle_message(&inbound, tester()), Some(nack_to(tester())));
        }
    }
}

#[test]
fn the_reply_goes_to_whoever_sent_the_request() {
    let server = UdpServer::start(identity());
    let senders = [
        SocketAddress::V4(SocketAddressV4 { octets: [10, 0, 0, 1], port: 1 }),
        SocketAddress::V4(SocketAddressV4 { octets: [10, 0, 0, 1], port: 65535 }),
        SocketAddress::V6(SocketAddressV6 {
            octets: [0xfe, 0x80, 0, 0, 0, 0, 0, 0, 0, 0, 0, 0, 0, 0, 0, 1],
            port: 13400,
            flowinfo: 7,
            scope_id: 2,
        }),
    ];
    for sender in senders {
        let inbound = message(PayloadType::EntityStatusRequest, Vec::new());
        assert_eq!(server.handle_message(&inbound, sender).unwrap().destination, sender);
    }
}

#[test]
fn a_received_datagram_is_answered() {
    let config = identity();
    let server = UdpServer::start(config);
    let event = EndpointEvent::Received {
        message: message(PayloadType::VehicleIdentificationRequest, Vec::new()),
        sender: tester(),
    };
    assert_eq!(
        server.on_event(&event),
        ResponderAction::Send(Datagram {
            payload: UdpPayload::VehicleAnnouncementMessage(announcement_of(&config)),
            destination: tester(),
        })
    );
}

#[test]
fn a_request_for_another_entity_is_passed_over() {
    let server = UdpServer::start(identity());
    let event = EndpointEvent::Received {
        message: message(PayloadType::VehicleIdentificationRequestEid, vec![0xff; 6]),
        sender: tester(),
    };
    assert_eq!(server.on_event(&event), ResponderAction::Continue);
}

#[test]
fn an_undecodable_datagram_is_dropped_silently() {
    let server = UdpServer::start(identity());
    assert_eq!(server.on_event(&EndpointEvent::Undecodable), ResponderAction::Continue);
}

#[test]
fn a_failed_send_does_not_stop_the_responder() {
    let server = UdpServer::start(identity());
    assert_eq!(server.on_event(&EndpointEvent::SendFailed), ResponderAction::Continue);
    let event = EndpointEvent::Received {
        message: message(PayloadType::PowerInformationRequest, Vec::new()),
        sender: tester(),
    };
    assert!(matches!(server.on_event(&event), ResponderAction::Send(_)));
}

#[test]
fn a_lost_endpoint_stops_the_responder() {
    let server = UdpServer::start(identity());
    assert_eq!(server.on_event(&EndpointEvent::ReceiveFailed), ResponderAction::Stop);
    assert_eq!(server.on_event(&EndpointEvent::EndOfStream), ResponderAction::Stop);
}

#[test]
fn fields_are_compared_byte_by_byte() {
    assert!(same_bytes(&EID, &EID));
    assert!(same_bytes(&[0u8; 0], &[0u8; 0]));
    assert!(!same_bytes(&[1u8, 2, 3], &[1u8, 2, 4]));
    assert!(!same_bytes(&[9u8, 2, 3], &[1u8, 2, 3]));
    assert!(same_bytes(&VIN, &VIN));
}

#[test]
fn only_the_version_of_the_record_is_spoken() {
    let config = identity();
    let versions = [
        DoipVersion::ReservedVer,
        DoipVersion::Iso13400_2010,
        DoipVersion::Iso13400_2012,
        DoipVersion::Iso13400_2019,
        DoipVersion::Iso13400_2019Amd1,
        DoipVersion::DefaultValue,
    ];
    for version in versions {
        assert_eq!(config.accepts_version(version), version == DoipVersion::Iso13400_2012);
    }
}
