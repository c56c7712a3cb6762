//! The identity and capability record of the entity being served.

use vstd::prelude::*;

verus! {

/// The versions of the protocol that a message header can announce.
#[allow(non_camel_case_types)]
#[derive(Clone, Copy, Debug, PartialEq, Eq, Structural)]
pub enum DoipVersion {
    /// The reserved version value.
    ReservedVer,
    /// ISO/DIS 13400-2:2010.
    Iso13400_2010,
    /// ISO 13400-2:2012.
    Iso13400_2012,
    /// ISO 13400-2:2019.
    Iso13400_2019,
    /// ISO 13400-2:2019 Amd1.
    Iso13400_2019Amd1,
    /// The default value that vehicle identification requests may carry.
    DefaultValue,
}

/// The role of the entity in the vehicle network.
#[derive(Clone, Copy, Debug, PartialEq, Eq, Structural)]
pub enum NodeType {
    /// A gateway to other entities.
    DoipGateway,
    /// A single node.
    DoipNode,
}

/// The power state that the entity reports.
#[derive(Clone, Copy, Debug, PartialEq, Eq, Structural)]
pub enum PowerMode {
    /// Not ready for diagnostics.
    NotReady,
    /// Ready for diagnostics.
    Ready,
    /// The entity does not report its power state.
    NotSupported,
}

/// An IPv4 endpoint.
#[derive(Clone, Copy, Debug, PartialEq, Eq)]
pub struct SocketAddressV4 {
    /// The four octets of the address, in network order.
    pub octets: [u8; 4],
    /// The port.
    pub port: u16,
}

/// An IPv6 endpoint.
#[derive(Clone, Copy, Debug, PartialEq, Eq)]
pub struct SocketAddressV6 {
    /// The sixteen octets of the address, in network order.
    pub octets: [u8; 16],
    /// The port.
    pub port: u16,
    /// The flow label and traffic class.
    pub flowinfo: u32,
    /// The scope identifier.
    pub scope_id: u32,
}

/// A network endpoint: an IP address and a port.
///
/// The entity never looks inside an endpoint. It receives the sender's
/// endpoint with each datagram and addresses the reply to it.
#[derive(Clone, Copy, Debug, PartialEq, Eq)]
pub enum SocketAddress {
    /// An IPv4 endpoint.
    V4(SocketAddressV4),
    /// An IPv6 endpoint.
    V6(SocketAddressV6),
}

/// The identity and capability record of the entity.
///
/// The record is built once, before any server component starts, and is
/// only read afterwards. All widths are those of the wire fields, so every
/// value of this type is a well-formed record.
#[derive(Clone, Copy, Debug, PartialEq, Eq)]
pub struct ServerConfig {
    /// The endpoint that the entity binds to and announces as its own.
    pub address: SocketAddress,
    /// The protocol version that the entity speaks.
    pub protocol_version: DoipVersion,
    /// The vehicle identification number.
    pub vin: [u8; 17],
    /// The group identifier.
    pub gid: [u8; 6],
    /// The entity identifier.
    pub eid: [u8; 6],
    /// Whether VIN and GID are synchronised across the vehicle.
    pub vin_gid_is_synced: bool,
    /// The logical address that the entity uses as its own source address.
    pub logical_address: [u8; 2],
    /// Whether routing is activated for the entity as a whole.
    pub routing_is_activated: bool,
    /// The role of the entity.
    pub node_type: NodeType,
    /// The greatest number of TCP sockets the entity serves at once.
    pub max_concurrent_sockets: [u8; 1],
    /// The number of TCP sockets currently open.
    pub currently_open_sockets: [u8; 1],
    /// The greatest payload size the entity accepts.
    pub max_data_size: [u8; 4],
    /// The power state that the entity reports.
    pub power_mode: PowerMode,
}

impl ServerConfig {
    /// Whether a message header announces the version that this entity
    /// speaks. A message of any other version is foreign.
    pub open spec fn speaks(self, version: DoipVersion) -> bool {
        version == self.protocol_version
    }

    /// Tests [`ServerConfig::speaks`].
    pub fn accepts_version(&self, version: DoipVersion) -> (accepted: bool)
        ensures
            accepted == self.speaks(version),
    {
        version == self.protocol_version
    }
}

} // verus!
