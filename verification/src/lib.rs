//! The dispatch core of a DoIP (diagnostics over IP) entity.
//!
//! A DoIP entity answers discovery and status queries that arrive as UDP
//! datagrams and serves diagnostic sessions over TCP connections. This crate
//! holds the part of such a server that decides: given the entity's identity
//! record and one decoded inbound message, which reply, if any, is owed. It
//! performs no I/O. A host program owns the sockets, hands each decoded
//! message to [`UdpServer`] or [`TcpConnection`], and transmits what they
//! return.
//!
//! Every function here is verified with Verus against the contract written
//! on it. The only unverified code is the three payload decoders in
//! [`codec`], which call into `doip_definitions`.

pub mod bytes;
pub mod codec;
pub mod config;
pub mod message;
pub mod session;
pub mod tcp;
pub mod udp;

pub use crate::config::{
    DoipVersion, NodeType, PowerMode, ServerConfig, SocketAddress, SocketAddressV4, SocketAddressV6,
};
pub use crate::message::{InboundMessage, PayloadType};
pub use crate::tcp::{TcpConnection, TcpServer};
pub use crate::udp::UdpServer;
