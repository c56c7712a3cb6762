//! The TCP side of the entity: the connection handler and the acceptor.
//!
//! Each accepted connection gets a handler of its own. A handler reads only
//! the identity record and its own stream; handlers share nothing with one
//! another.

use vstd::prelude::*;
use crate::codec::{decode_routing_activation_request, routing_activation_request_of};
use crate::config::ServerConfig;
use crate::message::{
    fallback_nack, ActivationCode, ActivationType, AliveCheckResponse, GenericNack,
    InboundMessage, InboundMessageView, NackCode, PayloadType, RoutingActivationRequest,
    RoutingActivationResponse,
};

verus! {

/// A payload that a connection handler sends.
#[derive(Clone, Copy, Debug, PartialEq, Eq)]
pub enum TcpPayload {
    /// A generic negative acknowledgement.
    GenericNack(GenericNack),
    /// A routing activation response.
    RoutingActivationResponse(RoutingActivationResponse),
    /// An alive check response.
    AliveCheckResponse(AliveCheckResponse),
}

/// The outcome of a routing activation request of the given type: only the
/// default type is granted.
pub open spec fn activation_code_for(activation_type: ActivationType) -> ActivationCode {
    if activation_type == ActivationType::Default {
        ActivationCode::SuccessfullyActivated
    } else {
        ActivationCode::DeniedMissingAuthentication
    }
}

/// The response of an entity with the given record to a routing activation
/// request. It is addressed to the tester's source address, comes from the
/// entity's logical address, and its reserved bytes are zero.
pub open spec fn activation_response(
    config: ServerConfig,
    request: RoutingActivationRequest,
) -> RoutingActivationResponse {
    RoutingActivationResponse {
        logical_address: request.source_address,
        source_address: config.logical_address,
        activation_code: activation_code_for(request.activation_type),
        buffer: [0u8, 0u8, 0u8, 0u8],
    }
}

/// The alive check response of an entity with the given record.
pub open spec fn alive_response(config: ServerConfig) -> AliveCheckResponse {
    AliveCheckResponse { source_address: config.logical_address }
}

/// The payload that a handler owes for a message, if it owes one.
///
/// A message of a foreign version is answered with the negative
/// acknowledgement, whatever its type. Otherwise the type decides. A routing
/// activation request whose body does not decode gets no reply, and neither
/// does a diagnostic message. Every type that a handler does not serve is
/// answered with the negative acknowledgement.
pub open spec fn tcp_reply(config: ServerConfig, message: InboundMessageView) -> Option<
    TcpPayload,
> {
    if !config.speaks(message.protocol_version) {
        Some(TcpPayload::GenericNack(fallback_nack()))
    } else {
        match message.payload_type {
            PayloadType::RoutingActivationRequest => match routing_activation_request_of(
                message.payload,
            ) {
                Some(request) => Some(
                    TcpPayload::RoutingActivationResponse(activation_response(config, request)),
                ),
                None => None,
            },
            PayloadType::AliveCheckRequest => Some(
                TcpPayload::AliveCheckResponse(alive_response(config)),
            ),
            PayloadType::DiagnosticMessage => None,
            _ => Some(TcpPayload::GenericNack(fallback_nack())),
        }
    }
}

/// The two states of a connection.
#[derive(Clone, Copy, Debug, PartialEq, Eq, Structural)]
pub enum ConnectionState {
    /// The handler reads and answers.
    Open,
    /// The handler has terminated. This state is never left.
    Closed,
}

/// What the handler of a connection learns from its stream.
#[derive(Clone, Debug, PartialEq, Eq)]
pub enum StreamEvent {
    /// A message was read and decoded.
    Message(InboundMessage),
    /// The peer closed the stream.
    EndOfStream,
    /// The read failed, or what was read is not a frame of the protocol.
    ReadFailed,
    /// The last reply could not be encoded or sent.
    SendFailed,
}

/// The mathematical value of a [`StreamEvent`].
pub enum StreamEventView {
    /// A message was read and decoded.
    Message(InboundMessageView),
    /// The peer closed the stream.
    EndOfStream,
    /// The read failed, or what was read is not a frame of the protocol.
    ReadFailed,
    /// The last reply could not be encoded or sent.
    SendFailed,
}

impl View for StreamEvent {
    type V = StreamEventView;

    open spec fn view(&self) -> StreamEventView {
        match self {
            StreamEvent::Message(message) => StreamEventView::Message(message@),
            StreamEvent::EndOfStream => StreamEventView::EndOfStream,
            StreamEvent::ReadFailed => StreamEventView::ReadFailed,
            StreamEvent::SendFailed => StreamEventView::SendFailed,
        }
    }
}

/// The state of a connection after an event.
///
/// The end of the stream and a failed read close the connection. A message
/// or a failed send leaves it as it is. A closed connection stays closed.
pub open spec fn next_state(state: ConnectionState, event: StreamEventView) -> ConnectionState {
    match state {
        ConnectionState::Closed => ConnectionState::Closed,
        ConnectionState::Open => match event {
            StreamEventView::Message(_) => ConnectionState::Open,
            StreamEventView::EndOfStream => ConnectionState::Closed,
            StreamEventView::ReadFailed => ConnectionState::Closed,
            StreamEventView::SendFailed => ConnectionState::Open,
        },
    }
}

/// The payload that a handler in the given state owes after an event, if it
/// owes one: the reply to a message read on an open connection, and nothing
/// otherwise.
pub open spec fn reply_after(
    config: ServerConfig,
    state: ConnectionState,
    event: StreamEventView,
) -> Option<TcpPayload> {
    match (state, event) {
        (ConnectionState::Open, StreamEventView::Message(message)) => tcp_reply(config, message),
        _ => None,
    }
}

/// The mathematical value of a [`TcpConnection`].
pub struct TcpConnectionView {
    /// The identity record that the handler serves.
    pub config: ServerConfig,
    /// The state of the connection.
    pub state: ConnectionState,
}

/// The handler of one TCP connection.
#[derive(Clone, Copy, Debug, PartialEq, Eq)]
pub struct TcpConnection {
    config: ServerConfig,
    state: ConnectionState,
}

impl View for TcpConnection {
    type V = TcpConnectionView;

    closed spec fn view(&self) -> TcpConnectionView {
        TcpConnectionView { config: self.config, state: self.state }
    }
}

impl TcpConnection {
    /// A handler for a connection that was just accepted.
    pub fn new(config: ServerConfig) -> (connection: TcpConnection)
        ensures
            connection@.config == config,
            connection@.state == ConnectionState::Open,
    {
        TcpConnection { config, state: ConnectionState::Open }
    }

    /// The identity record that the handler serves.
    pub fn config(&self) -> (config: &ServerConfig)
        ensures
            *config == self@.config,
    {
        &self.config
    }

    /// Whether the handler still reads from its stream.
    pub fn is_open(&self) -> (open: bool)
        ensures
            open == (self@.state == ConnectionState::Open),
    {
        self.state == ConnectionState::Open
    }

    /// Takes one event from the stream of the connection.
    ///
    /// Returns the payload to send, if one is owed, and moves the handler to
    /// its next state. Nothing else changes.
    pub fn on_event(&mut self, event: &StreamEvent) -> (reply: Option<TcpPayload>)
        ensures
            final(self)@.config == old(self)@.config,
            final(self)@.state == next_state(old(self)@.state, event@),
            reply == reply_after(old(self)@.config, old(self)@.state, event@),
    {
        if !self.is_open() {
            return None;
        }
        match event {
            StreamEvent::Message(message) => self.handle_message(message),
            StreamEvent::EndOfStream => {
                self.state = ConnectionState::Closed;
                None
            },
            StreamEvent::ReadFailed => {
                self.state = ConnectionState::Closed;
                None
            },
            StreamEvent::SendFailed => None,
        }
    }

    /// Decides the reply to one decoded message.
    ///
    /// Returns the payload to send back, or `None` where no reply is owed:
    /// for a diagnostic message, and for a routing activation request whose
    /// body does not decode.
    pub fn handle_message(&self, message: &InboundMessage) -> (reply: Option<TcpPayload>)
        ensures
            reply == tcp_reply(self@.config, message@),
    {
        if !self.config.accepts_version(message.protocol_version) {
            return Some(
                TcpPayload::GenericNack(self.generic_nack(NackCode::IncorrectPatternFormat)),
            );
        }
        match message.payload_type {
            PayloadType::RoutingActivationRequest => {
                match decode_routing_activation_request(message.payload.as_slice()) {
                    Some(request) => Some(
                        TcpPayload::RoutingActivationResponse(
                            self.routing_activation_response(&request),
                        ),
                    ),
                    None => None,
                }
            },
            PayloadType::AliveCheckRequest => Some(
                TcpPayload::AliveCheckResponse(self.alive_check_response()),
            ),
            PayloadType::DiagnosticMessage => self.handle_diagnostic_message(),
            _ => Some(TcpPayload::GenericNack(self.generic_nack(NackCode::IncorrectPatternFormat))),
        }
    }

    /// Builds a negative acknowledgement with the given reason.
    pub fn generic_nack(&self, nack_code: NackCode) -> (message: GenericNack)
        ensures
            message.nack_code == nack_code,
    {
        GenericNack { nack_code }
    }

    /// Builds the response to a routing activation request.
    pub fn routing_activation_response(&self, request: &RoutingActivationRequest) -> (message:
        RoutingActivationResponse)
        ensures
            message == activation_response(self@.config, *request),
    {
        let activation_code = match request.activation_type {
            ActivationType::Default => ActivationCode::SuccessfullyActivated,
            _ => ActivationCode::DeniedMissingAuthentication,
        };
        RoutingActivationResponse {
            logical_address: request.source_address,
            source_address: self.config.logical_address,
            activation_code,
            buffer: [0x00, 0x00, 0x00, 0x00],
        }
    }

    /// Builds the alive check response.
    pub fn alive_check_response(&self) -> (message: AliveCheckResponse)
        ensures
            message == alive_response(self@.config),
    {
        AliveCheckResponse { source_address: self.config.logical_address }
    }

    /// The place of diagnostic messages in the dispatch. Relaying them to the
    /// vehicle network is not part of this crate, so no reply is owed.
    pub fn handle_diagnostic_message(&self) -> (reply: Option<TcpPayload>)
        ensures
            reply is None,
    {
        None
    }
}

/// The length of the queue of pending connections that the acceptor asks
/// its listening endpoint for.
pub const LISTEN_BACKLOG: u32 = 1024;

/// What the acceptor learns from its listening endpoint.
#[derive(Clone, Copy, Debug, PartialEq, Eq, Structural)]
pub enum AcceptEvent {
    /// A connection was accepted.
    Accepted,
    /// Accepting failed.
    AcceptFailed,
}

/// What the acceptor does next.
#[derive(Clone, Copy, Debug, PartialEq, Eq)]
pub enum AcceptorAction {
    /// Hand the accepted connection to this handler, to run independently of
    /// all others, then accept again.
    Serve(TcpConnection),
    /// Stop: the listening endpoint is lost.
    Stop,
}

/// The TCP connection acceptor of one entity.
#[derive(Clone, Copy, Debug, PartialEq, Eq)]
pub struct TcpServer {
    config: ServerConfig,
}

impl View for TcpServer {
    type V = ServerConfig;

    /// An acceptor is determined by the identity record it serves.
    closed spec fn view(&self) -> ServerConfig {
        self.config
    }
}

impl TcpServer {
    /// An acceptor for the entity with the given record. It listens on the
    /// address of the record.
    pub fn start(config: ServerConfig) -> (server: TcpServer)
        ensures
            server@ == config,
    {
        TcpServer { config }
    }

    /// The identity record that the acceptor serves.
    pub fn config(&self) -> (config: &ServerConfig)
        ensures
            *config == self@,
    {
        &self.config
    }

    /// Takes one event from the listening endpoint and decides what to do
    /// next.
    ///
    /// Every accepted connection gets a fresh handler for the same identity
    /// record, however many are already being served. A failure to accept
    /// stops the acceptor; it does not try again.
    pub fn on_event(&self, event: AcceptEvent) -> (action: AcceptorAction)
        ensures
            event == AcceptEvent::Accepted ==> (action matches AcceptorAction::Serve(connection)
                && connection@.config == self@ && connection@.state == ConnectionState::Open),
            event == AcceptEvent::AcceptFailed ==> action == AcceptorAction::Stop,
    {
        match event {
            AcceptEvent::Accepted => AcceptorAction::Serve(TcpConnection::new(self.config)),
            AcceptEvent::AcceptFailed => AcceptorAction::Stop,
        }
    }
}

/// Whether an event ends the session: the peer closed the stream, or a read
/// failed.
pub open spec fn closes(event: StreamEventView) -> bool {
    event == StreamEventView::EndOfStream || event == StreamEventView::ReadFailed
}

/// When the stream ends or a read fails, the handler terminates: the
/// connection is closed, whatever state it was in, and no reply is sent.
pub proof fn lemma_end_of_stream_terminates_the_handler(
    config: ServerConfig,
    state: ConnectionState,
    event: StreamEventView,
)
    requires
        closes(event),
    ensures
        next_state(state, event) == ConnectionState::Closed,
        reply_after(config, state, event) is None,
{
}

/// A handler that has terminated stays so and sends nothing, whatever its
/// stream still delivers.
pub proof fn lemma_terminated_handler_is_silent(config: ServerConfig, event: StreamEventView)
    ensures
        next_state(ConnectionState::Closed, event) == ConnectionState::Closed,
        reply_after(config, ConnectionState::Closed, event) is None,
{
}

/// A connection closes only when its stream ends or a read fails. Neither a
/// message, whatever the reply to it, nor a reply that could not be sent
/// closes it.
pub proof fn lemma_open_connection_closes_only_with_its_stream(
    state: ConnectionState,
    event: StreamEventView,
)
    requires
        state == ConnectionState::Open,
    ensures
        next_state(state, event) == ConnectionState::Closed <==> closes(event),
{
}

/// A routing activation request that decodes, in the version that the entity
/// speaks, is answered with one routing activation response. The response
/// grants the default activation type and denies every other type for
/// missing authentication. It is addressed to the source address of the
/// request, comes from the logical address of the identity record, and its
/// reserved bytes are zero.
pub proof fn lemma_routing_activation_is_answered(
    config: ServerConfig,
    message: InboundMessageView,
    request: RoutingActivationRequest,
)
    requires
        config.speaks(message.protocol_version),
        message.payload_type == PayloadType::RoutingActivationRequest,
        routing_activation_request_of(message.payload) == Some(request),
    ensures
        tcp_reply(config, message) matches Some(TcpPayload::RoutingActivationResponse(response))
            && {
            &&& response.activation_code == ActivationCode::SuccessfullyActivated
                <==> request.activation_type == ActivationType::Default
            &&& response.activation_code == ActivationCode::DeniedMissingAuthentication
                <==> request.activation_type != ActivationType::Default
            &&& response.logical_address == request.source_address
            &&& response.source_address == config.logical_address
            &&& response.buffer@ == seq![0u8, 0u8, 0u8, 0u8]
        },
{
    assert(activation_response(config, request).buffer@ =~= seq![0u8, 0u8, 0u8, 0u8]);
}

/// The body of a routing activation request decodes exactly if it has at
/// least 7 bytes and its third byte is 0, 1 or 2. The first two bytes are
/// then the source address of the request, and the third byte selects the
/// activation type: 0 is the default type.
pub proof fn lemma_routing_activation_request_layout(payload: Seq<u8>)
    ensures
        routing_activation_request_of(payload) is Some <==> payload.len() >= 7 && payload[2] <= 2,
        routing_activation_request_of(payload) matches Some(request) ==> {
            &&& request.source_address@ == payload.subrange(0, 2)
            &&& request.activation_type == ActivationType::Default <==> payload[2] == 0
            &&& request.activation_type == ActivationType::WwhObd <==> payload[2] == 1
            &&& request.activation_type == ActivationType::CentralSecurity <==> payload[2] == 2
        },
{
    if let Some(request) = routing_activation_request_of(payload) {
        assert(request.source_address@ =~= payload.subrange(0, 2));
    }
}

/// An alive check request, in the version that the entity speaks, is answered
/// with one alive check response whose source address is the logical address
/// of the identity record.
pub proof fn lemma_alive_check_is_answered(config: ServerConfig, message: InboundMessageView)
    requires
        config.speaks(message.protocol_version),
        message.payload_type == PayloadType::AliveCheckRequest,
    ensures
        tcp_reply(config, message) matches Some(TcpPayload::AliveCheckResponse(response))
            && response.source_address == config.logical_address,
{
}

/// A message of a payload type other than routing activation request, alive
/// check request and diagnostic message is answered with one negative
/// acknowledgement, with the code "incorrect pattern format". So is every
/// message of a version that the entity does not speak.
pub proof fn lemma_unserved_message_is_refused(config: ServerConfig, message: InboundMessageView)
    requires
        !config.speaks(message.protocol_version) || !(message.payload_type
            == PayloadType::RoutingActivationRequest || message.payload_type
            == PayloadType::AliveCheckRequest || message.payload_type
            == PayloadType::DiagnosticMessage),
    ensures
        tcp_reply(config, message) == Some(
            TcpPayload::GenericNack(GenericNack { nack_code: NackCode::IncorrectPatternFormat }),
        ),
{
}

} // verus!
