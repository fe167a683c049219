//! The server side: one state machine for TCP, which serves connection after
//! connection, and one for UDP, which serves a single datagram.
//!
//! The machines decide; the caller performs each action on the network and
//! hands back what happened as the next event.
use vstd::prelude::*;
use crate::args::Protocol;
use crate::endpoint::MAX_DATAGRAM;
use crate::error::NetError;
use crate::routing::Sink;

verus! {

/// What a server was asked to do, resolved from the configuration.
#[derive(Clone, Debug, PartialEq, Eq)]
pub struct ServerPlan {
    pub protocol: Protocol,
    /// The endpoint to bind, as `host:port`.
    pub endpoint: String,
    /// Read timeout in seconds; `None` blocks without limit.
    pub read_timeout: Option<u64>,
    pub sink: Sink,
}

/// What happened on the network or at the sink.
#[derive(Clone, Debug, PartialEq, Eq)]
pub enum ServerEvent {
    /// The server is asked to begin.
    Start,
    Bound,
    BindFailed,
    Accepted,
    AcceptFailed,
    /// A TCP stream was read up to its end.
    ReadDone { buffer: Vec<u8> },
    /// One datagram was received: `amount` bytes at the front of `buffer`.
    Received { buffer: Vec<u8>, amount: usize },
    ReadTimedOut,
    ReadFailed,
    /// The sink took the buffer.
    Routed,
    RouteFailed,
}

/// What the caller has to do next.
#[derive(Clone, Debug, PartialEq, Eq)]
pub enum ServerAction {
    /// Bind the endpoint.
    Bind { endpoint: String },
    /// Wait for the next connection.
    Accept,
    /// Log the error, then wait for the next connection.
    ReportAndAccept { error: NetError },
    /// Set the connection's read timeout and read the stream to its end.
    Read { timeout: Option<u64> },
    /// Receive one datagram of up to `capacity` bytes, waiting without limit,
    /// and only then set the socket's read timeout.
    Receive { capacity: usize, timeout_after: Option<u64> },
    /// Hand the buffer to the sink.
    Route { sink: Sink, buffer: Vec<u8> },
    /// Return: with success where `failure` is `None`, else with that error.
    Stop { failure: Option<NetError> },
}

/// States of the TCP server.
#[derive(Clone, Copy, Debug, PartialEq, Eq, Structural)]
pub enum TcpServerState {
    Unbound,
    Binding,
    /// Waiting for a connection.
    Listening,
    /// Reading an accepted connection.
    Reading,
    /// Handing a connection's bytes to the sink.
    Routing,
    /// Binding failed; nothing is served.
    Stopped,
}

/// States of the UDP server.
#[derive(Clone, Copy, Debug, PartialEq, Eq, Structural)]
pub enum UdpServerState {
    Unbound,
    Binding,
    /// Bound and waiting for the one datagram.
    Receiving,
    /// Handing the datagram to the sink.
    Routing,
    Terminated,
}

impl TcpServerState {
    /// Whether the server is bound and serving connections.
    pub open spec fn spec_is_serving(self) -> bool {
        self is Listening || self is Reading || self is Routing
    }

    /// Whether the server is bound and serving connections.
    pub fn is_serving(&self) -> (r: bool)
        ensures
            r == self.spec_is_serving(),
    {
        match self {
            TcpServerState::Listening | TcpServerState::Reading | TcpServerState::Routing => true,
            _ => false,
        }
    }
}

impl UdpServerState {
    /// How far the server has come: each step moves it on.
    pub open spec fn rank(self) -> nat {
        match self {
            UdpServerState::Unbound => 0,
            UdpServerState::Binding => 1,
            UdpServerState::Receiving => 2,
            UdpServerState::Routing => 3,
            UdpServerState::Terminated => 4,
        }
    }
}

/// The bytes of a datagram: the first `amount` bytes of the receive buffer.
pub open spec fn datagram_payload(buffer: Seq<u8>, amount: usize) -> Seq<u8> {
    if amount <= buffer.len() {
        buffer.subrange(0, amount as int)
    } else {
        buffer
    }
}

/// The TCP server's next state and action.
pub open spec fn tcp_server_step_spec(
    plan: ServerPlan,
    state: TcpServerState,
    event: ServerEvent,
) -> (TcpServerState, ServerAction) {
    match (state, event) {
        (TcpServerState::Unbound, ServerEvent::Start) => (
            TcpServerState::Binding,
            ServerAction::Bind { endpoint: plan.endpoint },
        ),
        (TcpServerState::Binding, ServerEvent::Bound) => (
            TcpServerState::Listening,
            ServerAction::Accept,
        ),
        (TcpServerState::Binding, ServerEvent::BindFailed) => (
            TcpServerState::Stopped,
            ServerAction::Stop { failure: Some(NetError::Bind) },
        ),
        (TcpServerState::Listening, ServerEvent::Accepted) => (
            TcpServerState::Reading,
            ServerAction::Read { timeout: plan.read_timeout },
        ),
        (TcpServerState::Listening, ServerEvent::AcceptFailed) => (
            TcpServerState::Listening,
            ServerAction::ReportAndAccept { error: NetError::Accept },
        ),
        (TcpServerState::Reading, ServerEvent::ReadDone { buffer }) => (
            TcpServerState::Routing,
            ServerAction::Route { sink: plan.sink, buffer },
        ),
        (TcpServerState::Reading, ServerEvent::ReadTimedOut) => (
            TcpServerState::Listening,
            ServerAction::ReportAndAccept { error: NetError::IoTimeout },
        ),
        (TcpServerState::Reading, ServerEvent::ReadFailed) => (
            TcpServerState::Listening,
            ServerAction::ReportAndAccept { error: NetError::Io },
        ),
        (TcpServerState::Routing, ServerEvent::Routed) => (
            TcpServerState::Listening,
            ServerAction::Accept,
        ),
        (TcpServerState::Routing, ServerEvent::RouteFailed) => (
            TcpServerState::Listening,
            ServerAction::ReportAndAccept { error: NetError::Sink },
        ),
        _ => if state.spec_is_serving() {
            (
                TcpServerState::Listening,
                ServerAction::ReportAndAccept { error: NetError::UnexpectedEvent },
            )
        } else {
            (
                TcpServerState::Stopped,
                ServerAction::Stop { failure: Some(NetError::UnexpectedEvent) },
            )
        },
    }
}

/// One step of the TCP server: from the state and what happened to the next
/// state and what to do.
pub fn tcp_server_step(plan: &ServerPlan, state: TcpServerState, event: ServerEvent) -> (r: (
    TcpServerState,
    ServerAction,
))
    ensures
        r == tcp_server_step_spec(*plan, state, event),
{
    match (state, event) {
        (TcpServerState::Unbound, ServerEvent::Start) => (
            TcpServerState::Binding,
            ServerAction::Bind { endpoint: plan.endpoint.clone() },
        ),
        (TcpServerState::Binding, ServerEvent::Bound) => (
            TcpServerState::Listening,
            ServerAction::Accept,
        ),
        (TcpServerState::Binding, ServerEvent::BindFailed) => (
            TcpServerState::Stopped,
            ServerAction::Stop { failure: Some(NetError::Bind) },
        ),
        (TcpServerState::Listening, ServerEvent::Accepted) => (
            TcpServerState::Reading,
            ServerAction::Read { timeout: plan.read_timeout },
        ),
        (TcpServerState::Listening, ServerEvent::AcceptFailed) => (
            TcpServerState::Listening,
            ServerAction::ReportAndAccept { error: NetError::Accept },
        ),
        (TcpServerState::Reading, ServerEvent::ReadDone { buffer }) => (
            TcpServerState::Routing,
            ServerAction::Route { sink: plan.sink.duplicate(), buffer },
        ),
        (TcpServerState::Reading, ServerEvent::ReadTimedOut) => (
            TcpServerState::Listening,
            ServerAction::ReportAndAccept { error: NetError::IoTimeout },
        ),
        (TcpServerState::Reading, ServerEvent::ReadFailed) => (
            TcpServerState::Listening,
            ServerAction::ReportAndAccept { error: NetError::Io },
        ),
        (TcpServerState::Routing, ServerEvent::Routed) => (
            TcpServerState::Listening,
            ServerAction::Accept,
        ),
        (TcpServerState::Routing, ServerEvent::RouteFailed) => (
            TcpServerState::Listening,
            ServerAction::ReportAndAccept { error: NetError::Sink },
        ),
        (state, _) => if state.is_serving() {
            (
                TcpServerState::Listening,
                ServerAction::ReportAndAccept { error: NetError::UnexpectedEvent },
            )
        } else {
            (
                TcpServerState::Stopped,
                ServerAction::Stop { failure: Some(NetError::UnexpectedEvent) },
            )
        },
    }
}

/// The UDP server's next state.
pub open spec fn udp_server_next_state(state: UdpServerState, event: ServerEvent) -> UdpServerState {
    match (state, event) {
        (UdpServerState::Unbound, ServerEvent::Start) => UdpServerState::Binding,
        (UdpServerState::Binding, ServerEvent::Bound) => UdpServerState::Receiving,
        (UdpServerState::Receiving, ServerEvent::Received { .. }) => UdpServerState::Routing,
        _ => UdpServerState::Terminated,
    }
}

/// The UDP server's action on every step but the one that takes the datagram.
pub open spec fn udp_server_plain_action(
    plan: ServerPlan,
    state: UdpServerState,
    event: ServerEvent,
) -> ServerAction {
    match (state, event) {
        (UdpServerState::Unbound, ServerEvent::Start) => ServerAction::Bind {
            endpoint: plan.endpoint,
        },
        (UdpServerState::Binding, ServerEvent::Bound) => ServerAction::Receive {
            capacity: MAX_DATAGRAM,
            timeout_after: plan.read_timeout,
        },
        (UdpServerState::Binding, ServerEvent::BindFailed) => ServerAction::Stop { failure: Some(NetError::Bind) },
        (UdpServerState::Receiving, ServerEvent::ReadTimedOut) => ServerAction::Stop { failure: Some(NetError::IoTimeout) },
        (UdpServerState::Receiving, ServerEvent::ReadFailed) => ServerAction::Stop { failure: Some(NetError::Io) },
        (UdpServerState::Routing, ServerEvent::Routed) => ServerAction::Stop { failure: None },
        (UdpServerState::Routing, ServerEvent::RouteFailed) => ServerAction::Stop { failure: Some(NetError::Sink) },
        _ => ServerAction::Stop { failure: Some(NetError::UnexpectedEvent) },
    }
}

/// Whether `action` is what the UDP server does in `state` on `event`: the
/// datagram's bytes go to the planned sink; every other step is plain.
pub open spec fn udp_server_action_is(
    plan: ServerPlan,
    state: UdpServerState,
    event: ServerEvent,
    action: ServerAction,
) -> bool {
    match (state, event) {
        (UdpServerState::Receiving, ServerEvent::Received { buffer, amount }) => {
            &&& action is Route
            &&& action->sink == plan.sink
            &&& action->buffer@ == datagram_payload(buffer@, amount)
        },
        _ => action == udp_server_plain_action(plan, state, event),
    }
}

/// Cuts a receive buffer down to the bytes that were received.
pub fn capture_datagram(buffer: Vec<u8>, amount: usize) -> (r: Vec<u8>)
    ensures
        r@ == datagram_payload(buffer@, amount),
{
    let mut buffer = buffer;
    buffer.truncate(amount);
    buffer
}

/// One step of the UDP server: from the state and what happened to the next
/// state and what to do.
pub fn udp_server_step(plan: &ServerPlan, state: UdpServerState, event: ServerEvent) -> (r: (
    UdpServerState,
    ServerAction,
))
    ensures
        r.0 == udp_server_next_state(state, event),
        udp_server_action_is(*plan, state, event, r.1),
{
    match (state, event) {
        (UdpServerState::Unbound, ServerEvent::Start) => (
            UdpServerState::Binding,
            ServerAction::Bind { endpoint: plan.endpoint.clone() },
        ),
        (UdpServerState::Binding, ServerEvent::Bound) => (
            UdpServerState::Receiving,
            ServerAction::Receive { capacity: MAX_DATAGRAM, timeout_after: plan.read_timeout },
        ),
        (UdpServerState::Binding, ServerEvent::BindFailed) => (
            UdpServerState::Terminated,
            ServerAction::Stop { failure: Some(NetError::Bind) },
        ),
        (UdpServerState::Receiving, ServerEvent::Received { buffer, amount }) => (
            UdpServerState::Routing,
            ServerAction::Route {
                sink: plan.sink.duplicate(),
                buffer: capture_datagram(buffer, amount),
            },
        ),
        (UdpServerState::Receiving, ServerEvent::ReadTimedOut) => (
            UdpServerState::Terminated,
            ServerAction::Stop { failure: Some(NetError::IoTimeout) },
        ),
        (UdpServerState::Receiving, ServerEvent::ReadFailed) => (
            UdpServerState::Terminated,
            ServerAction::Stop { failure: Some(NetError::Io) },
        ),
        (UdpServerState::Routing, ServerEvent::Routed) => (
            UdpServerState::Terminated,
            ServerAction::Stop { failure: None },
        ),
        (UdpServerState::Routing, ServerEvent::RouteFailed) => (
            UdpServerState::Terminated,
            ServerAction::Stop { failure: Some(NetError::Sink) },
        ),
        _ => (
            UdpServerState::Terminated,
            ServerAction::Stop { failure: Some(NetError::UnexpectedEvent) },
        ),
    }
}

/// Once bound, the TCP server never stops: whatever happens to a connection,
/// an error or a timeout included, it stays in service and is never told to
/// return.
pub proof fn lemma_tcp_server_keeps_serving(
    plan: ServerPlan,
    state: TcpServerState,
    event: ServerEvent,
)
    requires
        state.spec_is_serving(),
    ensures
        tcp_server_step_spec(plan, state, event).0.spec_is_serving(),
        !(tcp_server_step_spec(plan, state, event).1 is Stop),
{
}

/// A read that runs into its timeout is reported, and the TCP server goes back
/// to waiting for the next connection.
pub proof fn lemma_tcp_timeout_returns_to_listening(plan: ServerPlan)
    ensures
        tcp_server_step_spec(plan, TcpServerState::Reading, ServerEvent::ReadTimedOut) == (
            TcpServerState::Listening,
            ServerAction::ReportAndAccept { error: NetError::IoTimeout },
        ),
{
}

/// The TCP server hands to the planned sink exactly the bytes that were read
/// from the connection.
pub proof fn lemma_tcp_server_routes_what_it_read(plan: ServerPlan, buffer: Vec<u8>)
    ensures
        tcp_server_step_spec(plan, TcpServerState::Reading, ServerEvent::ReadDone { buffer })
            == (TcpServerState::Routing, ServerAction::Route { sink: plan.sink, buffer }),
{
}

/// Every step moves the UDP server on, so it has returned after at most four
/// steps, and after the step that follows its one datagram.
pub proof fn lemma_udp_server_advances(state: UdpServerState, event: ServerEvent)
    ensures
        udp_server_next_state(state, event) is Terminated || udp_server_next_state(
            state,
            event,
        ).rank() == state.rank() + 1,
        state is Routing ==> udp_server_next_state(state, event) is Terminated,
{
}

/// The UDP server tells its caller to return exactly when it terminates.
pub proof fn lemma_udp_server_stops_when_terminated(
    plan: ServerPlan,
    state: UdpServerState,
    event: ServerEvent,
    action: ServerAction,
)
    requires
        udp_server_action_is(plan, state, event, action),
    ensures
        action is Stop <==> udp_server_next_state(state, event) is Terminated,
{
}

} // verus!
