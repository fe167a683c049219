//! The entry points: resolving a configuration into a server's or a client's
//! plan, and the dispatcher that chooses between the two.
use vstd::prelude::*;
use crate::address::{address_is_valid, is_valid_address};
use crate::args::{Args, Protocol};
use crate::client::{client_step_spec, ClientAction, ClientEvent, ClientPlan, ClientState};
use crate::endpoint::{
    effective_timeout, effective_timeout_spec, endpoint_text, format_endpoint, MAX_DATAGRAM,
};
use crate::error::NetError;
use crate::routing::{select_sink, select_source, sink_of, source_of};
use crate::server::{
    datagram_payload, tcp_server_step_spec, udp_server_action_is, udp_server_next_state,
    ServerAction, ServerEvent, ServerPlan, TcpServerState, UdpServerState,
};
use crate::text::to_chars;

verus! {

/// The protocol that a name selects: `tcp` or `udp`, in lower case.
pub open spec fn protocol_of_name(name: Seq<char>) -> Option<Protocol> {
    if name == Protocol::Tcp.spec_name() {
        Some(Protocol::Tcp)
    } else if name == Protocol::Udp.spec_name() {
        Some(Protocol::Udp)
    } else {
        None
    }
}

/// Reads a protocol's name.
pub fn parse_protocol(name: &str) -> (r: Option<Protocol>)
    ensures
        r == protocol_of_name(name@),
{
    let chars = to_chars(name);
    if chars.len() != 3 {
        return None;
    }
    if chars[0] == 't' && chars[1] == 'c' && chars[2] == 'p' {
        assert(chars@ =~= Protocol::Tcp.spec_name());
        Some(Protocol::Tcp)
    } else if chars[0] == 'u' && chars[1] == 'd' && chars[2] == 'p' {
        assert(chars@ =~= Protocol::Udp.spec_name());
        Some(Protocol::Udp)
    } else {
        None
    }
}

/// Every protocol is selected by its own name.
pub proof fn lemma_protocol_name_round_trip(protocol: Protocol)
    ensures
        protocol_of_name(protocol.spec_name()) == Some(protocol),
{
    assert(Protocol::Tcp.spec_name()[0] == 't');
    assert(Protocol::Udp.spec_name()[0] == 'u');
}

/// Why no plan can be made, if none can: the endpoint is checked first, then
/// the protocol's name.
pub open spec fn plan_error(args: Args, protocol: Seq<char>, listen: bool) -> Option<NetError> {
    if !args.spec_has_endpoint() {
        Some(NetError::MissingEndpoint { listen })
    } else if protocol_of_name(protocol) is None {
        Some(NetError::InvalidProtocol)
    } else {
        None
    }
}

/// Whether `plan` is the server's plan for this configuration.
pub open spec fn is_server_plan(args: Args, protocol: Seq<char>, timeout: u64, plan: ServerPlan) -> bool {
    &&& Some(plan.protocol) == protocol_of_name(protocol)
    &&& plan.endpoint@ == endpoint_text(args.address->0@, args.port->0)
    &&& plan.read_timeout == effective_timeout_spec(timeout)
    &&& plan.sink == sink_of(args)
}

/// Whether `plan` is the client's plan for this configuration.
pub open spec fn is_client_plan(args: Args, protocol: Seq<char>, timeout: u64, plan: ClientPlan) -> bool {
    &&& Some(plan.protocol) == protocol_of_name(protocol)
    &&& plan.endpoint@ == endpoint_text(args.address->0@, args.port->0)
    &&& plan.write_timeout == effective_timeout_spec(timeout)
    &&& plan.source == source_of(args)
}

/// Resolves what a server has to do: the endpoint to bind, the protocol's
/// state machine to run, the read timeout (`timeout` in seconds, zero for
/// none) and the sink. Fails on a missing address or port, and on a
/// protocol name that is neither `tcp` nor `udp`.
pub fn run_server(args: &Args, protocol: &str, timeout: u64) -> (r: Result<ServerPlan, NetError>)
    ensures
        match r {
            Ok(plan) => plan_error(*args, protocol@, true) is None && is_server_plan(
                *args,
                protocol@,
                timeout,
                plan,
            ),
            Err(e) => plan_error(*args, protocol@, true) == Some(e),
        },
{
    match (&args.address, args.port) {
        (Some(address), Some(port)) => match parse_protocol(protocol) {
            Some(selected) => Ok(
                ServerPlan {
                    protocol: selected,
                    endpoint: format_endpoint(address.as_str(), port),
                    read_timeout: effective_timeout(timeout),
                    sink: select_sink(args),
                },
            ),
            None => Err(NetError::InvalidProtocol),
        },
        _ => Err(NetError::MissingEndpoint { listen: true }),
    }
}

/// Resolves what a client has to do: the remote endpoint, the protocol, the
/// write timeout (`timeout` in seconds, zero for none) and the source. Fails
/// on a missing address or port, and on a protocol name that is neither `tcp`
/// nor `udp`.
pub fn run_client(args: &Args, protocol: &str, timeout: u64) -> (r: Result<ClientPlan, NetError>)
    ensures
        match r {
            Ok(plan) => plan_error(*args, protocol@, false) is None && is_client_plan(
                *args,
                protocol@,
                timeout,
                plan,
            ),
            Err(e) => plan_error(*args, protocol@, false) == Some(e),
        },
{
    match (&args.address, args.port) {
        (Some(address), Some(port)) => match parse_protocol(protocol) {
            Some(selected) => Ok(
                ClientPlan {
                    protocol: selected,
                    endpoint: format_endpoint(address.as_str(), port),
                    write_timeout: effective_timeout(timeout),
                    source: select_source(args),
                },
            ),
            None => Err(NetError::InvalidProtocol),
        },
        _ => Err(NetError::MissingEndpoint { listen: false }),
    }
}

/// What the dispatcher chose: to serve or to send.
#[derive(Clone, Debug, PartialEq, Eq)]
pub enum Dispatch {
    Serve(ServerPlan),
    Send(ClientPlan),
}

/// Why a configuration is refused, if it is: a missing address or port first,
/// then an address that is not acceptable for the declared IP version.
pub open spec fn configuration_error(args: Args) -> Option<NetError> {
    if !args.spec_has_endpoint() {
        Some(NetError::MissingEndpoint { listen: args.listen })
    } else if !address_is_valid(args.address->0@, args.ip_version.spec_number()) {
        Some(NetError::InvalidAddress)
    } else {
        None
    }
}

/// Checks the configuration and routes it: to the server where `listen` is
/// set, to the client otherwise, with the configured protocol and timeout.
/// A refused configuration is reported before any plan is made.
pub fn dispatch(args: &Args) -> (r: Result<Dispatch, NetError>)
    ensures
        match r {
            Ok(Dispatch::Serve(plan)) => configuration_error(*args) is None && args.listen
                && is_server_plan(*args, args.protocol.spec_name(), args.timeout, plan)
                && plan.protocol == args.protocol,
            Ok(Dispatch::Send(plan)) => configuration_error(*args) is None && !args.listen
                && is_client_plan(*args, args.protocol.spec_name(), args.timeout, plan)
                && plan.protocol == args.protocol,
            Err(e) => configuration_error(*args) == Some(e),
        },
{
    proof {
        lemma_protocol_name_round_trip(args.protocol);
    }
    let address = match &args.address {
        Some(address) => address,
        None => {
            return Err(NetError::MissingEndpoint { listen: args.listen });
        },
    };
    if args.port.is_none() {
        return Err(NetError::MissingEndpoint { listen: args.listen });
    }
    let version: u8 = args.ip_version.number();
    if !is_valid_address(address.as_str(), &version) {
        return Err(NetError::InvalidAddress);
    }
    if args.listen {
        match run_server(args, args.protocol.name(), args.timeout) {
            Ok(plan) => Ok(Dispatch::Serve(plan)),
            Err(e) => Err(e),
        }
    } else {
        match run_client(args, args.protocol.name(), args.timeout) {
            Ok(plan) => Ok(Dispatch::Send(plan)),
            Err(e) => Err(e),
        }
    }
}

/// Over TCP the bytes arrive unchanged, whatever their number: the client
/// puts on the connection exactly the buffer that it loaded, and a server that
/// reads that buffer from the connection hands exactly it to its sink.
pub proof fn lemma_tcp_round_trip(client: ClientPlan, server: ServerPlan, buffer: Vec<u8>)
    requires
        client.protocol == Protocol::Tcp,
    ensures
        client_step_spec(client, ClientState::Loading, ClientEvent::Loaded { buffer }).1
            == (ClientAction::Transmit {
            endpoint: client.endpoint,
            timeout: client.write_timeout,
            buffer,
        }),
        tcp_server_step_spec(server, TcpServerState::Reading, ServerEvent::ReadDone { buffer })
            == (TcpServerState::Routing, ServerAction::Route { sink: server.sink, buffer }),
{
}

/// Over UDP a buffer that fits in one datagram arrives unchanged: the client
/// sends exactly the buffer that it loaded, and a server that received its
/// bytes at the front of a receive buffer hands exactly those bytes to its
/// sink and then goes on to terminate.
pub proof fn lemma_udp_round_trip(
    client: ClientPlan,
    server: ServerPlan,
    buffer: Vec<u8>,
    received: Vec<u8>,
    routed: ServerAction,
)
    requires
        client.protocol == Protocol::Udp,
        buffer@.len() <= MAX_DATAGRAM,
        buffer@.len() <= received@.len(),
        received@.subrange(0, buffer@.len() as int) == buffer@,
        udp_server_action_is(
            server,
            UdpServerState::Receiving,
            ServerEvent::Received { buffer: received, amount: buffer@.len() as usize },
            routed,
        ),
    ensures
        client_step_spec(client, ClientState::Loading, ClientEvent::Loaded { buffer }).1
            == (ClientAction::SendDatagram {
            endpoint: client.endpoint,
            timeout: client.write_timeout,
            buffer,
        }),
        routed is Route,
        routed->sink == server.sink,
        routed->buffer@ == buffer@,
        udp_server_next_state(
            UdpServerState::Receiving,
            ServerEvent::Received { buffer: received, amount: buffer@.len() as usize },
        ) == UdpServerState::Routing,
        datagram_payload(received@, buffer@.len() as usize) == buffer@,
{
}

/// The sink that a server routes to is the one that its configuration asks
/// for, so a configured command receives the data even where a file is
/// configured too.
pub proof fn lemma_server_routes_to_configured_sink(
    args: Args,
    protocol: Seq<char>,
    timeout: u64,
    plan: ServerPlan,
    buffer: Vec<u8>,
)
    requires
        is_server_plan(args, protocol, timeout, plan),
    ensures
        tcp_server_step_spec(plan, TcpServerState::Reading, ServerEvent::ReadDone { buffer }).1
            == (ServerAction::Route { sink: sink_of(args), buffer }),
        args.exec_command matches Some(command) ==> sink_of(args) == crate::routing::Sink::Exec(
            command,
        ),
{
}

} // verus!
