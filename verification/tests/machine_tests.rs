use netcat::args::{Args, IpVersion, Protocol};
use netcat::client::{client_step, ClientAction, ClientEvent, ClientPlan, ClientState};
use netcat::error::NetError;
use netcat::network::{run_client, run_server};
use netcat::routing::{Sink, Source};
use netcat::server::{
    capture_datagram, tcp_server_step, udp_server_step, ServerAction, ServerEvent, ServerPlan,
    TcpServerState, UdpServerState,
};

fn loopback(listen: bool) -> Args {
    Args {
        file: None,
        ip_version: IpVersion::V4,
        protocol: Protocol::Tcp,
        timeout: 0,
        listen,
        exec_command: None,
        verbose: false,
        address: Some(String::from("127.0.0.1")),
        port: Some(8080),
    }
}

fn server_plan(protocol: Protocol) -> ServerPlan {
    ServerPlan {
        protocol,
        endpoint: String::from("127.0.0.1:8080"),
        read_timeout: Some(1),
        sink: Sink::Stdout,
    }
}

fn client_plan(protocol: Protocol) -> ClientPlan {
    ClientPlan {
        protocol,
        endpoint: String::from("127.0.0.1:8080"),
        write_timeout: None,
        source: Source::Stdin,
    }
}

/// Runs the client up to the bytes that it puts on the wire.
fn bytes_sent(plan: &ClientPlan, input: Vec<u8>) -> Result<Vec<u8>, NetError> {
    let (state, action) = client_step(plan, ClientState::Idle, ClientEvent::Start);
    assert_eq!(state, ClientState::Loading);
    assert_eq!(action, ClientAction::Load { source: plan.source.clone() });
    let (state, action) = client_step(plan, state, ClientEvent::Loaded { buffer: input });
    let sent = match action {
        ClientAction::Transmit { endpoint, timeout, buffer } => {
            assert_eq!(plan.protocol, Protocol::Tcp);
            assert_eq!(endpoint, plan.endpoint);
            assert_eq!(timeout, plan.write_timeout);
            buffer
        }
        ClientAction::SendDatagram { endpoint, timeout, buffer } => {
            assert_eq!(plan.protocol, Protocol::Udp);
            assert_eq!(endpoint, plan.endpoint);
            assert_eq!(timeout, plan.write_timeout);
            buffer
        }
        ClientAction::Stop { failure: Some(error) } => {
            assert_eq!(state, ClientState::Done);
            return Err(error);
        }
        other => panic!("{:?}", other),
    };
    assert_eq!(state, ClientState::Sending);
    let (state, action) = client_step(plan, state, ClientEvent::Sent);
    assert_eq!(state, ClientState::Done);
    assert_eq!(action, ClientAction::Stop { failure: None });
    Ok(sent)
}

/// Runs a bound TCP server through one connection that delivers `wire`.
fn tcp_capture(plan: &ServerPlan, wire: Vec<u8>) -> (Sink, Vec<u8>) {
    let (state, action) = tcp_server_step(plan, TcpServerState::Listening, ServerEvent::Accepted);
    assert_eq!(state, TcpServerState::Reading);
    assert_eq!(action, ServerAction::Read { timeout: plan.read_timeout });
    let (state, action) = tcp_server_step(plan, state, ServerEvent::ReadDone { buffer: wire });
    assert_eq!(state, TcpServerState::Routing);
    let captured = match action {
        ServerAction::Route { sink, buffer } => (sink, buffer),
        other => panic!("{:?}", other),
    };
    let (state, action) = tcp_server_step(plan, state, ServerEvent::Routed);
    assert_eq!(state, TcpServerState::Listening);
    assert_eq!(action, ServerAction::Accept);
    captured
}

#[test]
fn test_tcp_communication() {
    let server = run_server(&loopback(true), Protocol::Tcp.name(), 1).unwrap();
    let (state, action) = tcp_server_step(&server, TcpServerState::Unbound, ServerEvent::Start);
    assert_eq!(action, ServerAction::Bind { endpoint: String::from("127.0.0.1:8080") });
    let (state, action) = tcp_server_step(&server, state, ServerEvent::Bound);
    assert_eq!((state, action), (TcpServerState::Listening, ServerAction::Accept));

    let client = run_client(&loopback(false), Protocol::Tcp.name(), 1).unwrap();
    let wire = bytes_sent(&client, Vec::new()).unwrap();
    let (sink, captured) = tcp_capture(&server, wire);
    assert_eq!(sink, Sink::Stdout);
    assert_eq!(captured, Vec::<u8>::new());
}

#[test]
fn tcp_scenario_hello() {
    let mut config = loopback(true);
    config.timeout = 5;
    let server = run_server(&config, "tcp", 5).unwrap();
    assert_eq!(server.read_timeout, Some(5));
    let client = run_client(&loopback(false), "tcp", 0).unwrap();
    let wire = bytes_sent(&client, b"hello".to_vec()).unwrap();
    let (_, captured) = tcp_capture(&server, wire);
    assert_eq!(captured, b"hello".to_vec());
}

#[test]
fn tcp_round_trip_of_many_sizes() {
    let server = server_plan(Protocol::Tcp);
    let client = client_plan(Protocol::Tcp);
    for size in [0usize, 1, 4, 65535, 65536, 3 * 1024 * 1024] {
        let input: Vec<u8> = (0..size).map(|i| (i % 251) as u8).collect();
        let wire = bytes_sent(&client, input.clone()).unwrap();
        let (_, captured) = tcp_capture(&server, wire);
        assert_eq!(captured, input);
    }
}

#[test]
fn udp_scenario_ping() {
    let server = run_server(&loopback(true), "udp", 0).unwrap();
    let client = run_client(&loopback(false), "udp", 0).unwrap();
    let wire = bytes_sent(&client, b"ping".to_vec()).unwrap();

    let (state, action) = udp_server_step(&server, UdpServerState::Unbound, ServerEvent::Start);
    assert_eq!(state, UdpServerState::Binding);
    assert_eq!(action, ServerAction::Bind { endpoint: String::from("127.0.0.1:8080") });
    let (state, action) = udp_server_step(&server, state, ServerEvent::Bound);
    assert_eq!(state, UdpServerState::Receiving);
    assert_eq!(action, ServerAction::Receive { capacity: 65535, timeout_after: None });
    let mut buffer = vec![0u8; 65535];
    buffer[..wire.len()].copy_from_slice(&wire);
    let (state, action) =
        udp_server_step(&server, state, ServerEvent::Received { buffer, amount: wire.len() });
    assert_eq!(state, UdpServerState::Routing);
    assert_eq!(action, ServerAction::Route { sink: Sink::Stdout, buffer: b"ping".to_vec() });
    let (state, action) = udp_server_step(&server, state, ServerEvent::Routed);
    assert_eq!(state, UdpServerState::Terminated);
    assert_eq!(action, ServerAction::Stop { failure: None });
}

#[test]
fn udp_round_trip_up_to_the_ceiling() {
    let server = server_plan(Protocol::Udp);
    let client = client_plan(Protocol::Udp);
    for size in [0usize, 1, 1500, 65535] {
        let input: Vec<u8> = (0..size).map(|i| (i % 7) as u8).collect();
        let wire = bytes_sent(&client, input.clone()).unwrap();
        let mut buffer = vec![0xeeu8; 65535];
        buffer[..size].copy_from_slice(&wire);
        let (state, action) = udp_server_step(
            &server,
            UdpServerState::Receiving,
            ServerEvent::Received { buffer, amount: size },
        );
        assert_eq!(state, UdpServerState::Routing);
        assert_eq!(action, ServerAction::Route { sink: Sink::Stdout, buffer: input });
    }
}

#[test]
fn udp_client_refuses_a_buffer_over_the_ceiling() {
    let client = client_plan(Protocol::Udp);
    assert_eq!(bytes_sent(&client, vec![1u8; 65536]), Err(NetError::DatagramTooLarge));
    assert_eq!(bytes_sent(&client, vec![1u8; 200_000]), Err(NetError::DatagramTooLarge));
    assert_eq!(bytes_sent(&client, vec![1u8; 65535]).map(|b| b.len()), Ok(65535));
}

#[test]
fn datagram_is_cut_to_what_was_received() {
    assert_eq!(capture_datagram(vec![1, 2, 3, 4, 5], 2), vec![1, 2]);
    assert_eq!(capture_datagram(vec![1, 2, 3], 0), Vec::<u8>::new());
    assert_eq!(capture_datagram(vec![1, 2, 3], 3), vec![1, 2, 3]);
    assert_eq!(capture_datagram(vec![1, 2, 3], 9), vec![1, 2, 3]);
}

#[test]
fn tcp_server_survives_a_timeout() {
    let plan = server_plan(Protocol::Tcp);
    let (state, _) = tcp_server_step(&plan, TcpServerState::Listening, ServerEvent::Accepted);
    let (state, action) = tcp_server_step(&plan, state, ServerEvent::ReadTimedOut);
    assert_eq!(state, TcpServerState::Listening);
    assert_eq!(action, ServerAction::ReportAndAccept { error: NetError::IoTimeout });
    let (_, captured) = tcp_capture(&plan, b"next".to_vec());
    assert_eq!(captured, b"next".to_vec());
}

#[test]
fn tcp_server_survives_every_connection_failure() {
    let plan = server_plan(Protocol::Tcp);
    let cases = [
        (TcpServerState::Listening, ServerEvent::AcceptFailed, NetError::Accept),
        (TcpServerState::Reading, ServerEvent::ReadFailed, NetError::Io),
        (TcpServerState::Reading, ServerEvent::ReadTimedOut, NetError::IoTimeout),
        (TcpServerState::Routing, ServerEvent::RouteFailed, NetError::Sink),
        (TcpServerState::Listening, ServerEvent::Routed, NetError::UnexpectedEvent),
        (TcpServerState::Reading, ServerEvent::Bound, NetError::UnexpectedEvent),
        (TcpServerState::Routing, ServerEvent::Start, NetError::UnexpectedEvent),
        (
            TcpServerState::Listening,
            ServerEvent::Received { buffer: vec![1], amount: 1 },
            NetError::UnexpectedEvent,
        ),
    ];
    for (state, event, error) in cases {
        assert!(state.is_serving());
        let (next, action) = tcp_server_step(&plan, state, event);
        assert_eq!(next, TcpServerState::Listening);
        assert_eq!(action, ServerAction::ReportAndAccept { error });
    }
}

#[test]
fn tcp_server_stops_when_it_cannot_bind() {
    let plan = server_plan(Protocol::Tcp);
    let (state, _) = tcp_server_step(&plan, TcpServerState::Unbound, ServerEvent::Start);
    assert_eq!(state, TcpServerState::Binding);
    assert!(!state.is_serving());
    let (state, action) = tcp_server_step(&plan, state, ServerEvent::BindFailed);
    assert_eq!(state, TcpServerState::Stopped);
    assert_eq!(action, ServerAction::Stop { failure: Some(NetError::Bind) });
    let (state, action) = tcp_server_step(&plan, state, ServerEvent::Accepted);
    assert_eq!(state, TcpServerState::Stopped);
    assert_eq!(action, ServerAction::Stop { failure: Some(NetError::UnexpectedEvent) });
}

#[test]
fn tcp_server_routes_to_the_planned_sink() {
    let mut config = loopback(true);
    config.file = Some(String::from("capture"));
    config.exec_command = Some(String::from("wc -c"));
    let plan = run_server(&config, "tcp", 0).unwrap();
    let (sink, captured) = tcp_capture(&plan, b"abc".to_vec());
    assert_eq!(sink, Sink::Exec(String::from("wc -c")));
    assert_eq!(captured, b"abc".to_vec());
}

#[test]
fn udp_server_failures_end_the_run() {
    let plan = server_plan(Protocol::Udp);
    let cases = [
        (UdpServerState::Binding, ServerEvent::BindFailed, NetError::Bind),
        (UdpServerState::Receiving, ServerEvent::ReadTimedOut, NetError::IoTimeout),
        (UdpServerState::Receiving, ServerEvent::ReadFailed, NetError::Io),
        (UdpServerState::Routing, ServerEvent::RouteFailed, NetError::Sink),
        (UdpServerState::Unbound, ServerEvent::Bound, NetError::UnexpectedEvent),
        (UdpServerState::Routing, ServerEvent::Accepted, NetError::UnexpectedEvent),
        (UdpServerState::Terminated, ServerEvent::Start, NetError::UnexpectedEvent),
        (
            UdpServerState::Receiving,
            ServerEvent::ReadDone { buffer: vec![1] },
            NetError::UnexpectedEvent,
        ),
    ];
    for (state, event, error) in cases {
        let (next, action) = udp_server_step(&plan, state, event);
        assert_eq!(next, UdpServerState::Terminated);
        assert_eq!(action, ServerAction::Stop { failure: Some(error) });
    }
}

#[test]
fn client_failures_end_the_run() {
    let plan = client_plan(Protocol::Tcp);
    let cases = [
        (ClientState::Loading, ClientEvent::LoadFailed, NetError::Source),
        (ClientState::Sending, ClientEvent::ConnectFailed, NetError::Connect),
        (ClientState::Sending, ClientEvent::BindFailed, NetError::Bind),
        (ClientState::Sending, ClientEvent::WriteTimedOut, NetError::IoTimeout),
        (ClientState::Sending, ClientEvent::WriteFailed, NetError::Io),
        (ClientState::Idle, ClientEvent::Sent, NetError::UnexpectedEvent),
        (ClientState::Done, ClientEvent::Start, NetError::UnexpectedEvent),
        (ClientState::Sending, ClientEvent::Loaded { buffer: vec![] }, NetError::UnexpectedEvent),
    ];
    for (state, event, error) in cases {
        let (next, action) = client_step(&plan, state, event);
        assert_eq!(next, ClientState::Done);
        assert_eq!(action, ClientAction::Stop { failure: Some(error) });
    }
}

#[test]
fn client_loads_from_the_planned_source() {
    let mut config = loopback(false);
    config.file = Some(String::from("payload"));
    let plan = run_client(&config, "tcp", 3).unwrap();
    let (state, action) = client_step(&plan, ClientState::Idle, ClientEvent::Start);
    assert_eq!(state, ClientState::Loading);
    assert_eq!(action, ClientAction::Load { source: Source::File(String::from("payload")) });
    let (_, action) = client_step(&plan, state, ClientEvent::Loaded { buffer: vec![9, 8] });
    assert_eq!(
        action,
        ClientAction::Transmit {
            endpoint: String::from("127.0.0.1:8080"),
            timeout: Some(3),
            buffer: vec![9, 8],
        }
    );
}
