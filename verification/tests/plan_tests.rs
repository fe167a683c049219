use netcat::args::{Args, IpVersion, Protocol};
use netcat::client::ClientPlan;
use netcat::endpoint::{effective_timeout, format_endpoint, push_decimal, MAX_DATAGRAM};
use netcat::error::NetError;
use netcat::network::{dispatch, parse_protocol, run_client, run_server, Dispatch};
use netcat::routing::{select_sink, select_source, Sink, Source};
use netcat::server::ServerPlan;

fn args(listen: bool, address: Option<&str>, port: Option<u16>) -> Args {
    Args {
        file: None,
        ip_version: IpVersion::V4,
        protocol: Protocol::Tcp,
        timeout: 0,
        listen,
        exec_command: None,
        verbose: false,
        address: address.map(String::from),
        port,
    }
}

#[test]
fn endpoint_is_host_colon_port() {
    assert_eq!(format_endpoint("127.0.0.1", 8080), "127.0.0.1:8080");
    assert_eq!(format_endpoint("::1", 0), "::1:0");
    assert_eq!(format_endpoint("localhost", 65535), "localhost:65535");
    assert_eq!(format_endpoint("", 7), ":7");
    assert_eq!(format_endpoint("h", 10), "h:10");
    assert_eq!(format_endpoint("h", 1009), "h:1009");
}

#[test]
fn decimal_is_appended() {
    let mut out = String::from("p=");
    push_decimal(&mut out, 443);
    assert_eq!(out, "p=443");
    push_decimal(&mut out, 0);
    assert_eq!(out, "p=4430");
}

#[test]
fn zero_timeout_is_no_timeout() {
    assert_eq!(effective_timeout(0), None);
    assert_eq!(effective_timeout(1), Some(1));
    assert_eq!(effective_timeout(u64::MAX), Some(u64::MAX));
}

#[test]
fn datagram_ceiling() {
    assert_eq!(MAX_DATAGRAM, 65535);
}

#[test]
fn command_takes_precedence_over_file() {
    let mut a = args(true, Some("127.0.0.1"), Some(8080));
    assert_eq!(select_sink(&a), Sink::Stdout);
    a.file = Some(String::from("out.bin"));
    assert_eq!(select_sink(&a), Sink::File(String::from("out.bin")));
    a.exec_command = Some(String::from("wc -c"));
    assert_eq!(select_sink(&a), Sink::Exec(String::from("wc -c")));
    a.file = None;
    assert_eq!(select_sink(&a), Sink::Exec(String::from("wc -c")));
}

#[test]
fn source_is_file_or_standard_input() {
    let mut a = args(false, Some("127.0.0.1"), Some(8080));
    assert_eq!(select_source(&a), Source::Stdin);
    a.exec_command = Some(String::from("cat"));
    assert_eq!(select_source(&a), Source::Stdin);
    a.file = Some(String::from("in.bin"));
    assert_eq!(select_source(&a), Source::File(String::from("in.bin")));
    assert_eq!(select_source(&a).duplicate(), Source::File(String::from("in.bin")));
    assert_eq!(select_sink(&a).duplicate(), Sink::Exec(String::from("cat")));
}

#[test]
fn protocol_names() {
    assert_eq!(parse_protocol("tcp"), Some(Protocol::Tcp));
    assert_eq!(parse_protocol("udp"), Some(Protocol::Udp));
    assert_eq!(parse_protocol("TCP"), None);
    assert_eq!(parse_protocol("sctp"), None);
    assert_eq!(parse_protocol(""), None);
    assert_eq!(parse_protocol("tcq"), None);
    assert_eq!(Protocol::Tcp.name(), "tcp");
    assert_eq!(Protocol::Udp.name(), "udp");
    assert_eq!(parse_protocol(Protocol::Udp.name()), Some(Protocol::Udp));
    assert_eq!(IpVersion::V4.number(), 4);
    assert_eq!(IpVersion::V6.number(), 6);
}

#[test]
fn server_plan_is_resolved() {
    let mut a = args(true, Some("127.0.0.1"), Some(8080));
    a.file = Some(String::from("capture"));
    assert_eq!(
        run_server(&a, "tcp", 5),
        Ok(ServerPlan {
            protocol: Protocol::Tcp,
            endpoint: String::from("127.0.0.1:8080"),
            read_timeout: Some(5),
            sink: Sink::File(String::from("capture")),
        })
    );
    assert_eq!(
        run_server(&a, "udp", 0),
        Ok(ServerPlan {
            protocol: Protocol::Udp,
            endpoint: String::from("127.0.0.1:8080"),
            read_timeout: None,
            sink: Sink::File(String::from("capture")),
        })
    );
}

#[test]
fn client_plan_is_resolved() {
    let mut a = args(false, Some("10.1.2.3"), Some(9));
    a.file = Some(String::from("payload"));
    assert_eq!(
        run_client(&a, "udp", 2),
        Ok(ClientPlan {
            protocol: Protocol::Udp,
            endpoint: String::from("10.1.2.3:9"),
            write_timeout: Some(2),
            source: Source::File(String::from("payload")),
        })
    );
    a.file = None;
    assert_eq!(
        run_client(&a, "tcp", 0),
        Ok(ClientPlan {
            protocol: Protocol::Tcp,
            endpoint: String::from("10.1.2.3:9"),
            write_timeout: None,
            source: Source::Stdin,
        })
    );
}

#[test]
fn missing_endpoint_is_a_configuration_error() {
    let server = NetError::MissingEndpoint { listen: true };
    let client = NetError::MissingEndpoint { listen: false };
    assert_eq!(run_server(&args(true, None, Some(1)), "tcp", 0), Err(server));
    assert_eq!(run_server(&args(true, Some("127.0.0.1"), None), "tcp", 0), Err(server));
    assert_eq!(run_server(&args(true, None, None), "bogus", 0), Err(server));
    assert_eq!(run_client(&args(false, None, Some(1)), "udp", 0), Err(client));
    assert_eq!(run_client(&args(false, Some("127.0.0.1"), None), "udp", 0), Err(client));
    assert!(server.is_configuration() && client.is_configuration());
    assert!(!args(true, None, Some(1)).has_endpoint());
    assert!(args(true, Some("x"), Some(1)).has_endpoint());
}

#[test]
fn unknown_protocol_is_a_configuration_error() {
    let a = args(true, Some("127.0.0.1"), Some(8080));
    assert_eq!(run_server(&a, "TCP", 0), Err(NetError::InvalidProtocol));
    assert_eq!(run_server(&a, "icmp", 0), Err(NetError::InvalidProtocol));
    assert_eq!(run_client(&a, "", 0), Err(NetError::InvalidProtocol));
    assert!(NetError::InvalidProtocol.is_configuration());
    assert!(NetError::InvalidAddress.is_configuration());
    assert!(!NetError::Bind.is_configuration());
    assert!(!NetError::IoTimeout.is_configuration());
    assert!(!NetError::DatagramTooLarge.is_configuration());
}

#[test]
fn dispatcher_routes_by_listen() {
    let mut a = args(true, Some("127.0.0.1"), Some(8080));
    a.timeout = 5;
    match dispatch(&a) {
        Ok(Dispatch::Serve(plan)) => {
            assert_eq!(plan.protocol, Protocol::Tcp);
            assert_eq!(plan.endpoint, "127.0.0.1:8080");
            assert_eq!(plan.read_timeout, Some(5));
            assert_eq!(plan.sink, Sink::Stdout);
        }
        other => panic!("{:?}", other),
    }
    a.listen = false;
    a.protocol = Protocol::Udp;
    match dispatch(&a) {
        Ok(Dispatch::Send(plan)) => {
            assert_eq!(plan.protocol, Protocol::Udp);
            assert_eq!(plan.endpoint, "127.0.0.1:8080");
            assert_eq!(plan.write_timeout, Some(5));
            assert_eq!(plan.source, Source::Stdin);
        }
        other => panic!("{:?}", other),
    }
}

#[test]
fn dispatcher_refuses_bad_configurations() {
    assert_eq!(
        dispatch(&args(true, None, Some(8080))),
        Err(NetError::MissingEndpoint { listen: true })
    );
    assert_eq!(
        dispatch(&args(false, Some("127.0.0.1"), None)),
        Err(NetError::MissingEndpoint { listen: false })
    );
    assert_eq!(dispatch(&args(true, Some("0.0.0.0"), Some(8080))), Err(NetError::InvalidAddress));
    assert_eq!(dispatch(&args(false, Some("::1"), Some(8080))), Err(NetError::InvalidAddress));
    assert_eq!(
        dispatch(&args(false, Some("invalid-ip"), None)),
        Err(NetError::MissingEndpoint { listen: false })
    );
    let mut v6 = args(false, Some("::1"), Some(8080));
    v6.ip_version = IpVersion::V6;
    match dispatch(&v6) {
        Ok(Dispatch::Send(plan)) => assert_eq!(plan.endpoint, "::1:8080"),
        other => panic!("{:?}", other),
    }
    v6.address = Some(String::from("127.0.0.1"));
    assert_eq!(dispatch(&v6), Err(NetError::InvalidAddress));
}
