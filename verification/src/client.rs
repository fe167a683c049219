//! The client side: load the whole buffer, then send it once.
//!
//! The machine decides; the caller performs each action and hands back what
//! happened as the next event.
use vstd::prelude::*;
use crate::args::Protocol;
use crate::endpoint::MAX_DATAGRAM;
use crate::error::NetError;
use crate::routing::Source;

verus! {

/// What a client was asked to do, resolved from the configuration.
#[derive(Clone, Debug, PartialEq, Eq)]
pub struct ClientPlan {
    pub protocol: Protocol,
    /// The remote endpoint, as `host:port`.
    pub endpoint: String,
    /// Write timeout in seconds; `None` blocks without limit.
    pub write_timeout: Option<u64>,
    pub source: Source,
}

/// What happened at the source or on the network.
#[derive(Clone, Debug, PartialEq, Eq)]
pub enum ClientEvent {
    /// The client is asked to begin.
    Start,
    /// The source was read to its end.
    Loaded { buffer: Vec<u8> },
    LoadFailed,
    /// The whole buffer was written.
    Sent,
    BindFailed,
    ConnectFailed,
    WriteTimedOut,
    WriteFailed,
}

/// What the caller has to do next.
#[derive(Clone, Debug, PartialEq, Eq)]
pub enum ClientAction {
    /// Read the whole source.
    Load { source: Source },
    /// Connect to the endpoint over TCP, set the write timeout, write the
    /// whole buffer, and wait for no answer.
    Transmit { endpoint: String, timeout: Option<u64>, buffer: Vec<u8> },
    /// Bind a UDP socket to the wildcard address with a port that the system
    /// picks, set the write timeout, and send the buffer as one datagram.
    SendDatagram { endpoint: String, timeout: Option<u64>, buffer: Vec<u8> },
    /// Return: with success where `failure` is `None`, else with that error.
    Stop { failure: Option<NetError> },
}

/// States of the client.
#[derive(Clone, Copy, Debug, PartialEq, Eq, Structural)]
pub enum ClientState {
    Idle,
    /// Reading the source.
    Loading,
    /// The buffer is on its way.
    Sending,
    Done,
}

/// The client's next state and action.
pub open spec fn client_step_spec(plan: ClientPlan, state: ClientState, event: ClientEvent) -> (
    ClientState,
    ClientAction,
) {
    match (state, event) {
        (ClientState::Idle, ClientEvent::Start) => (
            ClientState::Loading,
            ClientAction::Load { source: plan.source },
        ),
        (ClientState::Loading, ClientEvent::Loaded { buffer }) => match plan.protocol {
            Protocol::Tcp => (
                ClientState::Sending,
                ClientAction::Transmit {
                    endpoint: plan.endpoint,
                    timeout: plan.write_timeout,
                    buffer,
                },
            ),
            Protocol::Udp => if buffer@.len() > MAX_DATAGRAM {
                (ClientState::Done, ClientAction::Stop { failure: Some(NetError::DatagramTooLarge) })
            } else {
                (
                    ClientState::Sending,
                    ClientAction::SendDatagram {
                        endpoint: plan.endpoint,
                        timeout: plan.write_timeout,
                        buffer,
                    },
                )
            },
        },
        (ClientState::Loading, ClientEvent::LoadFailed) => (
            ClientState::Done,
            ClientAction::Stop { failure: Some(NetError::Source) },
        ),
        (ClientState::Sending, ClientEvent::Sent) => (
            ClientState::Done,
            ClientAction::Stop { failure: None },
        ),
        (ClientState::Sending, ClientEvent::BindFailed) => (
            ClientState::Done,
            ClientAction::Stop { failure: Some(NetError::Bind) },
        ),
        (ClientState::Sending, ClientEvent::ConnectFailed) => (
            ClientState::Done,
            ClientAction::Stop { failure: Some(NetError::Connect) },
        ),
        (ClientState::Sending, ClientEvent::WriteTimedOut) => (
            ClientState::Done,
            ClientAction::Stop { failure: Some(NetError::IoTimeout) },
        ),
        (ClientState::Sending, ClientEvent::WriteFailed) => (
            ClientState::Done,
            ClientAction::Stop { failure: Some(NetError::Io) },
        ),
        _ => (ClientState::Done, ClientAction::Stop { failure: Some(NetError::UnexpectedEvent) }),
    }
}

/// One step of the client: from the state and what happened to the next state
/// and what to do.
pub fn client_step(plan: &ClientPlan, state: ClientState, event: ClientEvent) -> (r: (
    ClientState,
    ClientAction,
))
    ensures
        r == client_step_spec(*plan, state, event),
{
    match (state, event) {
        (ClientState::Idle, ClientEvent::Start) => (
            ClientState::Loading,
            ClientAction::Load { source: plan.source.duplicate() },
        ),
        (ClientState::Loading, ClientEvent::Loaded { buffer }) => match plan.protocol {
            Protocol::Tcp => (
                ClientState::Sending,
                ClientAction::Transmit {
                    endpoint: plan.endpoint.clone(),
                    timeout: plan.write_timeout,
                    buffer,
                },
            ),
            Protocol::Udp => if buffer.len() > MAX_DATAGRAM {
                (ClientState::Done, ClientAction::Stop { failure: Some(NetError::DatagramTooLarge) })
            } else {
                (
                    ClientState::Sending,
                    ClientAction::SendDatagram {
                        endpoint: plan.endpoint.clone(),
                        timeout: plan.write_timeout,
                        buffer,
                    },
                )
            },
        },
        (ClientState::Loading, ClientEvent::LoadFailed) => (
            ClientState::Done,
            ClientAction::Stop { failure: Some(NetError::Source) },
        ),
        (ClientState::Sending, ClientEvent::Sent) => (
            ClientState::Done,
            ClientAction::Stop { failure: None },
        ),
        (ClientState::Sending, ClientEvent::BindFailed) => (
            ClientState::Done,
            ClientAction::Stop { failure: Some(NetError::Bind) },
        ),
        (ClientState::Sending, ClientEvent::ConnectFailed) => (
            ClientState::Done,
            ClientAction::Stop { failure: Some(NetError::Connect) },
        ),
        (ClientState::Sending, ClientEvent::WriteTimedOut) => (
            ClientState::Done,
            ClientAction::Stop { failure: Some(NetError::IoTimeout) },
        ),
        (ClientState::Sending, ClientEvent::WriteFailed) => (
            ClientState::Done,
            ClientAction::Stop { failure: Some(NetError::Io) },
        ),
        _ => (ClientState::Done, ClientAction::Stop { failure: Some(NetError::UnexpectedEvent) }),
    }
}

/// Over TCP the client sends exactly the bytes that it loaded, of any length.
pub proof fn lemma_tcp_client_sends_what_it_loaded(plan: ClientPlan, buffer: Vec<u8>)
    requires
        plan.protocol == Protocol::Tcp,
    ensures
        client_step_spec(plan, ClientState::Loading, ClientEvent::Loaded { buffer }) == (
            ClientState::Sending,
            ClientAction::Transmit {
                endpoint: plan.endpoint,
                timeout: plan.write_timeout,
                buffer,
            },
        ),
{
}

/// Over UDP the client sends the bytes that it loaded as one datagram where
/// they fit in one, and otherwise fails without any network operation.
pub proof fn lemma_udp_client_sends_or_refuses(plan: ClientPlan, buffer: Vec<u8>)
    requires
        plan.protocol == Protocol::Udp,
    ensures
        buffer@.len() <= MAX_DATAGRAM ==> client_step_spec(
            plan,
            ClientState::Loading,
            ClientEvent::Loaded { buffer },
        ) == (
            ClientState::Sending,
            ClientAction::SendDatagram {
                endpoint: plan.endpoint,
                timeout: plan.write_timeout,
                buffer,
            },
        ),
        buffer@.len() > MAX_DATAGRAM ==> client_step_spec(
            plan,
            ClientState::Loading,
            ClientEvent::Loaded { buffer },
        ) == (ClientState::Done, ClientAction::Stop { failure: Some(NetError::DatagramTooLarge) }),
{
}

} // verus!
