//! What can go wrong in an invocation.
use vstd::prelude::*;

verus! {

/// Why an invocation, or one connection of a server, failed.
#[derive(Clone, Copy, Debug, PartialEq, Eq, Structural)]
pub enum NetError {
    /// Configuration: address or port is missing. `listen` tells the mode.
    MissingEndpoint { listen: bool },
    /// Configuration: the address is not acceptable for the declared IP version.
    InvalidAddress,
    /// Configuration: the protocol's name is neither `tcp` nor `udp`.
    InvalidProtocol,
    /// The local endpoint could not be bound.
    Bind,
    /// The remote endpoint could not be connected to.
    Connect,
    /// A connection could not be accepted.
    Accept,
    /// A read or a write ran into its timeout.
    IoTimeout,
    /// A read or a write failed otherwise.
    Io,
    /// The sink (file, standard output or subprocess) failed.
    Sink,
    /// The source (file or standard input) could not be read.
    Source,
    /// The buffer is larger than one datagram can carry.
    DatagramTooLarge,
    /// An event arrived that the current state does not expect.
    UnexpectedEvent,
}

impl NetError {
    /// Whether the error concerns the configuration, so that it is reported
    /// before any network operation.
    pub open spec fn spec_is_configuration(self) -> bool {
        self is MissingEndpoint || self is InvalidAddress || self is InvalidProtocol
    }

    /// Whether the error concerns the configuration.
    pub fn is_configuration(&self) -> (r: bool)
        ensures
            r == self.spec_is_configuration(),
    {
        match self {
            NetError::MissingEndpoint { .. } => true,
            NetError::InvalidAddress => true,
            NetError::InvalidProtocol => true,
            _ => false,
        }
    }
}

} // verus!
