//! The resolved configuration that every component reads.
use vstd::prelude::*;

verus! {

/// Transport protocol of an invocation.
#[derive(Clone, Copy, Debug, PartialEq, Eq, Structural)]
pub enum Protocol {
    Tcp,
    Udp,
}

/// IP version that the address is declared to be of.
#[derive(Clone, Copy, Debug, PartialEq, Eq, Structural)]
pub enum IpVersion {
    V4,
    V6,
}

/// One invocation's configuration. It is built once and only read afterwards.
#[derive(Clone, Debug, PartialEq, Eq)]
pub struct Args {
    /// File that is the sink of a server and the source of a client.
    pub file: Option<String>,
    pub ip_version: IpVersion,
    pub protocol: Protocol,
    /// Timeout in seconds; zero blocks without limit.
    pub timeout: u64,
    /// Listen as a server rather than connect as a client.
    pub listen: bool,
    /// Shell command that received data is fed to.
    pub exec_command: Option<String>,
    pub verbose: bool,
    pub address: Option<String>,
    pub port: Option<u16>,
}

impl Protocol {
    /// The lower-case name by which the engines select the protocol.
    pub open spec fn spec_name(self) -> Seq<char> {
        match self {
            Protocol::Tcp => seq!['t', 'c', 'p'],
            Protocol::Udp => seq!['u', 'd', 'p'],
        }
    }

    /// The lower-case name by which the engines select the protocol.
    pub fn name(&self) -> (r: &'static str)
        ensures
            r@ == self.spec_name(),
    {
        proof {
            reveal_strlit("tcp");
            reveal_strlit("udp");
        }
        match self {
            Protocol::Tcp => {
                assert("tcp"@ =~= seq!['t', 'c', 'p']);
                "tcp"
            },
            Protocol::Udp => {
                assert("udp"@ =~= seq!['u', 'd', 'p']);
                "udp"
            },
        }
    }
}

impl IpVersion {
    /// The version's number, 4 or 6.
    pub open spec fn spec_number(self) -> u8 {
        match self {
            IpVersion::V4 => 4,
            IpVersion::V6 => 6,
        }
    }

    /// The version's number, 4 or 6.
    pub fn number(&self) -> (r: u8)
        ensures
            r == self.spec_number(),
    {
        match self {
            IpVersion::V4 => 4,
            IpVersion::V6 => 6,
        }
    }
}

impl Args {
    /// Whether both halves of the endpoint, address and port, are present.
    pub open spec fn spec_has_endpoint(self) -> bool {
        self.address is Some && self.port is Some
    }

    /// Whether both halves of the endpoint, address and port, are present.
    pub fn has_endpoint(&self) -> (r: bool)
        ensures
            r == self.spec_has_endpoint(),
    {
        self.address.is_some() && self.port.is_some()
    }
}

} // verus!
