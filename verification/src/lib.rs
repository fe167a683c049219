//! Transport dispatch for a small netcat-style tool: address validation, sink
//! and source selection, and the server and client state machines.
pub mod address;
pub mod args;
pub mod client;
pub mod endpoint;
pub mod error;
pub mod ipv4;
pub mod ipv6;
pub mod network;
pub mod routing;
pub mod server;
pub mod text;
