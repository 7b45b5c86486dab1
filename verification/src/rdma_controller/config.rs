//! What an adapter is told before it brings a connection up.

use vstd::prelude::*;

verus! {

/// The address of the adapter that listens.
#[derive(Debug, Clone, Copy, PartialEq, Eq, Structural)]
pub enum ServerAddress {
    V4 { a: u8, b: u8, c: u8, d: u8 },
    V6 { high: u64, low: u64 },
}

/// The device to use, the side to take, and where to meet the peer.
pub struct Config {
    pub dev_name: String,
    /// Index of the global identifier to use, or none to use no global
    /// identifier.
    pub gid_index: Option<i32>,
    pub connection_type: ConnectionType,
}

/// The side of the out-of-band exchange that an adapter takes, the port of the
/// exchange, and the number of elements of one message.
#[derive(Debug, Clone, Copy, PartialEq, Eq, Structural)]
pub enum ConnectionType {
    Server { port: u16, message_size: usize },
    Client { server_addr: ServerAddress, port: u16, message_size: usize },
}

impl ConnectionType {
    /// The side that an adapter takes: it dials where it was given the address
    /// of a server, and listens where it was not.
    pub fn for_endpoint(server_addr: Option<ServerAddress>, port: u16, message_size: usize) -> (connection: Self)
        ensures
            connection == match server_addr {
                Some(address) => ConnectionType::Client { server_addr: address, port, message_size },
                None => ConnectionType::Server { port, message_size },
            },
    {
        match server_addr {
            Some(address) => ConnectionType::Client { server_addr: address, port, message_size },
            None => ConnectionType::Server { port, message_size },
        }
    }

    pub open spec fn spec_port(&self) -> u16 {
        match *self {
            ConnectionType::Server { port, .. } => port,
            ConnectionType::Client { port, .. } => port,
        }
    }

    /// The port of the out-of-band exchange.
    #[verifier::when_used_as_spec(spec_port)]
    pub fn port(&self) -> (port: u16)
        ensures
            port == self.spec_port(),
    {
        match *self {
            ConnectionType::Server { port, .. } => port,
            ConnectionType::Client { port, .. } => port,
        }
    }

    pub open spec fn spec_message_size(&self) -> usize {
        match *self {
            ConnectionType::Server { message_size, .. } => message_size,
            ConnectionType::Client { message_size, .. } => message_size,
        }
    }

    /// The number of elements of one message.
    #[verifier::when_used_as_spec(spec_message_size)]
    pub fn message_size(&self) -> (message_size: usize)
        ensures
            message_size == self.spec_message_size(),
    {
        match *self {
            ConnectionType::Server { message_size, .. } => message_size,
            ConnectionType::Client { message_size, .. } => message_size,
        }
    }

    pub open spec fn spec_is_server(&self) -> bool {
        *self is Server
    }

    /// Whether this side listens.
    #[verifier::when_used_as_spec(spec_is_server)]
    pub fn is_server(&self) -> (server: bool)
        ensures
            server == self.spec_is_server(),
    {
        match *self {
            ConnectionType::Server { .. } => true,
            ConnectionType::Client { .. } => false,
        }
    }
}

} // verus!
