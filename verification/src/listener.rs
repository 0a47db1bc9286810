//! The TLS listener resource.
//!
//! A listener owns a bound raw listener and exactly one of a fixed TLS
//! server key or a resolver-backed provider; its configuration is immutable
//! after creation. At most one accept may be outstanding at a time: a
//! second concurrent accept fails immediately instead of queuing.

use vstd::prelude::*;

verus! {

use crate::conn::NetAddr;

/// The listener's key material: exactly one of a fixed key pair or a
/// resolver-backed provider.
#[derive(Debug)]
pub enum ListenerMode {
    /// One fixed certificate chain and key serves every connection.
    Fixed {
        /// The server's certificate chain, end entity first, in DER.
        chain: Vec<Vec<u8>>,
    },
    /// The key pair is resolved per connection, by SNI hostname.
    Resolver {
        /// The id of the resolver's lookup queue.
        lookup_rid: usize,
    },
}

/// A bound TLS listener, registered as a resource.
#[derive(Debug)]
pub struct TlsListener {
    /// The bound local address.
    pub local_addr: NetAddr,
    /// The server's ALPN preference list; empty when the server does not
    /// take part in ALPN.
    pub alpn: Vec<Vec<u8>>,
    /// The key material.
    pub mode: ListenerMode,
    /// Whether the port is shared with other listeners at the OS level.
    pub reuse_port: bool,
    /// Whether accepted connections are distributed by an external
    /// balancing strategy.
    pub load_balanced: bool,
    /// Whether an accept is outstanding.
    pub accept_pending: bool,
    /// Connections established by clients and not yet accepted, oldest
    /// first, as connection ids.
    pub backlog: Vec<usize>,
}

impl TlsListener {
    /// The address the listener is bound at.
    pub fn local_addr(&self) -> (r: NetAddr)
        ensures
            r == self.local_addr,
    {
        self.local_addr.duplicate()
    }
}

} // verus!
