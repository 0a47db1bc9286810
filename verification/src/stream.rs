//! The established-stream resource.
//!
//! A stream resource owns one end of a connection. Its read half and write
//! half are independently locked — a read and a write may run concurrently,
//! but a second read (or write) while one is in flight fails with a busy
//! error. It caches the handshake snapshot once computed, and carries the
//! cancellation flag that closing the resource sets.

use vstd::prelude::*;

verus! {

use crate::bytes::clone_byte_list;
use crate::conn::{NetAddr, Side, TransportKind};
use crate::info::HandshakeInfo;

/// One end of an established connection, registered as a resource.
#[derive(Debug)]
pub struct TlsStreamResource {
    /// The transport this stream runs over.
    pub kind: TransportKind,
    /// Which end of its connection this resource owns.
    pub side: Side,
    /// The id of the connection this resource is one end of.
    pub conn: usize,
    /// The local address.
    pub local_addr: NetAddr,
    /// The peer's address.
    pub remote_addr: NetAddr,
    /// Whether a read is in flight on the read half.
    pub read_pending: bool,
    /// Whether a write is in flight on the write half.
    pub write_pending: bool,
    /// The cached handshake snapshot; `None` until the first completed
    /// handshake observation through this resource.
    pub handshake_info: Option<HandshakeInfo>,
    /// The cancellation flag; set by closing the resource, observed by
    /// pending reads and handshakes at their next suspension point.
    pub cancelled: bool,
}

/// The state every freshly created stream resource starts in.
pub open spec fn spec_fresh_stream(
    r: TlsStreamResource,
    kind: TransportKind,
    side: Side,
    conn: usize,
    local: NetAddr,
    remote: NetAddr,
) -> bool {
    &&& r.kind == kind
    &&& r.side == side
    &&& r.conn == conn
    &&& r.local_addr == local
    &&& r.remote_addr == remote
    &&& !r.read_pending
    &&& !r.write_pending
    &&& r.handshake_info is None
    &&& !r.cancelled
}

/// A plaintext stream resource: an open connection not yet secured,
/// eligible for the upgrade in place. Its read and write halves can be
/// re-joined into one owned transport when the holder is unique.
#[derive(Debug)]
pub struct PlainStream {
    /// The transport this stream runs over.
    pub kind: TransportKind,
    /// The local address.
    pub local_addr: NetAddr,
    /// The peer's address: where the upgrade will find its listener.
    pub remote_addr: NetAddr,
}

/// The stream taken back out of the resource layer: both halves re-joined
/// into one owned stream, tagged by its transport.
#[derive(Debug)]
pub enum TlsStreamReunited {
    /// A stream over TCP.
    Tcp {
        /// Which end of its connection the stream owns.
        side: Side,
        /// The id of the connection.
        conn: usize,
    },
    /// A stream over a Unix-domain socket.
    Unix {
        /// Which end of its connection the stream owns.
        side: Side,
        /// The id of the connection.
        conn: usize,
    },
}

impl TlsStreamResource {
    /// A fresh resource for one end of a TCP connection.
    pub fn new_tcp(side: Side, conn: usize, local_addr: NetAddr, remote_addr: NetAddr) -> (r:
        TlsStreamResource)
        ensures
            spec_fresh_stream(r, TransportKind::Tcp, side, conn, local_addr, remote_addr),
    {
        TlsStreamResource {
            kind: TransportKind::Tcp,
            side,
            conn,
            local_addr,
            remote_addr,
            read_pending: false,
            write_pending: false,
            handshake_info: None,
            cancelled: false,
        }
    }

    /// A fresh resource for one end of a Unix-domain connection.
    pub fn new_unix(side: Side, conn: usize, local_addr: NetAddr, remote_addr: NetAddr) -> (r:
        TlsStreamResource)
        ensures
            spec_fresh_stream(r, TransportKind::Unix, side, conn, local_addr, remote_addr),
    {
        TlsStreamResource {
            kind: TransportKind::Unix,
            side,
            conn,
            local_addr,
            remote_addr,
            read_pending: false,
            write_pending: false,
            handshake_info: None,
            cancelled: false,
        }
    }

    /// Re-join the two halves into one owned stream.
    pub fn into_tls_stream(self) -> (r: TlsStreamReunited)
        ensures
            self.kind == TransportKind::Tcp ==> r == (TlsStreamReunited::Tcp {
                side: self.side,
                conn: self.conn,
            }),
            self.kind == TransportKind::Unix ==> r == (TlsStreamReunited::Unix {
                side: self.side,
                conn: self.conn,
            }),
    {
        match self.kind {
            TransportKind::Tcp => TlsStreamReunited::Tcp { side: self.side, conn: self.conn },
            TransportKind::Unix => TlsStreamReunited::Unix { side: self.side, conn: self.conn },
        }
    }

    /// The peer's certificate chain, from the cached handshake snapshot.
    pub fn peer_certificates(&self) -> (r: Option<Vec<Vec<u8>>>)
        ensures
            match self.handshake_info {
                None => r is None,
                Some(info) => match info.peer_certificates {
                    None => r is None,
                    Some(cs) => r matches Some(v) && v.deep_view() == cs.deep_view(),
                },
            },
    {
        match &self.handshake_info {
            None => None,
            Some(info) => match &info.peer_certificates {
                None => None,
                Some(cs) => Some(clone_byte_list(cs)),
            },
        }
    }

    /// The resource's name in the registry.
    pub fn name(&self) -> (r: String)
        ensures
            r@ == "tlsStream"@,
    {
        "tlsStream".to_owned()
    }

    /// Cancel the pending handshake or read: the cooperative flag they
    /// observe at their next suspension point. Writes are never cancelled.
    pub fn close(&mut self)
        ensures
            *final(self) == (TlsStreamResource { cancelled: true, ..*old(self) }),
    {
        self.cancelled = true;
    }
}

} // verus!
