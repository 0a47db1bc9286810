//! Connections: one entry per established transport, shared by the client
//! and server stream resources that sit on its two ends.
//!
//! A connection carries the client's TLS configuration, the state of the
//! server's key selection, the handshake status, and one byte pipe per
//! direction. Chain validation is modelled: a chain is accepted when its
//! trust anchor — the last certificate of the chain — is itself one of the
//! client's configured roots, or when verification is disabled for this
//! connection. Real path building is delegated to the TLS library and out
//! of scope here.

use vstd::prelude::*;

verus! {

use crate::alpn::spec_alpn_outcome;
use crate::errors::NetError;
use crate::keys::TlsKey;

/// The two interchangeable byte-stream transports.
#[derive(Clone, Copy, Debug, PartialEq, Eq, Structural)]
pub enum TransportKind {
    /// A TCP socket.
    Tcp,
    /// A Unix-domain socket.
    Unix,
}

/// Which end of a connection a stream resource owns.
#[derive(Clone, Copy, Debug, PartialEq, Eq, Structural)]
pub enum Side {
    /// The connecting end.
    Client,
    /// The accepting end.
    Server,
}

/// A network address: hostname and port.
#[derive(Debug, Clone)]
pub struct NetAddr {
    /// The hostname or address literal.
    pub hostname: String,
    /// The port.
    pub port: u16,
}

/// Whether two addresses are the same.
pub open spec fn spec_same_addr(a: NetAddr, b: NetAddr) -> bool {
    a.hostname@ == b.hostname@ && a.port == b.port
}

impl NetAddr {
    /// An exact copy of the address.
    pub fn duplicate(&self) -> (r: NetAddr)
        ensures
            r == *self,
    {
        NetAddr { hostname: self.hostname.clone(), port: self.port }
    }

    /// Whether this address equals another.
    pub fn same_as(&self, other: &NetAddr) -> (r: bool)
        ensures
            r == spec_same_addr(*self, *other),
    {
        self.hostname == other.hostname && self.port == other.port
    }
}

/// The client side's TLS configuration for one connection.
#[derive(Debug)]
pub struct ClientCfg {
    /// The trust anchors, in DER: the default store plus any extra CA
    /// certificates the caller supplied.
    pub roots: Vec<Vec<u8>>,
    /// The ALPN protocols offered, most preferred first; empty when the
    /// client does not take part in ALPN.
    pub alpn: Vec<Vec<u8>>,
    /// The server name presented for SNI and certificate validation.
    pub sni: String,
    /// Whether certificate verification is disabled for this connection.
    pub verify_disabled: bool,
    /// The client's own key material, carried for client authentication.
    /// The modelled server never requests a client certificate, so it
    /// plays no part in the handshake outcome.
    pub client_key: Option<TlsKey>,
}

/// How far the server side has come in choosing its key material.
#[derive(Debug)]
pub enum ServerKeyState {
    /// A fixed chain, known since the listener was created.
    Fixed {
        /// The server's certificate chain, end entity first, in DER.
        chain: Vec<Vec<u8>>,
    },
    /// Resolver mode, and the handshake has not yet requested a decision.
    Unrequested {
        /// The id of the resolver's lookup queue.
        lookup_rid: usize,
    },
    /// Resolver mode, and a lookup entry is pending for this connection.
    Requested {
        /// The id of the resolver's lookup queue.
        lookup_rid: usize,
    },
}

/// The handshake status of a connection.
#[derive(Debug)]
pub enum ConnStatus {
    /// The cryptographic handshake has not completed yet.
    Fresh,
    /// The handshake completed.
    Established {
        /// The negotiated ALPN protocol.
        alpn: Option<Vec<u8>>,
        /// The certificate chain the server presented.
        chain: Vec<Vec<u8>>,
    },
    /// The handshake failed; every operation on the connection reports
    /// this error.
    Failed {
        /// The protocol-level failure.
        err: NetError,
    },
}

/// One established transport connection.
#[derive(Debug)]
pub struct Conn {
    /// The client side's TLS configuration.
    pub client: ClientCfg,
    /// The server's ALPN preference list; empty when the server does not
    /// take part in ALPN.
    pub server_alpn: Vec<Vec<u8>>,
    /// The state of the server's key selection.
    pub key_state: ServerKeyState,
    /// The handshake status.
    pub status: ConnStatus,
    /// How many times the cryptographic handshake has executed on this
    /// connection.
    pub crypto_runs: u64,
    /// The client end's address.
    pub client_addr: NetAddr,
    /// The server end's address.
    pub server_addr: NetAddr,
    /// Bytes written by the client and not yet read by the server.
    pub client_to_server: Vec<u8>,
    /// Bytes written by the server and not yet read by the client.
    pub server_to_client: Vec<u8>,
    /// Whether the client sent close-notify.
    pub client_shutdown: bool,
    /// Whether the server sent close-notify.
    pub server_shutdown: bool,
}

/// Whether the client accepts the server's chain: verification is disabled
/// for this connection, or the chain's trust anchor — its last certificate
/// — is one of the client's roots.
pub open spec fn spec_chain_trusted(roots: Seq<Seq<u8>>, disabled: bool, chain: Seq<Seq<u8>>) -> bool {
    disabled || (chain.len() > 0 && roots.contains(chain.last()))
}

/// The outcome of the cryptographic handshake, given both endpoints'
/// configurations: the negotiated ALPN protocol on success, a
/// `CertificateInvalid` rejection when the chain is not trusted, and the
/// ALPN mismatch failure otherwise.
pub open spec fn spec_handshake_outcome(
    roots: Seq<Seq<u8>>,
    disabled: bool,
    client_alpn: Seq<Seq<u8>>,
    chain: Seq<Seq<u8>>,
    server_alpn: Seq<Seq<u8>>,
) -> Result<Option<Seq<u8>>, NetError> {
    if !spec_chain_trusted(roots, disabled, chain) {
        Err(NetError::CertificateInvalid)
    } else {
        spec_alpn_outcome(server_alpn, client_alpn)
    }
}

/// Run the modelled handshake for one connection: check the chain against
/// the client's trust anchors, then negotiate ALPN.
pub fn compute_handshake_outcome(client: &ClientCfg, chain: &Vec<Vec<u8>>, server_alpn: &Vec<
    Vec<u8>,
>) -> (r: Result<Option<Vec<u8>>, NetError>)
    ensures
        match spec_handshake_outcome(
            client.roots.deep_view(),
            client.verify_disabled,
            client.alpn.deep_view(),
            chain.deep_view(),
            server_alpn.deep_view(),
        ) {
            Ok(None) => r matches Ok(None),
            Ok(Some(p)) => r matches Ok(Some(v)) && v@ == p,
            Err(e) => r == Err::<Option<Vec<u8>>, NetError>(e),
        },
{
    let trusted = if client.verify_disabled {
        true
    } else if chain.len() == 0 {
        false
    } else {
        proof {
            crate::bytes::lemma_bytes_deep_view(chain@[chain@.len() - 1]);
        }
        crate::bytes::contains_bytes(&client.roots, &chain[chain.len() - 1])
    };
    if !trusted {
        return Err(NetError::CertificateInvalid);
    }
    crate::alpn::negotiate_alpn(server_alpn, &client.alpn)
}

} // verus!
