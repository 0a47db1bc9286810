//! The cached snapshot of a completed handshake.

use vstd::prelude::*;

verus! {

use crate::bytes::{clone_byte_list, clone_bytes};

/// What a completed handshake negotiated: the ALPN protocol, if any, and
/// the certificate chain the peer presented, if any. Computed once per
/// connection, cached, immutable thereafter.
#[derive(Debug, Clone, PartialEq, Eq)]
pub struct HandshakeInfo {
    /// The negotiated ALPN protocol.
    pub alpn_protocol: Option<Vec<u8>>,
    /// The peer's certificate chain, end entity first, in DER.
    pub peer_certificates: Option<Vec<Vec<u8>>>,
}

/// The mathematical content of a `HandshakeInfo`.
pub struct HandshakeInfoView {
    /// The negotiated ALPN protocol.
    pub alpn_protocol: Option<Seq<u8>>,
    /// The peer's certificate chain.
    pub peer_certificates: Option<Seq<Seq<u8>>>,
}

impl View for HandshakeInfo {
    type V = HandshakeInfoView;

    open spec fn view(&self) -> HandshakeInfoView {
        HandshakeInfoView {
            alpn_protocol: match self.alpn_protocol {
                None => None,
                Some(p) => Some(p@),
            },
            peer_certificates: match self.peer_certificates {
                None => None,
                Some(cs) => Some(cs.deep_view()),
            },
        }
    }
}

impl HandshakeInfo {
    /// An exact copy of the snapshot.
    pub fn duplicate(&self) -> (r: HandshakeInfo)
        ensures
            r@ == self@,
    {
        let alpn_protocol = match &self.alpn_protocol {
            None => None,
            Some(p) => Some(clone_bytes(p)),
        };
        let peer_certificates = match &self.peer_certificates {
            None => None,
            Some(cs) => Some(clone_byte_list(cs)),
        };
        HandshakeInfo { alpn_protocol, peer_certificates }
    }
}

} // verus!
