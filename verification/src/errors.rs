//! The error taxonomy of the transport layer.
//!
//! Every operation reports failure through `NetError`; each variant belongs
//! to exactly one broad category, so a caller can always distinguish
//! "closed by us" (cancellation) from "failed on the wire" (transport) from
//! a protocol-level rejection.

use vstd::prelude::*;

verus! {

/// The broad categories of failure.
#[derive(Clone, Copy, Debug, PartialEq, Eq, Structural)]
pub enum ErrorKind {
    /// Invalid input or key material of the wrong kind.
    Configuration,
    /// Unknown ids, contention on a resource, closed listeners.
    Resource,
    /// Raw I/O failures, propagated unchanged and never retried.
    Transport,
    /// Handshake failures: rejected certificate, protocol mismatch, or an
    /// explicit error delivered by the certificate resolver.
    Protocol,
    /// The operation was cancelled by closing its resource.
    Cancellation,
}

/// Everything that can go wrong in this layer.
#[derive(Clone, Debug)]
pub enum NetError {
    /// The hostname is not a valid server name.
    InvalidHostname(String),
    /// Address resolution produced no candidate address.
    NoResolvedAddress,
    /// A TLS listener cannot be created without key material.
    ListenTlsRequiresKey,
    /// Key material of the wrong kind for the requested operation.
    UnexpectedKeyType,
    /// Certificate PEM data could not be decoded.
    CertInvalid,
    /// The certificate PEM data held no certificate.
    CertsNotFound,
    /// Private-key PEM data could not be decoded.
    KeyDecode,
    /// The private-key PEM data held no key.
    KeysNotFound,
    /// No live resource is registered under the given id.
    BadResource,
    /// The plaintext TCP stream is referenced elsewhere and cannot be
    /// upgraded.
    TcpStreamBusy,
    /// The plaintext Unix-domain stream is referenced elsewhere and cannot
    /// be upgraded.
    UnixStreamBusy,
    /// A read is already in flight on this stream.
    ReadBusy,
    /// A write is already in flight on this stream.
    WriteBusy,
    /// An accept is already in flight on this listener.
    AcceptTaskOngoing,
    /// The listener is closed.
    ListenerClosed,
    /// The address is already bound by a listener that does not share it.
    AddrInUse,
    /// No peer is listening at the target address.
    ConnectionRefused,
    /// The transport was torn down under an operation that cannot be
    /// cancelled.
    ConnectionReset,
    /// The write side of this stream is already shut down: close-notify
    /// was sent and the transport takes no further bytes.
    BrokenPipe,
    /// The peer's certificate chains to no configured trust anchor.
    CertificateInvalid,
    /// Both sides requested ALPN but offered no common protocol.
    NoApplicationProtocol,
    /// The certificate resolver answered this connection's lookup with an
    /// explicit error.
    ResolverFailed(String),
    /// The operation was cancelled because its resource was closed.
    Cancelled,
}

impl NetError {
    /// The category a variant belongs to.
    pub open spec fn spec_kind(&self) -> ErrorKind {
        match self {
            NetError::InvalidHostname(_) => ErrorKind::Configuration,
            NetError::NoResolvedAddress => ErrorKind::Configuration,
            NetError::ListenTlsRequiresKey => ErrorKind::Configuration,
            NetError::UnexpectedKeyType => ErrorKind::Configuration,
            NetError::CertInvalid => ErrorKind::Configuration,
            NetError::CertsNotFound => ErrorKind::Configuration,
            NetError::KeyDecode => ErrorKind::Configuration,
            NetError::KeysNotFound => ErrorKind::Configuration,
            NetError::BadResource => ErrorKind::Resource,
            NetError::TcpStreamBusy => ErrorKind::Resource,
            NetError::UnixStreamBusy => ErrorKind::Resource,
            NetError::ReadBusy => ErrorKind::Resource,
            NetError::WriteBusy => ErrorKind::Resource,
            NetError::AcceptTaskOngoing => ErrorKind::Resource,
            NetError::ListenerClosed => ErrorKind::Resource,
            NetError::AddrInUse => ErrorKind::Transport,
            NetError::ConnectionRefused => ErrorKind::Transport,
            NetError::ConnectionReset => ErrorKind::Transport,
            NetError::BrokenPipe => ErrorKind::Transport,
            NetError::CertificateInvalid => ErrorKind::Protocol,
            NetError::NoApplicationProtocol => ErrorKind::Protocol,
            NetError::ResolverFailed(_) => ErrorKind::Protocol,
            NetError::Cancelled => ErrorKind::Cancellation,
        }
    }

    /// An exact copy of the error.
    pub fn duplicate(&self) -> (r: NetError)
        ensures
            r == *self,
    {
        match self {
            NetError::InvalidHostname(h) => NetError::InvalidHostname(h.clone()),
            NetError::NoResolvedAddress => NetError::NoResolvedAddress,
            NetError::ListenTlsRequiresKey => NetError::ListenTlsRequiresKey,
            NetError::UnexpectedKeyType => NetError::UnexpectedKeyType,
            NetError::CertInvalid => NetError::CertInvalid,
            NetError::CertsNotFound => NetError::CertsNotFound,
            NetError::KeyDecode => NetError::KeyDecode,
            NetError::KeysNotFound => NetError::KeysNotFound,
            NetError::BadResource => NetError::BadResource,
            NetError::TcpStreamBusy => NetError::TcpStreamBusy,
            NetError::UnixStreamBusy => NetError::UnixStreamBusy,
            NetError::ReadBusy => NetError::ReadBusy,
            NetError::WriteBusy => NetError::WriteBusy,
            NetError::AcceptTaskOngoing => NetError::AcceptTaskOngoing,
            NetError::ListenerClosed => NetError::ListenerClosed,
            NetError::AddrInUse => NetError::AddrInUse,
            NetError::ConnectionRefused => NetError::ConnectionRefused,
            NetError::ConnectionReset => NetError::ConnectionReset,
            NetError::BrokenPipe => NetError::BrokenPipe,
            NetError::CertificateInvalid => NetError::CertificateInvalid,
            NetError::NoApplicationProtocol => NetError::NoApplicationProtocol,
            NetError::ResolverFailed(m) => NetError::ResolverFailed(m.clone()),
            NetError::Cancelled => NetError::Cancelled,
        }
    }

    /// Report the category of this error.
    pub fn kind(&self) -> (k: ErrorKind)
        ensures
            k == self.spec_kind(),
    {
        match self {
            NetError::InvalidHostname(_) => ErrorKind::Configuration,
            NetError::NoResolvedAddress => ErrorKind::Configuration,
            NetError::ListenTlsRequiresKey => ErrorKind::Configuration,
            NetError::UnexpectedKeyType => ErrorKind::Configuration,
            NetError::CertInvalid => ErrorKind::Configuration,
            NetError::CertsNotFound => ErrorKind::Configuration,
            NetError::KeyDecode => ErrorKind::Configuration,
            NetError::KeysNotFound => ErrorKind::Configuration,
            NetError::BadResource => ErrorKind::Resource,
            NetError::TcpStreamBusy => ErrorKind::Resource,
            NetError::UnixStreamBusy => ErrorKind::Resource,
            NetError::ReadBusy => ErrorKind::Resource,
            NetError::WriteBusy => ErrorKind::Resource,
            NetError::AcceptTaskOngoing => ErrorKind::Resource,
            NetError::ListenerClosed => ErrorKind::Resource,
            NetError::AddrInUse => ErrorKind::Transport,
            NetError::ConnectionRefused => ErrorKind::Transport,
            NetError::ConnectionReset => ErrorKind::Transport,
            NetError::BrokenPipe => ErrorKind::Transport,
            NetError::CertificateInvalid => ErrorKind::Protocol,
            NetError::NoApplicationProtocol => ErrorKind::Protocol,
            NetError::ResolverFailed(_) => ErrorKind::Protocol,
            NetError::Cancelled => ErrorKind::Cancellation,
        }
    }
}

} // verus!
