//! A TLS-secured network transport layer, modelled and verified.
//!
//! The crate models establishing, accepting and multiplexing encrypted byte
//! streams: a listener with either a fixed key pair or a per-connection
//! certificate resolver keyed by SNI hostname, stream resources with
//! independently locked read and write halves, cooperative cancellation,
//! a cached handshake snapshot, and upgrading an already-open plaintext
//! connection in place. Certificate and key material is parsed from PEM by
//! an outside TLS library through trusted wrappers; everything that decides
//! (busy detection, cancellation, resolver fulfilment, ALPN selection,
//! trust decisions) is verified here.

pub mod alpn;
pub mod args;
pub mod bytes;
pub mod conn;
pub mod errors;
pub mod info;
pub mod keys;
pub mod laws;
pub mod listener;
pub mod pem;
pub mod registry;
pub mod resolver;
pub mod stream;
pub mod system;
