//! Certificate and key material, decoded from PEM by an outside TLS library.
//!
//! What a PEM blob decodes to is a pure function of its bytes, but stating
//! the decoding in full would mean writing out base64 and the PEM grammar;
//! the results are therefore given names (`pem_certs` and friends), and the
//! contracts of everything above speak of those names.

use vstd::prelude::*;

verus! {

/// The DER certificates a PEM blob decodes to: one byte string per
/// CERTIFICATE section, in order, or `None` if a section is malformed.
pub uninterp spec fn pem_certs(pem: Seq<u8>) -> Option<Seq<Seq<u8>>>;

/// The PKCS#1 (RSA) private keys a PEM blob decodes to, or `None` if a
/// section is malformed.
pub uninterp spec fn pem_rsa_keys(pem: Seq<u8>) -> Option<Seq<Seq<u8>>>;

/// The PKCS#8 private keys a PEM blob decodes to, or `None` if a section is
/// malformed.
pub uninterp spec fn pem_pkcs8_keys(pem: Seq<u8>) -> Option<Seq<Seq<u8>>>;

/// The SEC1 (EC) private keys a PEM blob decodes to, or `None` if a section
/// is malformed.
pub uninterp spec fn pem_ec_keys(pem: Seq<u8>) -> Option<Seq<Seq<u8>>>;

/// Whether a string is acceptable as a TLS server name: a syntactically
/// valid DNS name or an IP address literal.
pub uninterp spec fn valid_server_name(name: Seq<char>) -> bool;

/// Relies on `rustls_pemfile::certs`: yields the DER bytes of every
/// CERTIFICATE section of the input, in order, and an error exactly when a
/// section cannot be decoded.
#[verifier::external_body]
pub(crate) fn parse_pem_certs(pem: &[u8]) -> (r: Option<Vec<Vec<u8>>>)
    ensures
        r.deep_view() == pem_certs(pem@),
{
    let mut rd = pem;
    rustls_pemfile::certs(&mut rd)
        .map(|item| item.map(|cert| cert.as_ref().to_vec()))
        .collect::<Result<Vec<Vec<u8>>, _>>()
        .ok()
}

/// Relies on `rustls_pemfile::rsa_private_keys`: yields the DER bytes of
/// every RSA PRIVATE KEY section of the input, in order, and an error
/// exactly when a section cannot be decoded.
#[verifier::external_body]
pub(crate) fn parse_pem_rsa_keys(pem: &[u8]) -> (r: Option<Vec<Vec<u8>>>)
    ensures
        r.deep_view() == pem_rsa_keys(pem@),
{
    let mut rd = pem;
    rustls_pemfile::rsa_private_keys(&mut rd)
        .map(|item| item.map(|key| key.secret_pkcs1_der().to_vec()))
        .collect::<Result<Vec<Vec<u8>>, _>>()
        .ok()
}

/// Relies on `rustls_pemfile::pkcs8_private_keys`: yields the DER bytes of
/// every PRIVATE KEY section of the input, in order, and an error exactly
/// when a section cannot be decoded.
#[verifier::external_body]
pub(crate) fn parse_pem_pkcs8_keys(pem: &[u8]) -> (r: Option<Vec<Vec<u8>>>)
    ensures
        r.deep_view() == pem_pkcs8_keys(pem@),
{
    let mut rd = pem;
    rustls_pemfile::pkcs8_private_keys(&mut rd)
        .map(|item| item.map(|key| key.secret_pkcs8_der().to_vec()))
        .collect::<Result<Vec<Vec<u8>>, _>>()
        .ok()
}

/// Relies on `rustls_pemfile::ec_private_keys`: yields the DER bytes of
/// every EC PRIVATE KEY section of the input, in order, and an error
/// exactly when a section cannot be decoded.
#[verifier::external_body]
pub(crate) fn parse_pem_ec_keys(pem: &[u8]) -> (r: Option<Vec<Vec<u8>>>)
    ensures
        r.deep_view() == pem_ec_keys(pem@),
{
    let mut rd = pem;
    rustls_pemfile::ec_private_keys(&mut rd)
        .map(|item| item.map(|key| key.secret_sec1_der().to_vec()))
        .collect::<Result<Vec<Vec<u8>>, _>>()
        .ok()
}

/// Relies on `rustls_pki_types::ServerName::try_from(String)`: accepts
/// exactly the syntactically valid DNS names and IP address literals.
#[verifier::external_body]
pub(crate) fn check_server_name(name: &str) -> (r: bool)
    ensures
        r == valid_server_name(name@),
{
    rustls_pki_types::ServerName::try_from(name.to_string()).is_ok()
}

} // verus!
