//! Key material for listeners and clients.
//!
//! Key material is either absent, a fixed certificate chain with one
//! private key, or a handle to a certificate resolver that supplies a key
//! pair per connection, keyed by the SNI hostname.

use vstd::prelude::*;

verus! {

use vstd::string::StringSliceAdditionalSpecFns;

use crate::errors::NetError;
use crate::pem::{
    parse_pem_certs,
    parse_pem_ec_keys,
    parse_pem_pkcs8_keys,
    parse_pem_rsa_keys,
    pem_certs,
    pem_ec_keys,
    pem_pkcs8_keys,
    pem_rsa_keys,
};

/// The encoding of a private key.
#[derive(Clone, Copy, Debug, PartialEq, Eq, Structural)]
pub enum KeyKind {
    /// PKCS#1 (an RSA PRIVATE KEY section).
    Rsa,
    /// PKCS#8 (a PRIVATE KEY section).
    Pkcs8,
    /// SEC1 (an EC PRIVATE KEY section).
    Ec,
}

/// One certificate chain and the private key of its end entity, both in DER.
#[derive(Debug)]
pub struct TlsKey {
    /// The certificate chain, end entity first.
    pub cert_chain: Vec<Vec<u8>>,
    /// The DER bytes of the private key.
    pub key_der: Vec<u8>,
    /// The encoding the private key was found in.
    pub key_kind: KeyKind,
}

/// Key material handed to a listen or connect operation.
#[derive(Debug)]
pub enum TlsKeys {
    /// No key material.
    Null,
    /// One fixed key pair.
    Static(TlsKey),
    /// A certificate resolver; the value is the id of its lookup queue.
    Resolver(usize),
}

/// The first private key a PEM blob yields, following the search order of
/// the TLS layer: every RSA section first, then PKCS#8, then EC.
pub open spec fn spec_first_private_key(pem: Seq<u8>) -> Result<(Seq<u8>, KeyKind), NetError> {
    match pem_rsa_keys(pem) {
        None => Err(NetError::KeyDecode),
        Some(rsa) => if rsa.len() > 0 {
            Ok((rsa[0], KeyKind::Rsa))
        } else {
            match pem_pkcs8_keys(pem) {
                None => Err(NetError::KeyDecode),
                Some(p8) => if p8.len() > 0 {
                    Ok((p8[0], KeyKind::Pkcs8))
                } else {
                    match pem_ec_keys(pem) {
                        None => Err(NetError::KeyDecode),
                        Some(ec) => if ec.len() > 0 {
                            Ok((ec[0], KeyKind::Ec))
                        } else {
                            Err(NetError::KeysNotFound)
                        },
                    }
                },
            }
        },
    }
}

/// The client key material an operation records: a fixed pair is carried,
/// absent material is absent. (A resolver handle is no client material and
/// is rejected before this applies.)
pub open spec fn spec_client_key(k: TlsKeys) -> Option<TlsKey> {
    match k {
        TlsKeys::Null => None,
        TlsKeys::Static(key) => Some(key),
        TlsKeys::Resolver(_) => None,
    }
}

/// Key material that is absent on purpose.
pub fn op_tls_key_null() -> (r: TlsKeys)
    ensures
        r is Null,
{
    TlsKeys::Null
}

/// Build fixed key material from certificate-chain PEM and private-key PEM.
///
/// Fails with `CertInvalid` when a certificate section is malformed, with
/// `CertsNotFound` when the certificate PEM holds no certificate, with
/// `KeyDecode` when a key section is malformed, and with `KeysNotFound`
/// when no key is found in any supported encoding.
pub fn op_tls_key_static(cert: &str, key: &str) -> (r: Result<TlsKeys, NetError>)
    ensures
        ({
            let cpem = cert.spec_bytes();
            let kpem = key.spec_bytes();
            match pem_certs(cpem) {
                None => r == Err::<TlsKeys, NetError>(NetError::CertInvalid),
                Some(cs) => if cs.len() == 0 {
                    r == Err::<TlsKeys, NetError>(NetError::CertsNotFound)
                } else {
                    match spec_first_private_key(kpem) {
                        Err(e) => r == Err::<TlsKeys, NetError>(e),
                        Ok((kder, kind)) => r matches Ok(TlsKeys::Static(k))
                            && k.cert_chain.deep_view() == cs && k.key_der@ == kder
                            && k.key_kind == kind,
                    }
                },
            }
        }),
{
    let chain = match parse_pem_certs(cert.as_bytes()) {
        None => {
            return Err(NetError::CertInvalid);
        },
        Some(cs) => cs,
    };
    if chain.len() == 0 {
        return Err(NetError::CertsNotFound);
    }
    let (key_der, key_kind) = match load_first_private_key(key.as_bytes()) {
        Err(e) => {
            return Err(e);
        },
        Ok(kk) => kk,
    };
    Ok(TlsKeys::Static(TlsKey { cert_chain: chain, key_der, key_kind }))
}

/// Search the key PEM for a private key: every RSA section first, then
/// PKCS#8, then EC, and take the first key found.
fn load_first_private_key(pem: &[u8]) -> (r: Result<(Vec<u8>, KeyKind), NetError>)
    ensures
        match spec_first_private_key(pem@) {
            Err(e) => r == Err::<(Vec<u8>, KeyKind), NetError>(e),
            Ok((kder, kind)) => r matches Ok((v, k)) && v@ == kder && k == kind,
        },
{
    let rsa = match parse_pem_rsa_keys(pem) {
        None => {
            return Err(NetError::KeyDecode);
        },
        Some(v) => v,
    };
    if rsa.len() > 0 {
        proof {
            crate::bytes::lemma_bytes_deep_view(rsa@[0]);
        }
        return Ok((crate::bytes::clone_bytes(&rsa[0]), KeyKind::Rsa));
    }
    let p8 = match parse_pem_pkcs8_keys(pem) {
        None => {
            return Err(NetError::KeyDecode);
        },
        Some(v) => v,
    };
    if p8.len() > 0 {
        proof {
            crate::bytes::lemma_bytes_deep_view(p8@[0]);
        }
        return Ok((crate::bytes::clone_bytes(&p8[0]), KeyKind::Pkcs8));
    }
    let ec = match parse_pem_ec_keys(pem) {
        None => {
            return Err(NetError::KeyDecode);
        },
        Some(v) => v,
    };
    if ec.len() > 0 {
        proof {
            crate::bytes::lemma_bytes_deep_view(ec@[0]);
        }
        return Ok((crate::bytes::clone_bytes(&ec[0]), KeyKind::Ec));
    }
    Err(NetError::KeysNotFound)
}

} // verus!
