//! The argument sets of the public operations, and how they become a
//! client-side TLS configuration.
//!
//! A caller supplies CA certificates as PEM strings and ALPN protocols as
//! strings; the helpers here turn them into DER trust anchors and byte
//! protocol names, with exact contracts over the PEM names.

use vstd::prelude::*;

verus! {

use vstd::string::StringSliceAdditionalSpecFns;
use vstd::utf8::encode_utf8;

use crate::bytes::{append_byte_list, lemma_bytes_deep_view};
use crate::errors::NetError;
use crate::pem::{parse_pem_certs, pem_certs};

/// Arguments of a client connect.
#[derive(Debug)]
pub struct ConnectTlsArgs {
    /// A path to a PEM file of extra CA certificates; the caller loads it
    /// and passes its bytes alongside.
    pub cert_file: Option<String>,
    /// Extra CA certificates, each one PEM blob.
    pub ca_certs: Vec<String>,
    /// The ALPN protocols to offer, most preferred first.
    pub alpn_protocols: Option<Vec<String>>,
    /// A server name to present instead of the connection hostname.
    pub server_name: Option<String>,
}

/// Arguments of the upgrade in place.
#[derive(Debug)]
pub struct StartTlsArgs {
    /// The id of the plaintext stream resource to consume.
    pub rid: usize,
    /// Extra CA certificates, each one PEM blob.
    pub ca_certs: Vec<String>,
    /// The server name; an empty string means `localhost`.
    pub hostname: String,
    /// The ALPN protocols to offer, most preferred first.
    pub alpn_protocols: Option<Vec<String>>,
    /// A request to skip certificate verification when `Some(false)`,
    /// carried for fidelity with the wire arguments. The request alone
    /// never disables verification — only membership of the process-wide
    /// bypass allow-list does, failing closed — so no contract reads this
    /// field.
    pub reject_unauthorized: Option<bool>,
}

/// The effective server name of an upgrade in place: an empty hostname
/// means `localhost`.
pub open spec fn spec_start_host(h: Seq<char>) -> Seq<char> {
    if h.len() == 0 {
        "localhost"@
    } else {
        h
    }
}

/// Compute the effective server name of an upgrade in place.
pub fn start_host(hostname: &str) -> (r: String)
    ensures
        r@ == spec_start_host(hostname@),
{
    if hostname.is_empty() {
        "localhost".to_owned()
    } else {
        hostname.to_owned()
    }
}

/// Arguments of a TLS listen.
#[derive(Debug)]
pub struct ListenTlsArgs {
    /// The ALPN protocols the listener supports, most preferred first.
    pub alpn_protocols: Option<Vec<String>>,
    /// Share the port with other listeners at the OS level.
    pub reuse_port: bool,
    /// Distribute accepted connections by an external balancing strategy.
    pub load_balanced: bool,
}

/// The byte strings an optional ALPN protocol list stands for; no list
/// means no ALPN.
pub open spec fn spec_alpn_bytes(alpn: Option<Vec<String>>) -> Seq<Seq<u8>> {
    match alpn {
        None => Seq::empty(),
        Some(v) => Seq::new(v@.len(), |i: int| encode_utf8(v@[i]@)),
    }
}

/// Turn an optional ALPN protocol list into byte strings.
pub fn alpn_to_bytes(alpn: &Option<Vec<String>>) -> (r: Vec<Vec<u8>>)
    ensures
        r.deep_view() == spec_alpn_bytes(*alpn),
{
    let mut out: Vec<Vec<u8>> = Vec::new();
    match alpn {
        None => {},
        Some(v) => {
            let n = v.len();
            let mut i: usize = 0;
            while i < n
                invariant
                    n == v@.len(),
                    0 <= i <= n,
                    out@.len() == i,
                    forall|j: int| 0 <= j < i ==> out.deep_view()[j] == encode_utf8(v@[j]@),
                decreases n - i,
            {
                let b = vstd::slice::slice_to_vec(v[i].as_str().as_bytes());
                proof {
                    lemma_bytes_deep_view(b);
                    assert(b@ == encode_utf8(v@[i as int]@));
                }
                let ghost pre = out.deep_view();
                out.push(b);
                proof {
                    assert forall|j: int| 0 <= j < i + 1 implies out.deep_view()[j] == encode_utf8(
                        v@[j]@,
                    ) by {
                        if j < i {
                            assert(out.deep_view()[j] == pre[j]);
                        } else {
                            assert(out.deep_view()[j] == b.deep_view());
                        }
                    }
                }
                i += 1;
            }
        },
    }
    proof {
        assert(out.deep_view() =~= spec_alpn_bytes(*alpn));
    }
    out
}

/// The trust anchors a list of PEM blobs adds: each blob's certificates in
/// order, flattened, starting at entry `i`; `None` when any blob is
/// malformed.
pub open spec fn spec_roots_from(pems: Seq<Seq<u8>>, i: int) -> Option<Seq<Seq<u8>>>
    decreases pems.len() - i,
{
    if i < 0 || i >= pems.len() {
        Some(Seq::empty())
    } else {
        match pem_certs(pems[i]) {
            None => None,
            Some(cs) => match spec_roots_from(pems, i + 1) {
                None => None,
                Some(rest) => Some(cs + rest),
            },
        }
    }
}

/// The PEM byte blobs of a list of PEM strings.
pub open spec fn spec_pem_list(v: Vec<String>) -> Seq<Seq<u8>> {
    Seq::new(v@.len(), |i: int| encode_utf8(v@[i]@))
}

/// The trust anchors a list of CA-certificate PEM strings adds.
pub open spec fn spec_added_roots(v: Vec<String>) -> Option<Seq<Seq<u8>>> {
    spec_roots_from(spec_pem_list(v), 0)
}

/// Parse every CA-certificate PEM string and append the certificates found
/// to `roots`, in order. Fails with `CertInvalid`, leaving `roots` as it
/// was, when any blob is malformed.
pub fn add_ca_certs(roots: &mut Vec<Vec<u8>>, ca_certs: &Vec<String>) -> (r: Result<
    (),
    NetError,
>)
    ensures
        match spec_added_roots(*ca_certs) {
            None => r == Err::<(), NetError>(NetError::CertInvalid) && *final(roots) == *old(
                roots,
            ),
            Some(added) => r matches Ok(()) && final(roots).deep_view() == old(
                roots,
            ).deep_view() + added,
        },
{
    let ghost pems = spec_pem_list(*ca_certs);
    let n = ca_certs.len();
    let mut added: Vec<Vec<u8>> = Vec::new();
    let mut i: usize = 0;
    while i < n
        invariant
            n == ca_certs@.len(),
            0 <= i <= n,
            pems == spec_pem_list(*ca_certs),
            match spec_roots_from(pems, i as int) {
                None => spec_roots_from(pems, 0) is None,
                Some(rest) => spec_roots_from(pems, 0) == Some(added.deep_view() + rest),
            },
        decreases n - i,
    {
        let parsed = match parse_pem_certs(ca_certs[i].as_str().as_bytes()) {
            None => {
                assert(spec_roots_from(pems, i as int) is None);
                return Err(NetError::CertInvalid);
            },
            Some(cs) => cs,
        };
        let ghost pre = added.deep_view();
        append_byte_list(&mut added, &parsed);
        proof {
            let cs = pem_certs(pems[i as int])->0;
            assert(parsed.deep_view() == cs);
            let next = spec_roots_from(pems, i as int + 1);
            if next is Some {
                let rest = next->0;
                assert(added.deep_view() + rest =~= pre + (cs + rest));
            }
        }
        i += 1;
    }
    proof {
        assert(spec_roots_from(pems, n as int) == Some(Seq::<Seq<u8>>::empty()));
        let total = spec_roots_from(pems, 0)->0;
        assert(total =~= added.deep_view() + Seq::<Seq<u8>>::empty());
        assert(total =~= added.deep_view());
    }
    append_byte_list(roots, &added);
    Ok(())
}

} // verus!
