//! Laws of the transport layer that span more than one operation.
//!
//! Laws of a single operation — at most one read and one write in flight
//! per stream, cancellation of pending reads, the busy failure of the
//! upgrade in place leaving the resource untouched, single fulfilment of
//! resolver entries — stand as the `ensures` of the operations themselves.
//! What follows relates consecutive operations.

use vstd::prelude::*;

verus! {

use crate::errors::NetError;
use crate::system::{HandshakePoll, NetSystem};

/// Law: the handshake is idempotent. Once a handshake observation has
/// produced a snapshot, a second observation of the same stream returns
/// the identical snapshot and changes nothing at all — in particular, the
/// cryptographic handshake does not run again, and across both calls it
/// has run at most once more than before the first.
pub proof fn lemma_handshake_idempotent(
    s0: NetSystem,
    s1: NetSystem,
    s2: NetSystem,
    rid: usize,
    r1: Result<HandshakePoll, NetError>,
    r2: Result<HandshakePoll, NetError>,
)
    requires
        s0.wf(),
        NetSystem::spec_handshake_transition(s0, s1, rid, r1),
        NetSystem::spec_handshake_transition(s1, s2, rid, r2),
        r1 matches Ok(HandshakePoll::Ready(_)),
    ensures
        r1 matches Ok(HandshakePoll::Ready(i1)) ==> (r2 matches Ok(HandshakePoll::Ready(i2)) && i2@
            == i1@),
        s2 == s1,
        ({
            let cid = s0.stream_at(rid).conn;
            s2.conns@[cid as int].crypto_runs <= s0.conns@[cid as int].crypto_runs + 1
        }),
{
    assert(s0.is_stream(rid));
    let st0 = s0.stream_at(rid);
    assert(s1.is_stream(rid));
    assert(s1.stream_at(rid).handshake_info is Some);
    if st0.handshake_info is Some {
        assert(s1 == s0);
    }
}

/// Law: answers to distinct pending lookups are independent. Fulfilling
/// one hostname's entry touches no entry of another hostname and no other
/// connection, so an error delivered for one hostname fails only the
/// handshake that requested it: this follows from the `ensures` of
/// `op_tls_cert_resolver_resolve` and `op_tls_cert_resolver_resolve_error`,
/// restated here for two consecutive answers.
pub proof fn lemma_resolver_answers_independent(
    pre: NetSystem,
    mid: NetSystem,
    rid: usize,
    sni_a: Seq<char>,
    k: int,
)
    requires
        pre.is_lookup(rid),
        mid.is_lookup(rid),
        // the first answer fulfilled entry `k` for `sni_a` and left every
        // other entry alone, as the resolver operations ensure
        crate::resolver::spec_polled_match(pre.lookup_at(rid), sni_a, k),
        mid.lookup_at(rid).entries@ == pre.lookup_at(rid).entries@.update(
            k,
            crate::resolver::LookupEntry {
                state: crate::resolver::LookupState::Answered,
                ..pre.lookup_at(rid).entries@[k]
            },
        ),
    ensures
        // every pending entry of a different hostname is still pending,
        // exactly as it was
        forall|j: int|
            crate::resolver::spec_polled_match(pre.lookup_at(rid), sni_a, j) || j == k || !(0 <= j
                < pre.lookup_at(rid).entries@.len()) || mid.lookup_at(rid).entries@[j]
                == pre.lookup_at(rid).entries@[j],
        // and the answered entry is never again a pending match, so a
        // second answer for the same hostname can only reach another entry
        !crate::resolver::spec_polled_match(mid.lookup_at(rid), sni_a, k),
{
}

} // verus!
