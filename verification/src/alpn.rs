//! ALPN protocol selection.
//!
//! During the handshake the server picks the application protocol: the
//! first entry of its own preference list that the client also offered.
//! When either side does not take part in ALPN, no protocol is negotiated;
//! when both take part and share no protocol, the handshake fails.

use vstd::prelude::*;

verus! {

use crate::bytes::{clone_bytes, contains_bytes, lemma_bytes_deep_view};
use crate::errors::NetError;

/// The first protocol of the server's preference list that the client also
/// offered, if any.
pub open spec fn spec_select_alpn(server: Seq<Seq<u8>>, client: Seq<Seq<u8>>) -> Option<Seq<u8>>
    decreases server.len(),
{
    if server.len() == 0 {
        None
    } else if client.contains(server[0]) {
        Some(server[0])
    } else {
        spec_select_alpn(server.drop_first(), client)
    }
}

/// The outcome of ALPN negotiation: `Ok(None)` when either side does not
/// take part, `Ok(Some(p))` for the server's first preference the client
/// offered, and `NoApplicationProtocol` when both take part but share no
/// protocol.
pub open spec fn spec_alpn_outcome(server: Seq<Seq<u8>>, client: Seq<Seq<u8>>) -> Result<
    Option<Seq<u8>>,
    NetError,
> {
    if server.len() == 0 || client.len() == 0 {
        Ok(None)
    } else {
        match spec_select_alpn(server, client) {
            Some(p) => Ok(Some(p)),
            None => Err(NetError::NoApplicationProtocol),
        }
    }
}

/// Skipping prefixes that the client did not offer does not change the
/// selected protocol.
proof fn lemma_select_skip(server: Seq<Seq<u8>>, client: Seq<Seq<u8>>, i: int)
    requires
        0 <= i <= server.len(),
        forall|j: int| 0 <= j < i ==> !client.contains(server[j]),
    ensures
        spec_select_alpn(server, client) == spec_select_alpn(server.skip(i), client),
    decreases i,
{
    if i == 0 {
        assert(server.skip(0) =~= server);
    } else {
        assert(!client.contains(server[0]));
        lemma_select_skip(server.drop_first(), client, i - 1);
        assert(server.drop_first().skip(i - 1) =~= server.skip(i));
    }
}

/// Select the negotiated ALPN protocol, server preference first.
pub fn negotiate_alpn(server: &Vec<Vec<u8>>, client: &Vec<Vec<u8>>) -> (r: Result<
    Option<Vec<u8>>,
    NetError,
>)
    ensures
        match spec_alpn_outcome(server.deep_view(), client.deep_view()) {
            Ok(None) => r matches Ok(None),
            Ok(Some(p)) => r matches Ok(Some(v)) && v@ == p,
            Err(e) => r == Err::<Option<Vec<u8>>, NetError>(e),
        },
{
    if server.len() == 0 || client.len() == 0 {
        return Ok(None);
    }
    let n = server.len();
    let mut i: usize = 0;
    while i < n
        invariant
            n == server@.len(),
            0 <= i <= n,
            n > 0,
            client@.len() > 0,
            forall|j: int| 0 <= j < i ==> !client.deep_view().contains(server.deep_view()[j]),
        decreases n - i,
    {
        proof {
            lemma_bytes_deep_view(server@[i as int]);
        }
        if contains_bytes(client, &server[i]) {
            proof {
                lemma_select_skip(server.deep_view(), client.deep_view(), i as int);
                assert(server.deep_view().skip(i as int)[0] == server.deep_view()[i as int]);
                assert(spec_select_alpn(server.deep_view(), client.deep_view()) == Some(
                    server.deep_view()[i as int],
                ));
            }
            return Ok(Some(clone_bytes(&server[i])));
        }
        i += 1;
    }
    proof {
        lemma_select_skip(server.deep_view(), client.deep_view(), n as int);
        assert(server.deep_view().skip(n as int).len() == 0);
    }
    Err(NetError::NoApplicationProtocol)
}

} // verus!
