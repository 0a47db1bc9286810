//! The operation surface of the transport layer.
//!
//! A `NetSystem` holds the resource registry, the table of established
//! connections, and the process-wide client configuration (default trust
//! anchors and the certificate-verification bypass allow-list). Every
//! public operation is a step of the model: address resolution, permission
//! checks and raw sockets are external collaborators, so the model resolves
//! any non-empty hostname to itself and establishes a connection whenever a
//! listener is bound at the target address.

use vstd::prelude::*;

verus! {

use crate::args::{
    alpn_to_bytes,
    spec_added_roots,
    spec_alpn_bytes,
    add_ca_certs,
    ConnectTlsArgs,
    ListenTlsArgs,
    StartTlsArgs,
};
use crate::bytes::{append_byte_list, clone_byte_list, contains_string};
use crate::conn::{
    compute_handshake_outcome,
    spec_handshake_outcome,
    spec_same_addr,
    ClientCfg,
    Conn,
    ConnStatus,
    NetAddr,
    ServerKeyState,
    Side,
    TransportKind,
};
use crate::errors::NetError;
use crate::keys::{spec_client_key, TlsKeys};
use crate::listener::{ListenerMode, TlsListener};
use crate::info::HandshakeInfo;
use crate::pem::{check_server_name, parse_pem_certs, pem_certs, valid_server_name};
use crate::registry::{Registry, Resource, Slot};
use crate::resolver::{LookupEntry, LookupState, LookupTable};
use crate::stream::{spec_fresh_stream, PlainStream, TlsStreamResource};

/// The lowest port the model hands out to connecting ends.
pub const FIRST_EPHEMERAL_PORT: u16 = 49152;

/// What an accept step produced: a connection, or nothing yet.
#[derive(Debug)]
pub enum AcceptPoll {
    /// An accepted connection: the new stream resource id, the local and
    /// the peer address.
    Ready(usize, NetAddr, NetAddr),
    /// No connection is waiting; the accept stays outstanding.
    Pending,
}

/// What a handshake step produced: the snapshot, or nothing yet.
#[derive(Debug)]
pub enum HandshakePoll {
    /// The completed handshake's snapshot.
    Ready(HandshakeInfo),
    /// The handshake is suspended, waiting for the resolver.
    Pending,
}

/// What a read step produced: bytes (none at all meaning end of stream),
/// or nothing yet.
#[derive(Debug)]
pub enum ReadPoll {
    /// Bytes read; an empty vector is the end of the stream.
    Ready(Vec<u8>),
    /// Nothing to read yet; the read stays in flight.
    Pending,
}

/// What a write step produced: a byte count, or nothing yet.
#[derive(Debug)]
pub enum WritePoll {
    /// How many bytes were written and flushed.
    Ready(usize),
    /// The connection is not ready to carry data yet; the write stays in
    /// flight.
    Pending,
}

/// The whole modelled transport layer.
#[derive(Debug)]
pub struct NetSystem {
    /// The resource registry.
    pub registry: Registry,
    /// Every connection ever established, by id.
    pub conns: Vec<Conn>,
    /// The default trust anchors, in DER.
    pub default_roots: Vec<Vec<u8>>,
    /// The process-wide bypass allow-list: certificate verification is
    /// disabled exactly for the hostnames on it. `None` means no bypass is
    /// configured at all.
    pub ic_allowlist: Option<Vec<String>>,
    /// The next ephemeral port to hand out.
    pub next_port: u16,
}

impl NetSystem {
    /// The registry's slots.
    pub open spec fn slots(&self) -> Seq<Option<Slot>> {
        self.registry.slots@
    }

    /// Whether `rid` names an open (not closed, not freed) slot.
    pub open spec fn open_at(&self, rid: usize) -> bool {
        self.registry.open_at(rid)
    }

    /// Whether `rid` names a slot that still exists, possibly closed.
    pub open spec fn live_at(&self, rid: usize) -> bool {
        self.registry.live(rid)
    }

    /// Whether `rid` names an open TLS stream.
    pub open spec fn is_stream(&self, rid: usize) -> bool {
        self.open_at(rid) && self.registry.slot_at(rid).value is Stream
    }

    /// Whether `rid` names a TLS stream, open or closed.
    pub open spec fn is_stream_live(&self, rid: usize) -> bool {
        self.live_at(rid) && self.registry.slot_at(rid).value is Stream
    }

    /// The stream `rid` names.
    pub open spec fn stream_at(&self, rid: usize) -> TlsStreamResource
        recommends
            self.is_stream_live(rid),
    {
        self.registry.slot_at(rid).value->Stream_0
    }

    /// Whether `rid` names an open listener.
    pub open spec fn is_listener(&self, rid: usize) -> bool {
        self.open_at(rid) && self.registry.slot_at(rid).value is Listener
    }

    /// The listener `rid` names.
    pub open spec fn listener_at(&self, rid: usize) -> TlsListener
        recommends
            self.live_at(rid),
    {
        self.registry.slot_at(rid).value->Listener_0
    }

    /// Whether `rid` names an open lookup queue.
    pub open spec fn is_lookup(&self, rid: usize) -> bool {
        self.open_at(rid) && self.registry.slot_at(rid).value is Lookup
    }

    /// The lookup queue `rid` names.
    pub open spec fn lookup_at(&self, rid: usize) -> LookupTable
        recommends
            self.live_at(rid),
    {
        self.registry.slot_at(rid).value->Lookup_0
    }

    /// Whether `rid` names an open plaintext stream.
    pub open spec fn is_plain(&self, rid: usize) -> bool {
        self.open_at(rid) && self.registry.slot_at(rid).value is Plain
    }

    /// The plaintext stream `rid` names.
    pub open spec fn plain_at(&self, rid: usize) -> PlainStream
        recommends
            self.live_at(rid),
    {
        self.registry.slot_at(rid).value->Plain_0
    }

    /// Every connection id a slot mentions stays inside the connection
    /// table.
    pub open spec fn slot_wf(&self, i: int) -> bool {
        match self.slots()[i] {
            None => true,
            Some(slot) => match slot.value {
                Resource::Stream(st) => st.conn < self.conns@.len(),
                Resource::Listener(l) => forall|j: int|
                    0 <= j < l.backlog@.len() ==> l.backlog@[j] < self.conns@.len(),
                Resource::Lookup(t) => forall|j: int|
                    0 <= j < t.entries@.len() ==> t.entries@[j].conn < self.conns@.len(),
                Resource::Plain(_) => true,
            },
        }
    }

    /// Before its cryptographic handshake ran, a connection counts no
    /// run; and a failed handshake always holds a protocol-level error.
    pub open spec fn conn_wf(&self, j: int) -> bool {
        &&& (self.conns@[j].status is Fresh ==> self.conns@[j].crypto_runs == 0)
        &&& (self.conns@[j].status matches ConnStatus::Failed { err } ==> err.spec_kind()
            == crate::errors::ErrorKind::Protocol)
    }

    /// The system invariant: every slot and every connection is well
    /// formed.
    pub open spec fn wf(&self) -> bool {
        &&& forall|i: int| 0 <= i < self.slots().len() ==> self.slot_wf(i)
        &&& forall|j: int| 0 <= j < self.conns@.len() ==> self.conn_wf(j)
    }

    /// Everything outside the registry and connection table is unchanged,
    /// and every registry slot below the old length is unchanged.
    pub open spec fn spec_grew(pre: NetSystem, post: NetSystem) -> bool {
        &&& post.slots().len() >= pre.slots().len()
        &&& forall|j: int| 0 <= j < pre.slots().len() ==> post.slots()[j] == pre.slots()[j]
        &&& post.conns@.len() >= pre.conns@.len()
        &&& forall|j: int| 0 <= j < pre.conns@.len() ==> post.conns@[j] == pre.conns@[j]
        &&& post.default_roots == pre.default_roots
        &&& post.ic_allowlist == pre.ic_allowlist
    }

    /// Appending one well-formed slot to a well-formed system keeps it
    /// well formed.
    proof fn lemma_wf_after_register(pre: NetSystem, post: NetSystem)
        requires
            pre.wf(),
            post.conns == pre.conns,
            post.slots().len() == pre.slots().len() + 1,
            forall|j: int| 0 <= j < pre.slots().len() ==> post.slots()[j] == pre.slots()[j],
            post.slot_wf(pre.slots().len() as int),
        ensures
            post.wf(),
    {
        assert forall|i: int| 0 <= i < post.slots().len() implies post.slot_wf(i) by {
            if i < pre.slots().len() {
                assert(pre.slot_wf(i));
            }
        }
        assert forall|j: int| 0 <= j < post.conns@.len() implies post.conn_wf(j) by {
            assert(pre.conn_wf(j));
        }
    }

    /// A fresh system: an empty registry, no connections, the given
    /// process-wide configuration.
    pub fn new(default_roots: Vec<Vec<u8>>, ic_allowlist: Option<Vec<String>>) -> (r: NetSystem)
        ensures
            r.wf(),
            r.slots().len() == 0,
            r.conns@.len() == 0,
            r.default_roots == default_roots,
            r.ic_allowlist == ic_allowlist,
    {
        NetSystem {
            registry: Registry::empty(),
            conns: Vec::new(),
            default_roots,
            ic_allowlist,
            next_port: FIRST_EPHEMERAL_PORT,
        }
    }

    /// Register an open plaintext connection, as the plain-socket layer
    /// does after a raw connect; the upgrade in place consumes it later.
    pub fn register_plain_stream(
        &mut self,
        kind: TransportKind,
        local_addr: NetAddr,
        remote_addr: NetAddr,
    ) -> (rid: usize)
        requires
            old(self).wf(),
        ensures
            final(self).wf(),
            rid == old(self).slots().len(),
            NetSystem::spec_grew(*old(self), *final(self)),
            final(self).slots().len() == old(self).slots().len() + 1,
            final(self).conns == old(self).conns,
            final(self).next_port == old(self).next_port,
            final(self).is_plain(rid),
            final(self).plain_at(rid) == (PlainStream { kind, local_addr, remote_addr }),
            final(self).registry.slot_at(rid).refs == 1,
    {
        let rid = self.registry.register(
            Resource::Plain(PlainStream { kind, local_addr, remote_addr }),
        );
        proof {
            assert(self.slot_wf(rid as int));
            Self::lemma_wf_after_register(*old(self), *self);
        }
        rid
    }

    /// Create a certificate resolver: its lookup queue is registered as a
    /// resource, and key material naming the queue's id drives a listener
    /// in resolver mode.
    pub fn op_tls_cert_resolver_create(&mut self) -> (rid: usize)
        requires
            old(self).wf(),
        ensures
            final(self).wf(),
            rid == old(self).slots().len(),
            NetSystem::spec_grew(*old(self), *final(self)),
            final(self).slots().len() == old(self).slots().len() + 1,
            final(self).conns == old(self).conns,
            final(self).next_port == old(self).next_port,
            final(self).is_lookup(rid),
            final(self).lookup_at(rid).entries@.len() == 0,
            final(self).registry.slot_at(rid).refs == 1,
    {
        let rid = self.registry.register(Resource::Lookup(LookupTable::empty()));
        proof {
            assert(self.slot_wf(rid as int));
            Self::lemma_wf_after_register(*old(self), *self);
        }
        rid
    }

    /// Whether binding at `a` with the given sharing flag collides with a
    /// listener already bound there: ports are shared only when every
    /// binder asks to share.
    pub open spec fn spec_bind_conflict(&self, a: NetAddr, reuse: bool) -> bool {
        exists|i: usize|
            self.listener_match(a, i) && !(self.listener_at(i).reuse_port && reuse)
    }

    /// Check at run time what `spec_bind_conflict` states.
    fn bind_conflict(&self, a: &NetAddr, reuse: bool) -> (r: bool)
        ensures
            r == self.spec_bind_conflict(*a, reuse),
    {
        let n = self.registry.slots.len();
        let mut i: usize = 0;
        while i < n
            invariant
                n == self.slots().len(),
                0 <= i <= n,
                forall|j: usize|
                    j < i ==> !(self.listener_match(*a, j) && !(self.listener_at(j).reuse_port
                        && reuse)),
            decreases n - i,
        {
            match &self.registry.slots[i] {
                None => {},
                Some(slot) => match &slot.value {
                    Resource::Listener(l) => {
                        if !slot.closed && l.local_addr.same_as(a) && !(l.reuse_port && reuse) {
                            assert(self.listener_match(*a, i) && !(self.listener_at(i).reuse_port
                                && reuse));
                            return true;
                        }
                    },
                    _ => {},
                },
            }
            i += 1;
        }
        assert forall|j: usize| !(self.listener_match(*a, j) && !(self.listener_at(j).reuse_port
            && reuse)) by {
            if j < n {
            }
        }
        false
    }

    /// Bind a TLS listener.
    ///
    /// Address resolution is an external collaborator: the model resolves
    /// any non-empty hostname to itself, and an empty hostname to no
    /// candidate at all. An address already bound collides unless every
    /// binder shares the port. The bound address returned is the requested
    /// address: the OS allocating a real port for a port-0 bind is not
    /// modelled. The listener needs key material: `Null` keys are
    /// rejected; fixed keys serve every connection, resolver keys defer
    /// the choice to a per-connection lookup.
    pub fn op_net_listen_tls(&mut self, addr: NetAddr, args: ListenTlsArgs, keys: TlsKeys) -> (r:
        Result<(usize, NetAddr), NetError>)
        requires
            old(self).wf(),
        ensures
            final(self).wf(),
            addr.hostname@.len() == 0 ==> r == Err::<(usize, NetAddr), NetError>(
                NetError::NoResolvedAddress,
            ) && *final(self) == *old(self),
            addr.hostname@.len() > 0 && old(self).spec_bind_conflict(addr, args.reuse_port) ==> r
                == Err::<(usize, NetAddr), NetError>(NetError::AddrInUse) && *final(self) == *old(
                self,
            ),
            addr.hostname@.len() > 0 && !old(self).spec_bind_conflict(addr, args.reuse_port)
                && keys is Null ==> r == Err::<(usize, NetAddr), NetError>(
                NetError::ListenTlsRequiresKey,
            ) && *final(self) == *old(self),
            addr.hostname@.len() > 0 && !old(self).spec_bind_conflict(addr, args.reuse_port) && !(
            keys is Null) ==> {
                &&& NetSystem::spec_grew(*old(self), *final(self))
                &&& final(self).slots().len() == old(self).slots().len() + 1
                &&& final(self).conns == old(self).conns
                &&& final(self).next_port == old(self).next_port
                &&& (r matches Ok((rid, bound)) && rid == old(self).slots().len() && bound == addr
                    && final(self).is_listener(rid) && ({
                    let l = final(self).listener_at(rid);
                    &&& l.local_addr == addr
                    &&& l.alpn.deep_view() == spec_alpn_bytes(args.alpn_protocols)
                    &&& (keys matches TlsKeys::Static(k) ==> l.mode matches ListenerMode::Fixed {
                        chain,
                    } && chain.deep_view() == k.cert_chain.deep_view())
                    &&& (keys matches TlsKeys::Resolver(lr) ==> l.mode == (
                    ListenerMode::Resolver { lookup_rid: lr }))
                    &&& !l.accept_pending
                    &&& l.backlog@.len() == 0
                    &&& l.reuse_port == args.reuse_port
                    &&& l.load_balanced == args.load_balanced
                }))
            },
    {
        if addr.hostname.as_str().is_empty() {
            return Err(NetError::NoResolvedAddress);
        }
        if self.bind_conflict(&addr, args.reuse_port) {
            return Err(NetError::AddrInUse);
        }
        let alpn = alpn_to_bytes(&args.alpn_protocols);
        let mode = match keys {
            TlsKeys::Null => {
                return Err(NetError::ListenTlsRequiresKey);
            },
            TlsKeys::Static(k) => ListenerMode::Fixed { chain: k.cert_chain },
            TlsKeys::Resolver(lookup_rid) => ListenerMode::Resolver { lookup_rid },
        };
        let bound = addr.duplicate();
        let listener = TlsListener {
            local_addr: addr,
            alpn,
            mode,
            reuse_port: args.reuse_port,
            load_balanced: args.load_balanced,
            accept_pending: false,
            backlog: Vec::new(),
        };
        let rid = self.registry.register(Resource::Listener(listener));
        proof {
            assert(self.slot_wf(rid as int));
            Self::lemma_wf_after_register(*old(self), *self);
        }
        Ok((rid, bound))
    }

    /// Whether `rid` names an open listener bound at `a`.
    pub open spec fn listener_match(&self, a: NetAddr, rid: usize) -> bool {
        self.is_listener(rid) && spec_same_addr(self.listener_at(rid).local_addr, a)
    }

    /// The lowest listener id bound at `a`, searching from index `i` up.
    pub open spec fn spec_find_listener_from(&self, a: NetAddr, i: int) -> Option<usize>
        decreases self.slots().len() - i,
    {
        if i < 0 || i >= self.slots().len() {
            None
        } else if self.listener_match(a, i as usize) {
            Some(i as usize)
        } else {
            self.spec_find_listener_from(a, i + 1)
        }
    }

    /// The listener a connect to `a` reaches: the lowest listener id bound
    /// there.
    pub open spec fn spec_find_listener(&self, a: NetAddr) -> Option<usize> {
        self.spec_find_listener_from(a, 0)
    }

    /// A found listener id really names an open listener bound at `a`.
    pub proof fn lemma_find_listener_some(s: NetSystem, a: NetAddr, i: int, k: usize)
        requires
            s.spec_find_listener_from(a, i) == Some(k),
        ensures
            s.listener_match(a, k),
        decreases s.slots().len() - i,
    {
        if i < 0 || i >= s.slots().len() {
        } else if s.listener_match(a, i as usize) {
        } else {
            Self::lemma_find_listener_some(s, a, i + 1, k);
        }
    }

    /// Find the listener a connect to `a` reaches.
    fn find_listener(&self, a: &NetAddr) -> (r: Option<usize>)
        ensures
            r == self.spec_find_listener(*a),
    {
        let n = self.registry.slots.len();
        let mut i: usize = 0;
        while i < n
            invariant
                n == self.slots().len(),
                0 <= i <= n,
                self.spec_find_listener(*a) == self.spec_find_listener_from(*a, i as int),
            decreases n - i,
        {
            let hit = match &self.registry.slots[i] {
                None => false,
                Some(slot) => if slot.closed {
                    false
                } else {
                    match &slot.value {
                        Resource::Listener(l) => l.local_addr.same_as(a),
                        _ => false,
                    }
                },
            };
            if hit {
                assert(self.listener_match(*a, i));
                return Some(i);
            }
            assert(!self.listener_match(*a, i));
            i += 1;
        }
        None
    }

    /// The server name a connect presents: the override when given, the
    /// connection hostname otherwise.
    pub open spec fn spec_sni(addr: NetAddr, args: ConnectTlsArgs) -> Seq<char> {
        match args.server_name {
            Some(s) => s@,
            None => addr.hostname@,
        }
    }

    /// Whether certificate verification is disabled for a server name:
    /// exactly when the process-wide bypass allow-list holds it. A caller's
    /// request alone never disables verification.
    pub open spec fn spec_bypass(&self, host: Seq<char>) -> bool {
        match self.ic_allowlist {
            None => false,
            Some(l) => exists|i: int| 0 <= i < l@.len() && l@[i]@ == host,
        }
    }

    /// The trust anchors of a connect: the default store, then the extra
    /// CA certificates, then the certificates of the loaded file; `None`
    /// when any PEM blob is malformed.
    pub open spec fn spec_connect_roots(
        &self,
        ca_certs: Vec<String>,
        cert_file_pem: Option<Vec<u8>>,
    ) -> Option<Seq<Seq<u8>>> {
        match spec_added_roots(ca_certs) {
            None => None,
            Some(added) => match cert_file_pem {
                None => Some(self.default_roots.deep_view() + added),
                Some(pem) => match pem_certs(pem@) {
                    None => None,
                    Some(cs) => Some(self.default_roots.deep_view() + added + cs),
                },
            },
        }
    }

    /// What every fresh connection looks like, whatever its handshake
    /// state: the client configuration as built, empty pipes, no shutdown.
    pub open spec fn spec_conn_shell(
        c: Conn,
        roots: Seq<Seq<u8>>,
        calpn: Seq<Seq<u8>>,
        sni: Seq<char>,
        disabled: bool,
        salpn: Seq<Seq<u8>>,
    ) -> bool {
        &&& c.client.roots.deep_view() == roots
        &&& c.client.alpn.deep_view() == calpn
        &&& c.client.sni@ == sni
        &&& c.client.verify_disabled == disabled
        &&& c.server_alpn.deep_view() == salpn
        &&& c.client_to_server@.len() == 0
        &&& c.server_to_client@.len() == 0
        &&& !c.client_shutdown
        &&& !c.server_shutdown
    }

    /// The registry and connection table after a successful connect: one
    /// new connection, the listener's backlog extended by it, one new
    /// client stream resource, every other slot untouched.
    pub open spec fn spec_connect_success_shape(
        pre: NetSystem,
        post: NetSystem,
        lrid: usize,
        r: Result<(usize, NetAddr, NetAddr), NetError>,
    ) -> bool {
        let cid = pre.conns@.len() as usize;
        let rid = pre.slots().len() as usize;
        &&& post.conns@.len() == pre.conns@.len() + 1
        &&& forall|j: int| 0 <= j < pre.conns@.len() ==> post.conns@[j] == pre.conns@[j]
        &&& post.slots().len() == pre.slots().len() + 1
        &&& forall|j: int|
            0 <= j < pre.slots().len() && j != lrid ==> post.slots()[j] == pre.slots()[j]
        &&& post.is_listener(lrid)
        &&& post.listener_at(lrid).backlog@ == pre.listener_at(lrid).backlog@.push(cid)
        &&& post.listener_at(lrid).local_addr == pre.listener_at(lrid).local_addr
        &&& post.listener_at(lrid).alpn == pre.listener_at(lrid).alpn
        &&& post.listener_at(lrid).mode == pre.listener_at(lrid).mode
        &&& post.listener_at(lrid).accept_pending == pre.listener_at(lrid).accept_pending
        &&& post.registry.slot_at(lrid).refs == pre.registry.slot_at(lrid).refs
        &&& post.registry.slot_at(lrid).closed == pre.registry.slot_at(lrid).closed
        &&& post.is_stream(rid)
        &&& ({
            let st = post.stream_at(rid);
            &&& st.kind == TransportKind::Tcp
            &&& st.side == Side::Client
            &&& st.conn == cid
            &&& st.local_addr.hostname@ == "127.0.0.1"@
            &&& st.local_addr.port == pre.next_port
            &&& spec_same_addr(st.remote_addr, pre.listener_at(lrid).local_addr)
            &&& !st.read_pending
            &&& !st.write_pending
            &&& st.handshake_info is None
            &&& !st.cancelled
        })
        &&& post.default_roots == pre.default_roots
        &&& post.ic_allowlist == pre.ic_allowlist
        &&& (r matches Ok((orid, laddr, raddr)) && orid == rid && laddr.hostname@ == "127.0.0.1"@
            && laddr.port == pre.next_port && spec_same_addr(
            raddr,
            pre.listener_at(lrid).local_addr,
        ))
    }

    /// The ephemeral port following `p`.
    pub open spec fn spec_next_port(p: u16) -> u16 {
        if p == u16::MAX {
            FIRST_EPHEMERAL_PORT
        } else {
            (p + 1) as u16
        }
    }

    /// Hand out the next ephemeral client address.
    fn alloc_client_addr(&mut self) -> (a: NetAddr)
        ensures
            a.hostname@ == "127.0.0.1"@,
            a.port == old(self).next_port,
            *final(self) == (NetSystem {
                next_port: Self::spec_next_port(old(self).next_port),
                ..*old(self)
            }),
    {
        let a = NetAddr { hostname: "127.0.0.1".to_owned(), port: self.next_port };
        if self.next_port == u16::MAX {
            self.next_port = FIRST_EPHEMERAL_PORT;
        } else {
            self.next_port = self.next_port + 1;
        }
        a
    }

    /// Growing the connection table by well-formed connections never
    /// breaks the invariant.
    proof fn lemma_wf_after_conns_grow(pre: NetSystem, post: NetSystem)
        requires
            pre.wf(),
            post.registry == pre.registry,
            post.conns@.len() >= pre.conns@.len(),
            forall|j: int| 0 <= j < pre.conns@.len() ==> post.conns@[j] == pre.conns@[j],
            forall|j: int| pre.conns@.len() <= j < post.conns@.len() ==> post.conn_wf(j),
        ensures
            post.wf(),
    {
        assert forall|i: int| 0 <= i < post.slots().len() implies post.slot_wf(i) by {
            assert(pre.slot_wf(i));
        }
        assert forall|j: int| 0 <= j < post.conns@.len() implies post.conn_wf(j) by {
            if j < pre.conns@.len() {
                assert(pre.conn_wf(j));
                assert(post.conns@[j] == pre.conns@[j]);
            }
        }
    }

    /// A copy of everything a connect needs to know of a listener.
    fn listener_snapshot(&self, lrid: usize) -> (r: (Vec<Vec<u8>>, NetAddr, Option<Vec<Vec<u8>>>, usize))
        requires
            self.is_listener(lrid),
        ensures
            ({
                let l = self.listener_at(lrid);
                &&& r.0.deep_view() == l.alpn.deep_view()
                &&& r.1 == l.local_addr
                &&& (l.mode matches ListenerMode::Fixed { chain } ==> r.2 matches Some(c)
                    && c.deep_view() == chain.deep_view())
                &&& (l.mode matches ListenerMode::Resolver { lookup_rid } ==> r.2 is None && r.3
                    == lookup_rid)
            }),
    {
        match &self.registry.slots[lrid] {
            Some(slot) => match &slot.value {
                Resource::Listener(l) => {
                    let salpn = clone_byte_list(&l.alpn);
                    let saddr = l.local_addr.duplicate();
                    match &l.mode {
                        ListenerMode::Fixed { chain } => (
                            salpn,
                            saddr,
                            Some(clone_byte_list(chain)),
                            0,
                        ),
                        ListenerMode::Resolver { lookup_rid } => (salpn, saddr, None, *lookup_rid),
                    }
                },
                _ => {
                    proof {
                        assert(false);
                    }
                    (Vec::new(), NetAddr { hostname: String::new(), port: 0 }, None, 0)
                },
            },
            None => {
                proof {
                    assert(false);
                }
                (Vec::new(), NetAddr { hostname: String::new(), port: 0 }, None, 0)
            },
        }
    }

    /// Append a fresh connection to a listener's backlog.
    fn push_backlog(&mut self, lrid: usize, cid: usize)
        requires
            old(self).wf(),
            old(self).is_listener(lrid),
            cid < old(self).conns@.len(),
        ensures
            final(self).wf(),
            final(self).conns == old(self).conns,
            final(self).default_roots == old(self).default_roots,
            final(self).ic_allowlist == old(self).ic_allowlist,
            final(self).next_port == old(self).next_port,
            final(self).slots().len() == old(self).slots().len(),
            forall|j: int|
                0 <= j < old(self).slots().len() && j != lrid ==> final(self).slots()[j] == old(self).slots()[j],
            final(self).is_listener(lrid),
            final(self).listener_at(lrid).backlog@ == old(self).listener_at(lrid).backlog@.push(
                cid,
            ),
            final(self).listener_at(lrid).local_addr == old(self).listener_at(lrid).local_addr,
            final(self).listener_at(lrid).alpn == old(self).listener_at(lrid).alpn,
            final(self).listener_at(lrid).mode == old(self).listener_at(lrid).mode,
            final(self).listener_at(lrid).accept_pending == old(self).listener_at(
                lrid,
            ).accept_pending,
            final(self).listener_at(lrid).reuse_port == old(self).listener_at(lrid).reuse_port,
            final(self).listener_at(lrid).load_balanced == old(self).listener_at(
                lrid,
            ).load_balanced,
            final(self).registry.slot_at(lrid).refs == old(self).registry.slot_at(lrid).refs,
            final(self).registry.slot_at(lrid).closed == old(self).registry.slot_at(lrid).closed,
    {
        let slot_ref = &mut self.registry.slots[lrid];
        match slot_ref {
            Some(slot) => match &mut slot.value {
                Resource::Listener(l) => {
                    l.backlog.push(cid);
                },
                _ => {},
            },
            None => {},
        }
        proof {
            assert forall|i: int| 0 <= i < self.slots().len() implies self.slot_wf(i) by {
                assert(old(self).slot_wf(i));
                if i == lrid {
                    let lpre = old(self).listener_at(lrid);
                    let lpost = self.listener_at(lrid);
                    assert forall|j: int|
                        0 <= j < lpost.backlog@.len() implies lpost.backlog@[j]
                        < self.conns@.len() by {
                        if j < lpre.backlog@.len() {
                            assert(lpre.backlog@[j] < old(self).conns@.len());
                        }
                    }
                }
            }
            assert forall|j: int| 0 <= j < self.conns@.len() implies self.conn_wf(j) by {
                assert(old(self).conn_wf(j));
            }
        }
    }

    /// Connect to a TLS server and perform the client handshake.
    ///
    /// The server name presented is the override when given, the
    /// connection hostname otherwise; it must be a valid server name. The
    /// trust anchors are the default store plus the extra CA certificates
    /// plus the loaded certificate file, whose bytes the caller passes in
    /// `cert_file_pem` (reading the file is the caller's I/O). Certificate
    /// verification is disabled exactly when the server name is on the
    /// process-wide bypass allow-list.
    ///
    /// Against a fixed-key listener the handshake outcome is decidable at
    /// once, and a failed handshake registers nothing. Against a resolver
    /// listener the handshake stays pending until the lookup is answered;
    /// the connection is returned and `op_tls_handshake` awaits it.
    ///
    /// `key_pair` is the client's own key material: a fixed pair is
    /// carried in the configuration for client authentication, and a
    /// resolver handle is rejected — it is no client material. The
    /// modelled server never requests a client certificate, so the
    /// outcome does not depend on it.
    pub fn op_net_connect_tls(
        &mut self,
        addr: NetAddr,
        args: ConnectTlsArgs,
        key_pair: TlsKeys,
        cert_file_pem: Option<Vec<u8>>,
    ) -> (r: Result<(usize, NetAddr, NetAddr), NetError>)
        requires
            old(self).wf(),
        ensures
            final(self).wf(),
            ({
                let pre = *old(self);
                let sni = Self::spec_sni(addr, args);
                if !valid_server_name(sni) {
                    r == Err::<(usize, NetAddr, NetAddr), NetError>(
                        NetError::InvalidHostname(addr.hostname),
                    ) && *final(self) == pre
                } else if addr.hostname@.len() == 0 {
                    r == Err::<(usize, NetAddr, NetAddr), NetError>(NetError::NoResolvedAddress)
                        && *final(self) == pre
                } else {
                    match pre.spec_find_listener(addr) {
                        None => r == Err::<(usize, NetAddr, NetAddr), NetError>(
                            NetError::ConnectionRefused,
                        ) && *final(self) == pre,
                        Some(lrid) => match pre.spec_connect_roots(args.ca_certs, cert_file_pem) {
                            None => r == Err::<(usize, NetAddr, NetAddr), NetError>(
                                NetError::CertInvalid,
                            ) && *final(self) == pre,
                            Some(roots) => if key_pair is Resolver {
                                r == Err::<(usize, NetAddr, NetAddr), NetError>(
                                    NetError::UnexpectedKeyType,
                                ) && *final(self) == pre
                            } else {
                                let disabled = pre.spec_bypass(sni);
                                let calpn = spec_alpn_bytes(args.alpn_protocols);
                                let salpn = pre.listener_at(lrid).alpn.deep_view();
                                match pre.listener_at(lrid).mode {
                                    ListenerMode::Fixed { chain } => match spec_handshake_outcome(
                                        roots,
                                        disabled,
                                        calpn,
                                        chain.deep_view(),
                                        salpn,
                                    ) {
                                        Err(e) => r == Err::<(usize, NetAddr, NetAddr), NetError>(
                                            e,
                                        ) && *final(self) == pre,
                                        Ok(neg) => {
                                            &&& Self::spec_connect_success_shape(
                                                pre,
                                                *final(self),
                                                lrid,
                                                r,
                                            )
                                            &&& final(self).next_port == Self::spec_next_port(
                                                pre.next_port,
                                            )
                                            &&& ({
                                                let c = final(self).conns@.last();
                                                &&& Self::spec_conn_shell(
                                                    c,
                                                    roots,
                                                    calpn,
                                                    sni,
                                                    disabled,
                                                    salpn,
                                                )
                                                &&& c.client_addr.hostname@ == "127.0.0.1"@
                                                &&& c.client_addr.port == pre.next_port
                                                &&& spec_same_addr(
                                                    c.server_addr,
                                                    pre.listener_at(lrid).local_addr,
                                                )
                                                &&& c.client.client_key == spec_client_key(
                                                    key_pair,
                                                )
                                                &&& c.crypto_runs == 1
                                                &&& (c.status matches ConnStatus::Established {
                                                    alpn,
                                                    chain: ch,
                                                } && ch.deep_view() == chain.deep_view() && (
                                                match neg {
                                                    None => alpn is None,
                                                    Some(p) => alpn matches Some(pv) && pv@ == p,
                                                }))
                                                &&& (c.key_state matches ServerKeyState::Fixed {
                                                    chain: kc,
                                                } && kc.deep_view() == chain.deep_view())
                                            })
                                        },
                                    },
                                    ListenerMode::Resolver { lookup_rid } => {
                                        &&& Self::spec_connect_success_shape(
                                            pre,
                                            *final(self),
                                            lrid,
                                            r,
                                        )
                                        &&& final(self).next_port == Self::spec_next_port(
                                            pre.next_port,
                                        )
                                        &&& ({
                                            let c = final(self).conns@.last();
                                            &&& Self::spec_conn_shell(
                                                c,
                                                roots,
                                                calpn,
                                                sni,
                                                disabled,
                                                salpn,
                                            )
                                            &&& c.client_addr.hostname@ == "127.0.0.1"@
                                            &&& c.client_addr.port == pre.next_port
                                            &&& spec_same_addr(
                                                c.server_addr,
                                                pre.listener_at(lrid).local_addr,
                                            )
                                            &&& c.client.client_key == spec_client_key(key_pair)
                                            &&& c.crypto_runs == 0
                                            &&& c.status is Fresh
                                            &&& c.key_state == (ServerKeyState::Unrequested {
                                                lookup_rid,
                                            })
                                        })
                                    },
                                }
                            },
                        },
                    }
                }
            }),
    {
        let sni_owned: String = match &args.server_name {
            Some(s) => s.clone(),
            None => addr.hostname.clone(),
        };
        if !check_server_name(sni_owned.as_str()) {
            return Err(NetError::InvalidHostname(addr.hostname));
        }
        if addr.hostname.as_str().is_empty() {
            return Err(NetError::NoResolvedAddress);
        }
        let lrid = match self.find_listener(&addr) {
            None => {
                return Err(NetError::ConnectionRefused);
            },
            Some(l) => l,
        };
        proof {
            Self::lemma_find_listener_some(*self, addr, 0, lrid);
        }
        let mut roots = clone_byte_list(&self.default_roots);
        match add_ca_certs(&mut roots, &args.ca_certs) {
            Err(_) => {
                return Err(NetError::CertInvalid);
            },
            Ok(()) => {},
        }
        match &cert_file_pem {
            None => {},
            Some(pem) => match parse_pem_certs(pem.as_slice()) {
                None => {
                    return Err(NetError::CertInvalid);
                },
                Some(cs) => {
                    append_byte_list(&mut roots, &cs);
                },
            },
        }
        proof {
            let rv = self.spec_connect_roots(args.ca_certs, cert_file_pem);
            assert(rv is Some);
            assert(roots.deep_view() =~= rv->0);
        }
        let client_key = match key_pair {
            TlsKeys::Resolver(_) => {
                return Err(NetError::UnexpectedKeyType);
            },
            TlsKeys::Static(k) => Some(k),
            TlsKeys::Null => None,
        };
        let calpn = alpn_to_bytes(&args.alpn_protocols);
        let disabled = match &self.ic_allowlist {
            None => false,
            Some(l) => contains_string(l, &sni_owned),
        };
        let (salpn, saddr, fixed_chain, lookup_rid) = self.listener_snapshot(lrid);
        let cfg = ClientCfg {
            roots,
            alpn: calpn,
            sni: sni_owned,
            verify_disabled: disabled,
            client_key,
        };
        let (status, key_state, runs) = match fixed_chain {
            Some(chain) => {
                let neg = match compute_handshake_outcome(&cfg, &chain, &salpn) {
                    Err(e) => {
                        return Err(e);
                    },
                    Ok(neg) => neg,
                };
                let key_chain = clone_byte_list(&chain);
                (
                    ConnStatus::Established { alpn: neg, chain },
                    ServerKeyState::Fixed { chain: key_chain },
                    1u64,
                )
            },
            None => (ConnStatus::Fresh, ServerKeyState::Unrequested { lookup_rid }, 0u64),
        };
        let caddr = self.alloc_client_addr();
        let cid = self.conns.len();
        let conn = Conn {
            client: cfg,
            server_alpn: salpn,
            key_state,
            status,
            crypto_runs: runs,
            client_addr: caddr.duplicate(),
            server_addr: saddr.duplicate(),
            client_to_server: Vec::new(),
            server_to_client: Vec::new(),
            client_shutdown: false,
            server_shutdown: false,
        };
        self.conns.push(conn);
        proof {
            assert(self.conn_wf(cid as int));
            Self::lemma_wf_after_conns_grow(*old(self), *self);
        }
        self.push_backlog(lrid, cid);
        let st = TlsStreamResource::new_tcp(Side::Client, cid, caddr.duplicate(), saddr.duplicate());
        let ghost mid = *self;
        let rid = self.registry.register(Resource::Stream(st));
        proof {
            assert(self.slot_wf(rid as int));
            Self::lemma_wf_after_register(mid, *self);
        }
        Ok((rid, caddr, saddr))
    }

    /// What accepting the oldest waiting connection does: the backlog
    /// shrinks by its head, a fresh server-side stream resource appears,
    /// and — in resolver mode — one lookup entry is created for the
    /// connection's hostname and the connection waits on it.
    pub open spec fn spec_accept_transition(
        pre: NetSystem,
        post: NetSystem,
        rid: usize,
        srid: usize,
        laddr: NetAddr,
        raddr: NetAddr,
    ) -> bool {
        let l = pre.listener_at(rid);
        let cid = l.backlog@[0];
        &&& srid == pre.slots().len()
        &&& post.slots().len() == pre.slots().len() + 1
        &&& post.is_listener(rid)
        &&& post.listener_at(rid).backlog@ == l.backlog@.drop_first()
        &&& post.listener_at(rid).accept_pending == false
        &&& post.listener_at(rid).local_addr == l.local_addr
        &&& post.listener_at(rid).alpn == l.alpn
        &&& post.listener_at(rid).mode == l.mode
        &&& post.listener_at(rid).reuse_port == l.reuse_port
        &&& post.listener_at(rid).load_balanced == l.load_balanced
        &&& post.registry.slot_at(rid).refs == pre.registry.slot_at(rid).refs
        &&& post.registry.slot_at(rid).closed == pre.registry.slot_at(rid).closed
        &&& post.is_stream(srid)
        &&& spec_fresh_stream(
            post.stream_at(srid),
            TransportKind::Tcp,
            Side::Server,
            cid,
            l.local_addr,
            pre.conns@[cid as int].client_addr,
        )
        &&& laddr == l.local_addr
        &&& raddr == pre.conns@[cid as int].client_addr
        &&& post.conns@.len() == pre.conns@.len()
        &&& post.next_port == pre.next_port
        &&& post.default_roots == pre.default_roots
        &&& post.ic_allowlist == pre.ic_allowlist
        &&& match l.mode {
            ListenerMode::Fixed { .. } => {
                &&& post.conns == pre.conns
                &&& forall|j: int|
                    0 <= j < pre.slots().len() && j != rid ==> post.slots()[j] == pre.slots()[j]
            },
            ListenerMode::Resolver { lookup_rid } => {
                &&& forall|j: int|
                    0 <= j < pre.conns@.len() && j != cid ==> post.conns@[j] == pre.conns@[j]
                &&& post.conns@[cid as int] == (Conn {
                    key_state: ServerKeyState::Requested { lookup_rid },
                    ..pre.conns@[cid as int]
                })
                &&& forall|j: int|
                    0 <= j < pre.slots().len() && j != rid && j != lookup_rid ==> post.slots()[j]
                        == pre.slots()[j]
                &&& post.live_at(lookup_rid)
                &&& post.registry.slot_at(lookup_rid).value is Lookup
                &&& (post.registry.slot_at(lookup_rid).value->Lookup_0).entries@ == (
                pre.registry.slot_at(lookup_rid).value->Lookup_0).entries@.push(
                    LookupEntry {
                        hostname: pre.conns@[cid as int].client.sni,
                        conn: cid,
                        state: LookupState::Created,
                    },
                )
                &&& post.registry.slot_at(lookup_rid).refs == pre.registry.slot_at(
                    lookup_rid,
                ).refs
                &&& post.registry.slot_at(lookup_rid).closed == pre.registry.slot_at(
                    lookup_rid,
                ).closed
            },
        }
    }

    /// Accept the oldest waiting connection of a listener whose backlog is
    /// not empty.
    fn accept_ready(&mut self, rid: usize) -> (r: (usize, NetAddr, NetAddr))
        requires
            old(self).wf(),
            old(self).is_listener(rid),
            old(self).listener_at(rid).backlog@.len() > 0,
            old(self).listener_at(rid).mode matches ListenerMode::Resolver { lookup_rid } ==> old(self).live_at(lookup_rid) && old(self).registry.slot_at(lookup_rid).value is Lookup,
        ensures
            final(self).wf(),
            Self::spec_accept_transition(*old(self), *final(self), rid, r.0, r.1, r.2),
    {
        proof {
            assert(old(self).slot_wf(rid as int));
        }
        let nothing_addr = NetAddr { hostname: String::new(), port: 0 };
        let (cid, laddr, mode_lookup): (usize, NetAddr, Option<usize>) = {
            let slot_ref = &mut self.registry.slots[rid];
            match slot_ref {
                Some(slot) => match &mut slot.value {
                    Resource::Listener(l) => {
                        let cid = l.backlog.remove(0);
                        l.accept_pending = false;
                        let laddr = l.local_addr.duplicate();
                        let ml = match &l.mode {
                            ListenerMode::Fixed { .. } => None,
                            ListenerMode::Resolver { lookup_rid } => Some(*lookup_rid),
                        };
                        (cid, laddr, ml)
                    },
                    _ => {
                        proof {
                            assert(false);
                        }
                        (0, nothing_addr, None)
                    },
                },
                None => {
                    proof {
                        assert(false);
                    }
                    (0, nothing_addr, None)
                },
            }
        };
        proof {
            assert(self.listener_at(rid).backlog@ =~= old(self).listener_at(
                rid,
            ).backlog@.drop_first());
            assert(cid < self.conns@.len());
        }
        let raddr = self.conns[cid].client_addr.duplicate();
        match mode_lookup {
            None => {},
            Some(lkid) => {
                let sni = self.conns[cid].client.sni.clone();
                let slot_ref = &mut self.registry.slots[lkid];
                match slot_ref {
                    Some(slot) => match &mut slot.value {
                        Resource::Lookup(t) => {
                            t.request(sni, cid);
                        },
                        _ => {},
                    },
                    None => {},
                }
                let c = &mut self.conns[cid];
                c.key_state = ServerKeyState::Requested { lookup_rid: lkid };
            },
        }
        proof {
            assert forall|i: int| 0 <= i < self.slots().len() implies self.slot_wf(i) by {
                assert(old(self).slot_wf(i));
                if i == rid {
                    let bpre = old(self).listener_at(rid).backlog@;
                    let bpost = self.listener_at(rid).backlog@;
                    assert forall|j: int| 0 <= j < bpost.len() implies bpost[j]
                        < self.conns@.len() by {
                        assert(bpost[j] == bpre[j + 1]);
                    }
                }
            }
            assert forall|j: int| 0 <= j < self.conns@.len() implies self.conn_wf(j) by {
                assert(old(self).conn_wf(j));
            }
        }
        let st = TlsStreamResource::new_tcp(Side::Server, cid, laddr.duplicate(), raddr.duplicate());
        let ghost mid = *self;
        let srid = self.registry.register(Resource::Stream(st));
        proof {
            assert(self.slot_wf(srid as int));
            Self::lemma_wf_after_register(mid, *self);
        }
        (srid, laddr, raddr)
    }

    /// Whether an accepted connection in resolver mode could create its
    /// lookup entry: the listener's lookup queue must still exist.
    pub open spec fn spec_lookup_available(&self, rid: usize) -> bool {
        match self.listener_at(rid).mode {
            ListenerMode::Fixed { .. } => true,
            ListenerMode::Resolver { lookup_rid } => self.live_at(lookup_rid)
                && self.registry.slot_at(lookup_rid).value is Lookup,
        }
    }

    /// Check at run time what `spec_lookup_available` states.
    fn lookup_available(&self, rid: usize) -> (r: bool)
        requires
            self.is_listener(rid),
        ensures
            r == self.spec_lookup_available(rid),
    {
        let lkid = match &self.registry.slots[rid] {
            Some(slot) => match &slot.value {
                Resource::Listener(l) => match &l.mode {
                    ListenerMode::Fixed { .. } => {
                        return true;
                    },
                    ListenerMode::Resolver { lookup_rid } => *lookup_rid,
                },
                _ => {
                    proof {
                        assert(false);
                    }
                    0
                },
            },
            None => {
                proof {
                    assert(false);
                }
                0
            },
        };
        if lkid >= self.registry.slots.len() {
            return false;
        }
        match &self.registry.slots[lkid] {
            None => false,
            Some(slot) => match &slot.value {
                Resource::Lookup(_) => true,
                _ => false,
            },
        }
    }

    /// Accept one connection on a TLS listener.
    ///
    /// Fails with `ListenerClosed` when the id names no open listener,
    /// and with `AcceptTaskOngoing` when an accept is already outstanding:
    /// a second concurrent accept never queues. With nothing waiting the
    /// accept becomes outstanding and `op_net_accept_tls_poll` completes
    /// it.
    pub fn op_net_accept_tls(&mut self, rid: usize) -> (r: Result<AcceptPoll, NetError>)
        requires
            old(self).wf(),
        ensures
            final(self).wf(),
            ({
                let pre = *old(self);
                if !pre.is_listener(rid) {
                    r == Err::<AcceptPoll, NetError>(NetError::ListenerClosed) && *final(self)
                        == pre
                } else if pre.listener_at(rid).accept_pending {
                    r == Err::<AcceptPoll, NetError>(NetError::AcceptTaskOngoing) && *final(self)
                        == pre
                } else if pre.listener_at(rid).backlog@.len() == 0 {
                    &&& r matches Ok(AcceptPoll::Pending)
                    &&& final(self).registry.slots@ == pre.registry.slots@.update(
                        rid as int,
                        Some(
                            Slot {
                                value: Resource::Listener(
                                    TlsListener { accept_pending: true, ..pre.listener_at(rid) },
                                ),
                                ..pre.registry.slot_at(rid)
                            },
                        ),
                    )
                    &&& final(self).conns == pre.conns
                    &&& final(self).default_roots == pre.default_roots
                    &&& final(self).ic_allowlist == pre.ic_allowlist
                    &&& final(self).next_port == pre.next_port
                } else if !pre.spec_lookup_available(rid) {
                    r == Err::<AcceptPoll, NetError>(NetError::BadResource) && *final(self) == pre
                } else {
                    r matches Ok(AcceptPoll::Ready(srid, laddr, raddr))
                        && Self::spec_accept_transition(pre, *final(self), rid, srid, laddr, raddr)
                }
            }),
    {
        if rid >= self.registry.slots.len() {
            return Err(NetError::ListenerClosed);
        }
        let (is_l, pending, empty) = match &self.registry.slots[rid] {
            None => (false, false, false),
            Some(slot) => match &slot.value {
                Resource::Listener(l) => (
                    !slot.closed,
                    l.accept_pending,
                    l.backlog.len() == 0,
                ),
                _ => (false, false, false),
            },
        };
        if !is_l {
            return Err(NetError::ListenerClosed);
        }
        if pending {
            return Err(NetError::AcceptTaskOngoing);
        }
        if empty {
            let slot_ref = &mut self.registry.slots[rid];
            match slot_ref {
                Some(slot) => match &mut slot.value {
                    Resource::Listener(l) => {
                        l.accept_pending = true;
                    },
                    _ => {},
                },
                None => {},
            }
            proof {
                assert forall|i: int| 0 <= i < self.slots().len() implies self.slot_wf(i) by {
                    assert(old(self).slot_wf(i));
                }
                assert forall|j: int| 0 <= j < self.conns@.len() implies self.conn_wf(j) by {
                    assert(old(self).conn_wf(j));
                }
            }
            return Ok(AcceptPoll::Pending);
        }
        if !self.lookup_available(rid) {
            return Err(NetError::BadResource);
        }
        let (srid, laddr, raddr) = self.accept_ready(rid);
        Ok(AcceptPoll::Ready(srid, laddr, raddr))
    }

    /// Complete an outstanding accept, or observe that it is still
    /// waiting. Closing the listener makes this fail with
    /// `ListenerClosed`, the cancellation an outstanding accept observes.
    pub fn op_net_accept_tls_poll(&mut self, rid: usize) -> (r: Result<AcceptPoll, NetError>)
        requires
            old(self).wf(),
        ensures
            final(self).wf(),
            ({
                let pre = *old(self);
                if !pre.is_listener(rid) {
                    r == Err::<AcceptPoll, NetError>(NetError::ListenerClosed) && *final(self)
                        == pre
                } else if pre.listener_at(rid).backlog@.len() == 0 {
                    r matches Ok(AcceptPoll::Pending) && *final(self) == pre
                } else if !pre.spec_lookup_available(rid) {
                    r == Err::<AcceptPoll, NetError>(NetError::BadResource) && *final(self) == pre
                } else {
                    r matches Ok(AcceptPoll::Ready(srid, laddr, raddr))
                        && Self::spec_accept_transition(pre, *final(self), rid, srid, laddr, raddr)
                }
            }),
    {
        if rid >= self.registry.slots.len() {
            return Err(NetError::ListenerClosed);
        }
        let (is_l, empty) = match &self.registry.slots[rid] {
            None => (false, false),
            Some(slot) => match &slot.value {
                Resource::Listener(l) => (!slot.closed, l.backlog.len() == 0),
                _ => (false, false),
            },
        };
        if !is_l {
            return Err(NetError::ListenerClosed);
        }
        if empty {
            return Ok(AcceptPoll::Pending);
        }
        if !self.lookup_available(rid) {
            return Err(NetError::BadResource);
        }
        let (srid, laddr, raddr) = self.accept_ready(rid);
        Ok(AcceptPoll::Ready(srid, laddr, raddr))
    }

    /// The handshake snapshot one side of an established connection sees:
    /// the negotiated protocol, and — on the client side — the chain the
    /// server presented.
    pub open spec fn spec_side_info(c: Conn, side: Side) -> crate::info::HandshakeInfoView
        recommends
            c.status is Established,
    {
        crate::info::HandshakeInfoView {
            alpn_protocol: match c.status->alpn {
                None => None,
                Some(p) => Some(p@),
            },
            peer_certificates: if side is Client {
                Some(c.status->chain.deep_view())
            } else {
                None
            },
        }
    }

    /// Build the snapshot one side of an established connection sees.
    fn side_info(&self, cid: usize, side: Side) -> (r: HandshakeInfo)
        requires
            cid < self.conns@.len(),
            self.conns@[cid as int].status is Established,
        ensures
            r@ == Self::spec_side_info(self.conns@[cid as int], side),
    {
        match &self.conns[cid].status {
            ConnStatus::Established { alpn, chain } => {
                let a = match alpn {
                    None => None,
                    Some(p) => Some(crate::bytes::clone_bytes(p)),
                };
                let pc = match side {
                    Side::Client => Some(clone_byte_list(chain)),
                    Side::Server => None,
                };
                HandshakeInfo { alpn_protocol: a, peer_certificates: pc }
            },
            _ => {
                proof {
                    assert(false);
                }
                HandshakeInfo { alpn_protocol: None, peer_certificates: None }
            },
        }
    }

    /// Store a handshake snapshot in a stream's cache.
    fn cache_info(&mut self, rid: usize, info: HandshakeInfo)
        requires
            old(self).wf(),
            old(self).is_stream(rid),
        ensures
            final(self).wf(),
            final(self).registry.slots@ == old(self).registry.slots@.update(
                rid as int,
                Some(
                    Slot {
                        value: Resource::Stream(
                            TlsStreamResource {
                                handshake_info: Some(info),
                                ..old(self).stream_at(rid)
                            },
                        ),
                        ..old(self).registry.slot_at(rid)
                    },
                ),
            ),
            final(self).conns == old(self).conns,
            final(self).default_roots == old(self).default_roots,
            final(self).ic_allowlist == old(self).ic_allowlist,
            final(self).next_port == old(self).next_port,
    {
        let slot_ref = &mut self.registry.slots[rid];
        match slot_ref {
            Some(slot) => match &mut slot.value {
                Resource::Stream(st) => {
                    st.handshake_info = Some(info);
                },
                _ => {},
            },
            None => {},
        }
        proof {
            assert forall|i: int| 0 <= i < self.slots().len() implies self.slot_wf(i) by {
                assert(old(self).slot_wf(i));
            }
            assert forall|j: int| 0 <= j < self.conns@.len() implies self.conn_wf(j) by {
                assert(old(self).conn_wf(j));
            }
        }
    }

    /// How one connection changes when its cryptographic handshake runs
    /// with the server chain `chain`: the run is counted, the key is
    /// fixed, and the outcome — the negotiated protocol or the
    /// protocol-level failure — is recorded.
    pub open spec fn spec_conn_after_crypto(cpre: Conn, cpost: Conn, chain: Seq<Seq<u8>>) -> bool {
        let outcome = spec_handshake_outcome(
            cpre.client.roots.deep_view(),
            cpre.client.verify_disabled,
            cpre.client.alpn.deep_view(),
            chain,
            cpre.server_alpn.deep_view(),
        );
        &&& cpost.client == cpre.client
        &&& cpost.server_alpn == cpre.server_alpn
        &&& (cpost.key_state matches ServerKeyState::Fixed { chain: kc } && kc.deep_view()
            == chain)
        &&& cpost.crypto_runs == cpre.crypto_runs + 1
        &&& cpost.client_addr == cpre.client_addr
        &&& cpost.server_addr == cpre.server_addr
        &&& cpost.client_to_server == cpre.client_to_server
        &&& cpost.server_to_client == cpre.server_to_client
        &&& cpost.client_shutdown == cpre.client_shutdown
        &&& cpost.server_shutdown == cpre.server_shutdown
        &&& match outcome {
            Err(e) => cpost.status == (ConnStatus::Failed { err: e }),
            Ok(neg) => cpost.status matches ConnStatus::Established { alpn, chain: sc } && (
            match neg {
                None => alpn is None,
                Some(p) => alpn matches Some(pv) && pv@ == p,
            }) && sc.deep_view() == chain,
        }
    }

    /// What one handshake observation does.
    ///
    /// A cached snapshot is returned as is and nothing changes — repeated
    /// calls never repeat the cryptographic handshake. Otherwise the
    /// cancellation flag is observed; then the connection decides: an
    /// established connection yields this side's snapshot, which is
    /// cached; a failed one yields its error; a fresh connection with a
    /// fixed key runs the handshake now, once; a fresh connection waiting
    /// on the resolver stays pending.
    pub open spec fn spec_handshake_transition(
        pre: NetSystem,
        post: NetSystem,
        rid: usize,
        r: Result<HandshakePoll, NetError>,
    ) -> bool {
        if !pre.is_stream(rid) {
            r == Err::<HandshakePoll, NetError>(NetError::BadResource) && post == pre
        } else {
            let st = pre.stream_at(rid);
            let cid = st.conn;
            let c = pre.conns@[cid as int];
            if st.handshake_info is Some {
                r matches Ok(HandshakePoll::Ready(i)) && i@ == st.handshake_info->0@ && post == pre
            } else if st.cancelled {
                r == Err::<HandshakePoll, NetError>(NetError::Cancelled) && post == pre
            } else {
                match c.status {
                    ConnStatus::Established { .. } => {
                        &&& post.conns == pre.conns
                        &&& post.slots() == pre.slots().update(
                            rid as int,
                            Some(
                                Slot {
                                    value: Resource::Stream(post.stream_at(rid)),
                                    ..pre.registry.slot_at(rid)
                                },
                            ),
                        )
                        &&& post.stream_at(rid) == (TlsStreamResource {
                            handshake_info: post.stream_at(rid).handshake_info,
                            ..st
                        })
                        &&& post.default_roots == pre.default_roots
                        &&& post.ic_allowlist == pre.ic_allowlist
                        &&& post.next_port == pre.next_port
                        &&& (r matches Ok(HandshakePoll::Ready(i)) && i@ == Self::spec_side_info(
                            c,
                            st.side,
                        ) && (post.stream_at(rid).handshake_info matches Some(i2) && i2@ == i@))
                    },
                    ConnStatus::Failed { err } => r == Err::<HandshakePoll, NetError>(err) && post
                        == pre,
                    ConnStatus::Fresh => match c.key_state {
                        ServerKeyState::Fixed { .. } => {
                            let outcome = spec_handshake_outcome(
                                c.client.roots.deep_view(),
                                c.client.verify_disabled,
                                c.client.alpn.deep_view(),
                                c.key_state->chain.deep_view(),
                                c.server_alpn.deep_view(),
                            );
                            &&& post.conns@.len() == pre.conns@.len()
                            &&& forall|j: int|
                                0 <= j < pre.conns@.len() && j != cid ==> post.conns@[j]
                                    == pre.conns@[j]
                            &&& Self::spec_conn_after_crypto(
                                c,
                                post.conns@[cid as int],
                                c.key_state->chain.deep_view(),
                            )
                            &&& post.default_roots == pre.default_roots
                            &&& post.ic_allowlist == pre.ic_allowlist
                            &&& post.next_port == pre.next_port
                            &&& match outcome {
                                Err(e) => r == Err::<HandshakePoll, NetError>(e) && post.slots()
                                    == pre.slots(),
                                Ok(_) => {
                                    &&& post.slots() == pre.slots().update(
                                        rid as int,
                                        Some(
                                            Slot {
                                                value: Resource::Stream(post.stream_at(rid)),
                                                ..pre.registry.slot_at(rid)
                                            },
                                        ),
                                    )
                                    &&& post.stream_at(rid) == (TlsStreamResource {
                                        handshake_info: post.stream_at(rid).handshake_info,
                                        ..st
                                    })
                                    &&& (r matches Ok(HandshakePoll::Ready(i)) && i@
                                        == Self::spec_side_info(
                                        post.conns@[cid as int],
                                        st.side,
                                    ) && (post.stream_at(rid).handshake_info matches Some(i2)
                                        && i2@ == i@))
                                },
                            }
                        },
                        _ => r matches Ok(HandshakePoll::Pending) && post == pre,
                    },
                }
            }
        }
    }

    /// Observe the handshake of a stream: the cached snapshot when there
    /// is one, this side's snapshot of the completed handshake otherwise.
    /// Idempotent: the cryptographic handshake executes at most once per
    /// connection, however often this is called.
    pub fn op_tls_handshake(&mut self, rid: usize) -> (r: Result<HandshakePoll, NetError>)
        requires
            old(self).wf(),
        ensures
            final(self).wf(),
            Self::spec_handshake_transition(*old(self), *final(self), rid, r),
    {
        if rid >= self.registry.slots.len() {
            return Err(NetError::BadResource);
        }
        let (ok, cached, cancelled, side, cid) = match &self.registry.slots[rid] {
            None => (false, false, false, Side::Client, 0usize),
            Some(slot) => match &slot.value {
                Resource::Stream(st) => (
                    !slot.closed,
                    match &st.handshake_info {
                        Some(_) => true,
                        None => false,
                    },
                    st.cancelled,
                    st.side,
                    st.conn,
                ),
                _ => (false, false, false, Side::Client, 0usize),
            },
        };
        if !ok {
            return Err(NetError::BadResource);
        }
        if cached {
            let info = match &self.registry.slots[rid] {
                Some(slot) => match &slot.value {
                    Resource::Stream(st) => match &st.handshake_info {
                        Some(i) => i.duplicate(),
                        None => {
                            proof {
                                assert(false);
                            }
                            HandshakeInfo { alpn_protocol: None, peer_certificates: None }
                        },
                    },
                    _ => {
                        proof {
                            assert(false);
                        }
                        HandshakeInfo { alpn_protocol: None, peer_certificates: None }
                    },
                },
                None => {
                    proof {
                        assert(false);
                    }
                    HandshakeInfo { alpn_protocol: None, peer_certificates: None }
                },
            };
            return Ok(HandshakePoll::Ready(info));
        }
        if cancelled {
            return Err(NetError::Cancelled);
        }
        proof {
            assert(old(self).slot_wf(rid as int));
        }
        let established = match &self.conns[cid].status {
            ConnStatus::Established { .. } => true,
            ConnStatus::Failed { err } => {
                return Err(err.duplicate());
            },
            ConnStatus::Fresh => false,
        };
        if !established {
            // a fresh connection: run the handshake now if the key is
            // fixed, stay pending while the resolver decides
            let chain = match &self.conns[cid].key_state {
                ServerKeyState::Fixed { chain } => clone_byte_list(chain),
                _ => {
                    return Ok(HandshakePoll::Pending);
                },
            };
            let outcome = compute_handshake_outcome(
                &self.conns[cid].client,
                &chain,
                &self.conns[cid].server_alpn,
            );
            proof {
                assert(old(self).conn_wf(cid as int));
            }
            let c = &mut self.conns[cid];
            match outcome {
                Err(e) => {
                    c.status = ConnStatus::Failed { err: e.duplicate() };
                    c.crypto_runs = c.crypto_runs + 1;
                    proof {
                        assert forall|i: int|
                            0 <= i < self.slots().len() implies self.slot_wf(i) by {
                            assert(old(self).slot_wf(i));
                        }
                        assert forall|j: int|
                            0 <= j < self.conns@.len() implies self.conn_wf(j) by {
                            assert(old(self).conn_wf(j));
                        }
                    }
                    return Err(e);
                },
                Ok(neg) => {
                    c.status = ConnStatus::Established { alpn: neg, chain };
                    c.crypto_runs = c.crypto_runs + 1;
                },
            }
            proof {
                assert forall|i: int| 0 <= i < self.slots().len() implies self.slot_wf(i) by {
                    assert(old(self).slot_wf(i));
                }
                assert forall|j: int| 0 <= j < self.conns@.len() implies self.conn_wf(j) by {
                    assert(old(self).conn_wf(j));
                }
            }
        }
        let info = self.side_info(cid, side);
        let ret = info.duplicate();
        self.cache_info(rid, info);
        Ok(HandshakePoll::Ready(ret))
    }

    /// Everything except the lookup queue `rid` and the connection table
    /// is unchanged, and the queue's slot itself keeps its bookkeeping.
    pub open spec fn spec_lookup_slot_step(pre: NetSystem, post: NetSystem, rid: usize) -> bool {
        &&& post.slots().len() == pre.slots().len()
        &&& forall|j: int|
            0 <= j < pre.slots().len() && j != rid ==> post.slots()[j] == pre.slots()[j]
        &&& post.is_lookup(rid)
        &&& post.registry.slot_at(rid).refs == pre.registry.slot_at(rid).refs
        &&& post.registry.slot_at(rid).closed == pre.registry.slot_at(rid).closed
        &&& post.default_roots == pre.default_roots
        &&& post.ic_allowlist == pre.ic_allowlist
        &&& post.next_port == pre.next_port
    }

    /// Hand the oldest not-yet-polled hostname of a resolver's queue to
    /// the authority. `Ok(None)` means nothing is waiting — either no
    /// handshake has requested a decision yet, or the queue is gone (its
    /// slot closed or freed), which ends the authority's loop for good. An
    /// id that names a live resource of another kind is the caller's
    /// error.
    pub fn op_tls_cert_resolver_poll(&mut self, rid: usize) -> (r: Result<Option<String>, NetError>)
        requires
            old(self).wf(),
        ensures
            final(self).wf(),
            ({
                let pre = *old(self);
                if pre.live_at(rid) && !(pre.registry.slot_at(rid).value is Lookup) {
                    r == Err::<Option<String>, NetError>(NetError::BadResource) && *final(self)
                        == pre
                } else if !pre.is_lookup(rid) {
                    r == Ok::<Option<String>, NetError>(None) && *final(self) == pre
                } else {
                    let tpre = pre.lookup_at(rid);
                    match r {
                        Err(_) => false,
                        Ok(None) => *final(self) == pre && (forall|i: int|
                            0 <= i < tpre.entries@.len() ==> !(tpre.entries@[i].state
                                is Created)),
                        Ok(Some(h)) => {
                            &&& Self::spec_lookup_slot_step(pre, *final(self), rid)
                            &&& final(self).conns == pre.conns
                            &&& exists|k: int|
                                {
                                    &&& 0 <= k < tpre.entries@.len()
                                    &&& tpre.entries@[k].state is Created
                                    &&& forall|j: int|
                                        0 <= j < k ==> !(tpre.entries@[j].state is Created)
                                    &&& h@ == tpre.entries@[k].hostname@
                                    &&& final(self).lookup_at(rid).entries@
                                        == tpre.entries@.update(
                                        k,
                                        LookupEntry {
                                            state: LookupState::Polled,
                                            ..tpre.entries@[k]
                                        },
                                    )
                                }
                        },
                    }
                }
            }),
    {
        if rid >= self.registry.slots.len() {
            return Ok(None);
        }
        let gone = match &self.registry.slots[rid] {
            None => true,
            Some(slot) => match &slot.value {
                Resource::Lookup(_) => slot.closed,
                _ => {
                    return Err(NetError::BadResource);
                },
            },
        };
        if gone {
            return Ok(None);
        }
        let present = match &self.registry.slots[rid] {
            Some(slot) => match &slot.value {
                Resource::Lookup(t) => t.has_created(),
                _ => false,
            },
            None => false,
        };
        if !present {
            return Ok(None);
        }
        let r = {
            let slot_ref = &mut self.registry.slots[rid];
            match slot_ref {
                Some(slot) => match &mut slot.value {
                    Resource::Lookup(t) => t.poll(),
                    _ => None,
                },
                None => None,
            }
        };
        proof {
            assert forall|i: int| 0 <= i < self.slots().len() implies self.slot_wf(i) by {
                assert(old(self).slot_wf(i));
                if i == rid && r is Some {
                    let epre = old(self).lookup_at(rid).entries@;
                    let epost = self.lookup_at(rid).entries@;
                    assert forall|j: int| 0 <= j < epost.len() implies epost[j].conn
                        < self.conns@.len() by {
                        assert(epost[j].conn == epre[j].conn);
                    }
                }
            }
            assert forall|j: int| 0 <= j < self.conns@.len() implies self.conn_wf(j) by {
                assert(old(self).conn_wf(j));
            }
        }
        Ok(r)
    }

    /// Answer the oldest pending lookup for `sni` with a key pair, and
    /// resume exactly the handshake that created that entry: its
    /// connection runs the cryptographic handshake with the resolved
    /// chain. Every other entry and every other connection is untouched.
    ///
    /// Fails with `UnexpectedKeyType` unless the key material is a fixed
    /// key pair, and with `BadResource` when no polled entry for `sni`
    /// exists — an entry is never answered twice.
    pub fn op_tls_cert_resolver_resolve(&mut self, rid: usize, sni: String, keys: TlsKeys) -> (r:
        Result<(), NetError>)
        requires
            old(self).wf(),
        ensures
            final(self).wf(),
            ({
                let pre = *old(self);
                if !(keys is Static) {
                    r == Err::<(), NetError>(NetError::UnexpectedKeyType) && *final(self) == pre
                } else if !pre.is_lookup(rid) {
                    r == Err::<(), NetError>(NetError::BadResource) && *final(self) == pre
                } else {
                    let tpre = pre.lookup_at(rid);
                    if forall|i: int| !crate::resolver::spec_polled_match(tpre, sni@, i) {
                        r == Err::<(), NetError>(NetError::BadResource) && *final(self) == pre
                    } else {
                        &&& r matches Ok(())
                        &&& Self::spec_lookup_slot_step(pre, *final(self), rid)
                        &&& exists|k: int|
                            {
                                &&& crate::resolver::spec_polled_match(tpre, sni@, k)
                                &&& forall|j: int|
                                    0 <= j < k ==> !crate::resolver::spec_polled_match(
                                        tpre,
                                        sni@,
                                        j,
                                    )
                                &&& final(self).lookup_at(rid).entries@ == tpre.entries@.update(
                                    k,
                                    LookupEntry {
                                        state: LookupState::Answered,
                                        ..tpre.entries@[k]
                                    },
                                )
                                &&& ({
                                    let cid = tpre.entries@[k].conn;
                                    &&& final(self).conns@.len() == pre.conns@.len()
                                    &&& forall|j: int|
                                        0 <= j < pre.conns@.len() && j != cid ==> final(self).conns@[j] == pre.conns@[j]
                                    &&& (pre.conns@[cid as int].status is Fresh ==> {
                                        &&& cid < pre.conns@.len()
                                        &&& Self::spec_conn_after_crypto(
                                            pre.conns@[cid as int],
                                            final(self).conns@[cid as int],
                                            keys->Static_0.cert_chain.deep_view(),
                                        )
                                    })
                                    &&& (!(pre.conns@[cid as int].status is Fresh) ==> final(self).conns@[cid as int] == pre.conns@[cid as int])
                                })
                            }
                    }
                }
            }),
    {
        let key = match keys {
            TlsKeys::Static(k) => k,
            _ => {
                return Err(NetError::UnexpectedKeyType);
            },
        };
        if rid >= self.registry.slots.len() {
            return Err(NetError::BadResource);
        }
        let is_lk = match &self.registry.slots[rid] {
            None => false,
            Some(slot) => match &slot.value {
                Resource::Lookup(_) => !slot.closed,
                _ => false,
            },
        };
        if !is_lk {
            return Err(NetError::BadResource);
        }
        let present = match &self.registry.slots[rid] {
            Some(slot) => match &slot.value {
                Resource::Lookup(t) => t.has_polled(&sni),
                _ => false,
            },
            None => false,
        };
        if !present {
            return Err(NetError::BadResource);
        }
        let found: Option<usize> = {
            let slot_ref = &mut self.registry.slots[rid];
            match slot_ref {
                Some(slot) => match &mut slot.value {
                    Resource::Lookup(t) => match t.fulfil(&sni) {
                        None => None,
                        Some(k) => Some(t.conn_of(k)),
                    },
                    _ => None,
                },
                None => None,
            }
        };
        let cid = match found {
            None => {
                return Err(NetError::BadResource);
            },
            Some(cid) => cid,
        };
        proof {
            assert(old(self).slot_wf(rid as int));
            assert forall|i: int| 0 <= i < self.slots().len() implies self.slot_wf(i) by {
                assert(old(self).slot_wf(i));
                if i == rid {
                    let epre = old(self).lookup_at(rid).entries@;
                    let epost = self.lookup_at(rid).entries@;
                    assert forall|j: int| 0 <= j < epost.len() implies epost[j].conn
                        < self.conns@.len() by {
                        assert(epost[j].conn == epre[j].conn);
                    }
                }
            }
            assert forall|j: int| 0 <= j < self.conns@.len() implies self.conn_wf(j) by {
                assert(old(self).conn_wf(j));
            }
        }
        let fresh = match &self.conns[cid].status {
            ConnStatus::Fresh => true,
            _ => false,
        };
        if fresh {
            let outcome = compute_handshake_outcome(
                &self.conns[cid].client,
                &key.cert_chain,
                &self.conns[cid].server_alpn,
            );
            proof {
                assert(old(self).conn_wf(cid as int));
            }
            let c = &mut self.conns[cid];
            match outcome {
                Err(e) => {
                    c.status = ConnStatus::Failed { err: e };
                },
                Ok(neg) => {
                    c.status = ConnStatus::Established {
                        alpn: neg,
                        chain: crate::bytes::clone_byte_list(&key.cert_chain),
                    };
                },
            }
            c.key_state = ServerKeyState::Fixed { chain: key.cert_chain };
            c.crypto_runs = c.crypto_runs + 1;
            proof {
                assert forall|i: int| 0 <= i < self.slots().len() implies self.slot_wf(i) by {
                    assert(old(self).slot_wf(i));
                    if i == rid {
                        let epre = old(self).lookup_at(rid).entries@;
                        let epost = self.lookup_at(rid).entries@;
                        assert forall|j: int| 0 <= j < epost.len() implies epost[j].conn
                            < self.conns@.len() by {
                            assert(epost[j].conn == epre[j].conn);
                        }
                    }
                }
                assert forall|j: int| 0 <= j < self.conns@.len() implies self.conn_wf(j) by {
                    assert(old(self).conn_wf(j));
                }
            }
        }
        Ok(())
    }

    /// Answer the oldest pending lookup for `sni` with an explicit error:
    /// exactly the handshake that created that entry fails, surfaced as a
    /// resolver failure; no cryptographic handshake runs, and every other
    /// entry and connection is untouched.
    pub fn op_tls_cert_resolver_resolve_error(&mut self, rid: usize, sni: String, error: String) -> (r:
        Result<(), NetError>)
        requires
            old(self).wf(),
        ensures
            final(self).wf(),
            ({
                let pre = *old(self);
                if !pre.is_lookup(rid) {
                    r == Err::<(), NetError>(NetError::BadResource) && *final(self) == pre
                } else {
                    let tpre = pre.lookup_at(rid);
                    if forall|i: int| !crate::resolver::spec_polled_match(tpre, sni@, i) {
                        r == Err::<(), NetError>(NetError::BadResource) && *final(self) == pre
                    } else {
                        &&& r matches Ok(())
                        &&& Self::spec_lookup_slot_step(pre, *final(self), rid)
                        &&& exists|k: int|
                            {
                                &&& crate::resolver::spec_polled_match(tpre, sni@, k)
                                &&& forall|j: int|
                                    0 <= j < k ==> !crate::resolver::spec_polled_match(
                                        tpre,
                                        sni@,
                                        j,
                                    )
                                &&& final(self).lookup_at(rid).entries@ == tpre.entries@.update(
                                    k,
                                    LookupEntry {
                                        state: LookupState::Answered,
                                        ..tpre.entries@[k]
                                    },
                                )
                                &&& ({
                                    let cid = tpre.entries@[k].conn;
                                    &&& final(self).conns@.len() == pre.conns@.len()
                                    &&& forall|j: int|
                                        0 <= j < pre.conns@.len() && j != cid ==> final(self).conns@[j] == pre.conns@[j]
                                    &&& (pre.conns@[cid as int].status is Fresh ==> final(self).conns@[cid as int] == (Conn {
                                        status: ConnStatus::Failed {
                                            err: NetError::ResolverFailed(error),
                                        },
                                        ..pre.conns@[cid as int]
                                    }))
                                    &&& (!(pre.conns@[cid as int].status is Fresh) ==> final(self).conns@[cid as int] == pre.conns@[cid as int])
                                })
                            }
                    }
                }
            }),
    {
        if rid >= self.registry.slots.len() {
            return Err(NetError::BadResource);
        }
        let is_lk = match &self.registry.slots[rid] {
            None => false,
            Some(slot) => match &slot.value {
                Resource::Lookup(_) => !slot.closed,
                _ => false,
            },
        };
        if !is_lk {
            return Err(NetError::BadResource);
        }
        let present = match &self.registry.slots[rid] {
            Some(slot) => match &slot.value {
                Resource::Lookup(t) => t.has_polled(&sni),
                _ => false,
            },
            None => false,
        };
        if !present {
            return Err(NetError::BadResource);
        }
        let found: Option<usize> = {
            let slot_ref = &mut self.registry.slots[rid];
            match slot_ref {
                Some(slot) => match &mut slot.value {
                    Resource::Lookup(t) => match t.fulfil(&sni) {
                        None => None,
                        Some(k) => Some(t.conn_of(k)),
                    },
                    _ => None,
                },
                None => None,
            }
        };
        let cid = match found {
            None => {
                return Err(NetError::BadResource);
            },
            Some(cid) => cid,
        };
        proof {
            assert(old(self).slot_wf(rid as int));
            assert forall|i: int| 0 <= i < self.slots().len() implies self.slot_wf(i) by {
                assert(old(self).slot_wf(i));
                if i == rid {
                    let epre = old(self).lookup_at(rid).entries@;
                    let epost = self.lookup_at(rid).entries@;
                    assert forall|j: int| 0 <= j < epost.len() implies epost[j].conn
                        < self.conns@.len() by {
                        assert(epost[j].conn == epre[j].conn);
                    }
                }
            }
            assert forall|j: int| 0 <= j < self.conns@.len() implies self.conn_wf(j) by {
                assert(old(self).conn_wf(j));
            }
        }
        let fresh = match &self.conns[cid].status {
            ConnStatus::Fresh => true,
            _ => false,
        };
        if fresh {
            let c = &mut self.conns[cid];
            c.status = ConnStatus::Failed { err: NetError::ResolverFailed(error) };
            // the conn's handshake resumes only to fail; no crypto ran
            proof {
                assert forall|i: int| 0 <= i < self.slots().len() implies self.slot_wf(i) by {
                    assert(old(self).slot_wf(i));
                    if i == rid {
                        let epre = old(self).lookup_at(rid).entries@;
                        let epost = self.lookup_at(rid).entries@;
                        assert forall|j: int| 0 <= j < epost.len() implies epost[j].conn
                            < self.conns@.len() by {
                            assert(epost[j].conn == epre[j].conn);
                        }
                    }
                }
                assert forall|j: int| 0 <= j < self.conns@.len() implies self.conn_wf(j) by {
                    assert(old(self).conn_wf(j));
                }
            }
        }
        Ok(())
    }

    /// Upgrade an open plaintext connection to TLS, in place.
    ///
    /// The plaintext resource is consumed only when the registry holds its
    /// sole reference; held anywhere else, the upgrade fails with the busy
    /// error of the stream's transport and the resource is left exactly as
    /// it was, still usable by its holder. On success the old id is gone,
    /// a fresh TLS stream resource takes its place under a new id, and the
    /// local and peer addresses carry over unchanged. The handshake is
    /// deferred: the new connection starts fresh, with the key fixed by
    /// the listener at the peer address, or waiting on that listener's
    /// resolver. The accepting end of an upgraded connection lives outside
    /// the model's registry: its raw accept happened before the upgrade.
    ///
    /// `key_pair` is the client's own key material, carried as in
    /// `op_net_connect_tls`; a resolver handle is rejected.
    pub fn op_tls_start(&mut self, args: StartTlsArgs, key_pair: TlsKeys) -> (r: Result<
        (usize, NetAddr, NetAddr),
        NetError,
    >)
        requires
            old(self).wf(),
        ensures
            final(self).wf(),
            ({
                let pre = *old(self);
                let host = crate::args::spec_start_host(args.hostname@);
                if !valid_server_name(host) {
                    (r matches Err(NetError::InvalidHostname(h)) && h@ == host) && *final(self)
                        == pre
                } else if spec_added_roots(args.ca_certs) is None {
                    r == Err::<(usize, NetAddr, NetAddr), NetError>(NetError::CertInvalid)
                        && *final(self) == pre
                } else if key_pair is Resolver {
                    r == Err::<(usize, NetAddr, NetAddr), NetError>(NetError::UnexpectedKeyType)
                        && *final(self) == pre
                } else if !pre.is_plain(args.rid) {
                    r == Err::<(usize, NetAddr, NetAddr), NetError>(NetError::BadResource)
                        && *final(self) == pre
                } else {
                    let p = pre.plain_at(args.rid);
                    let roots = pre.default_roots.deep_view() + spec_added_roots(args.ca_certs)->0;
                    let calpn = spec_alpn_bytes(args.alpn_protocols);
                    let disabled = pre.spec_bypass(host);
                    match pre.spec_find_listener(p.remote_addr) {
                        None => r == Err::<(usize, NetAddr, NetAddr), NetError>(
                            NetError::ConnectionRefused,
                        ) && *final(self) == pre,
                        Some(lrid) => {
                            if !pre.spec_lookup_available(lrid) {
                                r == Err::<(usize, NetAddr, NetAddr), NetError>(
                                    NetError::BadResource,
                                ) && *final(self) == pre
                            } else if pre.registry.slot_at(args.rid).refs != 1 {
                                let busy = if p.kind is Tcp {
                                    NetError::TcpStreamBusy
                                } else {
                                    NetError::UnixStreamBusy
                                };
                                r == Err::<(usize, NetAddr, NetAddr), NetError>(busy)
                                    && *final(self) == pre
                            } else {
                                let cid = pre.conns@.len() as usize;
                                let nrid = pre.slots().len() as usize;
                                let salpn = pre.listener_at(lrid).alpn.deep_view();
                                &&& (r matches Ok((orid, laddr, raddr)) && orid == nrid && laddr
                                    == p.local_addr && raddr == p.remote_addr)
                                &&& final(self).slots().len() == pre.slots().len() + 1
                                &&& final(self).slots()[args.rid as int] is None
                                &&& final(self).conns@.len() == pre.conns@.len() + 1
                                &&& forall|j: int|
                                    0 <= j < pre.conns@.len() ==> final(self).conns@[j]
                                        == pre.conns@[j]
                                &&& final(self).is_stream(nrid)
                                &&& spec_fresh_stream(
                                    final(self).stream_at(nrid),
                                    p.kind,
                                    Side::Client,
                                    cid,
                                    p.local_addr,
                                    p.remote_addr,
                                )
                                &&& ({
                                    let c = final(self).conns@.last();
                                    &&& Self::spec_conn_shell(
                                        c,
                                        roots,
                                        calpn,
                                        host,
                                        disabled,
                                        salpn,
                                    )
                                    &&& c.client_addr == p.local_addr
                                    &&& c.server_addr == p.remote_addr
                                    &&& c.client.client_key == spec_client_key(key_pair)
                                    &&& c.status is Fresh
                                    &&& c.crypto_runs == 0
                                    &&& match pre.listener_at(lrid).mode {
                                        ListenerMode::Fixed { chain } => c.key_state
                                            matches ServerKeyState::Fixed { chain: kc }
                                            && kc.deep_view() == chain.deep_view(),
                                        ListenerMode::Resolver { lookup_rid } => c.key_state == (
                                        ServerKeyState::Requested { lookup_rid }),
                                    }
                                })
                                &&& match pre.listener_at(lrid).mode {
                                    ListenerMode::Fixed { .. } => forall|j: int|
                                        0 <= j < pre.slots().len() && j != args.rid ==> final(self).slots()[j] == pre.slots()[j],
                                    ListenerMode::Resolver { lookup_rid } => {
                                        &&& forall|j: int|
                                            0 <= j < pre.slots().len() && j != args.rid && j
                                                != lookup_rid ==> final(self).slots()[j]
                                                == pre.slots()[j]
                                        &&& final(self).live_at(lookup_rid)
                                        &&& final(self).registry.slot_at(lookup_rid).value
                                            is Lookup
                                        &&& (final(self).registry.slot_at(
                                            lookup_rid,
                                        ).value->Lookup_0).entries@ == (pre.registry.slot_at(
                                            lookup_rid,
                                        ).value->Lookup_0).entries@.push(
                                            LookupEntry {
                                                hostname: final(self).conns@.last().client.sni,
                                                conn: cid,
                                                state: LookupState::Created,
                                            },
                                        )
                                        &&& final(self).registry.slot_at(lookup_rid).refs
                                            == pre.registry.slot_at(lookup_rid).refs
                                        &&& final(self).registry.slot_at(lookup_rid).closed
                                            == pre.registry.slot_at(lookup_rid).closed
                                    },
                                }
                                &&& final(self).default_roots == pre.default_roots
                                &&& final(self).ic_allowlist == pre.ic_allowlist
                                &&& final(self).next_port == pre.next_port
                            }
                        },
                    }
                }
            }),
    {
        let host: String = crate::args::start_host(args.hostname.as_str());
        if !check_server_name(host.as_str()) {
            return Err(NetError::InvalidHostname(host));
        }
        let mut roots = clone_byte_list(&self.default_roots);
        match add_ca_certs(&mut roots, &args.ca_certs) {
            Err(_) => {
                return Err(NetError::CertInvalid);
            },
            Ok(()) => {},
        }
        let client_key = match key_pair {
            TlsKeys::Resolver(_) => {
                return Err(NetError::UnexpectedKeyType);
            },
            TlsKeys::Static(k) => Some(k),
            TlsKeys::Null => None,
        };
        if args.rid >= self.registry.slots.len() {
            return Err(NetError::BadResource);
        }
        let (is_p, kind, refs) = match &self.registry.slots[args.rid] {
            None => (false, TransportKind::Tcp, 0u64),
            Some(slot) => match &slot.value {
                Resource::Plain(p) => (!slot.closed, p.kind, slot.refs),
                _ => (false, TransportKind::Tcp, 0u64),
            },
        };
        if !is_p {
            return Err(NetError::BadResource);
        }
        let remote = match &self.registry.slots[args.rid] {
            Some(slot) => match &slot.value {
                Resource::Plain(p) => p.remote_addr.duplicate(),
                _ => {
                    proof {
                        assert(false);
                    }
                    NetAddr { hostname: String::new(), port: 0 }
                },
            },
            None => {
                proof {
                    assert(false);
                }
                NetAddr { hostname: String::new(), port: 0 }
            },
        };
        let lrid = match self.find_listener(&remote) {
            None => {
                return Err(NetError::ConnectionRefused);
            },
            Some(l) => l,
        };
        proof {
            Self::lemma_find_listener_some(*self, remote, 0, lrid);
        }
        if !self.lookup_available(lrid) {
            return Err(NetError::BadResource);
        }
        if refs != 1 {
            return Err(
                match kind {
                    TransportKind::Tcp => NetError::TcpStreamBusy,
                    TransportKind::Unix => NetError::UnixStreamBusy,
                },
            );
        }
        let calpn = alpn_to_bytes(&args.alpn_protocols);
        let disabled = match &self.ic_allowlist {
            None => false,
            Some(l) => contains_string(l, &host),
        };
        let (salpn, _saddr, fixed_chain, lookup_rid) = self.listener_snapshot(lrid);
        let taken = self.registry.take_unique(args.rid);
        let plain = match taken {
            Resource::Plain(p) => p,
            _ => {
                proof {
                    assert(false);
                }
                PlainStream {
                    kind: TransportKind::Tcp,
                    local_addr: NetAddr { hostname: String::new(), port: 0 },
                    remote_addr: NetAddr { hostname: String::new(), port: 0 },
                }
            },
        };
        proof {
            assert forall|i: int| 0 <= i < self.slots().len() implies self.slot_wf(i) by {
                assert(old(self).slot_wf(i));
            }
            assert forall|j: int| 0 <= j < self.conns@.len() implies self.conn_wf(j) by {
                assert(old(self).conn_wf(j));
            }
        }
        let cid = self.conns.len();
        let key_state = match fixed_chain {
            Some(chain) => ServerKeyState::Fixed { chain },
            None => ServerKeyState::Requested { lookup_rid },
        };
        let conn = Conn {
            client: ClientCfg {
                roots,
                alpn: calpn,
                sni: host.clone(),
                verify_disabled: disabled,
                client_key,
            },
            server_alpn: salpn,
            key_state,
            status: ConnStatus::Fresh,
            crypto_runs: 0,
            client_addr: plain.local_addr.duplicate(),
            server_addr: plain.remote_addr.duplicate(),
            client_to_server: Vec::new(),
            server_to_client: Vec::new(),
            client_shutdown: false,
            server_shutdown: false,
        };
        self.conns.push(conn);
        proof {
            assert(self.conn_wf(cid as int));
            assert forall|i: int| 0 <= i < self.slots().len() implies self.slot_wf(i) by {
                assert(old(self).slot_wf(i));
            }
            assert forall|j: int| 0 <= j < self.conns@.len() implies self.conn_wf(j) by {
                if j < cid {
                    assert(old(self).conn_wf(j));
                }
            }
        }
        let needs_entry = match &self.conns[cid].key_state {
            ServerKeyState::Requested { .. } => true,
            _ => false,
        };
        if needs_entry {
            let sni = host.clone();
            let slot_ref = &mut self.registry.slots[lookup_rid];
            match slot_ref {
                Some(slot) => match &mut slot.value {
                    Resource::Lookup(t) => {
                        t.request(sni, cid);
                    },
                    _ => {},
                },
                None => {},
            }
            proof {
                assert forall|i: int| 0 <= i < self.slots().len() implies self.slot_wf(i) by {
                    assert(old(self).slot_wf(i));
                    if i == lookup_rid {
                        let epre = old(self).lookup_at(lookup_rid).entries@;
                        let epost = self.lookup_at(lookup_rid).entries@;
                        assert forall|j: int| 0 <= j < epost.len() implies epost[j].conn
                            < self.conns@.len() by {
                            if j < epre.len() {
                                assert(epost[j].conn == epre[j].conn);
                            }
                        }
                    }
                }
                assert forall|j: int| 0 <= j < self.conns@.len() implies self.conn_wf(j) by {
                    if j < cid {
                        assert(old(self).conn_wf(j));
                    }
                }
            }
        }
        let laddr = plain.local_addr.duplicate();
        let raddr = plain.remote_addr.duplicate();
        let st = TlsStreamResource {
            kind: plain.kind,
            side: Side::Client,
            conn: cid,
            local_addr: plain.local_addr,
            remote_addr: plain.remote_addr,
            read_pending: false,
            write_pending: false,
            handshake_info: None,
            cancelled: false,
        };
        let ghost mid = *self;
        let nrid = self.registry.register(Resource::Stream(st));
        proof {
            assert(self.slot_wf(nrid as int));
            Self::lemma_wf_after_register(mid, *self);
        }
        Ok((nrid, laddr, raddr))
    }

    /// The bytes waiting to be read by one side of a connection.
    pub open spec fn spec_incoming(c: Conn, side: Side) -> Seq<u8> {
        if side is Client {
            c.server_to_client@
        } else {
            c.client_to_server@
        }
    }

    /// Whether the peer of one side already sent close-notify.
    pub open spec fn spec_peer_shutdown(c: Conn, side: Side) -> bool {
        if side is Client {
            c.server_shutdown
        } else {
            c.client_shutdown
        }
    }

    /// Whether this side itself already sent close-notify: its write half
    /// is closed and the transport takes no further bytes from it.
    pub open spec fn spec_own_shutdown(c: Conn, side: Side) -> bool {
        if side is Client {
            c.client_shutdown
        } else {
            c.server_shutdown
        }
    }

    /// Two connections that differ at most in their two byte pipes.
    pub open spec fn spec_conn_eq_except_pipes(a: Conn, b: Conn) -> bool {
        &&& b.client == a.client
        &&& b.server_alpn == a.server_alpn
        &&& b.key_state == a.key_state
        &&& b.status == a.status
        &&& b.crypto_runs == a.crypto_runs
        &&& b.client_addr == a.client_addr
        &&& b.server_addr == a.server_addr
        &&& b.client_shutdown == a.client_shutdown
        &&& b.server_shutdown == a.server_shutdown
    }

    /// How a connection changes when one side reads `n` of its waiting
    /// bytes: they leave that side's incoming pipe, nothing else moves.
    pub open spec fn spec_conn_after_read(cpre: Conn, cpost: Conn, side: Side, n: int) -> bool {
        &&& Self::spec_conn_eq_except_pipes(cpre, cpost)
        &&& if side is Client {
            cpost.server_to_client@ == cpre.server_to_client@.skip(n)
                && cpost.client_to_server == cpre.client_to_server
        } else {
            cpost.client_to_server@ == cpre.client_to_server@.skip(n)
                && cpost.server_to_client == cpre.server_to_client
        }
    }

    /// How a connection changes when one side writes `data`: the bytes are
    /// appended to that side's outgoing pipe, nothing else moves.
    pub open spec fn spec_conn_after_write(cpre: Conn, cpost: Conn, side: Side, data: Seq<u8>) -> bool {
        &&& Self::spec_conn_eq_except_pipes(cpre, cpost)
        &&& if side is Client {
            cpost.client_to_server@ == cpre.client_to_server@ + data
                && cpost.server_to_client == cpre.server_to_client
        } else {
            cpost.server_to_client@ == cpre.server_to_client@ + data
                && cpost.client_to_server == cpre.client_to_server
        }
    }

    /// The registry after one stream's slot is replaced and everything
    /// else, the connection table aside, stays.
    pub open spec fn spec_stream_slot_step(
        pre: NetSystem,
        post: NetSystem,
        rid: usize,
        st: TlsStreamResource,
    ) -> bool {
        &&& post.registry.slots@ == pre.registry.slots@.update(
            rid as int,
            Some(Slot { value: Resource::Stream(st), ..pre.registry.slot_at(rid) }),
        )
        &&& post.default_roots == pre.default_roots
        &&& post.ic_allowlist == pre.ic_allowlist
        &&& post.next_port == pre.next_port
    }

    /// One connection replaced, everything else in the table kept.
    pub open spec fn spec_conn_step(pre: NetSystem, post: NetSystem, cid: usize) -> bool {
        &&& post.conns@.len() == pre.conns@.len()
        &&& forall|j: int| 0 <= j < pre.conns@.len() && j != cid ==> post.conns@[j] == pre.conns@[j]
    }

    /// Read from a stream.
    ///
    /// At most one read may be in flight per stream: a second attempt
    /// fails with `ReadBusy` and changes nothing, so two readers can never
    /// interleave. Bytes come off the front of this side's incoming pipe,
    /// at most `max` of them; an empty result is the end of the stream.
    /// With nothing to read the read stays in flight, to be finished by
    /// `read_poll`. A read waits until the connection is established:
    /// the handshake itself is driven by `op_tls_handshake`.
    pub fn read(&mut self, rid: usize, max: usize) -> (r: Result<ReadPoll, NetError>)
        requires
            old(self).wf(),
        ensures
            final(self).wf(),
            ({
                let pre = *old(self);
                if !pre.is_stream(rid) {
                    r == Err::<ReadPoll, NetError>(NetError::BadResource) && *final(self) == pre
                } else {
                    let st = pre.stream_at(rid);
                    let c = pre.conns@[st.conn as int];
                    if st.cancelled {
                        r == Err::<ReadPoll, NetError>(NetError::Cancelled) && *final(self) == pre
                    } else if st.read_pending {
                        r == Err::<ReadPoll, NetError>(NetError::ReadBusy) && *final(self) == pre
                    } else {
                        match c.status {
                            ConnStatus::Failed { err } => r == Err::<ReadPoll, NetError>(err)
                                && *final(self) == pre,
                            ConnStatus::Fresh => {
                                &&& r matches Ok(ReadPoll::Pending)
                                &&& Self::spec_stream_slot_step(
                                    pre,
                                    *final(self),
                                    rid,
                                    TlsStreamResource { read_pending: true, ..st },
                                )
                                &&& final(self).conns == pre.conns
                            },
                            ConnStatus::Established { .. } => {
                                let inpipe = Self::spec_incoming(c, st.side);
                                if inpipe.len() > 0 {
                                    let n = if max < inpipe.len() {
                                        max as int
                                    } else {
                                        inpipe.len() as int
                                    };
                                    &&& (r matches Ok(ReadPoll::Ready(data)) && data@
                                        == inpipe.take(n))
                                    &&& Self::spec_stream_slot_step(pre, *final(self), rid, st)
                                    &&& Self::spec_conn_step(pre, *final(self), st.conn)
                                    &&& Self::spec_conn_after_read(
                                        c,
                                        final(self).conns@[st.conn as int],
                                        st.side,
                                        n,
                                    )
                                } else if Self::spec_peer_shutdown(c, st.side) {
                                    (r matches Ok(ReadPoll::Ready(data)) && data@.len() == 0)
                                        && *final(self) == pre
                                } else {
                                    &&& r matches Ok(ReadPoll::Pending)
                                    &&& Self::spec_stream_slot_step(
                                        pre,
                                        *final(self),
                                        rid,
                                        TlsStreamResource { read_pending: true, ..st },
                                    )
                                    &&& final(self).conns == pre.conns
                                }
                            },
                        }
                    }
                }
            }),
    {
        let probe = self.probe_stream(rid);
        let (side, cid) = match probe {
            None => {
                return Err(NetError::BadResource);
            },
            Some(sc) => sc,
        };
        let (cancelled, pending) = self.stream_flags(rid);
        if cancelled {
            return Err(NetError::Cancelled);
        }
        if pending.0 {
            return Err(NetError::ReadBusy);
        }
        proof {
            assert(old(self).slot_wf(rid as int));
        }
        match &self.conns[cid].status {
            ConnStatus::Failed { err } => {
                return Err(err.duplicate());
            },
            ConnStatus::Fresh => {
                self.set_read_pending(rid, true);
                return Ok(ReadPoll::Pending);
            },
            ConnStatus::Established { .. } => {},
        }
        let (len, eof) = {
            let c = &self.conns[cid];
            match side {
                Side::Client => (c.server_to_client.len(), c.server_shutdown),
                Side::Server => (c.client_to_server.len(), c.client_shutdown),
            }
        };
        if len > 0 {
            let n = if max < len {
                max
            } else {
                len
            };
            let data = self.drain_incoming(cid, side, n);
            proof {
                assert(self.registry.slots@ =~= old(self).registry.slots@.update(
                    rid as int,
                    Some(
                        Slot {
                            value: Resource::Stream(old(self).stream_at(rid)),
                            ..old(self).registry.slot_at(rid)
                        },
                    ),
                ));
            }
            return Ok(ReadPoll::Ready(data));
        }
        if eof {
            return Ok(ReadPoll::Ready(Vec::new()));
        }
        self.set_read_pending(rid, true);
        Ok(ReadPoll::Pending)
    }

    /// Whether `rid` names an open stream, and its side and connection.
    fn probe_stream(&self, rid: usize) -> (r: Option<(Side, usize)>)
        ensures
            match r {
                None => !self.is_stream(rid),
                Some((side, cid)) => self.is_stream(rid) && side == self.stream_at(rid).side && cid
                    == self.stream_at(rid).conn,
            },
    {
        if rid >= self.registry.slots.len() {
            return None;
        }
        match &self.registry.slots[rid] {
            None => None,
            Some(slot) => match &slot.value {
                Resource::Stream(st) => if slot.closed {
                    None
                } else {
                    Some((st.side, st.conn))
                },
                _ => None,
            },
        }
    }

    /// The cancellation flag and the two half locks of a stream.
    fn stream_flags(&self, rid: usize) -> (r: (bool, (bool, bool)))
        requires
            self.is_stream_live(rid),
        ensures
            r.0 == self.stream_at(rid).cancelled,
            r.1.0 == self.stream_at(rid).read_pending,
            r.1.1 == self.stream_at(rid).write_pending,
    {
        match &self.registry.slots[rid] {
            Some(slot) => match &slot.value {
                Resource::Stream(st) => (st.cancelled, (st.read_pending, st.write_pending)),
                _ => {
                    proof {
                        assert(false);
                    }
                    (false, (false, false))
                },
            },
            None => {
                proof {
                    assert(false);
                }
                (false, (false, false))
            },
        }
    }

    /// Lock or release the read half of a stream.
    fn set_read_pending(&mut self, rid: usize, v: bool)
        requires
            old(self).wf(),
            old(self).is_stream_live(rid),
        ensures
            final(self).wf(),
            Self::spec_stream_slot_step(
                *old(self),
                *final(self),
                rid,
                TlsStreamResource { read_pending: v, ..old(self).stream_at(rid) },
            ),
            final(self).conns == old(self).conns,
    {
        let slot_ref = &mut self.registry.slots[rid];
        match slot_ref {
            Some(slot) => match &mut slot.value {
                Resource::Stream(st) => {
                    st.read_pending = v;
                },
                _ => {},
            },
            None => {},
        }
        proof {
            assert forall|i: int| 0 <= i < self.slots().len() implies self.slot_wf(i) by {
                assert(old(self).slot_wf(i));
            }
            assert forall|j: int| 0 <= j < self.conns@.len() implies self.conn_wf(j) by {
                assert(old(self).conn_wf(j));
            }
        }
    }

    /// Lock or release the write half of a stream.
    fn set_write_pending(&mut self, rid: usize, v: bool)
        requires
            old(self).wf(),
            old(self).is_stream_live(rid),
        ensures
            final(self).wf(),
            Self::spec_stream_slot_step(
                *old(self),
                *final(self),
                rid,
                TlsStreamResource { write_pending: v, ..old(self).stream_at(rid) },
            ),
            final(self).conns == old(self).conns,
    {
        let slot_ref = &mut self.registry.slots[rid];
        match slot_ref {
            Some(slot) => match &mut slot.value {
                Resource::Stream(st) => {
                    st.write_pending = v;
                },
                _ => {},
            },
            None => {},
        }
        proof {
            assert forall|i: int| 0 <= i < self.slots().len() implies self.slot_wf(i) by {
                assert(old(self).slot_wf(i));
            }
            assert forall|j: int| 0 <= j < self.conns@.len() implies self.conn_wf(j) by {
                assert(old(self).conn_wf(j));
            }
        }
    }

    /// Take the first `n` waiting bytes off one side's incoming pipe.
    fn drain_incoming(&mut self, cid: usize, side: Side, n: usize) -> (data: Vec<u8>)
        requires
            old(self).wf(),
            cid < old(self).conns@.len(),
            n <= Self::spec_incoming(old(self).conns@[cid as int], side).len(),
        ensures
            final(self).wf(),
            data@ == Self::spec_incoming(old(self).conns@[cid as int], side).take(n as int),
            final(self).registry == old(self).registry,
            final(self).default_roots == old(self).default_roots,
            final(self).ic_allowlist == old(self).ic_allowlist,
            final(self).next_port == old(self).next_port,
            Self::spec_conn_step(*old(self), *final(self), cid),
            Self::spec_conn_after_read(
                old(self).conns@[cid as int],
                final(self).conns@[cid as int],
                side,
                n as int,
            ),
    {
        let c = &mut self.conns[cid];
        let pipe = match side {
            Side::Client => &mut c.server_to_client,
            Side::Server => &mut c.client_to_server,
        };
        let mut rest = pipe.split_off(n);
        core::mem::swap(pipe, &mut rest);
        proof {
            assert forall|i: int| 0 <= i < self.slots().len() implies self.slot_wf(i) by {
                assert(old(self).slot_wf(i));
            }
            assert forall|j: int| 0 <= j < self.conns@.len() implies self.conn_wf(j) by {
                assert(old(self).conn_wf(j));
            }
        }
        rest
    }

    /// Finish a read in flight, or observe that it still waits.
    ///
    /// The cancellation flag is observed first: a read pending on a closed
    /// resource resolves with `Cancelled`, never with data.
    pub fn read_poll(&mut self, rid: usize, max: usize) -> (r: Result<ReadPoll, NetError>)
        requires
            old(self).wf(),
        ensures
            final(self).wf(),
            ({
                let pre = *old(self);
                if !(pre.live_at(rid) && pre.registry.slot_at(rid).value is Stream) {
                    r == Err::<ReadPoll, NetError>(NetError::BadResource) && *final(self) == pre
                } else {
                    let st = pre.stream_at(rid);
                    let c = pre.conns@[st.conn as int];
                    if !st.read_pending {
                        r == Err::<ReadPoll, NetError>(NetError::BadResource) && *final(self)
                            == pre
                    } else if st.cancelled {
                        &&& r == Err::<ReadPoll, NetError>(NetError::Cancelled)
                        &&& Self::spec_stream_slot_step(
                            pre,
                            *final(self),
                            rid,
                            TlsStreamResource { read_pending: false, ..st },
                        )
                        &&& final(self).conns == pre.conns
                    } else {
                        match c.status {
                            ConnStatus::Failed { err } => {
                                &&& r == Err::<ReadPoll, NetError>(err)
                                &&& Self::spec_stream_slot_step(
                                    pre,
                                    *final(self),
                                    rid,
                                    TlsStreamResource { read_pending: false, ..st },
                                )
                                &&& final(self).conns == pre.conns
                            },
                            ConnStatus::Fresh => r matches Ok(ReadPoll::Pending) && *final(self)
                                == pre,
                            ConnStatus::Established { .. } => {
                                let inpipe = Self::spec_incoming(c, st.side);
                                if inpipe.len() > 0 {
                                    let n = if max < inpipe.len() {
                                        max as int
                                    } else {
                                        inpipe.len() as int
                                    };
                                    &&& (r matches Ok(ReadPoll::Ready(data)) && data@
                                        == inpipe.take(n))
                                    &&& Self::spec_stream_slot_step(
                                        pre,
                                        *final(self),
                                        rid,
                                        TlsStreamResource { read_pending: false, ..st },
                                    )
                                    &&& Self::spec_conn_step(pre, *final(self), st.conn)
                                    &&& Self::spec_conn_after_read(
                                        c,
                                        final(self).conns@[st.conn as int],
                                        st.side,
                                        n,
                                    )
                                } else if Self::spec_peer_shutdown(c, st.side) {
                                    &&& (r matches Ok(ReadPoll::Ready(data)) && data@.len() == 0)
                                    &&& Self::spec_stream_slot_step(
                                        pre,
                                        *final(self),
                                        rid,
                                        TlsStreamResource { read_pending: false, ..st },
                                    )
                                    &&& final(self).conns == pre.conns
                                } else {
                                    r matches Ok(ReadPoll::Pending) && *final(self) == pre
                                }
                            },
                        }
                    }
                }
            }),
    {
        if rid >= self.registry.slots.len() {
            return Err(NetError::BadResource);
        }
        let (is_st, side, cid) = match &self.registry.slots[rid] {
            None => (false, Side::Client, 0usize),
            Some(slot) => match &slot.value {
                Resource::Stream(st) => (true, st.side, st.conn),
                _ => (false, Side::Client, 0usize),
            },
        };
        if !is_st {
            return Err(NetError::BadResource);
        }
        let (cancelled, pending) = self.stream_flags(rid);
        if !pending.0 {
            return Err(NetError::BadResource);
        }
        if cancelled {
            self.set_read_pending(rid, false);
            return Err(NetError::Cancelled);
        }
        proof {
            assert(old(self).slot_wf(rid as int));
        }
        match &self.conns[cid].status {
            ConnStatus::Failed { err } => {
                let e = err.duplicate();
                self.set_read_pending(rid, false);
                return Err(e);
            },
            ConnStatus::Fresh => {
                return Ok(ReadPoll::Pending);
            },
            ConnStatus::Established { .. } => {},
        }
        let (len, eof) = {
            let c = &self.conns[cid];
            match side {
                Side::Client => (c.server_to_client.len(), c.server_shutdown),
                Side::Server => (c.client_to_server.len(), c.client_shutdown),
            }
        };
        if len > 0 {
            let n = if max < len {
                max
            } else {
                len
            };
            let data = self.drain_incoming(cid, side, n);
            self.set_read_pending(rid, false);
            return Ok(ReadPoll::Ready(data));
        }
        if eof {
            self.set_read_pending(rid, false);
            return Ok(ReadPoll::Ready(Vec::new()));
        }
        Ok(ReadPoll::Pending)
    }

    /// Append `data` to one side's outgoing pipe.
    fn push_outgoing(&mut self, cid: usize, side: Side, data: &[u8])
        requires
            old(self).wf(),
            cid < old(self).conns@.len(),
        ensures
            final(self).wf(),
            final(self).registry == old(self).registry,
            final(self).default_roots == old(self).default_roots,
            final(self).ic_allowlist == old(self).ic_allowlist,
            final(self).next_port == old(self).next_port,
            Self::spec_conn_step(*old(self), *final(self), cid),
            Self::spec_conn_after_write(
                old(self).conns@[cid as int],
                final(self).conns@[cid as int],
                side,
                data@,
            ),
    {
        let c = &mut self.conns[cid];
        let pipe = match side {
            Side::Client => &mut c.client_to_server,
            Side::Server => &mut c.server_to_client,
        };
        pipe.extend_from_slice(data);
        proof {
            let dpost = if side is Client {
                self.conns@[cid as int].client_to_server@
            } else {
                self.conns@[cid as int].server_to_client@
            };
            let dpre = if side is Client {
                old(self).conns@[cid as int].client_to_server@
            } else {
                old(self).conns@[cid as int].server_to_client@
            };
            assert(dpost =~= dpre + data@);
            assert forall|i: int| 0 <= i < self.slots().len() implies self.slot_wf(i) by {
                assert(old(self).slot_wf(i));
            }
            assert forall|j: int| 0 <= j < self.conns@.len() implies self.conn_wf(j) by {
                assert(old(self).conn_wf(j));
            }
        }
    }

    /// Write to a stream: the bytes are appended to this side's outgoing
    /// pipe and flushed before the call returns.
    ///
    /// At most one write may be in flight per stream: a second attempt
    /// fails with `WriteBusy` and changes nothing. Once this side has sent
    /// close-notify, its write half is closed for good: every later write
    /// fails with the broken-pipe transport error. A write is never
    /// cancelled: no outcome of this operation is the cancellation error.
    /// A write waits until the connection is established; the handshake
    /// itself is driven by `op_tls_handshake`.
    pub fn write(&mut self, rid: usize, data: &[u8]) -> (r: Result<WritePoll, NetError>)
        requires
            old(self).wf(),
        ensures
            final(self).wf(),
            !(r == Err::<WritePoll, NetError>(NetError::Cancelled)),
            ({
                let pre = *old(self);
                if !pre.is_stream(rid) {
                    r == Err::<WritePoll, NetError>(NetError::BadResource) && *final(self) == pre
                } else {
                    let st = pre.stream_at(rid);
                    let c = pre.conns@[st.conn as int];
                    if st.write_pending {
                        r == Err::<WritePoll, NetError>(NetError::WriteBusy) && *final(self) == pre
                    } else if Self::spec_own_shutdown(c, st.side) {
                        r == Err::<WritePoll, NetError>(NetError::BrokenPipe) && *final(self)
                            == pre
                    } else {
                        match c.status {
                            ConnStatus::Failed { err } => r == Err::<WritePoll, NetError>(err)
                                && *final(self) == pre,
                            ConnStatus::Fresh => {
                                &&& r matches Ok(WritePoll::Pending)
                                &&& Self::spec_stream_slot_step(
                                    pre,
                                    *final(self),
                                    rid,
                                    TlsStreamResource { write_pending: true, ..st },
                                )
                                &&& final(self).conns == pre.conns
                            },
                            ConnStatus::Established { .. } => {
                                &&& (r matches Ok(WritePoll::Ready(n)) && n == data@.len())
                                &&& Self::spec_stream_slot_step(pre, *final(self), rid, st)
                                &&& Self::spec_conn_step(pre, *final(self), st.conn)
                                &&& Self::spec_conn_after_write(
                                    c,
                                    final(self).conns@[st.conn as int],
                                    st.side,
                                    data@,
                                )
                            },
                        }
                    }
                }
            }),
    {
        let probe = self.probe_stream(rid);
        let (side, cid) = match probe {
            None => {
                return Err(NetError::BadResource);
            },
            Some(sc) => sc,
        };
        let (_cancelled, pending) = self.stream_flags(rid);
        if pending.1 {
            return Err(NetError::WriteBusy);
        }
        proof {
            assert(old(self).slot_wf(rid as int));
        }
        let own_shutdown = {
            let c = &self.conns[cid];
            match side {
                Side::Client => c.client_shutdown,
                Side::Server => c.server_shutdown,
            }
        };
        if own_shutdown {
            return Err(NetError::BrokenPipe);
        }
        match &self.conns[cid].status {
            ConnStatus::Failed { err } => {
                proof {
                    assert(old(self).conn_wf(cid as int));
                }
                return Err(err.duplicate());
            },
            ConnStatus::Fresh => {
                self.set_write_pending(rid, true);
                return Ok(WritePoll::Pending);
            },
            ConnStatus::Established { .. } => {},
        }
        let n = data.len();
        self.push_outgoing(cid, side, data);
        proof {
            assert(self.registry.slots@ =~= old(self).registry.slots@.update(
                rid as int,
                Some(
                    Slot {
                        value: Resource::Stream(old(self).stream_at(rid)),
                        ..old(self).registry.slot_at(rid)
                    },
                ),
            ));
        }
        Ok(WritePoll::Ready(n))
    }

    /// Finish a write in flight, or observe that it still waits.
    ///
    /// A write is never cancelled: if the resource was closed while the
    /// connection never became established, the write hard-fails with the
    /// transport error, not with cancellation; on an established
    /// connection it runs to completion even after a close. A write half
    /// already shut down takes no bytes and fails with the broken-pipe
    /// transport error.
    pub fn write_poll(&mut self, rid: usize, data: &[u8]) -> (r: Result<WritePoll, NetError>)
        requires
            old(self).wf(),
        ensures
            final(self).wf(),
            !(r == Err::<WritePoll, NetError>(NetError::Cancelled)),
            ({
                let pre = *old(self);
                if !(pre.live_at(rid) && pre.registry.slot_at(rid).value is Stream) {
                    r == Err::<WritePoll, NetError>(NetError::BadResource) && *final(self) == pre
                } else {
                    let st = pre.stream_at(rid);
                    let c = pre.conns@[st.conn as int];
                    if !st.write_pending {
                        r == Err::<WritePoll, NetError>(NetError::BadResource) && *final(self)
                            == pre
                    } else if Self::spec_own_shutdown(c, st.side) {
                        &&& r == Err::<WritePoll, NetError>(NetError::BrokenPipe)
                        &&& Self::spec_stream_slot_step(
                            pre,
                            *final(self),
                            rid,
                            TlsStreamResource { write_pending: false, ..st },
                        )
                        &&& final(self).conns == pre.conns
                    } else {
                        match c.status {
                            ConnStatus::Failed { err } => {
                                &&& r == Err::<WritePoll, NetError>(err)
                                &&& Self::spec_stream_slot_step(
                                    pre,
                                    *final(self),
                                    rid,
                                    TlsStreamResource { write_pending: false, ..st },
                                )
                                &&& final(self).conns == pre.conns
                            },
                            ConnStatus::Fresh => {
                                if st.cancelled {
                                    &&& r == Err::<WritePoll, NetError>(NetError::ConnectionReset)
                                    &&& Self::spec_stream_slot_step(
                                        pre,
                                        *final(self),
                                        rid,
                                        TlsStreamResource { write_pending: false, ..st },
                                    )
                                    &&& final(self).conns == pre.conns
                                } else {
                                    r matches Ok(WritePoll::Pending) && *final(self) == pre
                                }
                            },
                            ConnStatus::Established { .. } => {
                                &&& (r matches Ok(WritePoll::Ready(n)) && n == data@.len())
                                &&& Self::spec_stream_slot_step(
                                    pre,
                                    *final(self),
                                    rid,
                                    TlsStreamResource { write_pending: false, ..st },
                                )
                                &&& Self::spec_conn_step(pre, *final(self), st.conn)
                                &&& Self::spec_conn_after_write(
                                    c,
                                    final(self).conns@[st.conn as int],
                                    st.side,
                                    data@,
                                )
                            },
                        }
                    }
                }
            }),
    {
        if rid >= self.registry.slots.len() {
            return Err(NetError::BadResource);
        }
        let (is_st, side, cid) = match &self.registry.slots[rid] {
            None => (false, Side::Client, 0usize),
            Some(slot) => match &slot.value {
                Resource::Stream(st) => (true, st.side, st.conn),
                _ => (false, Side::Client, 0usize),
            },
        };
        if !is_st {
            return Err(NetError::BadResource);
        }
        let (cancelled, pending) = self.stream_flags(rid);
        if !pending.1 {
            return Err(NetError::BadResource);
        }
        proof {
            assert(old(self).slot_wf(rid as int));
        }
        let own_shutdown = {
            let c = &self.conns[cid];
            match side {
                Side::Client => c.client_shutdown,
                Side::Server => c.server_shutdown,
            }
        };
        if own_shutdown {
            self.set_write_pending(rid, false);
            return Err(NetError::BrokenPipe);
        }
        match &self.conns[cid].status {
            ConnStatus::Failed { err } => {
                proof {
                    assert(old(self).conn_wf(cid as int));
                }
                let e = err.duplicate();
                self.set_write_pending(rid, false);
                return Err(e);
            },
            ConnStatus::Fresh => {
                if cancelled {
                    self.set_write_pending(rid, false);
                    return Err(NetError::ConnectionReset);
                }
                return Ok(WritePoll::Pending);
            },
            ConnStatus::Established { .. } => {},
        }
        let n = data.len();
        self.push_outgoing(cid, side, data);
        self.set_write_pending(rid, false);
        Ok(WritePoll::Ready(n))
    }

    /// Send close-notify on a stream: this side's write half is closed for
    /// good, so every later write on this resource fails with the
    /// broken-pipe transport error, and the peer's reads observe the end
    /// of the stream once its pipe drains. The write half must be free;
    /// repeating the shutdown changes nothing further. Reads on this side
    /// stay possible: the peer may still be sending.
    pub fn shutdown(&mut self, rid: usize) -> (r: Result<(), NetError>)
        requires
            old(self).wf(),
        ensures
            final(self).wf(),
            ({
                let pre = *old(self);
                if !pre.is_stream(rid) {
                    r == Err::<(), NetError>(NetError::BadResource) && *final(self) == pre
                } else {
                    let st = pre.stream_at(rid);
                    let c = pre.conns@[st.conn as int];
                    if st.write_pending {
                        r == Err::<(), NetError>(NetError::WriteBusy) && *final(self) == pre
                    } else {
                        &&& r matches Ok(())
                        &&& final(self).registry == pre.registry
                        &&& Self::spec_conn_step(pre, *final(self), st.conn)
                        &&& ({
                            let cpost = final(self).conns@[st.conn as int];
                            &&& Self::spec_conn_eq_except_pipes(
                                Conn {
                                    client_shutdown: cpost.client_shutdown,
                                    server_shutdown: cpost.server_shutdown,
                                    ..c
                                },
                                cpost,
                            )
                            &&& cpost.client_to_server == c.client_to_server
                            &&& cpost.server_to_client == c.server_to_client
                            &&& (st.side is Client ==> cpost.client_shutdown
                                && cpost.server_shutdown == c.server_shutdown)
                            &&& (st.side is Server ==> cpost.server_shutdown
                                && cpost.client_shutdown == c.client_shutdown)
                        })
                        &&& final(self).default_roots == pre.default_roots
                        &&& final(self).ic_allowlist == pre.ic_allowlist
                        &&& final(self).next_port == pre.next_port
                    }
                }
            }),
    {
        let probe = self.probe_stream(rid);
        let (side, cid) = match probe {
            None => {
                return Err(NetError::BadResource);
            },
            Some(sc) => sc,
        };
        let (_cancelled, pending) = self.stream_flags(rid);
        if pending.1 {
            return Err(NetError::WriteBusy);
        }
        proof {
            assert(old(self).slot_wf(rid as int));
        }
        let c = &mut self.conns[cid];
        match side {
            Side::Client => {
                c.client_shutdown = true;
            },
            Side::Server => {
                c.server_shutdown = true;
            },
        }
        proof {
            assert forall|i: int| 0 <= i < self.slots().len() implies self.slot_wf(i) by {
                assert(old(self).slot_wf(i));
            }
            assert forall|j: int| 0 <= j < self.conns@.len() implies self.conn_wf(j) by {
                assert(old(self).conn_wf(j));
            }
        }
        Ok(())
    }

    /// Close a resource.
    ///
    /// The slot stays as a tombstone, so an operation already in flight on
    /// it can still observe the cancellation: closing a stream sets its
    /// cancellation flag, which a pending read or handshake reports as
    /// `Cancelled` at its next step; closing a listener makes its
    /// outstanding accept fail with `ListenerClosed`; a closed resolver
    /// queue answers no further poll or resolve. In-flight writes are not
    /// cancelled. No operation can start on a closed id.
    pub fn close(&mut self, rid: usize) -> (r: Result<(), NetError>)
        requires
            old(self).wf(),
        ensures
            final(self).wf(),
            ({
                let pre = *old(self);
                if !pre.open_at(rid) {
                    r == Err::<(), NetError>(NetError::BadResource) && *final(self) == pre
                } else {
                    &&& r matches Ok(())
                    &&& final(self).conns == pre.conns
                    &&& final(self).default_roots == pre.default_roots
                    &&& final(self).ic_allowlist == pre.ic_allowlist
                    &&& final(self).next_port == pre.next_port
                    &&& final(self).slots().len() == pre.slots().len()
                    &&& forall|j: int|
                        0 <= j < pre.slots().len() && j != rid ==> final(self).slots()[j]
                            == pre.slots()[j]
                    &&& final(self).live_at(rid)
                    &&& final(self).registry.slot_at(rid).closed
                    &&& final(self).registry.slot_at(rid).refs == pre.registry.slot_at(rid).refs
                    &&& (pre.registry.slot_at(rid).value is Stream ==> final(self).registry.slot_at(rid).value == Resource::Stream(
                        TlsStreamResource { cancelled: true, ..pre.stream_at(rid) },
                    ))
                    &&& (!(pre.registry.slot_at(rid).value is Stream) ==> final(self).registry.slot_at(rid).value == pre.registry.slot_at(rid).value)
                }
            }),
    {
        if rid >= self.registry.slots.len() {
            return Err(NetError::BadResource);
        }
        let open = match &self.registry.slots[rid] {
            None => false,
            Some(slot) => !slot.closed,
        };
        if !open {
            return Err(NetError::BadResource);
        }
        let slot_ref = &mut self.registry.slots[rid];
        match slot_ref {
            Some(slot) => {
                slot.closed = true;
                match &mut slot.value {
                    Resource::Stream(st) => {
                        st.close();
                    },
                    _ => {},
                }
            },
            None => {},
        }
        proof {
            assert forall|i: int| 0 <= i < self.slots().len() implies self.slot_wf(i) by {
                assert(old(self).slot_wf(i));
            }
            assert forall|j: int| 0 <= j < self.conns@.len() implies self.conn_wf(j) by {
                assert(old(self).conn_wf(j));
            }
        }
        Ok(())
    }

    /// Model of handing out one more shared handle to a resource, as the
    /// embedder does when it keeps a reference of its own.
    pub fn add_ref(&mut self, rid: usize) -> (r: Result<(), NetError>)
        requires
            old(self).wf(),
        ensures
            final(self).wf(),
            ({
                let pre = *old(self);
                &&& final(self).conns == pre.conns
                &&& final(self).default_roots == pre.default_roots
                &&& final(self).ic_allowlist == pre.ic_allowlist
                &&& final(self).next_port == pre.next_port
                &&& match r {
                    Ok(()) => pre.open_at(rid) && pre.registry.slot_at(rid).refs < u64::MAX
                        && final(self).registry.slots@ == pre.registry.slots@.update(
                        rid as int,
                        Some(
                            Slot {
                                refs: (pre.registry.slot_at(rid).refs + 1) as u64,
                                ..pre.registry.slot_at(rid)
                            },
                        ),
                    ),
                    Err(e) => e == NetError::BadResource && !(pre.open_at(rid)
                        && pre.registry.slot_at(rid).refs < u64::MAX) && *final(self) == pre,
                }
            }),
    {
        let r = self.registry.add_ref(rid);
        proof {
            assert forall|i: int| 0 <= i < self.slots().len() implies self.slot_wf(i) by {
                assert(old(self).slot_wf(i));
            }
            assert forall|j: int| 0 <= j < self.conns@.len() implies self.conn_wf(j) by {
                assert(old(self).conn_wf(j));
            }
        }
        r
    }

    /// Model of returning one shared handle; the resource is destroyed
    /// when its last reference is dropped.
    pub fn drop_ref(&mut self, rid: usize) -> (r: Result<(), NetError>)
        requires
            old(self).wf(),
        ensures
            final(self).wf(),
            ({
                let pre = *old(self);
                &&& final(self).conns == pre.conns
                &&& final(self).default_roots == pre.default_roots
                &&& final(self).ic_allowlist == pre.ic_allowlist
                &&& final(self).next_port == pre.next_port
                &&& match r {
                    Ok(()) => pre.live_at(rid) && (if pre.registry.slot_at(rid).refs > 1 {
                        final(self).registry.slots@ == pre.registry.slots@.update(
                            rid as int,
                            Some(
                                Slot {
                                    refs: (pre.registry.slot_at(rid).refs - 1) as u64,
                                    ..pre.registry.slot_at(rid)
                                },
                            ),
                        )
                    } else {
                        final(self).registry.slots@ == pre.registry.slots@.update(
                            rid as int,
                            None::<Slot>,
                        )
                    }),
                    Err(e) => e == NetError::BadResource && !pre.live_at(rid) && *final(self)
                        == pre,
                }
            }),
    {
        let r = self.registry.drop_ref(rid);
        proof {
            assert forall|i: int| 0 <= i < self.slots().len() implies self.slot_wf(i) by {
                assert(old(self).slot_wf(i));
            }
            assert forall|j: int| 0 <= j < self.conns@.len() implies self.conn_wf(j) by {
                assert(old(self).conn_wf(j));
            }
        }
        r
    }

    /// How many references a live resource's slot counts, or `None` for a
    /// freed id.
    pub fn resource_ref_count(&self, rid: usize) -> (r: Option<u64>)
        ensures
            match r {
                None => !self.live_at(rid),
                Some(n) => self.live_at(rid) && n == self.registry.slot_at(rid).refs,
            },
    {
        if rid >= self.registry.slots.len() {
            return None;
        }
        match &self.registry.slots[rid] {
            None => None,
            Some(slot) => Some(slot.refs),
        }
    }

    /// Whether `rid` names an open plaintext stream, still eligible for
    /// the upgrade in place.
    pub fn plain_stream_open(&self, rid: usize) -> (r: bool)
        ensures
            r == self.is_plain(rid),
    {
        if rid >= self.registry.slots.len() {
            return false;
        }
        match &self.registry.slots[rid] {
            None => false,
            Some(slot) => match &slot.value {
                Resource::Plain(_) => !slot.closed,
                _ => false,
            },
        }
    }
}

} // verus!
