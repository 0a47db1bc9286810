//! The resource registry: opaque integer ids mapped to live resources.
//!
//! Every resource carries a reference count, the model of the shared
//! handles an embedder may hold. Taking a resource out for exclusive use —
//! the upgrade in place needs this — succeeds only when the registry holds
//! the sole reference; otherwise the registry is left untouched. Closing a
//! resource keeps a tombstone, so an operation already in flight on it can
//! still observe its cancellation.

use vstd::prelude::*;

verus! {

use crate::errors::NetError;
use crate::listener::TlsListener;
use crate::resolver::LookupTable;
use crate::stream::{PlainStream, TlsStreamResource};

/// A live resource.
#[derive(Debug)]
pub enum Resource {
    /// A plaintext stream, eligible for the upgrade in place.
    Plain(PlainStream),
    /// An established TLS stream.
    Stream(TlsStreamResource),
    /// A bound TLS listener.
    Listener(TlsListener),
    /// The pending-lookup queue of a certificate resolver.
    Lookup(LookupTable),
}

/// One registry slot.
#[derive(Debug)]
pub struct Slot {
    /// How many references are held: the registry's own plus every handle
    /// given out and not yet returned.
    pub refs: u64,
    /// Whether the resource was closed; a closed slot stays as a tombstone
    /// so that pending operations observe the cancellation.
    pub closed: bool,
    /// The resource itself.
    pub value: Resource,
}

/// The registry. Ids are indices; a freed slot is never reused.
#[derive(Debug)]
pub struct Registry {
    /// One slot per id ever handed out; `None` once freed.
    pub slots: Vec<Option<Slot>>,
}

impl Registry {
    /// Whether an id names a slot that still exists (possibly closed).
    pub open spec fn live(&self, rid: usize) -> bool {
        rid < self.slots@.len() && self.slots@[rid as int] is Some
    }

    /// The slot an id names.
    pub open spec fn slot_at(&self, rid: usize) -> Slot
        recommends
            self.live(rid),
    {
        self.slots@[rid as int]->0
    }

    /// Whether an id names a live, not-closed slot.
    pub open spec fn open_at(&self, rid: usize) -> bool {
        self.live(rid) && !self.slot_at(rid).closed
    }

    /// An empty registry.
    pub fn empty() -> (r: Registry)
        ensures
            r.slots@.len() == 0,
    {
        Registry { slots: Vec::new() }
    }

    /// Register a resource; the new id is returned and holds the sole
    /// reference.
    pub fn register(&mut self, value: Resource) -> (rid: usize)
        ensures
            rid == old(self).slots@.len(),
            final(self).slots@ == old(self).slots@.push(
                Some(Slot { refs: 1, closed: false, value }),
            ),
    {
        let rid = self.slots.len();
        self.slots.push(Some(Slot { refs: 1, closed: false, value }));
        rid
    }

    /// Model of handing out one more shared handle to a resource.
    pub fn add_ref(&mut self, rid: usize) -> (r: Result<(), NetError>)
        ensures
            match r {
                Ok(()) => {
                    &&& old(self).open_at(rid)
                    &&& old(self).slot_at(rid).refs < u64::MAX
                    &&& final(self).slots@ == old(self).slots@.update(
                        rid as int,
                        Some(
                            Slot {
                                refs: (old(self).slot_at(rid).refs + 1) as u64,
                                ..old(self).slot_at(rid)
                            },
                        ),
                    )
                },
                Err(e) => {
                    &&& e == NetError::BadResource
                    &&& !(old(self).open_at(rid) && old(self).slot_at(rid).refs < u64::MAX)
                    &&& *final(self) == *old(self)
                },
            },
    {
        if rid >= self.slots.len() {
            return Err(NetError::BadResource);
        }
        let (refs, closed) = match &self.slots[rid] {
            None => {
                return Err(NetError::BadResource);
            },
            Some(slot) => (slot.refs, slot.closed),
        };
        if closed || refs == u64::MAX {
            return Err(NetError::BadResource);
        }
        let slot_ref = &mut self.slots[rid];
        match slot_ref {
            Some(slot) => {
                slot.refs = refs + 1;
            },
            None => {},
        }
        Ok(())
    }

    /// Model of returning one shared handle; the resource is destroyed
    /// when its last reference is dropped.
    pub fn drop_ref(&mut self, rid: usize) -> (r: Result<(), NetError>)
        ensures
            match r {
                Ok(()) => ({
                    let pre = *old(self);
                    let kept = Slot { refs: (pre.slot_at(rid).refs - 1) as u64, ..pre.slot_at(rid) };
                    &&& pre.live(rid)
                    &&& (pre.slot_at(rid).refs > 1 ==> final(self).slots@ == pre.slots@.update(
                        rid as int,
                        Some(kept),
                    ))
                    &&& (pre.slot_at(rid).refs <= 1 ==> final(self).slots@ == pre.slots@.update(
                        rid as int,
                        None::<Slot>,
                    ))
                }),
                Err(e) => {
                    &&& e == NetError::BadResource
                    &&& !old(self).live(rid)
                    &&& *final(self) == *old(self)
                },
            },
    {
        if rid >= self.slots.len() {
            return Err(NetError::BadResource);
        }
        let refs = match &self.slots[rid] {
            None => {
                return Err(NetError::BadResource);
            },
            Some(slot) => slot.refs,
        };
        if refs <= 1 {
            let slot_ref = &mut self.slots[rid];
            let _ = slot_ref.take();
        } else {
            let slot_ref = &mut self.slots[rid];
            match slot_ref {
                Some(slot) => {
                    slot.refs = refs - 1;
                },
                None => {},
            }
        }
        Ok(())
    }

    /// Take a resource out for exclusive use. Succeeds only when the id is
    /// open and the registry holds the sole reference; the slot is freed.
    pub fn take_unique(&mut self, rid: usize) -> (r: Resource)
        requires
            old(self).open_at(rid),
            old(self).slot_at(rid).refs == 1,
        ensures
            r == old(self).slot_at(rid).value,
            final(self).slots@ == old(self).slots@.update(rid as int, None),
    {
        let slot_ref = &mut self.slots[rid];
        let taken = slot_ref.take();
        match taken {
            Some(slot) => slot.value,
            None => {
                // unreachable under the precondition
                proof {
                    assert(false);
                }
                Resource::Lookup(LookupTable::empty())
            },
        }
    }
}

} // verus!
