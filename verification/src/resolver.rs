//! The pending-lookup queue of the SNI certificate resolver.
//!
//! In resolver mode, each incoming handshake that needs a key creates one
//! entry, keyed by the hostname the client presented. An external authority
//! polls for new hostnames and answers each entry exactly once, with either
//! a key pair or an explicit error. Fulfilling one entry never touches any
//! other.

use vstd::prelude::*;

verus! {

/// The life of one lookup entry.
#[derive(Clone, Copy, Debug, PartialEq, Eq, Structural)]
pub enum LookupState {
    /// Created by a handshake, not yet handed to the authority.
    Created,
    /// Handed to the authority by a poll, awaiting its answer.
    Polled,
    /// Answered; an entry is never re-resolved.
    Answered,
}

/// One pending hostname lookup.
#[derive(Debug)]
pub struct LookupEntry {
    /// The hostname the client presented.
    pub hostname: String,
    /// The connection whose handshake created this entry.
    pub conn: usize,
    /// Where the entry stands.
    pub state: LookupState,
}

/// The queue of pending lookups of one resolver, registered as a resource.
#[derive(Debug)]
pub struct LookupTable {
    /// Every entry ever created, oldest first.
    pub entries: Vec<LookupEntry>,
}

/// Whether entry `i` of `t` is awaiting an answer for hostname `h`.
pub open spec fn spec_polled_match(t: LookupTable, h: Seq<char>, i: int) -> bool {
    &&& 0 <= i < t.entries@.len()
    &&& t.entries@[i].hostname@ == h
    &&& t.entries@[i].state is Polled
}

impl LookupTable {
    /// A queue with no entries.
    pub fn empty() -> (r: LookupTable)
        ensures
            r.entries@.len() == 0,
    {
        LookupTable { entries: Vec::new() }
    }

    /// Create one entry for a handshake that needs a decision.
    pub fn request(&mut self, hostname: String, conn: usize)
        ensures
            final(self).entries@ == old(self).entries@.push(
                LookupEntry { hostname, conn, state: LookupState::Created },
            ),
    {
        self.entries.push(LookupEntry { hostname, conn, state: LookupState::Created });
    }

    /// Hand the oldest not-yet-polled hostname to the authority, marking
    /// its entry polled. Returns `None` when no entry is waiting.
    pub fn poll(&mut self) -> (r: Option<String>)
        ensures
            match r {
                None => *final(self) == *old(self) && (forall|i: int|
                    0 <= i < old(self).entries@.len() ==> !(old(self).entries@[i].state
                        is Created)),
                Some(h) => exists|k: int|
                    {
                        &&& 0 <= k < old(self).entries@.len()
                        &&& old(self).entries@[k].state is Created
                        &&& forall|j: int|
                            0 <= j < k ==> !(old(self).entries@[j].state is Created)
                        &&& h@ == old(self).entries@[k].hostname@
                        &&& final(self).entries@ == old(self).entries@.update(
                            k,
                            LookupEntry { state: LookupState::Polled, ..old(self).entries@[k] },
                        )
                    },
            },
    {
        let n = self.entries.len();
        let mut i: usize = 0;
        while i < n
            invariant
                n == self.entries@.len(),
                0 <= i <= n,
                *self == *old(self),
                forall|j: int| 0 <= j < i ==> !(self.entries@[j].state is Created),
            decreases n - i,
        {
            let is_created = match self.entries[i].state {
                LookupState::Created => true,
                _ => false,
            };
            if is_created {
                let h = self.entries[i].hostname.clone();
                let conn = self.entries[i].conn;
                self.entries[i] = LookupEntry { hostname: h.clone(), conn, state: LookupState::Polled };
                proof {
                    assert(spec_polled_match(*self, h@, i as int));
                }
                return Some(h);
            }
            i += 1;
        }
        None
    }

    /// Answer the oldest entry awaiting an answer for this hostname,
    /// marking it answered; every other entry is left untouched. Returns
    /// the index of the entry answered, or `None` when no entry with this
    /// hostname is awaiting an answer.
    pub fn fulfil(&mut self, hostname: &String) -> (r: Option<usize>)
        ensures
            match r {
                None => *final(self) == *old(self) && (forall|i: int|
                    !spec_polled_match(*old(self), hostname@, i)),
                Some(k) => {
                    &&& spec_polled_match(*old(self), hostname@, k as int)
                    &&& forall|j: int|
                        0 <= j < k ==> !spec_polled_match(*old(self), hostname@, j)
                    &&& final(self).entries@ == old(self).entries@.update(
                        k as int,
                        LookupEntry {
                            state: LookupState::Answered,
                            ..old(self).entries@[k as int]
                        },
                    )
                },
            },
    {
        let n = self.entries.len();
        let mut i: usize = 0;
        while i < n
            invariant
                n == self.entries@.len(),
                0 <= i <= n,
                *self == *old(self),
                forall|j: int| 0 <= j < i ==> !spec_polled_match(*old(self), hostname@, j),
            decreases n - i,
        {
            let is_polled = match self.entries[i].state {
                LookupState::Polled => true,
                _ => false,
            };
            if is_polled && self.entries[i].hostname == *hostname {
                let h = self.entries[i].hostname.clone();
                let conn = self.entries[i].conn;
                self.entries[i] = LookupEntry { hostname: h, conn, state: LookupState::Answered };
                return Some(i);
            }
            i += 1;
        }
        None
    }

    /// Whether any entry is waiting to be polled.
    pub fn has_created(&self) -> (r: bool)
        ensures
            r <==> exists|i: int|
                0 <= i < self.entries@.len() && self.entries@[i].state is Created,
    {
        let n = self.entries.len();
        let mut i: usize = 0;
        while i < n
            invariant
                n == self.entries@.len(),
                0 <= i <= n,
                forall|j: int| 0 <= j < i ==> !(self.entries@[j].state is Created),
            decreases n - i,
        {
            match self.entries[i].state {
                LookupState::Created => {
                    return true;
                },
                _ => {},
            }
            i += 1;
        }
        false
    }

    /// Whether any entry for this hostname is awaiting an answer.
    pub fn has_polled(&self, hostname: &String) -> (r: bool)
        ensures
            r <==> exists|i: int| spec_polled_match(*self, hostname@, i),
    {
        let n = self.entries.len();
        let mut i: usize = 0;
        while i < n
            invariant
                n == self.entries@.len(),
                0 <= i <= n,
                forall|j: int| 0 <= j < i ==> !spec_polled_match(*self, hostname@, j),
            decreases n - i,
        {
            let is_polled = match self.entries[i].state {
                LookupState::Polled => true,
                _ => false,
            };
            if is_polled && self.entries[i].hostname == *hostname {
                assert(spec_polled_match(*self, hostname@, i as int));
                return true;
            }
            i += 1;
        }
        false
    }

    /// The connection of entry `k`.
    pub fn conn_of(&self, k: usize) -> (r: usize)
        requires
            k < self.entries@.len(),
        ensures
            r == self.entries@[k as int].conn,
    {
        self.entries[k].conn
    }
}

} // verus!
