//! The in-process socket registry and the file identity it is keyed by.
//!
//! The registry records which socket files are currently owned by a live
//! managed socket in this process. It is keyed by the file's identity on
//! disk (device id and inode number) rather than by the textual path, so
//! that distinct spellings of a path that reach the same file are
//! recognized as the same resource.

use vstd::prelude::*;

verus! {

/// The identity of a bound socket file on disk: device id and inode number.
///
/// Two path strings that resolve to the same file yield the same entry,
/// which is what lets the registry detect path aliasing.
#[derive(Clone, Copy, Debug, Hash, PartialEq, Eq, Structural)]
pub struct SocketRegistryEntry {
    pub dev: u64,
    pub ino: u64,
}

/// The set of socket file identities currently owned by live managed
/// sockets in this process.
///
/// An entry is present iff some live managed socket owns the corresponding
/// file. The owner of socket lifecycles holds one instance, behind a lock
/// when shared between tasks; every operation here is a short, synchronous
/// critical section. A poisoned lock is the lock holder's concern: it is
/// reported to callers as a poisoning failure instead of reaching this type.
pub struct SocketRegistry {
    entries: Vec<SocketRegistryEntry>,
}

impl View for SocketRegistry {
    type V = Set<SocketRegistryEntry>;

    closed spec fn view(&self) -> Set<SocketRegistryEntry> {
        Set::new(|e: SocketRegistryEntry| self.entries@.contains(e))
    }
}

impl SocketRegistry {
    /// The registry's internal representation holds each identity at most once.
    pub closed spec fn wf(&self) -> bool {
        self.entries@.no_duplicates()
    }

    /// Creates an empty registry: no socket file is owned yet.
    pub fn new() -> (r: SocketRegistry)
        ensures
            r@ == Set::<SocketRegistryEntry>::empty(),
            r.wf(),
    {
        let r = SocketRegistry { entries: Vec::new() };
        proof {
            assert(r@ =~= Set::<SocketRegistryEntry>::empty());
        }
        r
    }

    /// Index of `entry` in the backing vector, if present.
    fn position_of(&self, entry: SocketRegistryEntry) -> (r: Option<usize>)
        ensures
            match r {
                Some(i) => i < self.entries@.len() && self.entries@[i as int] == entry,
                None => !self@.contains(entry),
            },
    {
        let n = self.entries.len();
        let mut i: usize = 0;
        while i < n
            invariant
                n == self.entries@.len(),
                i <= n,
                forall|k: int| 0 <= k < i ==> self.entries@[k] != entry,
            decreases n - i,
        {
            if self.entries[i] == entry {
                return Some(i);
            }
            i = i + 1;
        }
        None
    }

    /// Whether `entry` is currently owned by a live managed socket.
    pub fn contains(&self, entry: SocketRegistryEntry) -> (b: bool)
        ensures
            b == self@.contains(entry),
    {
        match self.position_of(entry) {
            Some(i) => {
                proof {
                    assert(self.entries@.contains(entry));
                }
                true
            },
            None => false,
        }
    }

    /// Records `entry` as owned; reports whether it was absent before.
    ///
    /// A `false` result means the identity was already present, which
    /// signals an inconsistency (an on-disk file existed without a tracked
    /// owner); the caller is expected to log it, not to fail.
    pub fn register(&mut self, entry: SocketRegistryEntry) -> (was_new: bool)
        requires
            old(self).wf(),
        ensures
            final(self).wf(),
            final(self)@ == old(self)@.insert(entry),
            was_new == !old(self)@.contains(entry),
    {
        match self.position_of(entry) {
            Some(_) => {
                proof {
                    assert(self.entries@.contains(entry));
                    assert(self@ =~= old(self)@.insert(entry));
                }
                false
            },
            None => {
                self.entries.push(entry);
                proof {
                    assert forall|e: SocketRegistryEntry| self@.contains(e)
                        <==> old(self)@.insert(entry).contains(e) by {
                        if self.entries@.contains(e) {
                            let k = choose|k: int|
                                0 <= k < self.entries@.len() && self.entries@[k] == e;
                            if k < old(self).entries@.len() {
                                assert(old(self).entries@[k] == e);
                            }
                        }
                        if old(self).entries@.contains(e) {
                            let k = choose|k: int|
                                0 <= k < old(self).entries@.len() && old(self).entries@[k] == e;
                            assert(self.entries@[k] == e);
                        }
                        if e == entry {
                            assert(self.entries@[self.entries@.len() - 1] == entry);
                        }
                    }
                    assert(self@ =~= old(self)@.insert(entry));
                }
                true
            },
        }
    }

    /// Removes `entry` from the owned set; reports whether it was present.
    ///
    /// A `false` result at release time signals an invariant violation
    /// (a handle released that was never registered); the caller is
    /// expected to log it, not to fail.
    pub fn remove(&mut self, entry: SocketRegistryEntry) -> (was_present: bool)
        requires
            old(self).wf(),
        ensures
            final(self).wf(),
            final(self)@ == old(self)@.remove(entry),
            was_present == old(self)@.contains(entry),
    {
        match self.position_of(entry) {
            Some(i) => {
                proof {
                    assert(self.entries@.contains(entry));
                }
                self.entries.remove(i);
                proof {
                    let s0 = old(self).entries@;
                    let s1 = self.entries@;
                    s0.remove_ensures(i as int);
                    assert forall|e: SocketRegistryEntry| self@.contains(e)
                        <==> old(self)@.remove(entry).contains(e) by {
                        if s1.contains(e) {
                            let k = choose|k: int| 0 <= k < s1.len() && s1[k] == e;
                            if k < i {
                                assert(s0[k] == e);
                            } else {
                                assert(s0[k + 1] == e);
                            }
                            // No duplicates: the removed slot held the only
                            // occurrence of `entry`, so `e` differs from it.
                            if e == entry {
                                if k < i {
                                    assert(s0[k] == s0[i as int]);
                                    assert(false);
                                } else {
                                    assert(s0[k + 1] == s0[i as int]);
                                    assert(false);
                                }
                            }
                        }
                        if s0.contains(e) && e != entry {
                            let k = choose|k: int| 0 <= k < s0.len() && s0[k] == e;
                            if k < i {
                                assert(s1[k] == e);
                            } else {
                                assert(k != i);
                                assert(s1[k - 1] == e);
                            }
                        }
                    }
                    assert(self@ =~= old(self)@.remove(entry));
                }
                true
            },
            None => {
                proof {
                    assert(self@ =~= old(self)@.remove(entry));
                }
                false
            },
        }
    }
}

} // verus!
