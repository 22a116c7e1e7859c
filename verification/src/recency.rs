//! The bounded recency cache: an in-process, fixed-capacity,
//! least-recently-used map from fingerprint to fully resolved outcome.
//! It is an accelerator only: constructed once, handed by mutable reference
//! into the orchestrator, and never the source of truth.

use vstd::prelude::*;
use crate::errors::{VMError, VMErrorView};
use crate::hash::CryptoHash;
use crate::types::{CompiledModule, CompiledModuleView};

verus! {

/// The default capacity of the recency cache.
pub const CACHE_SIZE: usize = 128;

/// The mathematical value of a resolved outcome.
pub open spec fn outcome_view(o: Result<CompiledModule, VMError>) -> Result<
    CompiledModuleView,
    VMErrorView,
> {
    match o {
        Ok(m) => Ok(m@),
        Err(e) => Err(e@),
    }
}

/// A fresh outcome with the same value.
pub fn copy_outcome(o: &Result<CompiledModule, VMError>) -> (r: Result<CompiledModule, VMError>)
    ensures
        outcome_view(r) == outcome_view(*o),
{
    match o {
        Ok(m) => Ok(m.duplicate()),
        Err(e) => Err(e.duplicate()),
    }
}

/// Whether some entry of `s` carries the key `k`.
pub open spec fn spec_has_key(
    s: Seq<(Seq<u8>, Result<CompiledModuleView, VMErrorView>)>,
    k: Seq<u8>,
) -> bool {
    exists|i: int| 0 <= i < s.len() && s[i].0 == k
}

/// The index of the entry carrying `k`; unique when keys are distinct.
pub open spec fn spec_key_index(
    s: Seq<(Seq<u8>, Result<CompiledModuleView, VMErrorView>)>,
    k: Seq<u8>,
) -> int {
    choose|i: int| 0 <= i < s.len() && s[i].0 == k
}

/// No two entries share a key.
pub open spec fn recency_keys_distinct(
    s: Seq<(Seq<u8>, Result<CompiledModuleView, VMErrorView>)>,
) -> bool {
    forall|i: int, j: int| 0 <= i < j < s.len() ==> s[i].0 != s[j].0
}

/// What inserting `(k, v)` into a least-recently-used order does: any entry
/// already carrying `k` leaves its place, `(k, v)` becomes the most recent,
/// and if the cache would exceed its capacity the least recent entry is
/// evicted.
pub open spec fn spec_lru_insert(
    s: Seq<(Seq<u8>, Result<CompiledModuleView, VMErrorView>)>,
    k: Seq<u8>,
    v: Result<CompiledModuleView, VMErrorView>,
    cap: nat,
) -> Seq<(Seq<u8>, Result<CompiledModuleView, VMErrorView>)> {
    let without = if spec_has_key(s, k) {
        s.remove(spec_key_index(s, k))
    } else {
        s
    };
    let pushed = without.push((k, v));
    if pushed.len() > cap {
        pushed.subrange(1, pushed.len() as int)
    } else {
        pushed
    }
}

/// Bounded cache eviction: inserting a fresh fingerprint into a full cache
/// evicts exactly the least-recently-used entry, keeps every other entry in
/// order, and makes the new entry the most recent.
pub proof fn lemma_lru_eviction(
    s: Seq<(Seq<u8>, Result<CompiledModuleView, VMErrorView>)>,
    k: Seq<u8>,
    v: Result<CompiledModuleView, VMErrorView>,
    cap: nat,
)
    requires
        !spec_has_key(s, k),
        s.len() == cap,
        cap >= 1,
    ensures
        spec_lru_insert(s, k, v, cap) == s.subrange(1, s.len() as int).push((k, v)),
{
    assert(spec_lru_insert(s, k, v, cap) =~= s.subrange(1, s.len() as int).push((k, v)));
}

/// The fixed-capacity least-recently-used cache of resolved outcomes, keyed
/// by fingerprint. Entries are held least recent first, most recent last.
pub struct RecencyCache {
    capacity: usize,
    entries: Vec<(CryptoHash, Result<CompiledModule, VMError>)>,
}

impl RecencyCache {
    /// The entries, least recent first.
    pub closed spec fn order(&self) -> Seq<(Seq<u8>, Result<CompiledModuleView, VMErrorView>)> {
        self.entries@.map(
            |i: int, e: (CryptoHash, Result<CompiledModule, VMError>)| (e.0@, outcome_view(e.1)),
        )
    }

    /// The configured capacity.
    pub closed spec fn cap(&self) -> nat {
        self.capacity as nat
    }

    /// Distinct keys, within capacity.
    pub open spec fn wf(&self) -> bool {
        recency_keys_distinct(self.order()) && self.order().len() <= self.cap() && self.cap() >= 1
    }

    /// An empty cache of the given capacity.
    pub fn with_capacity(capacity: usize) -> (r: RecencyCache)
        requires
            capacity >= 1,
        ensures
            r.wf(),
            r.order() == Seq::<(Seq<u8>, Result<CompiledModuleView, VMErrorView>)>::empty(),
            r.cap() == capacity,
    {
        let r = RecencyCache { capacity, entries: Vec::new() };
        proof {
            assert(r.order() =~= Seq::<
                (Seq<u8>, Result<CompiledModuleView, VMErrorView>),
            >::empty());
        }
        r
    }

    /// An empty cache of the default capacity.
    pub fn new() -> (r: RecencyCache)
        ensures
            r.wf(),
            r.order() == Seq::<(Seq<u8>, Result<CompiledModuleView, VMErrorView>)>::empty(),
            r.cap() == CACHE_SIZE,
    {
        RecencyCache::with_capacity(CACHE_SIZE)
    }

    /// How many outcomes the cache holds.
    pub fn len(&self) -> (r: usize)
        ensures
            r == self.order().len(),
    {
        self.entries.len()
    }

    /// The index holding `key`, if any.
    fn find(&self, key: &CryptoHash) -> (r: Option<usize>)
        ensures
            match r {
                Some(i) => i < self.order().len() && self.order()[i as int].0 == key@,
                None => !spec_has_key(self.order(), key@),
            },
    {
        let mut i: usize = 0;
        while i < self.entries.len()
            invariant
                i <= self.entries@.len(),
                forall|j: int| 0 <= j < i ==> self.order()[j].0 != key@,
            decreases self.entries@.len() - i,
        {
            if self.entries[i].0.equals(key) {
                return Some(i);
            }
            i = i + 1;
        }
        None
    }

    /// Looks a fingerprint up; a hit hands back a copy of the resolved
    /// outcome and makes the entry the most recent one.
    pub fn lookup(&mut self, key: &CryptoHash) -> (r: Option<Result<CompiledModule, VMError>>)
        requires
            old(self).wf(),
        ensures
            final(self).wf(),
            final(self).cap() == old(self).cap(),
            spec_has_key(old(self).order(), key@) ==> {
                let i = spec_key_index(old(self).order(), key@);
                &&& r matches Some(v) && outcome_view(v) == old(self).order()[i].1
                &&& final(self).order() == old(self).order().remove(i).push(
                    (key@, old(self).order()[i].1),
                )
            },
            !spec_has_key(old(self).order(), key@) ==> r is None && final(self).order() == old(
                self,
            ).order(),
    {
        match self.find(key) {
            Some(i) => {
                let ghost s = self.order();
                let ghost ix = i as int;
                proof {
                    assert(spec_has_key(s, key@));
                    let j = spec_key_index(s, key@);
                    if j != ix {
                        assert(s[j].0 == s[ix].0);
                        assert(false);
                    }
                }
                let entry = self.entries.remove(i);
                let outcome = copy_outcome(&entry.1);
                self.entries.push(entry);
                proof {
                    assert(self.order() =~= s.remove(ix).push((key@, s[ix].1)));
                    assert forall|a: int, b: int|
                        0 <= a < b < self.order().len() implies self.order()[a].0
                        != self.order()[b].0 by {
                        assert(recency_keys_distinct(s));
                        assert(s.remove(ix).len() == s.len() - 1);
                    }
                }
                Some(outcome)
            }
            None => None,
        }
    }

    /// Records the resolved outcome for a fingerprint as the most recent
    /// entry, evicting the least recent one if the cache is full.
    pub fn insert(&mut self, key: &CryptoHash, outcome: Result<CompiledModule, VMError>)
        requires
            old(self).wf(),
        ensures
            final(self).wf(),
            final(self).cap() == old(self).cap(),
            final(self).order() == spec_lru_insert(
                old(self).order(),
                key@,
                outcome_view(outcome),
                old(self).cap(),
            ),
    {
        let ghost s0 = self.order();
        match self.find(key) {
            Some(i) => {
                proof {
                    let j = spec_key_index(s0, key@);
                    if j != i as int {
                        assert(s0[j].0 == s0[i as int].0);
                        assert(false);
                    }
                }
                let _ = self.entries.remove(i);
            }
            None => {}
        }
        let ghost without = self.order();
        proof {
            if spec_has_key(s0, key@) {
                assert(without =~= s0.remove(spec_key_index(s0, key@)));
            }
            assert(!spec_has_key(without, key@)) by {
                if spec_has_key(without, key@) {
                    let j = spec_key_index(without, key@);
                    assert(without[j].0 == key@);
                    if spec_has_key(s0, key@) {
                        let ix = spec_key_index(s0, key@);
                        if j < ix {
                            assert(s0[j] == without[j]);
                        } else {
                            assert(s0[j + 1] == without[j]);
                        }
                    }
                }
            }
        }
        self.entries.push((key.duplicate(), outcome));
        proof {
            assert(self.order() =~= without.push((key@, outcome_view(outcome))));
        }
        if self.entries.len() > self.capacity {
            let ghost pushed = self.order();
            let _ = self.entries.remove(0);
            proof {
                assert(self.order() =~= pushed.subrange(1, pushed.len() as int));
            }
        }
        proof {
            assert(self.order() =~= spec_lru_insert(s0, key@, outcome_view(outcome), self.cap()));
            let r = self.order();
            assert forall|a: int, b: int| 0 <= a < b < r.len() implies r[a].0 != r[b].0 by {
                assert(recency_keys_distinct(without.push((key@, outcome_view(outcome)))));
            }
        }
    }
}

} // verus!
