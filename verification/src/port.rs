//! The persistent cache port: the key/value interface the orchestrator
//! consumes from an externally supplied store, and an in-memory
//! implementation of it for tests and benchmarks.

use vstd::prelude::*;
use crate::codec::{bytes_eq, copy_bytes};

verus! {

/// An I/O failure of the persistent store; every call through the port is
/// independently fallible.
#[derive(Clone, Copy, PartialEq, Eq, Structural, Debug)]
pub struct IoError;

/// The interface the core consumes from the externally supplied key/value
/// store. Keys and values are opaque byte strings; the core puts fingerprint
/// bytes in the keys and encoded records in the values, and treats every call
/// as independently fallible.
pub trait CompiledContractCache: Sized {
    /// The store, as a map from key bytes to value bytes.
    spec fn contents(&self) -> Map<Seq<u8>, Seq<u8>>;

    /// Looks a key up. On success the answer reflects the contents; an error
    /// is surfaced to the caller, never treated as a miss.
    fn get(&self, key: &[u8]) -> (r: Result<Option<Vec<u8>>, IoError>)
        ensures
            match r {
                Ok(Some(v)) => self.contents().contains_key(key@) && v@ == self.contents()[key@],
                Ok(None) => !self.contents().contains_key(key@),
                Err(_) => true,
            },
    ;

    /// Stores a value under a key, overwriting any previous value. A failed
    /// put leaves the contents as they were.
    fn put(&mut self, key: &[u8], value: &[u8]) -> (r: Result<(), IoError>)
        ensures
            match r {
                Ok(_) => final(self).contents() == old(self).contents().insert(key@, value@),
                Err(_) => final(self).contents() == old(self).contents(),
            },
    ;
}

/// The map denoted by an association list; a later entry overrides an
/// earlier one with the same key.
pub open spec fn assoc_map(s: Seq<(Seq<u8>, Seq<u8>)>) -> Map<Seq<u8>, Seq<u8>>
    decreases s.len(),
{
    if s.len() == 0 {
        Map::empty()
    } else {
        assoc_map(s.drop_last()).insert(s.last().0, s.last().1)
    }
}

/// No two entries share a key.
pub open spec fn keys_distinct(s: Seq<(Seq<u8>, Seq<u8>)>) -> bool {
    forall|i: int, j: int| 0 <= i < j < s.len() ==> s[i].0 != s[j].0
}

proof fn lemma_assoc_map_absent(s: Seq<(Seq<u8>, Seq<u8>)>, k: Seq<u8>)
    requires
        forall|i: int| 0 <= i < s.len() ==> s[i].0 != k,
    ensures
        !assoc_map(s).contains_key(k),
    decreases s.len(),
{
    if s.len() > 0 {
        assert forall|i: int| 0 <= i < s.drop_last().len() implies s.drop_last()[i].0 != k by {
            assert(s.drop_last()[i] == s[i]);
        }
        lemma_assoc_map_absent(s.drop_last(), k);
    }
}

proof fn lemma_assoc_map_present(s: Seq<(Seq<u8>, Seq<u8>)>, i: int)
    requires
        keys_distinct(s),
        0 <= i < s.len(),
    ensures
        assoc_map(s).contains_key(s[i].0),
        assoc_map(s)[s[i].0] == s[i].1,
    decreases s.len(),
{
    if i < s.len() - 1 {
        assert(keys_distinct(s.drop_last())) by {
            assert forall|a: int, b: int|
                0 <= a < b < s.drop_last().len() implies s.drop_last()[a].0
                != s.drop_last()[b].0 by {
                assert(s.drop_last()[a] == s[a] && s.drop_last()[b] == s[b]);
            }
        }
        lemma_assoc_map_present(s.drop_last(), i);
        assert(s[i].0 != s.last().0);
    }
}

proof fn lemma_assoc_map_len(s: Seq<(Seq<u8>, Seq<u8>)>)
    requires
        keys_distinct(s),
    ensures
        assoc_map(s).dom().finite(),
        assoc_map(s).len() == s.len(),
    decreases s.len(),
{
    if s.len() > 0 {
        assert(keys_distinct(s.drop_last())) by {
            assert forall|a: int, b: int|
                0 <= a < b < s.drop_last().len() implies s.drop_last()[a].0
                != s.drop_last()[b].0 by {
                assert(s.drop_last()[a] == s[a] && s.drop_last()[b] == s[b]);
            }
        }
        lemma_assoc_map_len(s.drop_last());
        assert forall|i: int| 0 <= i < s.drop_last().len() implies s.drop_last()[i].0
            != s.last().0 by {
            assert(s.drop_last()[i] == s[i]);
        }
        lemma_assoc_map_absent(s.drop_last(), s.last().0);
    }
}

/// An in-memory implementation of the port, used by tests: a plain
/// association list behind the trait, with switches that make every `put` or
/// every `get` fail to exercise the orchestrator's error paths.
#[derive(Debug)]
pub struct MockCompiledContractCache {
    entries: Vec<(Vec<u8>, Vec<u8>)>,
    fail_puts: bool,
    fail_gets: bool,
}

/// The mathematical value of a list of byte-string pairs.
pub open spec fn pairs_view(s: Seq<(Vec<u8>, Vec<u8>)>) -> Seq<(Seq<u8>, Seq<u8>)> {
    s.map(|i: int, e: (Vec<u8>, Vec<u8>)| (e.0@, e.1@))
}

/// A copy of `entries` with index `i` replaced by a copy of `pair`.
fn entries_with_set(
    entries: &Vec<(Vec<u8>, Vec<u8>)>,
    i: usize,
    pair: &(Vec<u8>, Vec<u8>),
) -> (r: Vec<(Vec<u8>, Vec<u8>)>)
    requires
        (i as int) < entries@.len(),
    ensures
        pairs_view(r@) == pairs_view(entries@).update(i as int, (pair.0@, pair.1@)),
{
    let mut out: Vec<(Vec<u8>, Vec<u8>)> = Vec::new();
    let mut j: usize = 0;
    while j < entries.len()
        invariant
            i < entries@.len(),
            j <= entries@.len(),
            out@.len() == j,
            forall|k: int|
                0 <= k < j ==> pairs_view(out@)[k] == if k == i {
                    (pair.0@, pair.1@)
                } else {
                    pairs_view(entries@)[k]
                },
        decreases entries@.len() - j,
    {
        let ghost prev = out@;
        if j == i {
            out.push((copy_bytes(pair.0.as_slice()), copy_bytes(pair.1.as_slice())));
        } else {
            out.push((copy_bytes(entries[j].0.as_slice()), copy_bytes(entries[j].1.as_slice())));
        }
        proof {
            assert(out@ == prev.push(out@.last()));
            assert forall|k: int| 0 <= k < j + 1 implies pairs_view(out@)[k] == if k == i {
                (pair.0@, pair.1@)
            } else {
                pairs_view(entries@)[k]
            } by {
                if k < j {
                    assert(out@[k] == prev[k]);
                    assert(pairs_view(prev)[k] == (prev[k].0@, prev[k].1@));
                }
                assert(pairs_view(out@)[k] == (out@[k].0@, out@[k].1@));
                assert(pairs_view(entries@)[k] == (entries@[k].0@, entries@[k].1@));
            }
        }
        j = j + 1;
    }
    proof {
        assert(pairs_view(out@) =~= pairs_view(entries@).update(i as int, (pair.0@, pair.1@)));
    }
    out
}

/// A copy of `entries` with a copy of `pair` appended.
fn entries_with_push(
    entries: &Vec<(Vec<u8>, Vec<u8>)>,
    pair: &(Vec<u8>, Vec<u8>),
) -> (r: Vec<(Vec<u8>, Vec<u8>)>)
    ensures
        pairs_view(r@) == pairs_view(entries@).push((pair.0@, pair.1@)),
{
    let mut out: Vec<(Vec<u8>, Vec<u8>)> = Vec::new();
    let mut j: usize = 0;
    while j < entries.len()
        invariant
            j <= entries@.len(),
            out@.len() == j,
            forall|k: int| 0 <= k < j ==> pairs_view(out@)[k] == pairs_view(entries@)[k],
        decreases entries@.len() - j,
    {
        out.push((copy_bytes(entries[j].0.as_slice()), copy_bytes(entries[j].1.as_slice())));
        j = j + 1;
    }
    out.push((copy_bytes(pair.0.as_slice()), copy_bytes(pair.1.as_slice())));
    proof {
        assert(pairs_view(out@) =~= pairs_view(entries@).push((pair.0@, pair.1@)));
    }
    out
}

impl MockCompiledContractCache {
    /// The stored entries, as mathematical byte strings.
    pub closed spec fn entries_view(&self) -> Seq<(Seq<u8>, Seq<u8>)> {
        pairs_view(self.entries@)
    }

    /// Whether every `put` is made to fail.
    pub closed spec fn puts_fail(&self) -> bool {
        self.fail_puts
    }

    /// Whether every `get` is made to fail.
    pub closed spec fn gets_fail(&self) -> bool {
        self.fail_gets
    }

    #[verifier::type_invariant]
    spec fn type_inv(self) -> bool {
        keys_distinct(self.entries_view())
    }

    /// An empty, fully working store.
    pub fn new() -> (r: MockCompiledContractCache)
        ensures
            r.contents() == Map::<Seq<u8>, Seq<u8>>::empty(),
            !r.puts_fail(),
            !r.gets_fail(),
    {
        MockCompiledContractCache { entries: Vec::new(), fail_puts: false, fail_gets: false }
    }

    /// An empty store whose every `put` fails with an I/O error.
    pub fn with_failing_puts() -> (r: MockCompiledContractCache)
        ensures
            r.contents() == Map::<Seq<u8>, Seq<u8>>::empty(),
            r.puts_fail(),
            !r.gets_fail(),
    {
        MockCompiledContractCache { entries: Vec::new(), fail_puts: true, fail_gets: false }
    }

    /// An empty store whose every `get` fails with an I/O error.
    pub fn with_failing_gets() -> (r: MockCompiledContractCache)
        ensures
            r.contents() == Map::<Seq<u8>, Seq<u8>>::empty(),
            !r.puts_fail(),
            r.gets_fail(),
    {
        MockCompiledContractCache { entries: Vec::new(), fail_puts: false, fail_gets: true }
    }

    /// How many records the store holds.
    pub fn len(&self) -> (r: usize)
        ensures
            r == self.contents().len(),
    {
        proof {
            use_type_invariant(self);
            lemma_assoc_map_len(self.entries_view());
        }
        self.entries.len()
    }

    /// The index holding `key`, if any.
    fn find(&self, key: &[u8]) -> (r: Option<usize>)
        ensures
            match r {
                Some(i) => i < self.entries_view().len() && self.entries_view()[i as int].0
                    == key@,
                None => forall|i: int|
                    0 <= i < self.entries_view().len() ==> self.entries_view()[i].0 != key@,
            },
    {
        let mut i: usize = 0;
        while i < self.entries.len()
            invariant
                i <= self.entries.len(),
                forall|j: int| 0 <= j < i ==> self.entries_view()[j].0 != key@,
            decreases self.entries.len() - i,
        {
            if bytes_eq(self.entries[i].0.as_slice(), key) {
                return Some(i);
            }
            i = i + 1;
        }
        None
    }
}

impl Default for MockCompiledContractCache {
    /// The same empty, fully working store as `new`.
    fn default() -> (r: MockCompiledContractCache)
        ensures
            r.contents() == Map::<Seq<u8>, Seq<u8>>::empty(),
            !r.puts_fail(),
            !r.gets_fail(),
    {
        MockCompiledContractCache::new()
    }
}

impl CompiledContractCache for MockCompiledContractCache {
    closed spec fn contents(&self) -> Map<Seq<u8>, Seq<u8>> {
        assoc_map(self.entries_view())
    }

    fn get(&self, key: &[u8]) -> (r: Result<Option<Vec<u8>>, IoError>)
        ensures
            match r {
                Ok(Some(v)) => self.contents().contains_key(key@) && v@ == self.contents()[key@],
                Ok(None) => !self.contents().contains_key(key@),
                Err(_) => true,
            },
    {
        if self.fail_gets {
            return Err(IoError);
        }
        proof {
            use_type_invariant(self);
        }
        match self.find(key) {
            Some(i) => {
                proof {
                    lemma_assoc_map_present(self.entries_view(), i as int);
                }
                Ok(Some(copy_bytes(self.entries[i].1.as_slice())))
            }
            None => {
                proof {
                    lemma_assoc_map_absent(self.entries_view(), key@);
                }
                Ok(None)
            }
        }
    }

    fn put(&mut self, key: &[u8], value: &[u8]) -> (r: Result<(), IoError>)
        ensures
            match r {
                Ok(_) => final(self).contents() == old(self).contents().insert(key@, value@),
                Err(_) => final(self).contents() == old(self).contents(),
            },
    {
        if self.fail_puts {
            return Err(IoError);
        }
        proof {
            use_type_invariant(&*self);
        }
        let pair = (copy_bytes(key), copy_bytes(value));
        match self.find(key) {
            Some(i) => {
                let ghost old_entries = self.entries_view();
                let new_entries = entries_with_set(&self.entries, i, &pair);
                self.entries = new_entries;
                proof {
                    lemma_assoc_map_update(old_entries, i as int, key@, value@);
                    assert(self.entries_view() == old_entries.update(i as int, (key@, value@)));
                }
                Ok(())
            }
            None => {
                let ghost old_entries = self.entries_view();
                let new_entries = entries_with_push(&self.entries, &pair);
                self.entries = new_entries;
                proof {
                    assert(self.entries_view() == old_entries.push((key@, value@)));
                    assert(self.entries_view().drop_last() =~= old_entries);
                    assert(self.contents() =~= old(self).contents().insert(key@, value@));
                    assert forall|a: int, b: int|
                        0 <= a < b < self.entries_view().len() implies self.entries_view()[a].0
                        != self.entries_view()[b].0 by {
                        if b < self.entries_view().len() - 1 {
                            assert(self.entries_view()[a] == old_entries[a]);
                            assert(self.entries_view()[b] == old_entries[b]);
                        } else {
                            assert(self.entries_view()[a] == old_entries[a]);
                        }
                    }
                }
                Ok(())
            }
        }
    }
}

proof fn lemma_assoc_map_update(s: Seq<(Seq<u8>, Seq<u8>)>, i: int, k: Seq<u8>, v: Seq<u8>)
    requires
        keys_distinct(s),
        0 <= i < s.len(),
        s[i].0 == k,
    ensures
        assoc_map(s.update(i, (k, v))) == assoc_map(s).insert(k, v),
        keys_distinct(s.update(i, (k, v))),
    decreases s.len(),
{
    let s2 = s.update(i, (k, v));
    assert forall|a: int, b: int| 0 <= a < b < s2.len() implies s2[a].0 != s2[b].0 by {
        assert(s2[a].0 == s[a].0 && s2[b].0 == s[b].0);
    }
    if i == s.len() - 1 {
        assert(s2.drop_last() =~= s.drop_last());
        assert(assoc_map(s2) =~= assoc_map(s).insert(k, v));
    } else {
        assert(keys_distinct(s.drop_last())) by {
            assert forall|a: int, b: int|
                0 <= a < b < s.drop_last().len() implies s.drop_last()[a].0
                != s.drop_last()[b].0 by {
                assert(s.drop_last()[a] == s[a] && s.drop_last()[b] == s[b]);
            }
        }
        assert(s.drop_last()[i].0 == k);
        lemma_assoc_map_update(s.drop_last(), i, k, v);
        assert(s2.drop_last() =~= s.drop_last().update(i, (k, v)));
        assert(s2.last() == s.last());
        assert(k != s.last().0);
        assert(assoc_map(s2) =~= assoc_map(s).insert(k, v));
    }
}

} // verus!
