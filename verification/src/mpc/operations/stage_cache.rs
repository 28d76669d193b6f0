//! A small keyed store for the material that a finished offline stage
//! leaves behind, one entry per set of parties.

use vstd::prelude::*;

verus! {

/// One cached result together with the parties it belongs to.
struct CacheEntry<S> {
    key: Vec<u16>,
    stage: S,
}

/// Keyed store; a key is the list of the parties of a ceremony in
/// ascending order, and the first entry that carries a key is the one that
/// counts.
pub struct StageCache<S> {
    entries: Vec<CacheEntry<S>>,
}

/// Compares two lists of identities entry by entry.
pub fn ids_eq(a: &Vec<u16>, b: &Vec<u16>) -> (same: bool)
    ensures
        same == (a@ == b@),
{
    if a.len() != b.len() {
        return false;
    }
    let mut i: usize = 0;
    while i < a.len()
        invariant
            i <= a@.len(),
            a@.len() == b@.len(),
            forall|k: int| 0 <= k < i ==> a@[k] == b@[k],
        decreases a@.len() - i,
    {
        if a[i] != b[i] {
            return false;
        }
        i += 1;
    }
    assert(a@ =~= b@);
    true
}

impl<S> StageCache<S> {
    /// Whether `i` is the first position that carries `key`.
    spec fn is_first(self, key: Seq<u16>, i: int) -> bool {
        &&& 0 <= i < self.entries@.len()
        &&& self.entries@[i].key@ == key
        &&& forall|k: int| 0 <= k < i ==> self.entries@[k].key@ != key
    }

    /// The first position that carries `key`, if it is present.
    spec fn position(self, key: Seq<u16>) -> int {
        choose|i: int| self.is_first(key, i)
    }

    /// The cache as a map from key to cached value.
    pub closed spec fn view(&self) -> Map<Seq<u16>, S> {
        Map::new(
            |key: Seq<u16>| exists|i: int| self.is_first(key, i),
            |key: Seq<u16>| self.entries@[self.position(key)].stage,
        )
    }

    /// An empty cache.
    pub fn new() -> (cache: Self)
        ensures
            cache@ == Map::<Seq<u16>, S>::empty(),
    {
        let cache = StageCache { entries: Vec::new() };
        assert(cache@ =~= Map::<Seq<u16>, S>::empty());
        cache
    }

    fn find(&self, key: &Vec<u16>) -> (found: Option<usize>)
        ensures
            match found {
                Some(i) => self.is_first(key@, i as int) && self.position(key@) == i,
                None => forall|i: int|
                    0 <= i < self.entries@.len() ==> self.entries@[i].key@ != key@,
            },
            found.is_some() == self@.contains_key(key@),
    {
        let mut i: usize = 0;
        while i < self.entries.len()
            invariant
                i <= self.entries@.len(),
                forall|k: int| 0 <= k < i ==> self.entries@[k].key@ != key@,
            decreases self.entries@.len() - i,
        {
            if ids_eq(&self.entries[i].key, key) {
                proof {
                    assert(self.is_first(key@, i as int));
                    let p = self.position(key@);
                    assert(self.is_first(key@, p));
                }
                return Some(i);
            }
            i += 1;
        }
        None
    }

    /// Whether a value is stored under `key`.
    pub fn contains_key(&self, key: &Vec<u16>) -> (present: bool)
        ensures
            present == self@.contains_key(key@),
    {
        self.find(key).is_some()
    }

    /// The value stored under `key`, if any.
    pub fn get(&self, key: &Vec<u16>) -> (found: Option<&S>)
        ensures
            match found {
                Some(stage) => self@.contains_key(key@) && *stage == self@[key@],
                None => !self@.contains_key(key@),
            },
    {
        match self.find(key) {
            Some(i) => Some(&self.entries[i].stage),
            None => None,
        }
    }

    /// Stores `stage` under `key`, replacing what was stored there before.
    pub fn insert(&mut self, key: Vec<u16>, stage: S)
        ensures
            final(self)@ == old(self)@.insert(key@, stage),
    {
        let ghost before = *self;
        let ghost k = key@;
        let found = self.find(&key);
        match found {
            Some(i) => {
                self.entries.set(i, CacheEntry { key, stage });
            },
            None => {
                self.entries.push(CacheEntry { key, stage });
            },
        }
        proof {
            let after = *self;
            let target = before@.insert(k, stage);
            let at: int = match found {
                Some(i) => i as int,
                None => before.entries@.len() as int,
            };
            assert(after.entries@.len() >= before.entries@.len());
            assert(forall|j: int|
                0 <= j < before.entries@.len() && j != at ==> after.entries@[j]
                    == before.entries@[j]);
            assert(after.entries@[at].key@ == k);
            assert(after.entries@[at].stage == stage);
            assert(after.is_first(k, at));
            assert forall|q: Seq<u16>, i: int| q != k implies (after.is_first(q, i)
                <==> before.is_first(q, i)) by {
                if after.is_first(q, i) {
                    assert(forall|j: int| 0 <= j < i ==> before.entries@[j].key@ != q);
                }
                if before.is_first(q, i) {
                    assert(forall|j: int| 0 <= j < i ==> after.entries@[j].key@ != q);
                }
            }
            assert forall|q: Seq<u16>| after@.dom().contains(q) <==> target.dom().contains(
                q,
            ) by {
                if q != k {
                    if after@.dom().contains(q) {
                        let i = choose|i: int| after.is_first(q, i);
                        assert(before.is_first(q, i));
                    }
                    if before@.dom().contains(q) {
                        let i = choose|i: int| before.is_first(q, i);
                        assert(after.is_first(q, i));
                    }
                }
            }
            assert forall|q: Seq<u16>| after@.dom().contains(q) implies after@[q]
                == target[q] by {
                let i = after.position(q);
                assert(after.is_first(q, i));
                if q != k {
                    assert(before.is_first(q, i));
                    let j = before.position(q);
                    assert(before.is_first(q, j));
                } else {
                    assert(i == at);
                }
            }
            assert(after@ =~= target);
        }
    }
}

} // verus!
