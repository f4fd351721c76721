//! The volatile backend: everything is held in process memory.

use vstd::prelude::*;
use crate::cache::ledger::Ledger;
use crate::cache::{
    key_models, value_model, CacheBackend, CacheKey, CacheModel, CacheValue, KeyModel, ValueModel,
};

verus! {

/// A cache that keeps every image in memory. Values never change after they
/// were inserted, so every listed key can be retrieved.
#[derive(Debug)]
pub struct InMemoryCache {
    ledger: Ledger<CacheValue>,
}

impl Default for InMemoryCache {
    fn default() -> (cache: Self)
        ensures
            cache.wf(),
            cache.model() == CacheModel::<ValueModel>::empty(),
    {
        Self::new()
    }
}

impl InMemoryCache {
    /// The key list and the association of a well-formed cache agree: no key
    /// is listed twice, and a value is kept for exactly the listed keys.
    pub proof fn lemma_consistent(&self)
        requires
            self.wf(),
        ensures
            self.model().consistent(),
    {
        self.ledger.lemma_consistent();
    }

    /// One of the keys, chosen at random; none if the cache is empty.
    pub fn random_key(&self) -> (picked: Option<CacheKey>)
        requires
            self.wf(),
        ensures
            self.model().size() == 0 ==> picked is None,
            self.model().size() > 0 ==> picked is Some,
            picked matches Some(key) ==> self.model().order.contains(key@),
            self.model().size() == 1 ==> (picked matches Some(key) && key@
                == self.model().order[0]),
    {
        match self.ledger.random_key() {
            Some(key) => {
                proof {
                    let i = self.model().order.index_of(key@);
                    assert(self.model().order[i] == key@);
                }
                Some(key.clone())
            },
            None => None,
        }
    }
}

impl CacheBackend for InMemoryCache {
    closed spec fn wf(&self) -> bool {
        self.ledger.wf()
    }

    closed spec fn model(&self) -> CacheModel<ValueModel> {
        self.ledger.model().map_values(|value: CacheValue| value@)
    }

    fn backend_type(&self) -> (name: &'static str)
        ensures
            name@ == "InMemory"@,
    {
        "InMemory"
    }

    fn new() -> (cache: Self) {
        let cache = InMemoryCache { ledger: Ledger::new() };
        proof {
            assert(cache.model() =~= CacheModel::<ValueModel>::empty());
        }
        cache
    }

    /// The value stored under `key`: a value is owed for every key that was
    /// set and not removed since.
    fn get(&self, key: CacheKey) -> (found: Option<CacheValue>)
        ensures
            value_model(found) == self.model().get(key@),
    {
        match self.ledger.get(&key) {
            Some(value) => Some(value.clone()),
            None => None,
        }
    }

    /// The value of a key chosen at random: a value is owed whenever the
    /// cache holds one, and where it holds exactly one, that one.
    fn get_random(&self) -> (found: Option<CacheValue>)
        ensures
            self.model().size() > 0 ==> found is Some,
            self.model().size() == 1 ==> value_model(found) == self.model().get(
                self.model().order[0],
            ),
    {
        match self.random_key() {
            Some(key) => {
                proof {
                    self.lemma_consistent();
                    let i = self.model().order.index_of(key@);
                    assert(self.model().order[i] == key@);
                }
                self.get(key)
            },
            None => None,
        }
    }

    /// Inserts or overwrites, and never fails.
    fn set(&mut self, key: CacheKey, image: CacheValue) -> (stored: Result<(), String>)
        ensures
            stored is Ok,
    {
        let ghost before = self.ledger.model();
        let _ = self.ledger.insert(key, image);
        proof {
            assert(self.model() =~= before.map_values(|value: CacheValue| value@).set(
                key@,
                image@,
            ));
        }
        Ok(())
    }

    /// Removes the entry of `key` and returns its value: one is owed for
    /// every key that was present.
    fn remove(&mut self, key: &CacheKey) -> (removed: Option<CacheValue>)
        ensures
            value_model(removed) == old(self).model().get(key@),
    {
        let ghost before = self.ledger.model();
        let removed = self.ledger.remove(key);
        proof {
            assert(self.model() =~= before.map_values(|value: CacheValue| value@).remove(key@));
        }
        removed
    }

    fn size(&self) -> (count: usize) {
        self.ledger.len()
    }

    fn keys(&self) -> (listed: &[CacheKey]) {
        self.ledger.keys()
    }

    /// Empties the cache, and never fails.
    fn clear(&mut self) -> (cleared: Result<(), String>)
        ensures
            cleared is Ok,
    {
        self.ledger.clear();
        proof {
            assert(self.model() =~= CacheModel::<ValueModel>::empty());
        }
        Ok(())
    }
}

} // verus!
