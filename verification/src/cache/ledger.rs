//! The bookkeeping shared by the cache backends: an association from cache
//! keys to values that remembers the order in which the keys were first
//! inserted, and lists no key twice.

use vstd::prelude::*;
use rand::seq::IndexedRandom;
use crate::cache::{key_models, CacheKey, CacheModel, KeyModel};

verus! {

/// An insertion-ordered association from cache keys to values of type `V`.
///
/// The ordered key list and the association are one structure: the value at
/// a position belongs to the key at that position, so no operation can change
/// one without the other.
#[derive(Debug)]
pub struct Ledger<V> {
    keys: Vec<CacheKey>,
    values: Vec<V>,
}

/// In a sequence without duplicates the position of an element is unique.
pub proof fn lemma_position_unique(order: Seq<KeyModel>, key: KeyModel, i: int)
    requires
        order.no_duplicates(),
        0 <= i < order.len(),
        order[i] == key,
    ensures
        order.contains(key),
        order.index_of(key) == i,
{
}

/// `IndexedRandom::choose` of the rand crate, on the thread's generator:
/// nothing for an empty slice, else one of the slice's elements. Which one is
/// left open: two calls on the same slice may differ.
#[verifier::external_body]
fn pick_key(keys: &Vec<CacheKey>) -> (picked: Option<&CacheKey>)
    ensures
        keys@.len() == 0 ==> picked is None,
        keys@.len() > 0 ==> picked is Some && keys@.contains(*picked->Some_0),
{
    keys.choose(&mut rand::rng())
}

impl<V> Ledger<V> {
    /// The mathematical value of the ledger.
    pub closed spec fn model(&self) -> CacheModel<V> {
        CacheModel {
            order: key_models(self.keys@),
            entries: Map::new(
                |key: KeyModel| key_models(self.keys@).contains(key),
                |key: KeyModel| self.values@[key_models(self.keys@).index_of(key)],
            ),
        }
    }

    /// Every key has exactly one value, and no key is listed twice.
    pub closed spec fn wf(&self) -> bool {
        &&& self.keys@.len() == self.values@.len()
        &&& key_models(self.keys@).no_duplicates()
    }

    /// The key list and the association of a well-formed ledger agree.
    pub proof fn lemma_consistent(&self)
        requires
            self.wf(),
        ensures
            self.model().consistent(),
    {
    }

    /// The value stored at a position is the entry of the key listed there.
    proof fn lemma_entry_at(&self, i: int)
        requires
            self.wf(),
            0 <= i < self.model().order.len(),
        ensures
            self.model().entries.dom().contains(self.model().order[i]),
            self.model().entries[self.model().order[i]] == self.values@[i],
    {
        lemma_position_unique(self.model().order, self.model().order[i], i);
    }

    /// An empty ledger.
    pub fn new() -> (ledger: Self)
        ensures
            ledger.wf(),
            ledger.model() == CacheModel::<V>::empty(),
    {
        let ledger = Ledger { keys: Vec::new(), values: Vec::new() };
        proof {
            assert(ledger.model() =~= CacheModel::<V>::empty());
        }
        ledger
    }

    /// The number of entries.
    pub fn len(&self) -> (count: usize)
        requires
            self.wf(),
        ensures
            count == self.model().size(),
    {
        self.keys.len()
    }

    /// The listed keys, in insertion order.
    pub fn keys(&self) -> (listed: &[CacheKey])
        ensures
            key_models(listed@) == self.model().order,
    {
        self.keys.as_slice()
    }

    /// Where `key` is listed, if it is.
    fn position(&self, key: &CacheKey) -> (found: Option<usize>)
        requires
            self.wf(),
        ensures
            match found {
                Some(i) => i < self.model().order.len() && self.model().order[i as int] == key@
                    && self.model().order.index_of(key@) == i,
                None => !self.model().order.contains(key@),
            },
    {
        let mut i: usize = 0;
        while i < self.keys.len()
            invariant
                self.wf(),
                i <= self.keys@.len(),
                forall|j: int| 0 <= j < i ==> self.model().order[j] != key@,
            decreases self.keys@.len() - i,
        {
            if self.keys[i] == *key {
                proof {
                    lemma_position_unique(self.model().order, key@, i as int);
                }
                return Some(i);
            }
            i += 1;
        }
        None
    }

    /// One of the listed keys, chosen at random; none if nothing is listed.
    pub fn random_key(&self) -> (picked: Option<&CacheKey>)
        requires
            self.wf(),
        ensures
            self.model().size() == 0 ==> picked is None,
            self.model().size() > 0 ==> picked is Some,
            picked matches Some(key) ==> self.model().order.contains(key@),
    {
        let picked = pick_key(&self.keys);
        proof {
            if let Some(key) = picked {
                let i = self.keys@.index_of(*key);
                assert(self.model().order[i] == key@);
            }
        }
        picked
    }

    /// The value stored under `key`, if there is one.
    pub fn get(&self, key: &CacheKey) -> (found: Option<&V>)
        requires
            self.wf(),
        ensures
            match found {
                Some(value) => self.model().get(key@) == Some(*value),
                None => self.model().get(key@) is None,
            },
    {
        match self.position(key) {
            Some(i) => {
                proof {
                    self.lemma_entry_at(i as int);
                }
                Some(&self.values[i])
            },
            None => None,
        }
    }

    /// Stores `value` under `key`. A new key goes to the end of the key list;
    /// a known key keeps its place and gives up its former value, which is
    /// returned.
    pub fn insert(&mut self, key: CacheKey, value: V) -> (displaced: Option<V>)
        requires
            old(self).wf(),
        ensures
            final(self).wf(),
            final(self).model() == old(self).model().set(key@, value),
            displaced == old(self).model().get(key@),
    {
        let ghost before = *self;
        let ghost order = before.model().order;
        match self.position(&key) {
            Some(i) => {
                self.values.push(value);
                let former = self.values.swap_remove(i);
                proof {
                    before.lemma_entry_at(i as int);
                    assert(self.values@ =~= before.values@.update(i as int, value));
                    assert(self.model().order == order);
                    let after = self.model().entries;
                    assert forall|k: KeyModel| order.contains(k) implies #[trigger] after[k]
                        == before.model().entries.insert(key@, value)[k] by {
                        if k == key@ {
                            lemma_position_unique(order, k, i as int);
                        }
                    }
                    assert(self.model() =~= before.model().set(key@, value));
                }
                Some(former)
            },
            None => {
                self.keys.push(key);
                self.values.push(value);
                proof {
                    let longer = self.model().order;
                    assert(longer =~= order.push(key@));
                    assert forall|k: KeyModel| longer.contains(k) <==> (order.contains(k) || k
                        == key@) by {
                        if order.contains(k) {
                            let j = order.index_of(k);
                            assert(longer[j] == k);
                        }
                        if k == key@ {
                            assert(longer[order.len() as int] == k);
                        }
                    }
                    let after = self.model().entries;
                    assert forall|k: KeyModel| longer.contains(k) implies #[trigger] after[k]
                        == before.model().entries.insert(key@, value)[k] by {
                        let j = longer.index_of(k);
                        if k == key@ {
                            lemma_position_unique(longer, k, order.len() as int);
                        } else {
                            assert(order[j] == k);
                            lemma_position_unique(order, k, j);
                        }
                    }
                    assert(self.model() =~= before.model().set(key@, value));
                }
                None
            },
        }
    }

    /// Takes `key` and its value out, and returns the value. An unknown key
    /// changes nothing.
    pub fn remove(&mut self, key: &CacheKey) -> (removed: Option<V>)
        requires
            old(self).wf(),
        ensures
            final(self).wf(),
            final(self).model() == old(self).model().remove(key@),
            removed == old(self).model().get(key@),
    {
        let ghost before = *self;
        let ghost order = before.model().order;
        match self.position(key) {
            Some(i) => {
                self.keys.remove(i);
                let former = self.values.remove(i);
                proof {
                    let rest = self.model().order;
                    before.lemma_entry_at(i as int);
                    assert(rest =~= order.remove(i as int));
                    assert forall|k: KeyModel| rest.contains(k) <==> (order.contains(k) && k
                        != key@) by {
                        if rest.contains(k) {
                            let j = rest.index_of(k);
                            if j < i {
                                assert(order[j] == k);
                            } else {
                                assert(order[j + 1] == k);
                            }
                        }
                        if order.contains(k) && k != key@ {
                            let j = order.index_of(k);
                            if j < i {
                                assert(rest[j] == k);
                            } else {
                                assert(rest[j - 1] == k);
                            }
                        }
                    }
                    let after = self.model().entries;
                    assert forall|k: KeyModel| rest.contains(k) implies #[trigger] after[k]
                        == before.model().entries.remove(key@)[k] by {
                        let j = rest.index_of(k);
                        if j < i {
                            lemma_position_unique(order, k, j);
                        } else {
                            lemma_position_unique(order, k, j + 1);
                        }
                    }
                    assert(self.model() =~= before.model().remove(key@));
                }
                Some(former)
            },
            None => {
                proof {
                    assert(self.model() =~= before.model().remove(key@));
                }
                None
            },
        }
    }

    /// Forgets every key and every value.
    pub fn clear(&mut self)
        ensures
            final(self).wf(),
            final(self).model() == old(self).model().clear(),
    {
        self.keys.clear();
        self.values.clear();
        proof {
            assert(self.model() =~= CacheModel::<V>::empty());
        }
    }
}

} // verus!
