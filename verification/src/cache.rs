//! Cache keys, cache values and the capability interface that every cache
//! backend offers.

use vstd::prelude::*;
use vstd::std_specs::cmp::PartialEqSpecImpl;

pub mod ledger;
pub mod memory;
pub mod spool;

pub use memory::InMemoryCache;
pub use spool::{FileSystemCache, FileSystemCacheValue};

verus! {

/// The mathematical value of a [`CacheKey`].
pub enum KeyModel {
    ImageUrl(Seq<char>),
    ImagePath(Seq<char>),
}

/// The mathematical value of a [`CacheValue`].
pub struct ValueModel {
    pub data: Seq<u8>,
    pub content_type: Seq<char>,
}

/// Identifier of a cached image: the text of an absolute URL, or the text of
/// a canonical filesystem path. Two keys are equal when they are of the same
/// kind and hold the same text.
#[derive(Debug, Eq, Hash)]
pub enum CacheKey {
    /// Cache key for an image URL
    ImageUrl(String),
    /// Cache key for an image path
    ImagePath(String),
}

impl View for CacheKey {
    type V = KeyModel;

    open spec fn view(&self) -> KeyModel {
        match self {
            CacheKey::ImageUrl(text) => KeyModel::ImageUrl(text@),
            CacheKey::ImagePath(text) => KeyModel::ImagePath(text@),
        }
    }
}

impl PartialEq for CacheKey {
    fn eq(&self, other: &CacheKey) -> (same: bool) {
        match (self, other) {
            (CacheKey::ImageUrl(a), CacheKey::ImageUrl(b)) => *a == *b,
            (CacheKey::ImagePath(a), CacheKey::ImagePath(b)) => *a == *b,
            _ => false,
        }
    }
}

impl PartialEqSpecImpl for CacheKey {
    open spec fn obeys_eq_spec() -> bool {
        true
    }

    open spec fn eq_spec(&self, other: &CacheKey) -> bool {
        self@ == other@
    }
}

impl Clone for CacheKey {
    fn clone(&self) -> (copy: CacheKey)
        ensures
            copy@ == self@,
    {
        match self {
            CacheKey::ImageUrl(text) => CacheKey::ImageUrl(text.clone()),
            CacheKey::ImagePath(text) => CacheKey::ImagePath(text.clone()),
        }
    }
}

/// A cached image: its raw bytes and its content type.
#[derive(Debug, PartialEq, Eq)]
pub struct CacheValue {
    pub data: Vec<u8>,
    pub content_type: String,
}

impl View for CacheValue {
    type V = ValueModel;

    open spec fn view(&self) -> ValueModel {
        ValueModel { data: self.data@, content_type: self.content_type@ }
    }
}

impl Clone for CacheValue {
    fn clone(&self) -> (copy: CacheValue)
        ensures
            copy@ == self@,
    {
        CacheValue { data: self.data.clone(), content_type: self.content_type.clone() }
    }
}

/// The views of a sequence of keys, in the same order.
pub open spec fn key_models(keys: Seq<CacheKey>) -> Seq<KeyModel> {
    keys.map_values(|key: CacheKey| key@)
}

/// The mathematical value of a value that may be absent.
pub open spec fn value_model(found: Option<CacheValue>) -> Option<ValueModel> {
    match found {
        Some(value) => Some(value@),
        None => None,
    }
}

/// The mathematical value of a cache: the list of its keys in the order in
/// which they were first inserted, and the association from keys to what is
/// kept for them.
#[verifier::ext_equal]
pub struct CacheModel<V> {
    pub order: Seq<KeyModel>,
    pub entries: Map<KeyModel, V>,
}

impl<V> CacheModel<V> {
    /// The cache that holds nothing.
    pub open spec fn empty() -> Self {
        CacheModel { order: Seq::empty(), entries: Map::empty() }
    }

    /// The key list and the association agree: no key is listed twice, and
    /// something is kept for exactly the listed keys.
    pub open spec fn consistent(self) -> bool {
        &&& self.order.no_duplicates()
        &&& forall|key: KeyModel| self.order.contains(key) <==> self.entries.dom().contains(key)
    }

    /// The number of entries.
    pub open spec fn size(self) -> nat {
        self.order.len()
    }

    /// What is kept for `key`, if anything.
    pub open spec fn get(self, key: KeyModel) -> Option<V> {
        if self.entries.dom().contains(key) {
            Some(self.entries[key])
        } else {
            None
        }
    }

    /// The cache after `value` was stored under `key`: a new key goes to the
    /// end of the key list, a known key keeps its place.
    pub open spec fn set(self, key: KeyModel, value: V) -> Self {
        CacheModel {
            order: if self.order.contains(key) {
                self.order
            } else {
                self.order.push(key)
            },
            entries: self.entries.insert(key, value),
        }
    }

    /// The cache after `key` was removed, from the key list and from the
    /// association.
    pub open spec fn remove(self, key: KeyModel) -> Self {
        CacheModel {
            order: if self.order.contains(key) {
                self.order.remove(self.order.index_of(key))
            } else {
                self.order
            },
            entries: self.entries.remove(key),
        }
    }

    /// The cache after it was cleared.
    pub open spec fn clear(self) -> Self {
        Self::empty()
    }

    /// The same cache with each kept value replaced by its image under `f`.
    pub open spec fn map_values<W>(self, f: spec_fn(V) -> W) -> CacheModel<W> {
        CacheModel { order: self.order, entries: self.entries.map_values(f) }
    }

    /// Storing keeps the key list and the association in agreement.
    pub proof fn lemma_set_consistent(self, key: KeyModel, value: V)
        requires
            self.consistent(),
        ensures
            self.set(key, value).consistent(),
    {
        let after = self.set(key, value);
        assert forall|k: KeyModel| after.order.contains(k) <==> after.entries.dom().contains(
            k,
        ) by {
            if self.order.contains(k) {
                let i = self.order.index_of(k);
                assert(after.order[i] == k);
            }
            if k == key && !self.order.contains(key) {
                assert(after.order[self.order.len() as int] == key);
            }
        }
    }

    /// Removing keeps the key list and the association in agreement.
    pub proof fn lemma_remove_consistent(self, key: KeyModel)
        requires
            self.consistent(),
        ensures
            self.remove(key).consistent(),
    {
        let after = self.remove(key);
        if self.order.contains(key) {
            let at = self.order.index_of(key);
            assert forall|k: KeyModel| after.order.contains(k) <==> after.entries.dom().contains(
                k,
            ) by {
                if after.order.contains(k) {
                    let j = after.order.index_of(k);
                    if j < at {
                        assert(self.order[j] == k);
                    } else {
                        assert(self.order[j + 1] == k);
                    }
                }
                if self.order.contains(k) && k != key {
                    let j = self.order.index_of(k);
                    if j < at {
                        assert(after.order[j] == k);
                    } else {
                        assert(after.order[j - 1] == k);
                    }
                }
            }
        }
    }

    /// In a cache whose key list and association agree there are as many
    /// listed keys as entries, and every listed key has an entry.
    pub proof fn lemma_keys_match_entries(self)
        requires
            self.consistent(),
        ensures
            self.entries.dom().finite(),
            self.entries.dom().len() == self.size(),
            forall|i: int| 0 <= i < self.order.len() ==> self.get(#[trigger] self.order[i]) is Some,
    {
        assert(self.entries.dom() =~= self.order.to_set());
        vstd::seq_lib::seq_to_set_is_finite(self.order);
        self.order.unique_seq_to_set();
    }

    /// Round trip: what was stored under a key is what a lookup of that key
    /// gives next.
    pub proof fn lemma_set_then_get(self, key: KeyModel, value: V)
        ensures
            self.set(key, value).get(key) == Some(value),
            self.set(key, value).order.contains(key),
    {
        let after = self.set(key, value);
        if !self.order.contains(key) {
            assert(after.order[self.order.len() as int] == key);
        }
    }

    /// Storing under a key that is already listed leaves the key list as it
    /// is: no key is listed twice.
    pub proof fn lemma_overwrite_keeps_order(self, key: KeyModel, first: V, second: V)
        ensures
            self.set(key, first).set(key, second).order == self.set(key, first).order,
            self.set(key, first).set(key, second).get(key) == Some(second),
    {
        self.lemma_set_then_get(key, first);
        self.set(key, first).lemma_set_then_get(key, second);
    }

    /// Clearing is idempotent: after one call, or after two in a row, the
    /// cache holds nothing.
    pub proof fn lemma_clear_idempotent(self)
        ensures
            self.clear().size() == 0,
            self.clear().clear() == self.clear(),
            self.clear().consistent(),
    {
    }

    /// After a removal the key is neither listed nor kept.
    pub proof fn lemma_remove_then_get(self, key: KeyModel)
        requires
            self.consistent(),
        ensures
            self.remove(key).get(key) is None,
            !self.remove(key).order.contains(key),
    {
        self.lemma_remove_consistent(key);
    }
}

/// One step of a history of insertions and removals.
pub enum CacheStep<V> {
    Store(KeyModel, V),
    Remove(KeyModel),
}

/// The cache that a history of insertions and removals leaves, starting from
/// `start`.
pub open spec fn after_steps<V>(start: CacheModel<V>, steps: Seq<CacheStep<V>>) -> CacheModel<V>
    decreases steps.len(),
{
    if steps.len() == 0 {
        start
    } else {
        let before = after_steps(start, steps.drop_last());
        match steps.last() {
            CacheStep::Store(key, value) => before.set(key, value),
            CacheStep::Remove(key) => before.remove(key),
        }
    }
}

/// Whatever insertions and removals a cache has seen, its key list and its
/// association agree: there are as many listed keys as entries, and every
/// listed key has an entry.
pub proof fn lemma_history_consistent<V>(start: CacheModel<V>, steps: Seq<CacheStep<V>>)
    requires
        start.consistent(),
    ensures
        after_steps(start, steps).consistent(),
        after_steps(start, steps).entries.dom().len() == after_steps(start, steps).size(),
        forall|i: int|
            0 <= i < after_steps(start, steps).order.len() ==> after_steps(start, steps).get(
                #[trigger] after_steps(start, steps).order[i],
            ) is Some,
    decreases steps.len(),
{
    if steps.len() > 0 {
        lemma_history_consistent(start, steps.drop_last());
        let before = after_steps(start, steps.drop_last());
        match steps.last() {
            CacheStep::Store(key, value) => before.lemma_set_consistent(key, value),
            CacheStep::Remove(key) => before.lemma_remove_consistent(key),
        }
    }
    after_steps(start, steps).lemma_keys_match_entries();
}

/// The capability interface of a cache backend.
///
/// A backend may lose a value behind the library's back (a file that
/// somebody overwrote), so the interface promises of `get` only that what it
/// returns is what was stored; each backend says in its own contract when a
/// value is owed.
pub trait CacheBackend: Sized {
    /// The backend's internal invariant.
    spec fn wf(&self) -> bool;

    /// The mathematical value of the cache.
    spec fn model(&self) -> CacheModel<ValueModel>;

    /// A short name for the kind of backend.
    fn backend_type(&self) -> &'static str;

    /// An empty cache.
    fn new() -> (cache: Self)
        ensures
            cache.wf(),
            cache.model() == CacheModel::<ValueModel>::empty(),
    ;

    /// The value stored under `key`.
    fn get(&self, key: CacheKey) -> (found: Option<CacheValue>)
        requires
            self.wf(),
        ensures
            found matches Some(value) ==> self.model().get(key@) == Some(value@),
            self.model().get(key@) is None ==> found is None,
    ;

    /// The value of a key chosen at random among those present.
    fn get_random(&self) -> (found: Option<CacheValue>)
        requires
            self.wf(),
        ensures
            found matches Some(value) ==> exists|i: int|
                0 <= i < self.model().order.len() && self.model().get(
                    #[trigger] self.model().order[i],
                ) == Some(value@),
            self.model().size() == 0 ==> found is None,
    ;

    /// Inserts or overwrites. Overwriting keeps the key's place in the key
    /// list; a failed insertion changes nothing.
    fn set(&mut self, key: CacheKey, image: CacheValue) -> (stored: Result<(), String>)
        requires
            old(self).wf(),
        ensures
            final(self).wf(),
            stored is Ok ==> final(self).model() == old(self).model().set(key@, image@),
            stored is Err ==> final(self).model() == old(self).model(),
    ;

    /// Removes the entry of `key` from the key list and from the association,
    /// and returns what was removed.
    fn remove(&mut self, key: &CacheKey) -> (removed: Option<CacheValue>)
        requires
            old(self).wf(),
        ensures
            final(self).wf(),
            final(self).model() == old(self).model().remove(key@),
            removed matches Some(value) ==> old(self).model().get(key@) == Some(value@),
            old(self).model().get(key@) is None ==> removed is None,
    ;

    /// The number of entries.
    fn size(&self) -> (count: usize)
        requires
            self.wf(),
        ensures
            count == self.model().size(),
    ;

    /// Whether the cache holds nothing.
    fn is_empty(&self) -> (empty: bool)
        requires
            self.wf(),
        ensures
            empty == (self.model().size() == 0),
    {
        self.size() == 0
    }

    /// The keys in insertion order.
    fn keys(&self) -> (listed: &[CacheKey])
        requires
            self.wf(),
        ensures
            key_models(listed@) == self.model().order,
    ;

    /// Empties the cache: the key list and the association together.
    fn clear(&mut self) -> (cleared: Result<(), String>)
        requires
            old(self).wf(),
        ensures
            final(self).wf(),
            cleared is Ok ==> final(self).model() == old(self).model().clear(),
            cleared is Err ==> final(self).model() == old(self).model(),
    ;
}

} // verus!
