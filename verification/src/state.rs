//! The state that all request handlers share: one cache backend and the
//! cursor of the sequential selection.
//!
//! A selection is made in steps. Between the steps the caller reads the spool
//! file that the step named, where the backend keeps one; the state decides,
//! the caller touches the disk.
//!
//! The random selection only looks at the state, so it takes a shared
//! reference and many may run at once. The sequential selection moves the
//! cursor and may drop a stale key, so it takes an exclusive reference: a
//! caller that shares the state between tasks holds its write lock from
//! `advance` to the end of `settle`, and no two sequential selections can then
//! serve the same turn.

use vstd::prelude::*;
use vstd::arithmetic::div_mod::{lemma_add_mod_noop, lemma_mod_bound, lemma_small_mod};
use crate::cache::spool::{bytes_model, corrupted, retrieved, Fetched, RecordModel};
use crate::cache::{
    key_models, value_model, CacheBackend, CacheKey, CacheModel, CacheValue, FileSystemCache,
    InMemoryCache, KeyModel, ValueModel,
};
use crate::config::{CacheBackendType, Config};
use crate::text_model;

verus! {

/// One of the two cache backends.
#[derive(Debug)]
pub enum Backend {
    InMemory(InMemoryCache),
    FileSystem(FileSystemCache),
}

impl Backend {
    /// The backend's internal invariant.
    pub open spec fn wf(&self) -> bool {
        match self {
            Backend::InMemory(cache) => cache.wf(),
            Backend::FileSystem(cache) => cache.wf(),
        }
    }

    /// The keys, in the order in which they were first inserted.
    pub open spec fn key_list(&self) -> Seq<KeyModel> {
        match self {
            Backend::InMemory(cache) => cache.model().order,
            Backend::FileSystem(cache) => cache.model().order,
        }
    }

    /// The file that holds the value of `key`, where the backend spools its
    /// values and knows the key.
    pub open spec fn spool_of(&self, key: KeyModel) -> Option<Seq<char>> {
        match self {
            Backend::InMemory(_) => None,
            Backend::FileSystem(cache) => match cache.model().get(key) {
                Some(record) => Some(record.path),
                None => None,
            },
        }
    }

    /// What a lookup of `key` gives when the read of the key's spool file
    /// gave `spooled`. A backend without spool files does not look at
    /// `spooled`.
    pub open spec fn retrieval(&self, key: KeyModel, spooled: Option<Seq<u8>>) -> Option<
        ValueModel,
    > {
        match self {
            Backend::InMemory(cache) => cache.model().get(key),
            Backend::FileSystem(cache) => retrieved(cache.model(), key, spooled),
        }
    }

    /// The file that a lookup of `key` shows to be corrupted, when the read of
    /// the key's spool file gave `spooled`: the key's file, where it holds
    /// bytes of another digest than the recorded one.
    pub open spec fn corrupted_spool(&self, key: KeyModel, spooled: Option<Seq<u8>>) -> Option<
        Seq<char>,
    > {
        match self {
            Backend::InMemory(_) => None,
            Backend::FileSystem(cache) => match cache.model().get(key) {
                Some(record) => if corrupted(record, spooled) {
                    Some(record.path)
                } else {
                    None
                },
                None => None,
            },
        }
    }

    /// Whether the backend holds nothing at all.
    pub open spec fn fresh(&self) -> bool {
        match self {
            Backend::InMemory(cache) => cache.model() == CacheModel::<ValueModel>::empty(),
            Backend::FileSystem(cache) => cache.model() == CacheModel::<RecordModel>::empty(),
        }
    }

    /// Whether `later` is this backend with the entry of `key` taken out of
    /// the key list and out of the association.
    pub open spec fn forgets(&self, later: &Backend, key: KeyModel) -> bool {
        match (self, later) {
            (Backend::InMemory(old), Backend::InMemory(new)) => new.model() == old.model().remove(
                key,
            ),
            (Backend::FileSystem(old), Backend::FileSystem(new)) => new.model()
                == old.model().remove(key),
            _ => false,
        }
    }

    /// A short name for the kind of backend.
    pub fn backend_type(&self) -> (name: &'static str)
        ensures
            name@ == match self {
                Backend::InMemory(_) => "InMemory"@,
                Backend::FileSystem(_) => "FileSystem"@,
            },
    {
        match self {
            Backend::InMemory(cache) => cache.backend_type(),
            Backend::FileSystem(cache) => cache.backend_type(),
        }
    }

    /// The number of entries.
    pub fn size(&self) -> (count: usize)
        requires
            self.wf(),
        ensures
            count == self.key_list().len(),
    {
        match self {
            Backend::InMemory(cache) => cache.size(),
            Backend::FileSystem(cache) => cache.size(),
        }
    }

    /// Whether the backend holds nothing.
    pub fn is_empty(&self) -> (empty: bool)
        requires
            self.wf(),
        ensures
            empty == (self.key_list().len() == 0),
    {
        self.size() == 0
    }

    /// The keys in insertion order.
    pub fn keys(&self) -> (listed: &[CacheKey])
        requires
            self.wf(),
        ensures
            key_models(listed@) == self.key_list(),
    {
        match self {
            Backend::InMemory(cache) => cache.keys(),
            Backend::FileSystem(cache) => cache.keys(),
        }
    }

    /// One of the keys, chosen at random; none if the backend is empty.
    pub fn random_key(&self) -> (picked: Option<CacheKey>)
        requires
            self.wf(),
        ensures
            self.key_list().len() == 0 ==> picked is None,
            self.key_list().len() > 0 ==> picked is Some,
            picked matches Some(key) ==> self.key_list().contains(key@),
            self.key_list().len() == 1 ==> (picked matches Some(key) && key@ == self.key_list()[0]),
    {
        match self {
            Backend::InMemory(cache) => cache.random_key(),
            Backend::FileSystem(cache) => cache.random_key(),
        }
    }

    /// The path of the file that the caller has to read before it asks for
    /// the value of `key`: none where the backend keeps everything in
    /// memory, or does not know the key.
    pub fn spool_path(&self, key: &CacheKey) -> (path: Option<String>)
        requires
            self.wf(),
        ensures
            text_model(path) == self.spool_of(key@),
    {
        match self {
            Backend::InMemory(_) => None,
            Backend::FileSystem(cache) => match cache.record(key) {
                Some(record) => Some(record.path.clone()),
                None => None,
            },
        }
    }

    /// The value stored under `key`, given what the read of the key's spool
    /// file gave (`None` where there is no such file, or it cannot be read).
    pub fn get(&self, key: CacheKey, spooled: Option<Vec<u8>>) -> (fetched: Fetched)
        requires
            self.wf(),
        ensures
            value_model(fetched.value) == self.retrieval(key@, bytes_model(spooled)),
            text_model(fetched.discard) == self.corrupted_spool(key@, bytes_model(spooled)),
    {
        match self {
            Backend::InMemory(cache) => Fetched { value: cache.get(key), discard: None },
            Backend::FileSystem(cache) => cache.get(key, spooled),
        }
    }

    /// Takes the entry of `key` out, and returns the path of the file that
    /// held its value, which the caller is to delete.
    pub fn forget(&mut self, key: &CacheKey) -> (discard: Option<String>)
        requires
            old(self).wf(),
        ensures
            final(self).wf(),
            old(self).forgets(final(self), key@),
            text_model(discard) == old(self).spool_of(key@),
    {
        match self {
            Backend::InMemory(cache) => {
                let _ = cache.remove(key);
                None
            },
            Backend::FileSystem(cache) => {
                let path = match cache.record(key) {
                    Some(record) => Some(record.path.clone()),
                    None => None,
                };
                let _ = cache.remove(key, None);
                path
            },
        }
    }
}

impl CacheBackendType {
    /// Create a new cache backend based on the type
    pub fn create_backend(&self) -> (backend: Backend)
        ensures
            backend.wf(),
            backend.fresh(),
            backend is InMemory <==> self == CacheBackendType::InMemory,
    {
        match self {
            CacheBackendType::InMemory => Backend::InMemory(InMemoryCache::new()),
            CacheBackendType::FileSystem => Backend::FileSystem(FileSystemCache::new()),
        }
    }
}

/// Why a selection yields no image.
#[derive(Debug, Clone, Copy, PartialEq, Eq, Structural)]
pub enum DispatchError {
    /// The sequential selection found the cache empty.
    NoImages,
    /// The random selection found the cache empty.
    NothingToChoose,
    /// The selected key has no value any more.
    NotFound,
    /// The selected image has a content type that no header can carry.
    BadContentType,
}

impl DispatchError {
    /// The error as a sentence.
    pub fn message(&self) -> (text: String)
        ensures
            text@ == match self {
                DispatchError::NoImages => "No image sources configured"@,
                DispatchError::NothingToChoose =>
                    "Failed to retrieve a random image, perhaps no images are configured"@,
                DispatchError::NotFound => "Image not found in cache"@,
                DispatchError::BadContentType => "failed to parse header value"@,
            },
    {
        match self {
            DispatchError::NoImages => "No image sources configured".to_string(),
            DispatchError::NothingToChoose =>
                "Failed to retrieve a random image, perhaps no images are configured".to_string(),
            DispatchError::NotFound => "Image not found in cache".to_string(),
            DispatchError::BadContentType => "failed to parse header value".to_string(),
        }
    }
}

/// The position in the key list that the sequential selection serves when
/// the cursor is `cursor` and there are `count` keys.
pub open spec fn turn(cursor: nat, count: nat) -> nat
    recommends
        count > 0,
{
    cursor % count
}

/// The cursor after the sequential selection has served one key.
pub open spec fn next_cursor(cursor: nat, count: nat) -> nat
    recommends
        count > 0,
{
    (turn(cursor, count) + 1) % count
}

/// The cursor after `calls` sequential selections over `count` keys.
pub open spec fn cursor_after(cursor: nat, count: nat, calls: nat) -> nat
    recommends
        count > 0,
    decreases calls,
{
    if calls == 0 {
        cursor
    } else {
        next_cursor(cursor_after(cursor, count, (calls - 1) as nat), count)
    }
}

/// Round robin: over `count` keys that stay as they are, the selection that
/// follows `calls` earlier ones serves position `(cursor + calls) % count`.
/// From a fresh cursor the first `count` selections therefore serve the
/// positions `0, 1, .., count - 1`, each once and in insertion order, and the
/// next one serves position 0 again.
pub proof fn lemma_round_robin(cursor: nat, count: nat, calls: nat)
    requires
        count > 0,
    ensures
        turn(cursor_after(cursor, count, calls), count) == (cursor + calls) as int % (count as int),
        cursor == 0 && calls < count ==> turn(cursor_after(cursor, count, calls), count) == calls,
        cursor == 0 && calls == count ==> turn(cursor_after(cursor, count, calls), count) == 0,
    decreases calls,
{
    let n = count as int;
    if calls > 0 {
        let earlier = (calls - 1) as nat;
        lemma_round_robin(cursor, count, earlier);
        let before = cursor_after(cursor, count, earlier);
        let sum = (cursor + earlier) as int;
        assert(turn(before, count) as int == sum % n);
        lemma_mod_bound(sum % n + 1, n);
        lemma_small_mod(next_cursor(before, count), count);
        lemma_add_mod_noop(sum, 1, n);
        vstd::arithmetic::div_mod::lemma_mod_twice(sum, n);
        if n == 1 {
            assert(1int % n == 0);
        } else {
            lemma_small_mod(1, count);
        }
    } else {
        vstd::arithmetic::div_mod::lemma_mod_twice(cursor as int, n);
    }
    if cursor == 0 && calls < count {
        lemma_small_mod(calls, count);
    }
    if cursor == 0 && calls == count {
        vstd::arithmetic::div_mod::lemma_mod_self_0(n);
    }
}

/// The key that the sequential selection names after `calls` earlier
/// selections over the key list `order`, which stays as it is.
pub open spec fn served(order: Seq<KeyModel>, cursor: nat, calls: nat) -> KeyModel
    recommends
        order.len() > 0,
{
    order[turn(cursor_after(cursor, order.len(), calls), order.len()) as int]
}

/// With N distinct keys and a fresh cursor, N consecutive sequential
/// selections name each key exactly once, in insertion order, and the
/// selection after them names the first key again.
pub proof fn lemma_each_key_once(order: Seq<KeyModel>)
    requires
        order.no_duplicates(),
        order.len() > 0,
    ensures
        forall|calls: nat|
            calls < order.len() ==> #[trigger] served(order, 0, calls) == order[calls as int],
        forall|first: nat, second: nat|
            first < order.len() && second < order.len() && first != second ==> #[trigger] served(
                order,
                0,
                first,
            ) != #[trigger] served(order, 0, second),
        served(order, 0, order.len()) == order[0],
{
    assert forall|calls: nat| calls <= order.len() implies turn(
        #[trigger] cursor_after(0, order.len(), calls),
        order.len(),
    ) == (if calls < order.len() {
        calls
    } else {
        0
    }) by {
        lemma_round_robin(0, order.len(), calls);
    }
}

/// What a selection gives: the image or the reason why there is none, and
/// the file that the caller is to delete.
#[derive(Debug)]
pub struct Served {
    pub outcome: Result<CacheValue, DispatchError>,
    pub discard: Option<String>,
}

/// State for the server
#[derive(Debug)]
pub struct ServerState {
    /// Cache backend for storing images
    pub cache: Backend,
    /// What is the current index (for sequential image serving)
    pub current_index: usize,
}

impl Default for ServerState {
    fn default() -> (state: Self)
        ensures
            state.wf(),
            state.cache is InMemory,
            state.cache.fresh(),
            state.current_index == 0,
    {
        ServerState { cache: Backend::InMemory(InMemoryCache::new()), current_index: 0 }
    }
}

impl ServerState {
    /// The state's invariant: that of its backend. The cursor may hold any
    /// value; the selection reduces it by the number of keys it finds.
    pub open spec fn wf(&self) -> bool {
        self.cache.wf()
    }

    /// Create a new `ServerState` with a specific configuration: an empty
    /// backend of the configured kind, and the cursor at the start.
    pub fn with_config(config: &Config) -> (state: Self)
        ensures
            state.wf(),
            state.cache.fresh(),
            state.cache is InMemory <==> config.cache.backend == CacheBackendType::InMemory,
            state.current_index == 0,
    {
        ServerState { cache: config.cache.backend.create_backend(), current_index: 0 }
    }

    /// The first step of the sequential selection: names the key whose turn
    /// it is and moves the cursor to the key after it, wrapping at the end of
    /// the key list. The cursor is reduced by the number of keys first, so a
    /// cursor left over from a longer key list does no harm.
    pub fn advance(&mut self) -> (picked: Result<CacheKey, DispatchError>)
        requires
            old(self).wf(),
        ensures
            final(self).wf(),
            final(self).cache == old(self).cache,
            match picked {
                Ok(key) => {
                    let keys = old(self).cache.key_list();
                    let cursor = old(self).current_index as nat;
                    &&& keys.len() > 0
                    &&& key@ == keys[turn(cursor, keys.len()) as int]
                    &&& final(self).current_index == next_cursor(cursor, keys.len())
                },
                Err(error) => {
                    &&& old(self).cache.key_list().len() == 0
                    &&& error == DispatchError::NoImages
                    &&& final(self).current_index == old(self).current_index
                },
            },
    {
        let count = self.cache.size();
        if count == 0 {
            return Err(DispatchError::NoImages);
        }
        let index = self.current_index % count;
        let key = self.cache.keys()[index].clone();
        self.current_index = (index + 1) % count;
        Ok(key)
    }

    /// The second step of the sequential selection, after the caller has
    /// read the spool file of `key`: gives the value out, or, where there is
    /// none any more, takes the stale key out of the cache and reports that
    /// this one request failed.
    pub fn settle(&mut self, key: &CacheKey, spooled: Option<Vec<u8>>) -> (served: Served)
        requires
            old(self).wf(),
        ensures
            final(self).wf(),
            final(self).current_index == old(self).current_index,
            match old(self).cache.retrieval(key@, bytes_model(spooled)) {
                Some(value) => {
                    &&& served.outcome matches Ok(image) && image@ == value
                    &&& served.discard is None
                    &&& final(self).cache == old(self).cache
                },
                None => {
                    &&& served.outcome == Err::<CacheValue, _>(DispatchError::NotFound)
                    &&& text_model(served.discard) == old(self).cache.spool_of(key@)
                    &&& old(self).cache.forgets(&final(self).cache, key@)
                },
            },
    {
        let fetched = self.cache.get(key.clone(), spooled);
        match fetched.value {
            Some(image) => Served { outcome: Ok(image), discard: None },
            None => {
                let discard = self.cache.forget(key);
                Served { outcome: Err(DispatchError::NotFound), discard }
            },
        }
    }

    /// The first step of the random selection: names one of the keys.
    pub fn pick(&self) -> (picked: Result<CacheKey, DispatchError>)
        requires
            self.wf(),
        ensures
            self.cache.key_list().len() == 0 ==> picked == Err::<CacheKey, _>(
                DispatchError::NothingToChoose,
            ),
            self.cache.key_list().len() > 0 ==> picked is Ok,
            picked matches Ok(key) ==> self.cache.key_list().contains(key@),
            self.cache.key_list().len() == 1 ==> (picked matches Ok(key) && key@
                == self.cache.key_list()[0]),
    {
        match self.cache.random_key() {
            Some(key) => Ok(key),
            None => Err(DispatchError::NothingToChoose),
        }
    }

    /// The second step of the random selection, after the caller has read
    /// the spool file of `key`: gives the value out, or reports that there is
    /// none. The cache stays as it is; a corrupted spool file is to be
    /// deleted.
    pub fn present(&self, key: CacheKey, spooled: Option<Vec<u8>>) -> (served: Served)
        requires
            self.wf(),
        ensures
            match self.cache.retrieval(key@, bytes_model(spooled)) {
                Some(value) => served.outcome matches Ok(image) && image@ == value,
                None => served.outcome == Err::<CacheValue, _>(DispatchError::NothingToChoose),
            },
            text_model(served.discard) == self.cache.corrupted_spool(key@, bytes_model(spooled)),
    {
        let fetched = self.cache.get(key, spooled);
        let outcome = match fetched.value {
            Some(image) => Ok(image),
            None => Err(DispatchError::NothingToChoose),
        };
        Served { outcome, discard: fetched.discard }
    }

    /// Whether the server may begin to serve: it may not while the cache is
    /// empty.
    pub fn ready(&self) -> (ready: Result<(), DispatchError>)
        requires
            self.wf(),
        ensures
            ready is Ok <==> self.cache.key_list().len() > 0,
            ready is Err ==> ready == Err::<(), _>(DispatchError::NoImages),
    {
        if self.cache.is_empty() {
            Err(DispatchError::NoImages)
        } else {
            Ok(())
        }
    }
}

} // verus!
