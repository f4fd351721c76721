//! The spooling backend: every image lives in a file of its own, and the
//! cache keeps, for each key, where that file is and what its content digest
//! was when it was written.
//!
//! The cache itself reads and writes no file. Its caller writes the file
//! before `set`, reads it before `get` and `remove`, and deletes the files
//! that the cache gives back as no longer wanted.

use vstd::prelude::*;
use crate::cache::ledger::Ledger;
use crate::cache::{
    key_models, value_model, CacheKey, CacheModel, CacheValue, KeyModel, ValueModel,
};
use crate::media::{content_type_or_octet_stream, guessed_mime, octet_stream};
use crate::text_model;

verus! {

/// The mathematical value of a [`FileSystemCacheValue`].
pub struct RecordModel {
    pub path: Seq<char>,
    pub hash: Seq<char>,
    pub content_type: Seq<char>,
}

/// What the cache remembers of a spooled image: the path of its file, the
/// digest of the bytes written there, and the content type.
#[derive(Debug)]
pub struct FileSystemCacheValue {
    pub path: String,
    pub hash: String,
    pub content_type: String,
}

impl View for FileSystemCacheValue {
    type V = RecordModel;

    open spec fn view(&self) -> RecordModel {
        RecordModel { path: self.path@, hash: self.hash@, content_type: self.content_type@ }
    }
}

/// The MD5 digest of `data`, written as 32 lower-case hexadecimal digits.
pub uninterp spec fn md5_hex(data: Seq<u8>) -> Seq<char>;

/// `md5::compute` of the md5 crate, formatted with the crate's `LowerHex`:
/// the digest is a function of the bytes alone.
#[verifier::external_body]
fn digest(data: &Vec<u8>) -> (hex: String)
    ensures
        hex@ == md5_hex(data@),
{
    format!("{:x}", md5::compute(data))
}

/// `Uuid::new_v4` of the uuid crate, as text: a random identifier in the
/// hyphenated form, which is 36 characters long. Nothing is said of which.
#[verifier::external_body]
fn fresh_uuid() -> (text: String)
    ensures
        text@.len() == 36,
{
    uuid::Uuid::new_v4().to_string()
}

/// A fresh name for a spool file: a random identifier and the suffix
/// `.cache`.
pub fn spool_name() -> (name: String)
    ensures
        name@.len() == 42,
        name@.subrange(36, 42) == ".cache"@,
{
    let mut name = fresh_uuid();
    proof {
        reveal_strlit(".cache");
    }
    name.append(".cache");
    assert(name@.subrange(36, 42) =~= ".cache"@);
    name
}

/// The value that a read of a record's file yields: the bytes read, under the
/// recorded content type, provided that their digest is the recorded one.
pub open spec fn verified(record: RecordModel, spooled: Option<Seq<u8>>) -> Option<ValueModel> {
    match spooled {
        Some(data) => if md5_hex(data) == record.hash {
            Some(ValueModel { data, content_type: record.content_type })
        } else {
            None
        },
        None => None,
    }
}

/// Whether a read of a record's file shows the file to be corrupted: there
/// are bytes, and their digest is not the recorded one.
pub open spec fn corrupted(record: RecordModel, spooled: Option<Seq<u8>>) -> bool {
    spooled matches Some(data) && md5_hex(data) != record.hash
}

/// The value that a removed record leaves behind: the bytes of its file, if
/// they could be read, under the content type that the file's name implies.
pub open spec fn salvaged(record: RecordModel, spooled: Option<Seq<u8>>) -> Option<ValueModel> {
    match spooled {
        Some(data) => Some(
            ValueModel {
                data,
                content_type: match guessed_mime(record.path) {
                    Some(mime) => mime,
                    None => octet_stream(),
                },
            },
        ),
        None => None,
    }
}

/// The mathematical value of bytes that may be absent.
pub open spec fn bytes_model(spooled: Option<Vec<u8>>) -> Option<Seq<u8>> {
    match spooled {
        Some(data) => Some(data@),
        None => None,
    }
}

/// The outcome of an operation that looked at a spool file.
#[derive(Debug)]
pub struct Fetched {
    /// The value, if the operation yields one.
    pub value: Option<CacheValue>,
    /// The path of a file that the caller is to delete now.
    pub discard: Option<String>,
}

/// What `get` gives for `key` in a cache with these records when the read of
/// the key's file gave `spooled`.
pub open spec fn retrieved(
    records: CacheModel<RecordModel>,
    key: KeyModel,
    spooled: Option<Seq<u8>>,
) -> Option<ValueModel> {
    match records.get(key) {
        Some(record) => verified(record, spooled),
        None => None,
    }
}

/// The record that `set` keeps for an image spooled at `path`.
pub open spec fn record_of(image: ValueModel, path: Seq<char>) -> RecordModel {
    RecordModel { path, hash: md5_hex(image.data), content_type: image.content_type }
}

/// Round trip through the spool: after an image was stored under a key, a
/// read that gives back the bytes that were written retrieves the image.
pub proof fn lemma_spooled_round_trip(
    records: CacheModel<RecordModel>,
    key: KeyModel,
    image: ValueModel,
    path: Seq<char>,
)
    ensures
        retrieved(records.set(key, record_of(image, path)), key, Some(image.data)) == Some(image),
{
    records.lemma_set_then_get(key, record_of(image, path));
}

/// Every listed key can be retrieved while its file is intact: a read that
/// gives bytes of the recorded digest yields those bytes.
pub proof fn lemma_intact_retrievable(records: CacheModel<RecordModel>, i: int, data: Seq<u8>)
    requires
        records.consistent(),
        0 <= i < records.order.len(),
        md5_hex(data) == records.entries[records.order[i]].hash,
    ensures
        retrieved(records, records.order[i], Some(data)) == Some(
            ValueModel { data, content_type: records.entries[records.order[i]].content_type },
        ),
{
    records.lemma_keys_match_entries();
}

/// A corrupted file is never given out: a read whose bytes have another
/// digest than the recorded one retrieves nothing.
pub proof fn lemma_corrupted_absent(records: CacheModel<RecordModel>, key: KeyModel, data: Seq<u8>)
    requires
        records.get(key) matches Some(record) && md5_hex(data) != record.hash,
    ensures
        retrieved(records, key, Some(data)) is None,
        corrupted(records.get(key)->Some_0, Some(data)),
{
}

/// A cache whose images are spooled to files.
///
/// `get` never trusts a file: the bytes that the caller read are given out
/// only if their digest is the one recorded at insertion. A corrupted read
/// has the file deleted; the key stays listed until somebody removes it,
/// which the sequential selection does when it meets the key.
#[derive(Debug)]
pub struct FileSystemCache {
    ledger: Ledger<FileSystemCacheValue>,
}

impl FileSystemCache {
    /// The cache's internal invariant.
    pub closed spec fn wf(&self) -> bool {
        self.ledger.wf()
    }

    /// The mathematical value of the cache: its keys, and the record kept
    /// for each.
    pub closed spec fn model(&self) -> CacheModel<RecordModel> {
        self.ledger.model().map_values(|record: FileSystemCacheValue| record@)
    }

    /// The key list and the records of a well-formed cache agree: no key is
    /// listed twice, and a record is kept for exactly the listed keys.
    pub proof fn lemma_consistent(&self)
        requires
            self.wf(),
        ensures
            self.model().consistent(),
    {
        self.ledger.lemma_consistent();
    }

    /// A short name for the kind of backend.
    pub fn backend_type(&self) -> (name: &'static str)
        ensures
            name@ == "FileSystem"@,
    {
        "FileSystem"
    }

    /// An empty cache.
    pub fn new() -> (cache: Self)
        ensures
            cache.wf(),
            cache.model() == CacheModel::<RecordModel>::empty(),
    {
        let cache = FileSystemCache { ledger: Ledger::new() };
        proof {
            assert(cache.model() =~= CacheModel::<RecordModel>::empty());
        }
        cache
    }

    /// The record kept for `key`: where its file is, and what it should hold.
    pub fn record(&self, key: &CacheKey) -> (found: Option<&FileSystemCacheValue>)
        requires
            self.wf(),
        ensures
            match found {
                Some(record) => self.model().get(key@) == Some(record@),
                None => self.model().get(key@) is None,
            },
    {
        self.ledger.get(key)
    }

    /// The value stored under `key`, given what a read of the key's spool
    /// file gave (`None` where the file is missing or cannot be read).
    ///
    /// The bytes are given out only under the recorded digest. Where they
    /// have another digest, nothing is returned and the file is to be
    /// deleted. The key stays listed.
    pub fn get(&self, key: CacheKey, spooled: Option<Vec<u8>>) -> (fetched: Fetched)
        requires
            self.wf(),
        ensures
            value_model(fetched.value) == retrieved(self.model(), key@, bytes_model(spooled)),
            text_model(fetched.discard) == match self.model().get(key@) {
                Some(record) => if corrupted(record, bytes_model(spooled)) {
                    Some(record.path)
                } else {
                    None
                },
                None => None,
            },
    {
        match self.ledger.get(&key) {
            Some(record) => match spooled {
                Some(data) => {
                    let hex = digest(&data);
                    if record.hash == hex {
                        Fetched {
                            value: Some(
                                CacheValue { data, content_type: record.content_type.clone() },
                            ),
                            discard: None,
                        }
                    } else {
                        Fetched { value: None, discard: Some(record.path.clone()) }
                    }
                },
                None => Fetched { value: None, discard: None },
            },
            None => Fetched { value: None, discard: None },
        }
    }

    /// One of the keys, chosen at random; none if the cache is empty. The
    /// random selection of an image is `get` on this key.
    pub fn random_key(&self) -> (picked: Option<CacheKey>)
        requires
            self.wf(),
        ensures
            self.model().size() == 0 ==> picked is None,
            self.model().size() > 0 ==> picked is Some,
            picked matches Some(key) ==> self.model().order.contains(key@),
            self.model().size() == 1 ==> (picked matches Some(key) && key@
                == self.model().order[0]),
    {
        match self.ledger.random_key() {
            Some(key) => {
                proof {
                    let i = self.model().order.index_of(key@);
                    assert(self.model().order[i] == key@);
                }
                Some(key.clone())
            },
            None => None,
        }
    }

    /// Records that `image` is stored under `key` in the file at `path`,
    /// which the caller has written. Returns the path of the file that held
    /// the key's former value, which the caller is to delete. A known key
    /// keeps its place in the key list.
    pub fn set(&mut self, key: CacheKey, image: CacheValue, path: String) -> (discard: Option<
        String,
    >)
        requires
            old(self).wf(),
        ensures
            final(self).wf(),
            final(self).model() == old(self).model().set(key@, record_of(image@, path@)),
            text_model(discard) == match old(self).model().get(key@) {
                Some(record) => Some(record.path),
                None => None,
            },
    {
        let ghost before = self.ledger.model();
        let hash = digest(&image.data);
        let record = FileSystemCacheValue { path, hash, content_type: image.content_type };
        let displaced = self.ledger.insert(key, record);
        proof {
            assert(self.model() =~= before.map_values(|record: FileSystemCacheValue| record@).set(
                key@,
                record@,
            ));
        }
        match displaced {
            Some(former) => Some(former.path),
            None => None,
        }
    }

    /// Removes the entry of `key` from the key list and from the records,
    /// given what a read of the key's spool file gave just before (`None`
    /// where the file is missing or cannot be read).
    ///
    /// What was read is returned under the content type that the file's name
    /// implies, and the file is to be deleted.
    pub fn remove(&mut self, key: &CacheKey, spooled: Option<Vec<u8>>) -> (fetched: Fetched)
        requires
            old(self).wf(),
        ensures
            final(self).wf(),
            final(self).model() == old(self).model().remove(key@),
            value_model(fetched.value) == match old(self).model().get(key@) {
                Some(record) => salvaged(record, bytes_model(spooled)),
                None => None,
            },
            text_model(fetched.discard) == match old(self).model().get(key@) {
                Some(record) => if spooled is Some {
                    Some(record.path)
                } else {
                    None
                },
                None => None,
            },
    {
        let ghost before = self.ledger.model();
        let removed = self.ledger.remove(key);
        proof {
            assert(self.model() =~= before.map_values(
                |record: FileSystemCacheValue| record@,
            ).remove(key@));
        }
        match removed {
            Some(record) => match spooled {
                Some(data) => {
                    let content_type = content_type_or_octet_stream(record.path.as_str());
                    Fetched {
                        value: Some(CacheValue { data, content_type }),
                        discard: Some(record.path),
                    }
                },
                None => Fetched { value: None, discard: None },
            },
            None => Fetched { value: None, discard: None },
        }
    }

    /// The number of entries.
    pub fn size(&self) -> (count: usize)
        requires
            self.wf(),
        ensures
            count == self.model().size(),
    {
        self.ledger.len()
    }

    /// Whether the cache holds nothing.
    pub fn is_empty(&self) -> (empty: bool)
        requires
            self.wf(),
        ensures
            empty == (self.model().size() == 0),
    {
        self.size() == 0
    }

    /// The keys in insertion order.
    pub fn keys(&self) -> (listed: &[CacheKey])
        requires
            self.wf(),
        ensures
            key_models(listed@) == self.model().order,
    {
        self.ledger.keys()
    }

    /// Empties the cache: the key list and the records together. The spool
    /// files stay where they are until the spool directory goes.
    pub fn clear(&mut self) -> (cleared: Result<(), String>)
        requires
            old(self).wf(),
        ensures
            cleared is Ok,
            final(self).wf(),
            final(self).model() == old(self).model().clear(),
    {
        self.ledger.clear();
        proof {
            assert(self.model() =~= CacheModel::<RecordModel>::empty());
        }
        Ok(())
    }
}

} // verus!
