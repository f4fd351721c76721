use std::collections::HashMap;

use random_image_server::cache::spool::spool_name;
use random_image_server::cache::{CacheKey, CacheValue, FileSystemCache};
use url::Url;

/// The spool directory of these tests: files by path, held in memory. The
/// functions below do with it what a caller of the cache does with the disk.
struct Disk {
    files: HashMap<String, Vec<u8>>,
}

impl Disk {
    fn new() -> Self {
        Disk {
            files: HashMap::new(),
        }
    }

    fn read(&self, path: &str) -> Option<Vec<u8>> {
        self.files.get(path).cloned()
    }

    fn holds(&self, path: &str) -> bool {
        self.files.contains_key(path)
    }
}

fn set(cache: &mut FileSystemCache, disk: &mut Disk, key: CacheKey, image: CacheValue) {
    let path = format!("/spool/{}", spool_name());
    disk.files.insert(path.clone(), image.data.clone());
    if let Some(old) = cache.set(key, image, path) {
        disk.files.remove(&old);
    }
}

fn get(cache: &FileSystemCache, disk: &mut Disk, key: CacheKey) -> Option<CacheValue> {
    let spooled = match cache.record(&key) {
        Some(record) => disk.read(&record.path),
        None => None,
    };
    let fetched = cache.get(key, spooled);
    if let Some(path) = fetched.discard {
        disk.files.remove(&path);
    }
    fetched.value
}

fn get_random(cache: &FileSystemCache, disk: &mut Disk) -> Option<CacheValue> {
    match cache.random_key() {
        Some(key) => get(cache, disk, key),
        None => None,
    }
}

fn remove(cache: &mut FileSystemCache, disk: &mut Disk, key: &CacheKey) -> Option<CacheValue> {
    let spooled = match cache.record(key) {
        Some(record) => disk.read(&record.path),
        None => None,
    };
    let fetched = cache.remove(key, spooled);
    if let Some(path) = fetched.discard {
        disk.files.remove(&path);
    }
    fetched.value
}

fn path_key(path: &str) -> CacheKey {
    CacheKey::ImagePath(path.to_string())
}

fn jpeg(data: Vec<u8>) -> CacheValue {
    CacheValue {
        data,
        content_type: "image/jpeg".to_string(),
    }
}

#[test]
fn filesystem_cache_test_new_cache() {
    let cache = FileSystemCache::new();
    assert_eq!(cache.size(), 0);
    assert!(cache.is_empty());
    assert!(cache.keys().is_empty());
}

#[test]
fn filesystem_cache_test_set_and_get() {
    let mut cache = FileSystemCache::new();
    let mut disk = Disk::new();
    let key = path_key("/test/image.jpg");
    let value = jpeg(vec![1, 2, 3, 4]);

    set(&mut cache, &mut disk, key.clone(), value.clone());
    assert_eq!(cache.size(), 1);
    assert!(!cache.is_empty());
    assert_eq!(get(&cache, &mut disk, key.clone()), Some(value));
}

#[test]
fn filesystem_cache_test_get_nonexistent() {
    let cache = FileSystemCache::new();
    let mut disk = Disk::new();
    let key = path_key("/nonexistent.jpg");
    assert_eq!(get(&cache, &mut disk, key), None);
}

#[test]
fn filesystem_cache_test_remove() {
    let mut cache = FileSystemCache::new();
    let mut disk = Disk::new();
    let key = path_key("/test/image.jpg");
    let value = jpeg(vec![1, 2, 3, 4]);

    set(&mut cache, &mut disk, key.clone(), value.clone());
    assert_eq!(cache.size(), 1);

    let _removed = remove(&mut cache, &mut disk, &key);
    assert_eq!(cache.size(), 0);
}

#[test]
fn filesystem_cache_test_get_random_empty_cache() {
    let cache = FileSystemCache::new();
    let mut disk = Disk::new();
    assert_eq!(get_random(&cache, &mut disk), None);
}

#[test]
fn filesystem_cache_test_get_random_single_item() {
    let mut cache = FileSystemCache::new();
    let mut disk = Disk::new();
    let key = path_key("/test/image.jpg");
    let value = jpeg(vec![1, 2, 3, 4]);

    set(&mut cache, &mut disk, key, value.clone());
    assert_eq!(get_random(&cache, &mut disk), Some(value));
}

#[test]
fn filesystem_cache_test_clear() {
    let mut cache = FileSystemCache::new();
    let mut disk = Disk::new();
    let key = path_key("/test/image.jpg");
    let value = jpeg(vec![1, 2, 3, 4]);

    set(&mut cache, &mut disk, key, value);
    assert_eq!(cache.size(), 1);

    assert!(cache.clear().is_ok());
    assert_eq!(cache.size(), 0);
    assert!(cache.is_empty());
}

#[test]
fn filesystem_cache_test_keys() {
    let mut cache = FileSystemCache::new();
    let mut disk = Disk::new();
    let key1 = path_key("/test/image1.jpg");
    let key2 = CacheKey::ImageUrl(String::from(
        Url::parse("https://example.com/image.jpg").unwrap(),
    ));
    let value = jpeg(vec![1, 2, 3, 4]);

    set(&mut cache, &mut disk, key1.clone(), value.clone());
    set(&mut cache, &mut disk, key2.clone(), value);

    let keys = cache.keys();
    assert_eq!(keys.len(), 2);
    assert!(keys.contains(&key1));
    assert!(keys.contains(&key2));
}

// ensure that if a file is modified after being cached, it will be invalidated
#[test]
fn test_hash_validation() {
    let mut cache = FileSystemCache::new();
    let mut disk = Disk::new();
    let key = path_key("/test/image.jpg");
    let value = jpeg(vec![1, 2, 3, 4]);

    set(&mut cache, &mut disk, key.clone(), value.clone());

    // Corrupt the file to test hash validation
    let path = cache.record(&key).unwrap().path.clone();
    disk.files.insert(path.clone(), vec![9, 9, 9, 9]);
    // Get should return None due to hash mismatch
    assert_eq!(get(&cache, &mut disk, key), None);
    // and the cache file should be deleted
    assert!(!disk.holds(&path));
}

#[test]
fn filesystem_cache_records_path_digest_and_content_type() {
    let mut cache = FileSystemCache::new();
    let key = path_key("/test/image.jpg");

    let discard = cache.set(key.clone(), jpeg(vec![1, 2, 3, 4]), "/spool/a.cache".to_string());
    assert_eq!(discard, None);

    let record = cache.record(&key).unwrap();
    assert_eq!(record.path, "/spool/a.cache");
    assert_eq!(record.hash, "08d6c05a21512a79a1dfeb9d2a8f262f");
    assert_eq!(record.content_type, "image/jpeg");
}

#[test]
fn filesystem_cache_digest_of_no_bytes() {
    let mut cache = FileSystemCache::new();
    let key = path_key("/test/empty.png");
    let image = CacheValue {
        data: vec![],
        content_type: "image/png".to_string(),
    };
    cache.set(key.clone(), image, "/spool/e.cache".to_string());
    assert_eq!(
        cache.record(&key).unwrap().hash,
        "d41d8cd98f00b204e9800998ecf8427e"
    );
}

#[test]
fn filesystem_cache_overwrite_discards_the_old_file_and_keeps_the_place() {
    let mut cache = FileSystemCache::new();
    let first = path_key("/test/first.jpg");
    let second = path_key("/test/second.jpg");

    assert_eq!(
        cache.set(first.clone(), jpeg(vec![1]), "/spool/1.cache".to_string()),
        None
    );
    assert_eq!(
        cache.set(second.clone(), jpeg(vec![2]), "/spool/2.cache".to_string()),
        None
    );
    assert_eq!(
        cache.set(first.clone(), jpeg(vec![3]), "/spool/3.cache".to_string()),
        Some("/spool/1.cache".to_string())
    );

    assert_eq!(cache.size(), 2);
    assert_eq!(cache.keys().to_vec(), vec![first.clone(), second]);
    assert_eq!(cache.record(&first).unwrap().path, "/spool/3.cache");
}

#[test]
fn filesystem_cache_get_of_an_intact_file() {
    let mut cache = FileSystemCache::new();
    let key = path_key("/test/image.jpg");
    cache.set(key.clone(), jpeg(vec![1, 2, 3, 4]), "/spool/a.cache".to_string());

    let fetched = cache.get(key, Some(vec![1, 2, 3, 4]));
    assert_eq!(fetched.value, Some(jpeg(vec![1, 2, 3, 4])));
    assert_eq!(fetched.discard, None);
}

#[test]
fn filesystem_cache_get_of_a_corrupted_file() {
    let mut cache = FileSystemCache::new();
    let key = path_key("/test/image.jpg");
    cache.set(key.clone(), jpeg(vec![1, 2, 3, 4]), "/spool/a.cache".to_string());

    let fetched = cache.get(key.clone(), Some(vec![9, 9, 9, 9]));
    assert_eq!(fetched.value, None);
    assert_eq!(fetched.discard, Some("/spool/a.cache".to_string()));
    // the key stays listed
    assert_eq!(cache.size(), 1);
    assert!(cache.keys().contains(&key));
}

#[test]
fn filesystem_cache_get_of_a_missing_file() {
    let mut cache = FileSystemCache::new();
    let key = path_key("/test/image.jpg");
    cache.set(key.clone(), jpeg(vec![1, 2, 3, 4]), "/spool/a.cache".to_string());

    let fetched = cache.get(key, None);
    assert_eq!(fetched.value, None);
    assert_eq!(fetched.discard, None);
}

#[test]
fn filesystem_cache_get_of_an_unknown_key_discards_nothing() {
    let cache = FileSystemCache::new();
    let fetched = cache.get(path_key("/unknown.jpg"), Some(vec![1, 2, 3]));
    assert_eq!(fetched.value, None);
    assert_eq!(fetched.discard, None);
}

#[test]
fn filesystem_cache_remove_returns_what_was_read() {
    let mut cache = FileSystemCache::new();
    let mut disk = Disk::new();
    let key = path_key("/test/image.jpg");
    set(&mut cache, &mut disk, key.clone(), jpeg(vec![1, 2, 3, 4]));
    let path = cache.record(&key).unwrap().path.clone();

    let removed = remove(&mut cache, &mut disk, &key).unwrap();
    assert_eq!(removed.data, vec![1, 2, 3, 4]);
    // the name of a spool file implies no content type
    assert_eq!(removed.content_type, "application/octet-stream");
    assert!(!disk.holds(&path));
    assert!(cache.keys().is_empty());
    assert!(cache.record(&key).is_none());
}

#[test]
fn filesystem_cache_remove_takes_the_content_type_from_the_file_name() {
    let mut cache = FileSystemCache::new();
    let key = path_key("/test/image.jpg");
    let image = CacheValue {
        data: vec![1, 2],
        content_type: "image/jpeg".to_string(),
    };
    cache.set(key.clone(), image, "/spool/copy.png".to_string());

    let fetched = cache.remove(&key, Some(vec![1, 2]));
    assert_eq!(
        fetched.value,
        Some(CacheValue {
            data: vec![1, 2],
            content_type: "image/png".to_string(),
        })
    );
    assert_eq!(fetched.discard, Some("/spool/copy.png".to_string()));
}

#[test]
fn filesystem_cache_remove_without_a_file() {
    let mut cache = FileSystemCache::new();
    let key = path_key("/test/image.jpg");
    cache.set(key.clone(), jpeg(vec![1, 2, 3, 4]), "/spool/a.cache".to_string());

    let fetched = cache.remove(&key, None);
    assert_eq!(fetched.value, None);
    assert_eq!(fetched.discard, None);
    assert_eq!(cache.size(), 0);
}

#[test]
fn filesystem_cache_remove_of_an_unknown_key() {
    let mut cache = FileSystemCache::new();
    let key = path_key("/test/image.jpg");
    cache.set(key.clone(), jpeg(vec![1]), "/spool/a.cache".to_string());

    let fetched = cache.remove(&path_key("/other.jpg"), Some(vec![1]));
    assert_eq!(fetched.value, None);
    assert_eq!(fetched.discard, None);
    assert_eq!(cache.size(), 1);
}

#[test]
fn filesystem_cache_clear_twice() {
    let mut cache = FileSystemCache::new();
    cache.set(path_key("/a.jpg"), jpeg(vec![1]), "/spool/a.cache".to_string());
    cache.set(path_key("/b.jpg"), jpeg(vec![2]), "/spool/b.cache".to_string());

    assert!(cache.clear().is_ok());
    assert_eq!(cache.size(), 0);
    assert!(cache.keys().is_empty());
    assert!(cache.clear().is_ok());
    assert_eq!(cache.size(), 0);
    assert!(cache.keys().is_empty());
}

#[test]
fn filesystem_cache_backend_type() {
    assert_eq!(FileSystemCache::new().backend_type(), "FileSystem");
}

#[test]
fn spool_names_are_fresh_and_end_in_cache() {
    let first = spool_name();
    let second = spool_name();
    assert_eq!(first.len(), 42);
    assert!(first.ends_with(".cache"));
    assert!(second.ends_with(".cache"));
    assert_ne!(first, second);
    let stem = &first[..36];
    assert!(stem
        .chars()
        .all(|c| c == '-' || c.is_ascii_digit() || ('a'..='f').contains(&c)));
}

#[test]
fn filesystem_cache_keys_and_size_agree_through_a_history() {
    let mut cache = FileSystemCache::new();
    let mut disk = Disk::new();
    let keys: Vec<CacheKey> = (0..6).map(|i| path_key(&format!("/img/{i}.png"))).collect();
    for (i, key) in keys.iter().enumerate() {
        set(&mut cache, &mut disk, key.clone(), jpeg(vec![i as u8]));
        assert_eq!(cache.keys().len(), cache.size());
    }
    set(&mut cache, &mut disk, keys[2].clone(), jpeg(vec![42]));
    assert_eq!(cache.size(), 6);
    remove(&mut cache, &mut disk, &keys[0]);
    remove(&mut cache, &mut disk, &keys[4]);
    remove(&mut cache, &mut disk, &keys[4]);
    assert_eq!(cache.size(), 4);
    assert_eq!(cache.keys().len(), 4);
    assert_eq!(
        cache.keys().to_vec(),
        vec![
            keys[1].clone(),
            keys[2].clone(),
            keys[3].clone(),
            keys[5].clone()
        ]
    );
    for key in cache.keys().to_vec() {
        assert!(get(&cache, &mut disk, key).is_some());
    }
    assert_eq!(
        get(&cache, &mut disk, keys[2].clone()),
        Some(jpeg(vec![42]))
    );
}
