use random_image_server::cache::{CacheBackend, CacheKey, CacheValue, InMemoryCache};
use url::Url;

fn path_key(path: &str) -> CacheKey {
    CacheKey::ImagePath(path.to_string())
}

fn jpeg(data: Vec<u8>) -> CacheValue {
    CacheValue {
        data,
        content_type: "image/jpeg".to_string(),
    }
}

#[test]
fn in_memory_cache_test_new_cache() {
    let cache = InMemoryCache::new();
    assert_eq!(cache.size(), 0);
    assert!(cache.is_empty());
    assert!(cache.keys().is_empty());
}

#[test]
fn in_memory_cache_test_set_and_get() {
    let mut cache = InMemoryCache::new();
    let key = path_key("/test/image.jpg");
    let value = jpeg(vec![1, 2, 3, 4]);

    assert!(cache.set(key.clone(), value.clone()).is_ok());
    assert_eq!(cache.size(), 1);
    assert!(!cache.is_empty());
    assert_eq!(cache.get(key.clone()), Some(value));
}

#[test]
fn in_memory_cache_test_get_nonexistent() {
    let cache = InMemoryCache::new();
    let key = path_key("/nonexistent.jpg");
    assert_eq!(cache.get(key), None);
}

#[test]
fn in_memory_cache_test_remove() {
    let mut cache = InMemoryCache::new();
    let key = path_key("/test/image.jpg");
    let value = jpeg(vec![1, 2, 3, 4]);

    cache.set(key.clone(), value.clone()).unwrap();
    assert_eq!(cache.size(), 1);

    let removed = cache.remove(&key);
    assert_eq!(removed, Some(value));
    assert_eq!(cache.size(), 0);
    assert!(cache.is_empty());
}

#[test]
fn test_remove_nonexistent() {
    let mut cache = InMemoryCache::new();
    let key = path_key("/nonexistent.jpg");
    assert_eq!(cache.remove(&key), None);
}

#[test]
fn in_memory_cache_test_get_random_empty_cache() {
    let cache = InMemoryCache::new();
    assert_eq!(cache.get_random(), None);
}

#[test]
fn in_memory_cache_test_get_random_single_item() {
    let mut cache = InMemoryCache::new();
    let key = path_key("/test/image.jpg");
    let value = jpeg(vec![1, 2, 3, 4]);

    cache.set(key, value.clone()).unwrap();
    assert_eq!(cache.get_random(), Some(value));
}

#[test]
fn test_get_random_multiple_items() {
    let mut cache = InMemoryCache::new();
    let key1 = path_key("/test/image1.jpg");
    let key2 = path_key("/test/image2.jpg");
    let value1 = jpeg(vec![1, 2, 3, 4]);
    let value2 = CacheValue {
        data: vec![5, 6, 7, 8],
        content_type: "image/png".to_string(),
    };

    cache.set(key1, value1.clone()).unwrap();
    cache.set(key2, value2.clone()).unwrap();

    // Test that get_random returns one of the values
    let random_value = cache.get_random().unwrap();
    assert!(random_value == value1 || random_value == value2);
}

#[test]
fn in_memory_cache_test_clear() {
    let mut cache = InMemoryCache::new();
    let key = path_key("/test/image.jpg");
    let value = jpeg(vec![1, 2, 3, 4]);

    cache.set(key, value).unwrap();
    assert_eq!(cache.size(), 1);

    assert!(cache.clear().is_ok());
    assert_eq!(cache.size(), 0);
    assert!(cache.is_empty());
}

#[test]
fn in_memory_cache_test_keys() {
    let mut cache = InMemoryCache::new();
    let key1 = path_key("/test/image1.jpg");
    let key2 = CacheKey::ImageUrl(String::from(
        Url::parse("https://example.com/image.jpg").unwrap(),
    ));
    let value = jpeg(vec![1, 2, 3, 4]);

    cache.set(key1.clone(), value.clone()).unwrap();
    cache.set(key2.clone(), value).unwrap();

    let keys = cache.keys();
    assert_eq!(keys.len(), 2);
    assert!(keys.contains(&key1));
    assert!(keys.contains(&key2));
}

#[test]
fn test_set_duplicate_key() {
    let mut cache = InMemoryCache::new();
    let key = path_key("/test/image.jpg");
    let value1 = jpeg(vec![1, 2, 3, 4]);
    let value2 = CacheValue {
        data: vec![5, 6, 7, 8],
        content_type: "image/png".to_string(),
    };

    cache.set(key.clone(), value1).unwrap();
    assert_eq!(cache.size(), 1);

    // Setting with same key should overwrite
    cache.set(key.clone(), value2.clone()).unwrap();
    assert_eq!(cache.size(), 1);
    assert_eq!(cache.get(key), Some(value2));
}

#[test]
fn in_memory_cache_backend_type() {
    assert_eq!(InMemoryCache::new().backend_type(), "InMemory");
    assert_eq!(InMemoryCache::default().size(), 0);
}

#[test]
fn in_memory_cache_keys_are_in_insertion_order() {
    let mut cache = InMemoryCache::new();
    let first = path_key("/b.jpg");
    let second = path_key("/a.jpg");
    let third = CacheKey::ImageUrl("https://example.com/c.png".to_string());
    cache.set(first.clone(), jpeg(vec![1])).unwrap();
    cache.set(second.clone(), jpeg(vec![2])).unwrap();
    cache.set(third.clone(), jpeg(vec![3])).unwrap();
    // overwriting keeps the place and adds no second listing
    cache.set(first.clone(), jpeg(vec![4])).unwrap();
    assert_eq!(
        cache.keys().to_vec(),
        vec![first.clone(), second.clone(), third.clone()]
    );
    assert_eq!(cache.get(first), Some(jpeg(vec![4])));
}

#[test]
fn in_memory_cache_remove_takes_the_key_off_the_list() {
    let mut cache = InMemoryCache::new();
    let first = path_key("/1.jpg");
    let second = path_key("/2.jpg");
    let third = path_key("/3.jpg");
    cache.set(first.clone(), jpeg(vec![1])).unwrap();
    cache.set(second.clone(), jpeg(vec![2])).unwrap();
    cache.set(third.clone(), jpeg(vec![3])).unwrap();

    assert_eq!(cache.remove(&second), Some(jpeg(vec![2])));
    assert_eq!(cache.keys().to_vec(), vec![first.clone(), third.clone()]);
    assert_eq!(cache.size(), 2);
    assert_eq!(cache.get(second.clone()), None);
    assert_eq!(cache.remove(&second), None);
    assert_eq!(cache.get(first), Some(jpeg(vec![1])));
    assert_eq!(cache.get(third), Some(jpeg(vec![3])));
}

#[test]
fn in_memory_cache_keys_and_size_agree_through_a_history() {
    let mut cache = InMemoryCache::new();
    let keys: Vec<CacheKey> = (0..8).map(|i| path_key(&format!("/img/{i}.jpg"))).collect();
    for (i, key) in keys.iter().enumerate() {
        cache.set(key.clone(), jpeg(vec![i as u8])).unwrap();
        assert_eq!(cache.keys().len(), cache.size());
    }
    for key in keys.iter().step_by(2) {
        cache.remove(key);
        assert_eq!(cache.keys().len(), cache.size());
    }
    cache.set(keys[1].clone(), jpeg(vec![100])).unwrap();
    cache.set(keys[0].clone(), jpeg(vec![101])).unwrap();
    assert_eq!(cache.size(), 5);
    assert_eq!(cache.keys().len(), 5);
    for key in cache.keys().to_vec() {
        assert!(cache.get(key).is_some());
    }
}

#[test]
fn in_memory_cache_clear_twice() {
    let mut cache = InMemoryCache::new();
    cache.set(path_key("/1.jpg"), jpeg(vec![1])).unwrap();
    cache.set(path_key("/2.jpg"), jpeg(vec![2])).unwrap();
    assert!(cache.clear().is_ok());
    assert_eq!(cache.size(), 0);
    assert!(cache.keys().is_empty());
    assert!(cache.clear().is_ok());
    assert_eq!(cache.size(), 0);
    assert!(cache.keys().is_empty());
    assert_eq!(cache.get(path_key("/1.jpg")), None);
    assert_eq!(cache.get_random(), None);
}

#[test]
fn in_memory_cache_url_and_path_keys_differ() {
    let mut cache = InMemoryCache::new();
    let as_path = CacheKey::ImagePath("same".to_string());
    let as_url = CacheKey::ImageUrl("same".to_string());
    assert_ne!(as_path, as_url);
    cache.set(as_path.clone(), jpeg(vec![1])).unwrap();
    cache.set(as_url.clone(), jpeg(vec![2])).unwrap();
    assert_eq!(cache.size(), 2);
    assert_eq!(cache.get(as_path), Some(jpeg(vec![1])));
    assert_eq!(cache.get(as_url), Some(jpeg(vec![2])));
}

#[test]
fn in_memory_cache_random_key_is_a_listed_key() {
    let mut cache = InMemoryCache::new();
    assert_eq!(cache.random_key(), None);
    let keys: Vec<CacheKey> = (0..4).map(|i| path_key(&format!("/img/{i}.jpg"))).collect();
    for key in &keys {
        cache.set(key.clone(), jpeg(vec![0])).unwrap();
    }
    for _ in 0..50 {
        let picked = cache.random_key().unwrap();
        assert!(keys.contains(&picked));
    }
}
