use chain_listener::{HashCache, MetadataError};

#[test]
fn the_second_lookup_returns_the_first_outcome_without_computing() {
    let mut cache = HashCache::new();
    let mut calls = 0;
    let first = cache.get_or_insert("System", "Account", || {
        calls += 1;
        Ok([7; 32])
    });
    let second = cache.get_or_insert("System", "Account", || {
        calls += 1;
        Ok([8; 32])
    });
    assert_eq!(calls, 1);
    assert_eq!(first, Ok([7; 32]));
    assert_eq!(second, first);
}

#[test]
fn an_error_is_cached_like_a_hash() {
    let mut cache = HashCache::default();
    let first = cache.get_or_insert("System", "Gone", || Err(MetadataError::StorageNotFound));
    let second = cache.get_or_insert("System", "Gone", || Ok([1; 32]));
    assert_eq!(first, Err(MetadataError::StorageNotFound));
    assert_eq!(second, Err(MetadataError::StorageNotFound));
}

#[test]
fn keys_are_the_pair_of_names() {
    let mut cache = HashCache::new();
    assert_eq!(cache.get("ab", "c"), None);
    assert_eq!(cache.get_or_insert("ab", "c", || Ok([1; 32])), Ok([1; 32]));
    assert_eq!(cache.get_or_insert("a", "bc", || Ok([2; 32])), Ok([2; 32]));
    assert_eq!(cache.get_or_insert("c", "ab", || Ok([3; 32])), Ok([3; 32]));
    assert_eq!(cache.get("ab", "c"), Some(Ok([1; 32])));
    assert_eq!(cache.get("a", "bc"), Some(Ok([2; 32])));
    assert_eq!(cache.get("c", "ab"), Some(Ok([3; 32])));
    assert_eq!(cache.get("ab", ""), None);
}
