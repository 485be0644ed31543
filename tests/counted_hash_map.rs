use counted_collections::{CountedHashMap, OperationStats};

#[test]
fn test_counted_hashmap_insert() {
    let mut map = CountedHashMap::new();
    map.insert("key1", 100);
    map.insert("key2", 200);
    map.insert("key3", 300);

    assert_eq!(map.len(), 3);
    assert_eq!(map.stats().insert_count, 3);
    assert_eq!(map.stats().get_count, 0);
    assert_eq!(map.stats().delete_count, 0);
}

#[test]
fn test_counted_hashmap_get() {
    let mut map = CountedHashMap::new();
    map.insert("foo", 42);
    map.insert("bar", 84);

    assert_eq!(map.get(&"foo"), Some(&42));
    assert_eq!(map.get(&"bar"), Some(&84));
    assert_eq!(map.get(&"baz"), None);

    assert_eq!(map.stats().insert_count, 2);
    assert_eq!(map.stats().get_count, 3);
    assert_eq!(map.stats().delete_count, 0);
}

#[test]
fn test_counted_hashmap_delete() {
    let mut map = CountedHashMap::new();
    map.insert("a", 1);
    map.insert("b", 2);

    assert_eq!(map.delete(&"a"), Some(1));
    assert_eq!(map.len(), 1);
    assert_eq!(map.delete(&"c"), None);

    assert_eq!(map.stats().insert_count, 2);
    assert_eq!(map.stats().get_count, 0);
    assert_eq!(map.stats().delete_count, 2);
}

#[test]
fn test_counted_hashmap_reset_stats() {
    let mut map = CountedHashMap::new();
    map.insert("x", 1);
    map.get(&"x");
    map.delete(&"x");

    assert_eq!(map.stats().insert_count, 1);
    assert_eq!(map.stats().get_count, 1);
    assert_eq!(map.stats().delete_count, 1);

    map.reset_stats();

    assert_eq!(map.stats().insert_count, 0);
    assert_eq!(map.stats().get_count, 0);
    assert_eq!(map.stats().delete_count, 0);
}

#[test]
fn test_counted_hashmap_insert_overwrites() {
    let mut map = CountedHashMap::new();
    assert_eq!(map.insert("key", 1), None);
    assert_eq!(map.insert("key", 2), Some(1));

    assert_eq!(map.stats().insert_count, 2);
    assert_eq!(map.len(), 1);
}

#[test]
fn map_fruit_scenario() {
    let mut map = CountedHashMap::new();
    map.insert("apple", 1);
    map.insert("banana", 2);
    map.insert("cherry", 3);
    assert_eq!(map.len(), 3);
    assert_eq!(map.stats().insert_count, 3);

    assert_eq!(map.get(&"apple"), Some(&1));
    assert_eq!(map.get(&"banana"), Some(&2));
    assert_eq!(map.get(&"unknown"), None);
    assert_eq!(map.stats().get_count, 3);

    assert_eq!(map.delete(&"banana"), Some(2));
    assert_eq!(map.len(), 2);
    assert_eq!(map.stats().delete_count, 1);
}

#[test]
fn map_misses_are_counted() {
    let mut map: CountedHashMap<u32, u32> = CountedHashMap::with_capacity(4);
    assert_eq!(map.get(&5), None);
    assert_eq!(map.delete(&5), None);
    assert_eq!(map.stats().get_count, 1);
    assert_eq!(map.stats().delete_count, 1);
    assert!(map.is_empty());
}

#[test]
fn map_distinct_inserts_set_len_and_count() {
    let mut map = CountedHashMap::new();
    for k in 0u32..6 {
        assert_eq!(map.insert(k, k * 10), None);
    }
    assert_eq!(map.len(), 6);
    assert_eq!(map.stats().insert_count, 6);
    assert_eq!(map.insert(2, 99), Some(20));
    assert_eq!(map.len(), 6);
    assert_eq!(map.stats().insert_count, 7);
}

#[test]
fn map_reset_keeps_entries() {
    let mut map = CountedHashMap::default();
    map.insert(1u8, 'x');
    map.get(&1);
    map.delete(&3);
    map.reset_stats();
    assert_eq!(*map.stats(), OperationStats::new());
    assert_eq!(map.len(), 1);
    let first = *map.stats();
    assert_eq!(*map.stats(), first);
}

#[test]
fn map_unwrap_then_replay_gives_equal_container() {
    let mut first = CountedHashMap::new();
    first.insert("k", 1);
    first.insert("j", 2);
    first.reset_stats();
    first.delete(&"k");
    first.get(&"j");
    let (entries, stats) = first.into_inner();
    assert_eq!(stats.get_count, 1);

    let mut again = CountedHashMap::new();
    again.insert("k", 1);
    again.insert("j", 2);
    again.delete(&"k");
    again.get(&"j");
    assert_eq!(again.inner(), &entries);
    assert_eq!(entries.len(), 1);
    assert_eq!(entries.get("j"), Some(&2));
}

#[test]
fn map_direct_access_is_not_counted() {
    let mut map = CountedHashMap::new();
    map.inner_mut().insert(3u16, 4u16);
    assert_eq!(map.len(), 1);
    assert!(!map.is_empty());
    assert_eq!(*map.stats(), OperationStats::default());
}
