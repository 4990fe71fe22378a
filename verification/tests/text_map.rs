use mqtt2influx_core::text_map::TextMap;

#[test]
fn a_new_map_is_empty() {
    let map: TextMap<u32> = TextMap::new();
    assert!(map.is_empty());
    assert_eq!(map.len(), 0);
    assert_eq!(map.get("a"), None);
}

#[test]
fn a_key_keeps_its_place_and_takes_the_new_value() {
    let mut map: TextMap<u32> = TextMap::new();
    map.insert("a".to_string(), 1);
    map.insert("b".to_string(), 2);
    map.insert("a".to_string(), 3);
    assert!(!map.is_empty());
    assert_eq!(map.len(), 2);
    assert_eq!(map.get("a"), Some(&3));
    assert_eq!(map.get("b"), Some(&2));
    assert_eq!(map.get("c"), None);
    assert_eq!(map.key_at(0), "a");
    assert_eq!(map.value_at(0), &3);
    assert_eq!(map.key_at(1), "b");
    assert_eq!(map.value_at(1), &2);
}

#[test]
fn a_copy_holds_the_same_entries() {
    let mut map: TextMap<String> = TextMap::new();
    map.insert("db".to_string(), "test".to_string());
    map.insert("u".to_string(), "admin".to_string());
    let mut copy = map.clone();
    assert_eq!(copy.len(), 2);
    assert_eq!(copy.get("db").unwrap(), "test");
    assert_eq!(copy.get("u").unwrap(), "admin");
    copy.insert("p".to_string(), "secret".to_string());
    assert_eq!(copy.len(), 3);
    assert_eq!(map.len(), 2);
    assert_eq!(map.get("p"), None);
}
