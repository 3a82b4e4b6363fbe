use mango::ordered_map::OrderedMap;

fn numbered(names: &[(&str, u64)]) -> OrderedMap<String, u64> {
    let mut map = OrderedMap::new();
    for (name, number) in names {
        map.insert((*name).to_string(), *number);
    }
    map
}

fn listed(map: &OrderedMap<String, u64>) -> Vec<(String, u64)> {
    (0..map.len())
        .map(|index| (map.key_at(index).clone(), *map.value_at(index)))
        .collect()
}

#[test]
fn entries_are_kept_in_key_order() {
    let map = numbered(&[("pear", 3), ("", 0), ("apple", 1), ("pea", 2)]);
    assert_eq!(
        listed(&map),
        vec![
            (String::new(), 0),
            ("apple".to_string(), 1),
            ("pea".to_string(), 2),
            ("pear".to_string(), 3),
        ]
    );
}

#[test]
fn texts_are_ordered_as_the_standard_library_orders_them() {
    let mut names = vec!["z", "Z", "é", "e", "ée", "\u{1f600}", "\u{ffff}", "0"];
    let map = numbered(&names.iter().map(|name| (*name, 1)).collect::<Vec<_>>());
    names.sort();
    let keys: Vec<String> = listed(&map).into_iter().map(|entry| entry.0).collect();
    assert_eq!(keys, names);
}

#[test]
fn an_inserted_entry_is_read_back() {
    let mut map = numbered(&[("a", 1), ("b", 2)]);
    map.insert("b".to_string(), 5);
    assert_eq!(map.get(&"b".to_string()), Some(&5));
    assert_eq!(map.get(&"a".to_string()), Some(&1));
    assert_eq!(map.get(&"c".to_string()), None);
    assert_eq!(map.len(), 2);
}

#[test]
fn a_removed_entry_is_forgotten() {
    let mut map = numbered(&[("a", 1), ("b", 2), ("c", 3)]);
    assert_eq!(map.remove(&"b".to_string()), Some(2));
    assert_eq!(map.remove(&"b".to_string()), None);
    assert!(!map.contains_key(&"b".to_string()));
    assert!(map.contains_key(&"c".to_string()));
    assert_eq!(
        listed(&map),
        vec![("a".to_string(), 1), ("c".to_string(), 3)]
    );
    map.clear();
    assert_eq!(map.len(), 0);
}

#[test]
fn a_copy_holds_the_same_entries() {
    let mut map = numbered(&[("b", 2), ("a", 1)]);
    let copy = map.clone();
    map.remove(&"a".to_string());
    assert_eq!(
        listed(&copy),
        vec![("a".to_string(), 1), ("b".to_string(), 2)]
    );
}

#[test]
fn numbers_are_ordered_by_size() {
    let mut map: OrderedMap<u64, String> = OrderedMap::new();
    map.insert(10, "ten".to_string());
    map.insert(9, "nine".to_string());
    map.insert(u64::MAX, "last".to_string());
    assert_eq!(*map.key_at(0), 9);
    assert_eq!(*map.key_at(1), 10);
    assert_eq!(map.value_at(2), "last");
}
