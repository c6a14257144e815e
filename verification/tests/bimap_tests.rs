use pedidos_rust::bimap::BiMap;

fn s(x: &str) -> String {
    x.to_string()
}

#[test]
fn insert_binds_both_ways() {
    let mut m = BiMap::new();
    m.insert(1, s("carlos"));
    assert_eq!(m.get_by_key(&1), Some(&s("carlos")));
    assert_eq!(m.get_by_value(&s("carlos")), Some(&1));
    assert!(m.contains_key(&1));
    assert!(m.contains_value(&s("carlos")));
    assert!(!m.contains_key(&2));
    assert!(!m.contains_value(&s("dora")));
}

#[test]
fn insert_replaces_old_value_of_key() {
    let mut m = BiMap::new();
    m.insert(1, s("a"));
    m.insert(1, s("b"));
    assert_eq!(m.get_by_key(&1), Some(&s("b")));
    assert_eq!(m.get_by_value(&s("a")), None);
    assert!(!m.contains_value(&s("a")));
    assert_eq!(m.keys().len(), 1);
}

#[test]
fn insert_replaces_old_key_of_value() {
    let mut m = BiMap::new();
    m.insert(1, s("a"));
    m.insert(2, s("a"));
    assert_eq!(m.get_by_value(&s("a")), Some(&2));
    assert_eq!(m.get_by_key(&1), None);
    assert!(!m.contains_key(&1));
}

#[test]
fn insert_pair_clashing_on_both_sides() {
    let mut m = BiMap::new();
    m.insert(1, s("a"));
    m.insert(2, s("b"));
    m.insert(1, s("b"));
    assert_eq!(m.get_by_key(&1), Some(&s("b")));
    assert_eq!(m.get_by_key(&2), None);
    assert_eq!(m.get_by_value(&s("a")), None);
    assert_eq!(m.keys(), vec![1]);
}

#[test]
fn remove_by_key_returns_the_key_and_frees_the_value() {
    let mut m = BiMap::new();
    m.insert(5, s("x"));
    assert_eq!(m.remove_by_key(&5), Some(5));
    assert!(!m.contains_key(&5));
    assert!(!m.contains_value(&s("x")));
    assert_eq!(m.remove_by_key(&5), None);
}

#[test]
fn remove_by_value_frees_the_key() {
    let mut m = BiMap::new();
    m.insert(5, s("x"));
    m.insert(6, s("y"));
    m.remove_by_value(&s("x"));
    assert!(!m.contains_key(&5));
    assert!(m.contains_key(&6));
    m.remove_by_value(&s("absent"));
    assert_eq!(m.keys(), vec![6]);
}

#[test]
fn remove_undoes_fresh_insert() {
    let mut m = BiMap::new();
    m.insert(1, s("a"));
    m.insert(2, s("b"));
    m.remove_by_key(&2);
    let mut keys = m.keys();
    keys.sort();
    assert_eq!(keys, vec![1]);
    assert_eq!(m.get_by_key(&1), Some(&s("a")));
}

#[test]
fn keys_values_and_entries_list_every_binding_once() {
    let mut m = BiMap::default();
    for (k, v) in [(3u64, "c"), (1, "a"), (2, "b")] {
        m.insert(k, s(v));
    }
    let mut keys = m.keys();
    keys.sort();
    assert_eq!(keys, vec![1, 2, 3]);
    let mut values = m.values();
    values.sort();
    assert_eq!(values, vec![s("a"), s("b"), s("c")]);
    let mut entries = m.entries();
    entries.sort();
    assert_eq!(entries, vec![(1, s("a")), (2, s("b")), (3, s("c"))]);
}

#[test]
fn rebuilding_from_entries_gives_the_same_map() {
    let mut m = BiMap::new();
    for (k, v) in [(10u64, "p"), (20, "q"), (30, "r")] {
        m.insert(k, s(v));
    }
    let copy = BiMap::from_entries(m.entries());
    let mut a = m.entries();
    let mut b = copy.entries();
    a.sort();
    b.sort();
    assert_eq!(a, b);
}

#[test]
fn from_entries_applies_inserts_in_order() {
    let m = BiMap::from_entries(vec![(1, s("a")), (2, s("a")), (1, s("b"))]);
    let mut entries = m.entries();
    entries.sort();
    assert_eq!(entries, vec![(1, s("b")), (2, s("a"))]);
}

#[test]
fn empty_map_has_nothing() {
    let m = BiMap::new();
    assert!(m.keys().is_empty());
    assert!(m.values().is_empty());
    assert_eq!(m.get_by_key(&0), None);
}

#[test]
fn lookups_by_key_and_by_value_invert_each_other() {
    let mut m = BiMap::new();
    m.insert(1, s("ana"));
    m.insert(2, s("beto"));
    m.insert(3, s("ana"));
    m.remove_by_value(&s("beto"));
    m.insert(4, s("caro"));
    for k in [1u64, 2, 3, 4, 5] {
        if let Some(v) = m.get_by_key(&k) {
            assert_eq!(m.get_by_value(v), Some(&k));
        }
    }
    for v in [s("ana"), s("beto"), s("caro"), s("dani")] {
        if let Some(k) = m.get_by_value(&v) {
            assert_eq!(m.get_by_key(k), Some(&v));
        }
    }
    assert_eq!(m.get_by_key(&1), None);
    assert_eq!(m.get_by_value(&s("ana")), Some(&3));
    assert_eq!(m.get_by_key(&2), None);
    assert_eq!(m.get_by_value(&s("beto")), None);
}
